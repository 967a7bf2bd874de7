use cloud_sync::aws_manager::ObjectInfo;
use cloud_sync::cloud_sync::{
    backup_needed, check_download_size, check_part_length, find_object, needs_transfer, pass_step,
    reconcile_action, stored_needs_transfer, transfer_method, PassAction, ReconcileAction,
    StoredObject, TransferMethod,
};
use cloud_sync::onedrive_manager::ItemInfo;

fn item(name: &str, size: u64, mtime: i64, file: bool) -> ItemInfo {
    ItemInfo {
        filename: name.to_string(),
        item_id: format!("id-{}", name),
        size,
        mtime,
        content_type: None,
        file,
    }
}

#[test]
fn same_size_without_recorded_time_needs_no_transfer() {
    assert!(!backup_needed(100, Some(100), 500, None));
}

#[test]
fn recorded_time_differs_needs_transfer_whatever_size() {
    assert!(backup_needed(100, Some(100), 500, Some(400)));
    assert!(backup_needed(100, Some(7), 500, Some(400)));
}

#[test]
fn recorded_time_equal_needs_no_transfer_even_if_sizes_differ() {
    assert!(!backup_needed(100, Some(3), 500, Some(500)));
}

#[test]
fn size_fallback_sends_changed_or_unknown_size() {
    assert!(backup_needed(100, Some(99), 500, None));
    assert!(backup_needed(100, None, 500, None));
}

#[test]
fn empty_source_never_sent_by_size_fallback() {
    assert!(!backup_needed(0, None, 500, None));
    assert!(!backup_needed(0, Some(12), 500, None));
    assert!(backup_needed(0, Some(0), 500, Some(1)));
}

#[test]
fn missing_destination_always_needs_transfer() {
    assert!(needs_transfer(&item("a", 0, 1, true), None));
    let info = ObjectInfo { mtime: Some(1), size: Some(0) };
    assert!(!needs_transfer(&item("a", 0, 1, true), Some(&info)));
}

#[test]
fn reconcile_skips_folders_adds_new_and_compares_known() {
    let objects = vec![
        StoredObject { filename: "b".to_string(), size: Some(3) },
        StoredObject { filename: "a".to_string(), size: Some(1) },
        StoredObject { filename: "a".to_string(), size: Some(2) },
    ];
    assert_eq!(reconcile_action(&item("dir", 0, 1, false), &objects), ReconcileAction::Skip);
    assert_eq!(reconcile_action(&item("c", 5, 1, true), &objects), ReconcileAction::Add);
    assert_eq!(reconcile_action(&item("a", 5, 1, true), &objects), ReconcileAction::Compare(1));
    assert_eq!(find_object(&objects, &"b".to_string()), Some(0));
    assert_eq!(find_object(&objects, &"z".to_string()), None);
}

#[test]
fn small_files_go_whole_large_in_parts() {
    assert_eq!(transfer_method(1), TransferMethod::SingleShot);
    assert_eq!(transfer_method(10 * 1024 * 1024), TransferMethod::SingleShot);
    assert_eq!(transfer_method(10 * 1024 * 1024 + 1), TransferMethod::Multipart);
}

#[test]
fn download_size_must_match() {
    assert!(check_download_size(5, 5).is_ok());
    let e = check_download_size(4, 5).unwrap_err();
    assert_eq!(e.to_string(), "CloudSyncError::OneDrive: download size mismatch");
}

#[test]
fn part_length_must_match_its_range() {
    assert!(check_part_length(10, 0, 9).is_ok());
    let e = check_part_length(9, 0, 9).unwrap_err();
    assert_eq!(e.to_string(), "CloudSyncError::OneDrive: part size mismatch");
    assert!(check_part_length(11, 0, 9).is_err());
    assert!(check_part_length(1, 5, 5).is_ok());
}

#[test]
fn stored_file_compared_by_listing_size_and_recorded_time() {
    let listed = StoredObject { filename: "a".to_string(), size: Some(100) };
    assert!(!stored_needs_transfer(&item("a", 100, 500, true), &listed, None));
    assert!(stored_needs_transfer(&item("a", 100, 500, true), &listed, Some(400)));
    assert!(stored_needs_transfer(&item("a", 101, 500, true), &listed, None));
}

#[test]
fn pass_skips_listing_without_changes_and_saves_cursor_last() {
    assert_eq!(pass_step(0, false, 0), PassAction::SaveCursor);
    assert_eq!(pass_step(2, false, 0), PassAction::FetchListing);
    assert_eq!(pass_step(2, true, 0), PassAction::Reconcile(0));
    assert_eq!(pass_step(2, true, 1), PassAction::Reconcile(1));
    assert_eq!(pass_step(2, true, 2), PassAction::SaveCursor);
}
