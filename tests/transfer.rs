use cloud_sync::aws_manager::{UploadSession, AWS};
use cloud_sync::cloud_sync::{
    download_url_stale, next_wake, seconds_until_next, sleep_seconds, MultipartTransfer,
    TransferAction,
};

#[test]
fn object_info_reads_integer_part_of_recorded_time() {
    let i = AWS::construct_object_info(Some("1700000000.123"), Some(12));
    assert_eq!(i.mtime, Some(1_700_000_000));
    assert_eq!(i.size, Some(12));
    let j = AWS::construct_object_info(Some("1700000000"), None);
    assert_eq!(j.mtime, Some(1_700_000_000));
    assert_eq!(j.size, None);
    assert_eq!(AWS::construct_object_info(Some("abc"), None).mtime, None);
    assert_eq!(AWS::construct_object_info(None, Some(0)).mtime, None);
}

#[test]
fn not_found_means_no_object() {
    assert!(matches!(AWS::construct_object_info_error(Some(404), String::new()), Ok(None)));
    let e = AWS::construct_object_info_error(Some(503), String::new()).unwrap_err();
    assert_eq!(e.0, "HttpStatus: 503");
    let e = AWS::construct_object_info_error(None, "dispatch failure".to_string()).unwrap_err();
    assert_eq!(e.0, "dispatch failure");
}

#[test]
fn session_needs_an_id() {
    assert!(UploadSession::open(None).is_err());
    let s = UploadSession::open(Some("up-1".to_string())).ok().unwrap();
    assert_eq!(s.upload_id(), "up-1");
    assert!(s.parts().is_empty());
}

#[test]
fn completion_refuses_parts_out_of_order() {
    let mut s = UploadSession::open(Some("u".to_string())).ok().unwrap();
    s.record_part(2, Some("b".to_string()));
    s.record_part(1, Some("a".to_string()));
    let e = s.check_complete(2).unwrap_err();
    assert_eq!(e.0, "parts missing or out of order");
}

#[test]
fn completion_refuses_gap_or_missing_part() {
    let mut s = UploadSession::open(Some("u".to_string())).ok().unwrap();
    s.record_part(1, Some("a".to_string()));
    s.record_part(3, None);
    assert!(s.check_complete(2).is_err());
    assert!(s.check_complete(3).is_err());
    let mut t = UploadSession::open(Some("u".to_string())).ok().unwrap();
    t.record_part(1, None);
    assert!(t.check_complete(2).is_err());
}

#[test]
fn completion_accepts_parts_in_order() {
    let mut s = UploadSession::open(Some("u".to_string())).ok().unwrap();
    s.record_part(1, Some("a".to_string()));
    s.record_part(2, None);
    assert!(s.check_complete(2).is_ok());
    assert_eq!(s.parts()[1].e_tag, "");
    assert_eq!(s.parts()[0].e_tag, "a");
}

#[test]
fn multipart_transfer_steps() {
    let size: u64 = 25_000_000;
    assert!(AWS::check_for_multipart_upload(size).is_ok());
    let session = UploadSession::open(Some("u".to_string())).ok().unwrap();
    let mut t = MultipartTransfer::start(size, session);
    assert_eq!(t.next_action(true, 0), TransferAction::RefreshToken);
    assert_eq!(t.next_action(false, 0), TransferAction::FetchDownloadUrl);
    t.url_fetched(0);
    assert_eq!(t.next_action(false, 10), TransferAction::ReadPart(1, 0, 10_485_759));
    assert_eq!(t.next_action(false, 10), TransferAction::ReadPart(1, 0, 10_485_759));
    t.part_uploaded(Some("e1".to_string()));
    assert_eq!(t.next_action(true, 20), TransferAction::RefreshToken);
    assert_eq!(t.next_action(false, 20), TransferAction::ReadPart(2, 10_485_760, 20_971_519));
    t.part_uploaded(Some("e2".to_string()));
    assert_eq!(t.next_action(false, 1801), TransferAction::FetchDownloadUrl);
    t.url_fetched(1801);
    assert_eq!(t.next_action(false, 1802), TransferAction::ReadPart(3, 20_971_520, 24_999_999));
    t.part_uploaded(None);
    assert_eq!(t.next_action(false, 1803), TransferAction::Complete);
    assert!(t.session().check_complete(3).is_ok());
    assert_eq!(t.session().parts().len(), 3);
}

#[test]
fn download_address_goes_stale_after_half_an_hour() {
    assert!(!download_url_stale(1000, 2800));
    assert!(download_url_stale(1000, 2801));
}

#[test]
fn wake_time_rolls_to_tomorrow_unless_strictly_later() {
    assert_eq!(next_wake(1000, 1001), Some(1001));
    assert_eq!(next_wake(1000, 1000), Some(87_400));
    assert_eq!(next_wake(1000, 400), Some(86_800));
    assert_eq!(next_wake(i64::MAX, i64::MAX - 10), None);
    assert_eq!(sleep_seconds(1000, 87_400), 86_400);
    assert_eq!(sleep_seconds(1000, 999), 0);
}

#[test]
fn wake_delay_needs_a_time_of_day() {
    assert_eq!(seconds_until_next("25:00:00"), None);
    assert_eq!(seconds_until_next("noon"), None);
    assert_eq!(seconds_until_next(""), None);
    if let Some(d) = seconds_until_next("00:01:00") {
        assert!(d <= 2 * 86_400);
    }
}
