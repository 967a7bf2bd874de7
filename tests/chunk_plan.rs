use cloud_sync::aws_manager::{check_part_capacity, AWS, CHUNK_SIZE, MAX_CHUNKS};
use cloud_sync::chunk::{plan, Chunk};

#[test]
fn plan_covers_file_exactly() {
    let parts = plan(25, 10).unwrap();
    assert_eq!(parts, vec![(1, 0, 9), (2, 10, 19), (3, 20, 24)]);
}

#[test]
fn plan_single_byte_file_has_one_part() {
    assert_eq!(plan(1, 10).unwrap(), vec![(1, 0, 0)]);
}

#[test]
fn plan_file_equal_to_chunk() {
    assert_eq!(plan(10, 10).unwrap(), vec![(1, 0, 9)]);
}

#[test]
fn plan_of_empty_file_fails() {
    assert!(plan(0, 10).is_none());
}

#[test]
fn plan_ranges_are_contiguous_and_bounded() {
    let size: u64 = 1_000_003;
    let chunk: u64 = 4096;
    let parts = plan(size, chunk).unwrap();
    assert_eq!(parts.len() as u64, (size + chunk - 1) / chunk);
    assert_eq!(parts[0].1, 0);
    assert_eq!(parts[parts.len() - 1].2, size - 1);
    for (i, p) in parts.iter().enumerate() {
        assert_eq!(p.0 as usize, i + 1);
        assert!(p.1 <= p.2);
        assert!(p.2 - p.1 + 1 <= chunk);
        if i + 1 < parts.len() {
            assert_eq!(parts[i + 1].1, p.2 + 1);
        }
    }
}

#[test]
fn plan_hundred_megabytes_in_ten_parts() {
    let parts = plan(100_000_000, 10_000_000).unwrap();
    assert_eq!(parts.len(), 10);
    assert_eq!(parts[9], (10, 90_000_000, 99_999_999));
    assert_eq!(check_part_capacity(100_000_000, 10_000_000, 10_000).ok(), Some(10));
}

#[test]
fn chunk_walk_hands_out_parts_then_stops() {
    let mut walk = Chunk::new(21, 10);
    assert_eq!(walk.next(), Some((1, 0, 9)));
    assert_eq!(walk.next(), Some((2, 10, 19)));
    assert_eq!(walk.next(), Some((3, 20, 20)));
    assert_eq!(walk.next(), None);
    assert_eq!(walk.next(), None);
}

#[test]
fn chunk_walk_of_empty_file_is_empty() {
    let mut walk = Chunk::new(0, 10);
    assert_eq!(walk.next(), None);
}

#[test]
fn capacity_check_rejects_empty_file() {
    let e = AWS::check_for_multipart_upload(0).unwrap_err();
    assert_eq!(e.0, "file size is zero");
    assert_eq!(e.to_string(), "AWSError: file size is zero");
}

#[test]
fn capacity_check_accepts_largest_file() {
    assert!(AWS::check_for_multipart_upload(CHUNK_SIZE * MAX_CHUNKS).is_ok());
    assert!(AWS::check_for_multipart_upload(1).is_ok());
}

#[test]
fn capacity_check_rejects_one_byte_more() {
    let e = AWS::check_for_multipart_upload(CHUNK_SIZE * MAX_CHUNKS + 1).unwrap_err();
    assert_eq!(e.0, "chunk count exceeded maximum");
}

#[test]
fn capacity_check_counts_as_plan_does() {
    for (size, chunk) in [(1u64, 1u64), (7, 3), (9, 3), (10, 3), (1_000, 7), (65_536, 4_096)] {
        let counted = check_part_capacity(size, chunk, u64::MAX).ok().unwrap();
        assert_eq!(counted as usize, plan(size, chunk).unwrap().len());
    }
    assert!(check_part_capacity(31, 10, 3).is_err());
    assert_eq!(check_part_capacity(30, 10, 3).ok(), Some(3));
}

#[test]
fn chunk_size_is_ten_mebibytes() {
    assert_eq!(AWS::get_chunk_size(), 10 * 1024 * 1024);
}

#[test]
fn walk_accepts_largest_part_count() {
    let mut walk = Chunk::new(i32::MAX as u64, 1);
    assert_eq!(walk.next(), Some((1, 0, 0)));
    assert_eq!(walk.next(), Some((2, 1, 1)));
}
