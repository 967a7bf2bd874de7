use cloud_sync::errors::{
    AWSError, CloudSyncError, ConfigError, MailError, OneDriveError, UnrecoverableError,
};
use cloud_sync::onedrive_manager::range_header;
use cloud_sync::text::{decimal_string, parse_i64};

#[test]
fn decimal_notation() {
    assert_eq!(decimal_string(0), "0");
    assert_eq!(decimal_string(7), "7");
    assert_eq!(decimal_string(1_234_567_890), "1234567890");
    assert_eq!(decimal_string(u64::MAX), u64::MAX.to_string());
}

#[test]
fn parse_signed_integers() {
    assert_eq!(parse_i64("42"), Some(42));
    assert_eq!(parse_i64("-7"), Some(-7));
    assert_eq!(parse_i64("+5"), Some(5));
    assert_eq!(parse_i64("007"), Some(7));
    assert_eq!(parse_i64("9223372036854775807"), Some(i64::MAX));
    assert_eq!(parse_i64("-9223372036854775808"), Some(i64::MIN));
}

#[test]
fn parse_rejects_malformed_or_out_of_range() {
    assert_eq!(parse_i64(""), None);
    assert_eq!(parse_i64("-"), None);
    assert_eq!(parse_i64("+"), None);
    assert_eq!(parse_i64("12a"), None);
    assert_eq!(parse_i64(" 1"), None);
    assert_eq!(parse_i64("9223372036854775808"), None);
    assert_eq!(parse_i64("-9223372036854775809"), None);
    assert_eq!(parse_i64("99999999999999999999999"), None);
}

#[test]
fn range_header_names_inclusive_bytes() {
    assert_eq!(range_header(0, 10_485_759), "bytes=0-10485759");
    assert_eq!(range_header(10_485_760, 20_971_519), "bytes=10485760-20971519");
}

#[test]
fn error_texts() {
    assert_eq!(AWSError("x".to_string()).to_string(), "AWSError: x");
    assert_eq!(OneDriveError("y".to_string()).to_string(), "OneDriveError: y");
    assert_eq!(ConfigError("z".to_string()).to_string(), "ConfigError: z");
    assert_eq!(UnrecoverableError("w".to_string()).to_string(), "UnrecoverableError: w");
    assert_eq!(
        MailError::Document("d".to_string()).to_string(),
        "MailError::Document: d"
    );
    assert_eq!(
        CloudSyncError::TokenExpiredWarning.to_string(),
        "CloudSyncError::TokenExpiredWarning"
    );
    let u = UnrecoverableError::from_config(ConfigError("bad".to_string()));
    assert_eq!(u.0, "ConfigError: bad");
    let o = CloudSyncError::from_one_drive(OneDriveError("gone".to_string()));
    assert_eq!(o.to_string(), "CloudSyncError::OneDrive: OneDriveError: gone");
    let a = CloudSyncError::from_aws(AWSError("denied".to_string()));
    assert_eq!(a.to_string(), "CloudSyncError::AWS: AWSError: denied");
}
