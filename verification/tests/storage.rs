use china_travel_app::db::{
    attachment_from_columns, attachment_params, migration_plan, AppBackup,
};
use china_travel_app::domain::AttachmentRef;

#[test]
fn attachments_round_trip_through_their_columns() {
    let attachment = AttachmentRef::new(
        "content://com.example.provider/document/42".to_string(),
        Some("booking.pdf".to_string()),
        None,
    )
    .unwrap();
    let (uri, name, mime) = attachment_params(Some(&attachment));
    assert_eq!(uri, Some("content://com.example.provider/document/42"));
    assert_eq!(name, Some("booking.pdf"));
    assert_eq!(mime, None);
    let restored = attachment_from_columns(
        uri.map(str::to_string),
        name.map(str::to_string),
        mime.map(str::to_string),
    );
    assert_eq!(restored, Some(attachment));
    assert_eq!(attachment_params(None), (None, None, None));
    assert_eq!(attachment_from_columns(None, Some("x".to_string()), None), None);
}

#[test]
fn migrations_run_from_the_stored_version() {
    assert_eq!(migration_plan(0).unwrap(), vec![1, 2, 3]);
    assert_eq!(migration_plan(1).unwrap(), vec![2, 3]);
    assert_eq!(migration_plan(3).unwrap(), Vec::<i64>::new());
    assert_eq!(migration_plan(-2).unwrap(), vec![1, 2, 3]);
    assert_eq!(
        migration_plan(4).unwrap_err(),
        "database schema version 4 is newer than supported version 3"
    );
}

#[test]
fn backups_carry_their_version() {
    let backup = AppBackup::new(Vec::new());
    assert_eq!(backup.version, 1);
    assert!(backup.check_version().is_ok());
    let old = AppBackup { version: 2, trips: Vec::new() };
    assert_eq!(old.check_version().unwrap_err(), "unsupported backup version 2");
}
