use china_travel_app::components::checkbox::{ActivationLock, CheckboxState};
use china_travel_app::components::document_pane::attachment_label;
use china_travel_app::components::document_sheet::DocumentSheetMode;
use china_travel_app::components::gear_menu::{
    export_notice, import_notice, safe_mode_failed_notice, safe_mode_notice, ImportFailure,
    BACKUP_FILE_NAME, BACKUP_MIME_TYPE,
};
use china_travel_app::components::toast::{
    ToastOptions, ToastQueue, ToastType, DEFAULT_DISPLAY_SECONDS, MAX_TOASTS,
};
use china_travel_app::domain::{AttachmentRef, ChecklistItem};
use china_travel_app::error::{DbError, PlatformError, ValidationError};
use china_travel_app::routes::Route;
use china_travel_app::views::calendar::CalendarMonth;
use china_travel_app::views::calendar_sheet::{
    event_command, event_sheet_labels, month_of_trip_start, EventCommand,
};
use china_travel_app::views::checklist::{
    checklist_progress, commit_request, deletion_failed_notice, ChecklistCommit, SwipeDelete,
    NEW_ROW,
};
use china_travel_app::views::documentation::{
    document_command, grant_release_failed_notice, toggle_expanded, DocumentCommand,
};
use china_travel_app::views::home::{trip_delete_target, trip_form};
use std::time::Duration;

fn item(id: i64, is_checked: bool) -> ChecklistItem {
    ChecklistItem {
        id,
        trip_id: 1,
        text: format!("Item {id}"),
        is_checked,
        sort_order: id,
        created_at: 0,
        updated_at: 0,
    }
}

#[test]
fn routes_are_stable_and_mobile_readable() {
    assert_eq!(Route::Home {}.to_string(), "/");
    assert_eq!(
        Route::Checklist { trip_id: 42 }.to_string(),
        "/trip/42/checklist"
    );
    assert_eq!(
        Route::Documentation { trip_id: 42 }.to_string(),
        "/trip/42/documentation"
    );
}

#[test]
fn calendar_route_and_negative_ids_render_in_full() {
    assert_eq!(
        Route::Calendar { trip_id: 7 }.to_string(),
        "/trip/7/calendar"
    );
    assert_eq!(
        Route::Checklist { trip_id: -3 }.to_string(),
        "/trip/-3/checklist"
    );
}

#[test]
fn a_swiped_row_is_deleted_once_the_undo_window_closes() {
    let mut flow = SwipeDelete::new();
    let round = flow.swipe(item(5, false), 1, false).unwrap();
    assert_eq!(round, 1);
    assert_eq!(flow.dismissing.as_ref().map(|d| (d.item.id, d.direction)), Some((5, 1)));
    assert!(flow.slide_out_finished(round));
    assert!(flow.dismissing.is_none());
    assert_eq!(flow.pending.as_ref().map(|p| p.id), Some(5));
    assert_eq!(flow.undo_window_closed(round), Some(5));
    assert!(flow.deletion_finished(round));
    assert!(flow.pending.is_none());
}

#[test]
fn undo_keeps_the_row_and_silences_earlier_timers() {
    let mut flow = SwipeDelete::new();
    let round = flow.swipe(item(8, false), -1, false).unwrap();
    assert!(flow.slide_out_finished(round));
    flow.undo();
    assert!(flow.pending.is_none());
    assert_eq!(flow.undo_window_closed(round), None);
    assert!(!flow.deletion_finished(round));

    let mut sliding = SwipeDelete::new();
    let round = sliding.swipe(item(9, false), 1, false).unwrap();
    sliding.undo();
    assert!(!sliding.slide_out_finished(round));
    assert!(sliding.pending.is_none());
    assert!(sliding.dismissing.is_none());
}

#[test]
fn a_second_swipe_or_a_busy_row_is_refused() {
    let mut flow = SwipeDelete::new();
    assert_eq!(flow.swipe(item(1, false), 1, true), None);
    assert_eq!(flow.round, 0);
    let round = flow.swipe(item(1, false), 1, false).unwrap();
    assert_eq!(flow.swipe(item(2, false), 1, false), None);
    assert!(flow.slide_out_finished(round));
    assert_eq!(flow.swipe(item(2, false), -1, false), None);
    assert_eq!(flow.round, round);
    assert!(!flow.slide_out_finished(round + 1));
}

#[test]
fn committing_rows_trims_and_checks_the_text() {
    assert_eq!(
        commit_request(NEW_ROW, false, Some(NEW_ROW), Some("  power adapter "), None),
        Some(Ok(ChecklistCommit::Add("power adapter".to_string())))
    );
    assert_eq!(
        commit_request(4, false, Some(4), None, Some(" passport ")),
        Some(Ok(ChecklistCommit::Rename(4, "passport".to_string())))
    );
    assert_eq!(
        commit_request(4, false, Some(4), None, Some("   ")),
        Some(Err(ValidationError::BlankChecklistText))
    );
    assert_eq!(
        commit_request(4, false, Some(4), None, None),
        Some(Err(ValidationError::BlankChecklistText))
    );
}

#[test]
fn commits_of_busy_or_unedited_rows_are_ignored() {
    assert_eq!(commit_request(4, true, Some(4), None, Some("x")), None);
    assert_eq!(commit_request(4, false, Some(5), None, Some("x")), None);
    assert_eq!(commit_request(4, false, None, None, Some("x")), None);
    assert_eq!(commit_request(NEW_ROW, false, None, None, None), None);
}

#[test]
fn progress_counts_checked_items_in_whole_percent() {
    assert_eq!(checklist_progress(&Vec::new()), (0, 0, 0));
    let items = vec![item(1, true), item(2, false), item(3, false)];
    assert_eq!(checklist_progress(&items), (1, 3, 33));
    let done = vec![item(1, true), item(2, true)];
    assert_eq!(checklist_progress(&done), (2, 2, 100));
}

#[test]
fn the_calendar_opens_on_the_trip_start_month() {
    assert_eq!(
        month_of_trip_start(Some("2027-04-02")),
        Some(CalendarMonth {
            year: 2027,
            month: 4
        })
    );
    assert_eq!(month_of_trip_start(Some("2027-13-02")), None);
    assert_eq!(month_of_trip_start(None), None);
}

#[test]
fn the_event_sheet_creates_or_updates() {
    match event_command(None, 3, " Flight ", "2027-04-02", "2027-04-02") {
        Ok(EventCommand::Create(event)) => {
            assert_eq!(event.trip_id, 3);
            assert_eq!(event.name, "Flight");
            assert_eq!(event.start_date, "2027-04-02");
        }
        other => panic!("unexpected {other:?}"),
    }
    match event_command(Some(9), 3, "Hotel", "2027-04-02", "2027-04-05") {
        Ok(EventCommand::Update(event)) => {
            assert_eq!(event.id, 9);
            assert_eq!(event.end_date, "2027-04-05");
        }
        other => panic!("unexpected {other:?}"),
    }
    assert_eq!(
        event_command(None, 3, "Hotel", "2027-04-05", "2027-04-02"),
        Err(ValidationError::CalendarEndBeforeStart)
    );
    assert_eq!(
        event_command(Some(9), 3, " ", "2027-04-05", "2027-04-02"),
        Err(ValidationError::BlankCalendarEventName)
    );
}

#[test]
fn the_document_sheet_creates_or_updates() {
    assert_eq!(DocumentSheetMode::Add.title(), "Add document");
    assert_eq!(DocumentSheetMode::Edit(2).title(), "Edit document");
    match document_command(DocumentSheetMode::Add, 1, "  Visa ", "notes".to_string(), None) {
        Ok(DocumentCommand::Create(document)) => {
            assert_eq!(document.trip_id, 1);
            assert_eq!(document.name, "Visa");
            assert_eq!(document.description, "notes");
        }
        other => panic!("unexpected {other:?}"),
    }
    match document_command(DocumentSheetMode::Edit(6), 1, "Visa", String::new(), None) {
        Ok(DocumentCommand::Update(document)) => assert_eq!(document.id, 6),
        other => panic!("unexpected {other:?}"),
    }
    assert_eq!(
        document_command(DocumentSheetMode::Add, 1, "  ", String::new(), None),
        Err(ValidationError::BlankDocumentName)
    );
}

#[test]
fn attachment_labels_fall_back_to_a_generic_name() {
    let named = AttachmentRef {
        uri: "content://a".to_string(),
        display_name: Some("visa.pdf".to_string()),
        mime_type: None,
    };
    let unnamed = AttachmentRef {
        uri: "content://b".to_string(),
        display_name: None,
        mime_type: None,
    };
    assert_eq!(attachment_label(Some(&named)), "visa.pdf");
    assert_eq!(attachment_label(Some(&unnamed)), "Attached file");
    assert_eq!(attachment_label(None), "Attached file");
}

#[test]
fn expanding_a_pane_closes_it_on_the_second_press() {
    assert_eq!(toggle_expanded(None, 3), Some(3));
    assert_eq!(toggle_expanded(Some(3), 3), None);
    assert_eq!(toggle_expanded(Some(2), 3), Some(3));
}

#[test]
fn the_add_trip_form_checks_name_before_dates() {
    assert_eq!(
        trip_form(" Guangzhou", "2027-05-01", "2027-05-05"),
        Ok((
            "Guangzhou".to_string(),
            Some("2027-05-01".to_string()),
            Some("2027-05-05".to_string())
        ))
    );
    assert_eq!(
        trip_form("Trip", "", ""),
        Ok(("Trip".to_string(), None, None))
    );
    assert_eq!(
        trip_form("  ", "2027-05-06", "2027-05-05"),
        Err(ValidationError::BlankTripName)
    );
    assert_eq!(
        trip_form("Invalid dates", "2027-05-06", "2027-05-05"),
        Err(ValidationError::CalendarEndBeforeStart)
    );
}

#[test]
fn safe_mode_blocks_confirmed_trip_deletion() {
    assert_eq!(trip_delete_target(true, Some(4)), None);
    assert_eq!(trip_delete_target(false, Some(4)), Some(4));
    assert_eq!(trip_delete_target(false, None), None);
}

#[test]
fn settings_notices_name_what_happened() {
    let on = safe_mode_notice(true);
    assert_eq!(on.kind, ToastType::Success);
    assert_eq!(on.title, "Safe Mode enabled");
    assert_eq!(on.description, "Delete actions hidden.");
    let off = safe_mode_notice(false);
    assert_eq!(off.kind, ToastType::Info);
    assert_eq!(off.description, "Delete actions visible.");
    let failed = safe_mode_failed_notice("disk full".to_string());
    assert_eq!(failed.kind, ToastType::Error);
    assert_eq!(failed.title, "Safe Mode not saved");
    assert_eq!(failed.description, "disk full");
    assert_eq!(BACKUP_FILE_NAME, "china_travel_app_backup.json");
    assert_eq!(BACKUP_MIME_TYPE, "application/json");
}

#[test]
fn backup_notices_cover_success_cancel_and_failure() {
    let exported = export_notice(Ok(true)).unwrap();
    assert_eq!(exported.title, "Backup exported");
    assert_eq!(exported.description, "china_travel_app_backup.json saved.");
    assert_eq!(export_notice(Ok(false)), None);
    let failed = export_notice(Err("no space".to_string())).unwrap();
    assert_eq!(failed.kind, ToastType::Error);
    assert_eq!(failed.title, "Export failed");
    assert_eq!(failed.description, "no space");

    let imported = import_notice(Ok(true)).unwrap();
    assert_eq!(imported.kind, ToastType::Success);
    assert_eq!(imported.description, "All data replaced with backup.");
    assert_eq!(import_notice(Ok(false)), None);
    let invalid = import_notice(Err(ImportFailure::InvalidFile("expected value".to_string())))
        .unwrap();
    assert_eq!(invalid.title, "Import failed");
    assert_eq!(invalid.description, "Invalid file: expected value");
    let other = import_notice(Err(ImportFailure::Failed("denied".to_string()))).unwrap();
    assert_eq!(other.description, "denied");
}

#[test]
fn the_toast_queue_keeps_the_newest_ten() {
    let mut queue = ToastQueue::new();
    for n in 0..12 {
        let (id, _) = queue.push(format!("toast {n}"), ToastType::Info, ToastOptions::new());
        assert_eq!(id, n);
    }
    let records = queue.records();
    assert_eq!(records.len(), MAX_TOASTS);
    assert_eq!(records[0].title, "toast 2");
    assert_eq!(records[9].title, "toast 11");
}

#[test]
fn toasts_expire_after_their_display_time_unless_permanent() {
    let mut queue = ToastQueue::new();
    let (_, default_time) = queue.push("a".to_string(), ToastType::Success, ToastOptions::new());
    assert_eq!(default_time, Some(Duration::from_secs(DEFAULT_DISPLAY_SECONDS)));
    assert_eq!(default_time, Some(Duration::from_secs(5)));
    let (_, custom) = queue.push(
        "b".to_string(),
        ToastType::Warning,
        ToastOptions::new().duration(Duration::from_millis(1500)),
    );
    assert_eq!(custom, Some(Duration::from_millis(1500)));
    let (_, kept) = queue.push(
        "c".to_string(),
        ToastType::Error,
        ToastOptions::new().permanent(true).description("details".to_string()),
    );
    assert_eq!(kept, None);
    assert_eq!(queue.records()[2].description.as_deref(), Some("details"));
}

#[test]
fn dismissing_removes_only_that_toast() {
    let mut queue = ToastQueue::new();
    let (first, _) = queue.push("a".to_string(), ToastType::Info, ToastOptions::new());
    let (second, _) = queue.push("b".to_string(), ToastType::Info, ToastOptions::new());
    let (third, _) = queue.push("c".to_string(), ToastType::Info, ToastOptions::new());
    queue.dismiss(second);
    let ids: Vec<usize> = queue.records().iter().map(|r| r.id).collect();
    assert_eq!(ids, vec![first, third]);
    queue.dismiss(99);
    assert_eq!(queue.records().len(), 2);
}

#[test]
fn a_tap_reported_twice_toggles_once() {
    let mut lock = ActivationLock::new();
    assert_eq!(lock.activate(false, false), Some(true));
    assert_eq!(lock.activate(false, true), None);
    lock.release();
    assert_eq!(lock.activate(false, true), Some(false));
    let mut disabled = ActivationLock::new();
    assert_eq!(disabled.activate(true, false), None);
    assert!(!disabled.locked);
}

#[test]
fn checkbox_states_name_their_attributes() {
    assert_eq!(CheckboxState::Checked.aria_checked(), "true");
    assert_eq!(CheckboxState::Unchecked.aria_checked(), "false");
    assert_eq!(CheckboxState::Indeterminate.aria_checked(), "mixed");
    assert_eq!(CheckboxState::Checked.data_state(), "checked");
    assert_eq!(CheckboxState::Indeterminate.data_state(), "indeterminate");
}

#[test]
fn the_event_sheet_names_its_action() {
    assert_eq!(event_sheet_labels(false), ("Add an event", "Add event"));
    assert_eq!(event_sheet_labels(true), ("Edit event", "Save event"));
}

#[test]
fn different_routes_have_different_paths() {
    let routes = [
        Route::Home {},
        Route::Checklist { trip_id: 1 },
        Route::Checklist { trip_id: -1 },
        Route::Checklist { trip_id: 11 },
        Route::Documentation { trip_id: 1 },
        Route::Calendar { trip_id: 1 },
    ];
    for (i, a) in routes.iter().enumerate() {
        for (j, b) in routes.iter().enumerate() {
            assert_eq!(i == j, a.to_string() == b.to_string());
        }
    }
}

#[test]
fn errors_read_as_their_messages() {
    assert_eq!(
        ValidationError::InvalidCalendarDate.message(),
        "date must use the YYYY-MM-DD format"
    );
    assert_eq!(
        ValidationError::CalendarEndBeforeStart.message(),
        "end date cannot be earlier than start date"
    );
    assert_eq!(ValidationError::BlankTripName.message(), "trip name cannot be blank");
    assert_eq!(
        PlatformError::Native("timeout: slow".to_string()).message(),
        "native operation failed: timeout: slow"
    );
    assert_eq!(
        PlatformError::AttachmentUnavailable.message(),
        "access to the attached file is no longer available"
    );
    assert_eq!(
        DbError::NotFound { entity: "trip", id: 999 }.message(),
        "trip 999 was not found"
    );
    assert_eq!(DbError::WorkerClosed.message(), "database worker closed");
    assert_eq!(
        DbError::InvalidInput(ValidationError::BlankDocumentName).message(),
        "document name cannot be blank"
    );
    assert_eq!(
        DbError::Migration("unsupported backup version 2".to_string()).message(),
        "database migration failed: unsupported backup version 2"
    );
    let sqlite = DbError::Operation(tokio_rusqlite::Error::Error(
        tokio_rusqlite::rusqlite::Error::QueryReturnedNoRows,
    ))
    .message();
    assert!(sqlite.starts_with("SQLite operation failed: "));
}

#[test]
fn failure_notices_carry_the_error_text() {
    let n = deletion_failed_notice("locked".to_string());
    assert_eq!(n.kind, ToastType::Error);
    assert_eq!(n.title, "Checklist item was not deleted");
    assert_eq!(n.description, "locked");
    let n = grant_release_failed_notice("gone".to_string());
    assert_eq!(n.kind, ToastType::Warning);
    assert_eq!(n.title, "Old file permission could not be released");
    assert_eq!(n.description, "gone");
}
