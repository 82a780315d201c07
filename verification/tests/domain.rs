use china_travel_app::domain::calendar::{date_of_clock, date_range_label, normalize_optional_date};
use china_travel_app::domain::{
    normalize_date_range, AttachmentRef, CalendarDate, ChecklistItem, NewCalendarEvent,
    NewTravelDocument, Trip, TripOverview, UpdateCalendarEvent, UpdateTravelDocument,
};
use china_travel_app::error::ValidationError;

#[test]
fn dates_are_validated_and_normalized() {
    assert_eq!(
        CalendarDate::parse("2028-02-29").unwrap().to_string(),
        "2028-02-29"
    );
    assert_eq!(
        CalendarDate::parse("2027-02-29"),
        Err(ValidationError::InvalidCalendarDate)
    );
    assert_eq!(
        CalendarDate::parse("2027-2-09"),
        Err(ValidationError::InvalidCalendarDate)
    );
    assert_eq!(
        normalize_date_range(Some(" 2027-04-02 "), Some("2027-04-06")).unwrap(),
        (
            Some("2027-04-02".to_string()),
            Some("2027-04-06".to_string())
        )
    );
    assert_eq!(
        normalize_date_range(Some("2027-04-06"), Some("2027-04-02")),
        Err(ValidationError::CalendarEndBeforeStart)
    );
}

#[test]
fn calendar_date_round_trips_through_unix_days() {
    let date = CalendarDate::parse("2027-10-01").unwrap();
    assert_eq!(
        CalendarDate::from_days_since_unix_epoch(date.days_since_unix_epoch()),
        date
    );
}

#[test]
fn new_event_requires_a_name_and_ordered_dates() {
    assert!(NewCalendarEvent::new(1, "Flight to Beijing", "2027-04-02", "2027-04-02").is_ok());
    assert_eq!(
        NewCalendarEvent::new(1, " ", "2027-04-02", "2027-04-02"),
        Err(ValidationError::BlankCalendarEventName)
    );
}

#[test]
fn validation_trims_and_rejects_blank_values() {
    assert_eq!(Trip::validate_name("  Shanghai  ").unwrap(), "Shanghai");
    assert_eq!(
        ChecklistItem::validate_text("  Passport  ").unwrap(),
        "Passport"
    );
    assert_eq!(
        Trip::validate_name("  "),
        Err(ValidationError::BlankTripName)
    );
    assert_eq!(
        ChecklistItem::validate_text("\n"),
        Err(ValidationError::BlankChecklistText)
    );
    assert!(NewTravelDocument::new(1, "  Visa  ", String::new(), None).is_ok());
    assert!(NewTravelDocument::new(1, "", String::new(), None).is_err());
}

#[test]
fn attachment_with_blank_uri_is_omitted() {
    assert!(AttachmentRef::new("  ".to_string(), None, None).is_none());
    assert!(AttachmentRef::new("content://example/file".to_string(), None, None).is_some());
}

#[test]
fn unix_epoch_and_known_days_map_both_ways() {
    let epoch = CalendarDate::parse("1970-01-01").unwrap();
    assert_eq!(epoch.days_since_unix_epoch(), 0);
    assert_eq!(
        CalendarDate::parse("2000-03-01").unwrap().days_since_unix_epoch(),
        11017
    );
    assert_eq!(
        CalendarDate::parse("0001-01-01").unwrap().days_since_unix_epoch(),
        -719162
    );
    assert_eq!(
        CalendarDate::parse("9999-12-31").unwrap().days_since_unix_epoch(),
        2932896
    );
    assert_eq!(
        CalendarDate::from_days_since_unix_epoch(-1),
        CalendarDate { year: 1969, month: 12, day: 31 }
    );
    assert_eq!(
        CalendarDate::from_days_since_unix_epoch(11016),
        CalendarDate { year: 2000, month: 2, day: 29 }
    );
}

#[test]
fn every_day_of_a_leap_cycle_round_trips() {
    let first = CalendarDate::parse("2024-01-01").unwrap().days_since_unix_epoch();
    for offset in 0..(4 * 366) {
        let date = CalendarDate::from_days_since_unix_epoch(first + offset);
        assert_eq!(date.days_since_unix_epoch(), first + offset);
        assert_eq!(CalendarDate::parse(&date.to_string()), Ok(date));
    }
}

#[test]
fn leap_years_follow_the_gregorian_rule() {
    assert!(CalendarDate::is_leap_year(2024));
    assert!(!CalendarDate::is_leap_year(2027));
    assert!(!CalendarDate::is_leap_year(1900));
    assert!(CalendarDate::is_leap_year(2000));
    assert!(CalendarDate::is_leap_year(-4));
    assert_eq!(CalendarDate::days_in_month(2024, 2), 29);
    assert_eq!(CalendarDate::days_in_month(2023, 2), 28);
    assert_eq!(CalendarDate::days_in_month(2023, 4), 30);
    assert_eq!(CalendarDate::days_in_month(2023, 13), 0);
}

#[test]
fn parse_accepts_ascii_digit_fields_only() {
    assert_eq!(
        CalendarDate::parse("0999-01-01"),
        Ok(CalendarDate { year: 999, month: 1, day: 1 })
    );
    assert_eq!(
        CalendarDate::parse("+999-01-01"),
        Err(ValidationError::InvalidCalendarDate)
    );
    assert_eq!(
        CalendarDate::parse("2027-+4-09"),
        Err(ValidationError::InvalidCalendarDate)
    );
    assert_eq!(
        CalendarDate::parse("2027-04-+9"),
        Err(ValidationError::InvalidCalendarDate)
    );
    assert_eq!(
        CalendarDate::parse("0000-01-01"),
        Err(ValidationError::InvalidCalendarDate)
    );
    assert_eq!(
        CalendarDate::parse("2027-13-01"),
        Err(ValidationError::InvalidCalendarDate)
    );
    assert_eq!(
        CalendarDate::parse("2027-04-00"),
        Err(ValidationError::InvalidCalendarDate)
    );
    assert_eq!(
        CalendarDate::parse(" 2027-04-02"),
        Err(ValidationError::InvalidCalendarDate)
    );
    assert_eq!(
        CalendarDate::parse("2027-04-0２"),
        Err(ValidationError::InvalidCalendarDate)
    );
    assert_eq!(
        CalendarDate::parse("0999-01-01").unwrap().to_string(),
        "0999-01-01"
    );
}

#[test]
fn dates_render_with_padding_and_labels() {
    let date = CalendarDate { year: 5, month: 3, day: 7 };
    assert_eq!(date.to_string(), "0005-03-07");
    assert_eq!(
        CalendarDate { year: -5, month: 3, day: 7 }.to_string(),
        "-005-03-07"
    );
    assert_eq!(date.month_name(), "March");
    assert_eq!(date.short_label(), "March 7");
}

#[test]
fn date_range_labels_cover_open_and_closed_ranges() {
    assert_eq!(
        date_range_label(Some("2027-04-02"), Some("2027-04-16")).as_deref(),
        Some("April 2 2027 – April 16 2027")
    );
    assert_eq!(
        date_range_label(Some("2027-04-02"), Some("2027-04-02")).as_deref(),
        Some("April 2 2027")
    );
    assert_eq!(
        date_range_label(Some("2027-04-02"), None).as_deref(),
        Some("Starts April 2 2027")
    );
    assert_eq!(
        date_range_label(Some("bad"), Some("2027-05-01")).as_deref(),
        Some("Ends May 1 2027")
    );
    assert_eq!(date_range_label(None, Some("bad")), None);
}

#[test]
fn normalization_is_idempotent_and_blank_is_absent() {
    let once = normalize_optional_date(Some(" 0999-1-1 ")).unwrap_err();
    assert_eq!(once, ValidationError::InvalidCalendarDate);
    let once = normalize_optional_date(Some(" +999-01-01 ")).unwrap_err();
    assert_eq!(once, ValidationError::InvalidCalendarDate);
    let once = normalize_optional_date(Some(" 0999-01-01 ")).unwrap();
    assert_eq!(once.as_deref(), Some("0999-01-01"));
    let twice = normalize_optional_date(once.as_deref()).unwrap();
    assert_eq!(twice, once);
    assert_eq!(normalize_optional_date(Some(" \t ")), Ok(None));
    assert_eq!(normalize_optional_date(None), Ok(None));
    assert_eq!(
        normalize_date_range(Some("x"), None),
        Err(ValidationError::InvalidCalendarDate)
    );
}

#[test]
fn normalizing_a_normalized_range_changes_nothing() {
    let (start, end) = normalize_date_range(Some(" 2027-04-02"), Some("  ")).unwrap();
    assert_eq!(start.as_deref(), Some("2027-04-02"));
    assert_eq!(end, None);
    let again = normalize_date_range(start.as_deref(), end.as_deref()).unwrap();
    assert_eq!(again, (start, end));
    let (start, end) = normalize_date_range(Some("2027-04-02"), Some(" 2027-04-16 ")).unwrap();
    let again = normalize_date_range(start.as_deref(), end.as_deref()).unwrap();
    assert_eq!(again, (start, end));
}

#[test]
fn calendar_event_errors_come_in_order() {
    assert_eq!(
        NewCalendarEvent::new(1, "Trip", "2027-04-05", "2027-04-02"),
        Err(ValidationError::CalendarEndBeforeStart)
    );
    assert_eq!(
        NewCalendarEvent::new(1, "Trip", "2027-04-32", "2027-04-02"),
        Err(ValidationError::InvalidCalendarDate)
    );
    let event = NewCalendarEvent::new(7, "  Great Wall ", " 2027-4-2 ".trim(), "2027-04-03");
    assert_eq!(event, Err(ValidationError::InvalidCalendarDate));
    let event = NewCalendarEvent::new(7, "  Great Wall ", " 2027-04-02 ", "2027-04-03").unwrap();
    assert_eq!(event.name, "Great Wall");
    assert_eq!(event.start_date, "2027-04-02");
    let update = UpdateCalendarEvent::new(3, 7, "Dinner", "2027-04-03", "2027-04-03").unwrap();
    assert_eq!(update.id, 3);
    assert_eq!(update.trip_id, 7);
}

#[test]
fn document_names_are_trimmed_and_required() {
    let update = UpdateTravelDocument::new(4, "  Hotel  ", "notes".to_string(), None).unwrap();
    assert_eq!(update.name, "Hotel");
    assert_eq!(
        UpdateTravelDocument::new(4, "\u{3000}", String::new(), None),
        Err(ValidationError::BlankDocumentName)
    );
}

#[test]
fn trip_labels_and_outstanding_counts() {
    let trip = Trip {
        id: 1,
        name: "Beijing".to_string(),
        start_date: Some("2027-04-02".to_string()),
        end_date: None,
        created_at: 0,
        updated_at: 0,
    };
    assert_eq!(trip.date_range_label().as_deref(), Some("Starts April 2 2027"));
    let overview = TripOverview {
        trip,
        checklist_total: 5,
        checklist_completed: 2,
        document_count: 1,
    };
    assert_eq!(overview.checklist_outstanding(), 3);
    assert_eq!(
        Trip::normalize_date_range(Some("2027-05-01"), Some("2027-05-05")).unwrap(),
        (Some("2027-05-01".to_string()), Some("2027-05-05".to_string()))
    );
}

#[test]
fn clock_readings_map_to_their_day() {
    assert_eq!(date_of_clock(None), CalendarDate { year: 1970, month: 1, day: 1 });
    assert_eq!(date_of_clock(Some(0)), CalendarDate { year: 1970, month: 1, day: 1 });
    assert_eq!(date_of_clock(Some(86_399)), CalendarDate { year: 1970, month: 1, day: 1 });
    assert_eq!(date_of_clock(Some(86_400)), CalendarDate { year: 1970, month: 1, day: 2 });
    assert_eq!(
        date_of_clock(Some(1_800_000_000)),
        CalendarDate { year: 2027, month: 1, day: 15 }
    );
    assert!(CalendarDate::today().year >= 1970);
}
