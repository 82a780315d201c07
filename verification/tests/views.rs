use china_travel_app::components::button::{ButtonSize, ButtonVariant};
use china_travel_app::components::document_pane::truncate;
use china_travel_app::components::linked_text::link_segments;
use china_travel_app::components::toast::{ToastOptions, ToastType};
use china_travel_app::domain::{CalendarDate, CalendarEvent, ChecklistItem};
use china_travel_app::views::calendar::{abbreviate_event_name, event_occurs_on, CalendarMonth};
use china_travel_app::views::checklist::{move_row, reorder_indices};
use std::time::Duration;

const REORDER_ROW_DISTANCE: f64 = 76.0;

fn item(id: i64) -> ChecklistItem {
    ChecklistItem {
        id,
        trip_id: 1,
        text: format!("Item {id}"),
        is_checked: false,
        sort_order: id,
        created_at: 0,
        updated_at: 0,
    }
}

/// The drag of a row from `start_y` to `y`, measured in whole rows as the
/// checklist screen measures it.
fn drag_shift(start_y: f64, y: f64) -> i64 {
    ((y - start_y) / REORDER_ROW_DISTANCE).round() as i64
}

fn ids(items: &[ChecklistItem]) -> Vec<i64> {
    items.iter().map(|item| item.id).collect()
}

fn preview(items: &[ChecklistItem], id: i64, start_y: f64, y: f64) -> Vec<i64> {
    match reorder_indices(&ids(items), id, drag_shift(start_y, y)) {
        Some((from, target)) => ids(&move_row(items.to_vec(), from, target)),
        None => ids(items),
    }
}

fn preview_offset(items: &[ChecklistItem], id: i64, start_y: f64, y: f64) -> f64 {
    let slot = reorder_indices(&ids(items), id, drag_shift(start_y, y))
        .map(|(from, target)| (target as isize - from as isize) as f64 * REORDER_ROW_DISTANCE)
        .unwrap_or_default();
    (y - start_y) - slot
}

#[test]
fn months_roll_over_at_year_boundaries() {
    assert_eq!(
        CalendarMonth { year: 2027, month: 1 }.previous(),
        CalendarMonth { year: 2026, month: 12 }
    );
    assert_eq!(
        CalendarMonth { year: 2027, month: 12 }.next(),
        CalendarMonth { year: 2028, month: 1 }
    );
}

#[test]
fn event_labels_are_unicode_safe_and_events_cover_their_full_range() {
    let event = CalendarEvent {
        id: 1,
        trip_id: 1,
        name: "长城一日游和晚餐".to_string(),
        start_date: "2027-04-02".to_string(),
        end_date: "2027-04-04".to_string(),
        created_at: 0,
        updated_at: 0,
    };
    assert_eq!(abbreviate_event_name(&event.name), event.name);
    assert!(event_occurs_on(
        &event,
        CalendarDate::parse("2027-04-03").unwrap()
    ));
    assert!(!event_occurs_on(
        &event,
        CalendarDate::parse("2027-04-05").unwrap()
    ));
}

#[test]
fn truncation_is_unicode_safe() {
    assert_eq!(truncate("你好世界", 3), "你好世…");
    assert_eq!(truncate("short", 10), "short");
}

#[test]
fn segments_only_link_http_urls_and_preserve_text() {
    let segments =
        link_segments("Visit https://example.test/a, www.example.org/docs and javascript:bad");
    assert_eq!(segments[1].url.as_deref(), Some("https://example.test/a"));
    assert!(segments
        .iter()
        .any(|segment| segment.text == "www.example.org/docs" && segment.url.is_some()));
    assert!(segments
        .iter()
        .any(|segment| segment.text.contains("javascript:bad") && segment.url.is_none()));
}

#[test]
fn multiline_text_is_not_collapsed() {
    let segments = link_segments("one\ntwo https://example.test\nthree");
    assert!(segments.iter().any(|segment| segment.text.contains('\n')));
}

#[test]
fn link_segments_rejoin_to_the_text() {
    let text = "See www.example.org/docs, then ftp://files.test or https://a.test.";
    let segments = link_segments(text);
    let joined: String = segments.iter().map(|segment| segment.text.as_str()).collect();
    assert_eq!(joined, text);
    let www = segments
        .iter()
        .find(|segment| segment.text == "www.example.org/docs")
        .unwrap();
    assert_eq!(www.url.as_deref(), Some("https://www.example.org/docs"));
    assert!(segments
        .iter()
        .filter(|segment| segment.text.starts_with("ftp"))
        .all(|segment| segment.url.is_none()));
}

#[test]
fn preview_replaces_the_dragged_row_with_the_target_row() {
    let items = vec![item(1), item(2), item(3)];
    assert_eq!(
        reorder_indices(&ids(&items), 1, drag_shift(100.0, 176.0)),
        Some((0, 1))
    );
    assert_eq!(preview(&items, 1, 100.0, 176.0), vec![2, 1, 3]);
    assert_eq!(preview_offset(&items, 1, 100.0, 176.0), 0.0);
}

#[test]
fn preview_waits_until_the_drag_reaches_an_adjacent_row() {
    let items = vec![item(1), item(2), item(3)];
    assert_eq!(reorder_indices(&ids(&items), 3, drag_shift(100.0, 63.0)), None);
    assert_eq!(preview(&items, 3, 100.0, 63.0), vec![1, 2, 3]);
    assert_eq!(
        reorder_indices(&ids(&items), 3, drag_shift(100.0, 16.0)),
        Some((2, 1))
    );
    assert_eq!(preview(&items, 3, 100.0, 16.0), vec![1, 3, 2]);
}

#[test]
fn preview_reorders_across_the_full_checklist_with_the_first_displaced_row_in_the_old_slot() {
    let items = (1..=6).map(item).collect::<Vec<_>>();
    let y = 100.0 + (REORDER_ROW_DISTANCE * 5.0);
    assert_eq!(
        reorder_indices(&ids(&items), 1, drag_shift(100.0, y)),
        Some((0, 5))
    );
    assert_eq!(preview(&items, 1, 100.0, y), vec![2, 3, 4, 5, 6, 1]);
    assert_eq!(preview_offset(&items, 1, 100.0, y), 0.0);
}

#[test]
fn reorder_clamps_and_ignores_unknown_rows() {
    let rows = vec![10, 20, 30];
    assert_eq!(reorder_indices(&rows, 10, 99), Some((0, 2)));
    assert_eq!(reorder_indices(&rows, 10, -3), None);
    assert_eq!(reorder_indices(&rows, 40, 1), None);
    assert_eq!(reorder_indices(&rows, 30, i64::MIN), Some((2, 0)));
    let moved = move_row(rows.clone(), 0, 2);
    assert_eq!(moved, vec![20, 30, 10]);
    assert_eq!(move_row(moved, 2, 0), rows);
}

#[test]
fn calendar_month_titles_and_weekdays() {
    let april = CalendarMonth { year: 2027, month: 4 };
    assert_eq!(april.title(), "April 2027");
    assert_eq!(april.days_in_month(), 30);
    assert_eq!(april.first_weekday(), 3);
    assert_eq!(april.next().first_weekday(), (3 + 30) % 7);
    assert_eq!(CalendarMonth { year: 1970, month: 1 }.first_weekday(), 3);
    assert_eq!(CalendarMonth { year: 1, month: 1 }.previous(), CalendarMonth { year: 1, month: 1 });
    assert_eq!(
        CalendarMonth { year: 9999, month: 12 }.next(),
        CalendarMonth { year: 9999, month: 12 }
    );
    let today = CalendarMonth::today();
    assert!((1..=12).contains(&today.month));
}

#[test]
fn style_classes_and_toast_options() {
    assert_eq!(ButtonVariant::default().class(), "primary");
    assert_eq!(ButtonVariant::GhostVariant.class(), "ghost");
    assert_eq!(ButtonSize::default().class(), "default");
    assert_eq!(ButtonSize::IconLg.class(), "icon-lg");
    assert_eq!(ToastType::Warning.as_str(), "warning");
    let options = ToastOptions::new()
        .description("Saved".to_string())
        .duration(Duration::from_secs(3))
        .permanent(true);
    assert_eq!(options.description_text().map(|d| d.as_str()), Some("Saved"));
    assert_eq!(options.display_time(), Some(Duration::from_secs(3)));
    assert!(options.is_permanent());
    assert!(!ToastOptions::default().is_permanent());
}
