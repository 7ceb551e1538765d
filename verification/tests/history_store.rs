use slint::{MapModel, Model, ReverseModel, VecModel};
use std::rc::Rc;
use telemetry_bridge::history::{History, HistoryRecord};
use telemetry_bridge::snapshot::Snapshot;

fn record(temperature: f32, humidity: f32, seconds: i64) -> HistoryRecord {
    HistoryRecord {
        temperature: temperature.to_bits(),
        humidity: humidity.to_bits(),
        timestamp_display: format!("{seconds}s"),
    }
}

fn fields(record: &HistoryRecord) -> (f32, f32, String) {
    (
        f32::from_bits(record.temperature),
        f32::from_bits(record.humidity),
        record.timestamp_display.clone(),
    )
}

#[test]
fn a_new_history_is_empty() {
    let history = History::new();
    assert_eq!(history.len(), 0);
    assert!(history.is_empty());
    assert!(history.get(0).is_none());
    assert!(history.newest(0).is_none());
    assert!(history.newest_first_records().is_empty());
}

#[test]
fn records_are_kept_in_arrival_order() {
    let mut history = History::new();
    history.append(record(20.0, 50.0, 2));
    history.append(record(21.0, 51.0, 4));
    history.append(record(22.0, 52.0, 6));
    assert_eq!(history.len(), 3);
    assert!(!history.is_empty());
    assert_eq!(fields(&history.get(0).unwrap()), (20.0, 50.0, "2s".to_string()));
    assert_eq!(fields(&history.get(1).unwrap()), (21.0, 51.0, "4s".to_string()));
    assert_eq!(fields(&history.get(2).unwrap()), (22.0, 52.0, "6s".to_string()));
    assert!(history.get(3).is_none());
    assert!(history.get(usize::MAX).is_none());
}

#[test]
fn the_projection_lists_the_newest_first() {
    let mut history = History::new();
    history.append(record(20.0, 50.0, 2));
    history.append(record(21.0, 51.0, 4));
    history.append(record(22.0, 52.0, 6));
    assert_eq!(fields(&history.newest(0).unwrap()), (22.0, 52.0, "6s".to_string()));
    assert_eq!(fields(&history.newest(1).unwrap()), (21.0, 51.0, "4s".to_string()));
    assert_eq!(fields(&history.newest(2).unwrap()), (20.0, 50.0, "2s".to_string()));
    assert!(history.newest(3).is_none());
    assert!(history.newest(usize::MAX).is_none());
}

#[test]
fn the_copied_projection_is_the_reverse_of_the_store() {
    let mut history = History::new();
    for k in 0..25 {
        history.append(record(k as f32, 100.0 - k as f32, 2 * k));
    }
    let newest_first = history.newest_first_records();
    assert_eq!(newest_first.len(), 25);
    for (i, found) in newest_first.iter().enumerate() {
        let stored = history.get(24 - i).unwrap();
        assert_eq!(fields(found), fields(&stored));
        assert_eq!(fields(found), fields(&history.newest(i).unwrap()));
    }
    assert_eq!(fields(&newest_first[0]), (24.0, 76.0, "48s".to_string()));
    assert_eq!(fields(&newest_first[24]), (0.0, 100.0, "0s".to_string()));
}

#[test]
fn appending_leaves_earlier_records_alone() {
    let mut history = History::new();
    history.append(record(1.0, 2.0, 3));
    let before = fields(&history.get(0).unwrap());
    history.append(record(4.0, 5.0, 6));
    assert_eq!(fields(&history.get(0).unwrap()), before);
    assert_eq!(history.len(), 2);
}

#[test]
fn the_handle_shares_the_store_and_follows_appends() {
    let mut history = History::new();
    let handle = history.projection();
    assert_eq!(handle.row_count(), 0);
    history.append(record(20.0, 50.0, 2));
    history.append(record(21.0, 51.0, 4));
    assert_eq!(handle.row_count(), 2);
    assert_eq!(fields(&handle.row_data(0).unwrap()), (21.0, 51.0, "4s".to_string()));
    assert_eq!(fields(&handle.row_data(1).unwrap()), (20.0, 50.0, "2s".to_string()));
    assert!(handle.row_data(2).is_none());
}

#[test]
fn the_handle_cannot_change_the_store() {
    let mut history = History::new();
    history.append(record(20.0, 50.0, 2));
    history.append(record(21.0, 51.0, 4));
    let handle = history.projection();
    handle.set_row_data(0, record(99.0, 99.0, 99));
    handle.set_row_data(1, record(98.0, 98.0, 98));
    assert_eq!(history.len(), 2);
    assert_eq!(fields(&history.get(0).unwrap()), (20.0, 50.0, "2s".to_string()));
    assert_eq!(fields(&history.get(1).unwrap()), (21.0, 51.0, "4s".to_string()));
    assert_eq!(fields(&handle.row_data(0).unwrap()), (21.0, 51.0, "4s".to_string()));
}

#[test]
fn a_record_is_made_from_a_snapshot() {
    let snapshot = Snapshot {
        valid: true,
        temperature: 18.5f32.to_bits(),
        humidity: 60.2f32.to_bits(),
        timestamp: 4_000_000,
    };
    let made = HistoryRecord::from_snapshot(&snapshot);
    assert_eq!(fields(&made), (18.5, 60.2, "4s".to_string()));
    let copy = made.clone();
    assert_eq!(fields(&copy), fields(&made));
}

#[test]
fn the_handle_refuses_to_add_or_remove_rows() {
    let mut history = History::new();
    history.append(record(20.0, 50.0, 2));
    history.append(record(21.0, 51.0, 4));
    let handle = history.projection();

    assert!(handle.push_row(record(97.0, 97.0, 97)).is_err());
    assert!(handle.insert_row(0, record(96.0, 96.0, 96)).is_err());
    assert!(handle.insert_row(2, record(95.0, 95.0, 95)).is_err());
    assert!(handle.remove_row(0).is_err());
    assert!(handle.remove_row(1).is_err());

    assert_eq!(handle.row_count(), 2);
    assert_eq!(history.len(), 2);
    assert_eq!(fields(&history.get(0).unwrap()), (20.0, 50.0, "2s".to_string()));
    assert_eq!(fields(&history.get(1).unwrap()), (21.0, 51.0, "4s".to_string()));
    assert_eq!(fields(&history.newest(0).unwrap()), (21.0, 51.0, "4s".to_string()));
    assert_eq!(fields(&handle.row_data(0).unwrap()), (21.0, 51.0, "4s".to_string()));
    assert_eq!(fields(&handle.row_data(1).unwrap()), (20.0, 50.0, "2s".to_string()));
}

#[test]
fn the_handle_cannot_be_turned_back_into_a_writable_model() {
    let mut history = History::new();
    history.append(record(20.0, 50.0, 2));
    let handle = history.projection();
    let any = handle.as_any();
    assert!(any.downcast_ref::<VecModel<HistoryRecord>>().is_none());
    assert!(any.downcast_ref::<ReverseModel<VecModel<HistoryRecord>>>().is_none());
    assert!(any.downcast_ref::<Rc<ReverseModel<VecModel<HistoryRecord>>>>().is_none());
    assert!(any
        .downcast_ref::<MapModel<
            Rc<ReverseModel<VecModel<HistoryRecord>>>,
            fn(HistoryRecord) -> HistoryRecord,
        >>()
        .is_none());
}
