use aida::display::{arrow, timestamp_label};
use aida::event::MethodEvent;

#[test]
fn epoch_is_written_as_a_date() {
    assert_eq!(timestamp_label(0), Some("1970-01-01T00:00:00+00:00".to_string()));
}

#[test]
fn whole_seconds_have_no_fraction() {
    assert_eq!(
        timestamp_label(1_662_921_288_000_000),
        Some("2022-09-11T18:34:48+00:00".to_string())
    );
}

#[test]
fn microseconds_are_written_out() {
    assert_eq!(timestamp_label(1_000_444), Some("1970-01-01T00:00:01.000444+00:00".to_string()));
}

#[test]
fn milliseconds_are_written_with_three_digits() {
    assert_eq!(timestamp_label(1_500_000), Some("1970-01-01T00:00:01.500+00:00".to_string()));
}

#[test]
fn time_before_the_epoch_is_written_as_a_date() {
    assert_eq!(
        timestamp_label(-2_208_936_075_000_000),
        Some("1900-01-01T14:38:45+00:00".to_string())
    );
}

#[test]
fn timestamp_out_of_range_has_no_date() {
    assert_eq!(timestamp_label(i64::MAX), None);
    assert_eq!(timestamp_label(i64::MIN), None);
}

#[test]
fn entry_and_exit_have_their_marks() {
    let entry = MethodEvent::Entry {
        timestamp: 0,
        name: "run".to_string(),
        class_name: "com.example.Foo".to_string(),
    };
    let exit = MethodEvent::Exit {
        timestamp: 0,
        name: "run".to_string(),
        class_name: "com.example.Foo".to_string(),
    };
    assert_eq!(arrow(&entry), "->");
    assert_eq!(arrow(&exit), "<-");
}
