use nixcore::alarm::{previous_from_raw, AlarmSlot};

#[test]
fn test_alarm() {
    let mut slot = AlarmSlot::new();
    // Set an alarm.
    assert_eq!(slot.set(60), None);
    // Overwriting an alarm should return the old alarm.
    assert_eq!(slot.set(1), Some(60));
    // The alarm goes off within two seconds.
    assert_eq!(slot.elapse(2), true);
    assert_eq!(slot.pending(), None);
}

#[test]
fn test_canceling_alarm() {
    let mut slot = AlarmSlot::new();
    assert_eq!(slot.cancel(), None);
    assert_eq!(slot.set(60), None);
    assert_eq!(slot.cancel(), Some(60));
}

#[test]
fn canceled_alarm_never_fires() {
    let mut slot = AlarmSlot::new();
    slot.set(5);
    slot.cancel();
    assert!(!slot.elapse(1000));
}

#[test]
fn alarm_counts_down() {
    let mut slot = AlarmSlot::new();
    slot.set(10);
    assert!(!slot.elapse(4));
    assert_eq!(slot.pending(), Some(6));
    assert!(slot.elapse(6));
    assert!(!slot.elapse(6));
}

#[test]
fn raw_alarm_results() {
    assert_eq!(previous_from_raw(0), None);
    assert_eq!(previous_from_raw(60), Some(60));
}
