use usage_monitor::notifications::{
    alert_for, next_alert, NotificationRecord, NotificationSettings, NotificationState,
};

#[test]
fn test_notification_state() {
    let mut state = NotificationState::new();

    assert!(!state.has_notified(80));

    state.mark_notified(80);
    assert!(state.has_notified(80));

    state.reset();
    assert!(!state.has_notified(80));
}

#[test]
fn test_notification_settings_default() {
    let settings = NotificationSettings::default();
    assert_eq!(settings.enabled, true);
    assert_eq!(settings.thresholds, vec![80, 90, 100]);
    assert_eq!(settings.sound_enabled, true);
}

#[test]
fn notification_state_keeps_thresholds_apart() {
    let mut state = NotificationState::new();
    state.mark_notified(90);
    state.mark_notified(90);
    assert!(state.has_notified(90));
    assert!(!state.has_notified(80));
    assert!(!state.has_notified(100));
}

#[test]
fn alert_titles_and_bodies() {
    let a = alert_for(100);
    assert_eq!(a.threshold, 100);
    assert_eq!(a.title, "🚫 Usage Limit Reached");
    assert_eq!(a.body, "You've used 100% of your usage cap.");
    assert_eq!(alert_for(90).title, "⚠️ High Usage Warning");
    assert_eq!(alert_for(99).title, "⚠️ High Usage Warning");
    assert_eq!(alert_for(101).title, "⚠️ High Usage Warning");
    assert_eq!(alert_for(89).title, "📊 Usage Alert");
    assert_eq!(alert_for(0).title, "📊 Usage Alert");
    assert_eq!(alert_for(80).body, "You've used 80% of your usage cap.");
    assert_eq!(alert_for(0).body, "You've used 0% of your usage cap.");
}

fn alerts(settings: &NotificationSettings, state: &mut NotificationState, percent: u32) -> Vec<u32> {
    let mut shown = Vec::new();
    let mut from = 0;
    while let Some(i) = next_alert(settings, state, percent, from) {
        let t = settings.thresholds[i];
        shown.push(t);
        state.mark_notified(t);
        from = i + 1;
    }
    shown
}

#[test]
fn alerts_fire_once_per_threshold() {
    let settings = NotificationSettings::default();
    let mut state = NotificationState::new();
    assert_eq!(alerts(&settings, &mut state, 79), Vec::<u32>::new());
    assert_eq!(alerts(&settings, &mut state, 80), vec![80]);
    assert_eq!(alerts(&settings, &mut state, 85), Vec::<u32>::new());
    assert_eq!(alerts(&settings, &mut state, 100), vec![90, 100]);
    assert_eq!(alerts(&settings, &mut state, 150), Vec::<u32>::new());
    state.reset();
    assert_eq!(alerts(&settings, &mut state, 95), vec![80, 90]);
}

#[test]
fn alerts_skip_repeated_thresholds_and_respect_the_switch() {
    let settings =
        NotificationSettings { enabled: true, thresholds: vec![50, 50, 10], sound_enabled: false };
    let mut state = NotificationState::new();
    assert_eq!(alerts(&settings, &mut state, 60), vec![50, 10]);
    let off = NotificationSettings { enabled: false, thresholds: vec![1], sound_enabled: true };
    let mut state = NotificationState::new();
    assert_eq!(next_alert(&off, &state, 100, 0), None);
    assert_eq!(alerts(&off, &mut state, 100), Vec::<u32>::new());
}

#[test]
fn next_alert_starts_where_it_is_told() {
    let settings = NotificationSettings::default();
    let state = NotificationState::new();
    assert_eq!(next_alert(&settings, &state, 100, 0), Some(0));
    assert_eq!(next_alert(&settings, &state, 100, 1), Some(1));
    assert_eq!(next_alert(&settings, &state, 100, 3), None);
    assert_eq!(next_alert(&settings, &state, 100, 99), None);
    assert_eq!(next_alert(&settings, &state, 90, 2), None);
}

#[test]
fn notification_record_holds_its_fields() {
    let r = NotificationRecord {
        timestamp: "t".to_string(),
        title: "a".to_string(),
        message: "b".to_string(),
        level: "info".to_string(),
    };
    let c = r.clone();
    assert_eq!(c.timestamp, "t");
    assert_eq!(c.level, "info");
}
