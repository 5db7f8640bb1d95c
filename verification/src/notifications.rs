//! Alerts at usage thresholds: which thresholds are due, and what an alert
//! says. Each threshold alerts once until the state is reset.

use crate::text::{decimal, decimal_text, join2};
use std::collections::HashSet;
use vstd::prelude::*;
use vstd::string::*;

verus! {

broadcast use vstd::std_specs::hash::group_hash_axioms;

/// Whether to alert, and at which percentages of usage.
#[derive(Debug, Clone)]
pub struct NotificationSettings {
    pub enabled: bool,
    pub thresholds: Vec<u32>,
    pub sound_enabled: bool,
}

/// An alert that was shown.
#[derive(Debug, Clone)]
pub struct NotificationRecord {
    pub timestamp: String,
    pub title: String,
    pub message: String,
    pub level: String,
}

/// The thresholds that have alerted already.
#[derive(Debug)]
pub struct NotificationState {
    notified_thresholds: HashSet<u32>,
}

/// An alert to show.
#[derive(Debug, Clone)]
pub struct Alert {
    pub threshold: u32,
    pub title: String,
    pub body: String,
}

impl View for NotificationState {
    type V = Set<u32>;

    closed spec fn view(&self) -> Set<u32> {
        self.notified_thresholds@
    }
}

impl Default for NotificationSettings {
    /// Alerts on, at 80, 90 and 100 percent, with sound.
    fn default() -> (s: NotificationSettings)
        ensures
            s.enabled,
            s.thresholds@ == seq![80u32, 90u32, 100u32],
            s.sound_enabled,
    {
        let mut thresholds: Vec<u32> = Vec::new();
        thresholds.push(80);
        thresholds.push(90);
        thresholds.push(100);
        assert(thresholds@ =~= seq![80u32, 90u32, 100u32]);
        NotificationSettings { enabled: true, thresholds, sound_enabled: true }
    }
}

/// The title of the alert for a threshold.
pub open spec fn title_of(threshold: u32) -> Seq<char> {
    if threshold == 100 {
        "\u{1F6AB} Usage Limit Reached"@
    } else if threshold >= 90 {
        "\u{26A0}\u{FE0F} High Usage Warning"@
    } else {
        "\u{1F4CA} Usage Alert"@
    }
}

/// The text of the alert for a threshold.
pub open spec fn body_of(threshold: u32) -> Seq<char> {
    "You've used "@ + decimal(threshold as nat) + "% of your usage cap."@
}

/// Whether the threshold at index `i` is due: alerts are on, usage has
/// reached the threshold, and the threshold has not alerted yet.
pub open spec fn due(settings: NotificationSettings, notified: Set<u32>, percent: u32, i: int) -> bool {
    &&& settings.enabled
    &&& 0 <= i < settings.thresholds@.len()
    &&& percent >= settings.thresholds@[i]
    &&& !notified.contains(settings.thresholds@[i])
}

impl NotificationState {
    pub fn new() -> (s: NotificationState)
        ensures
            s@ == Set::<u32>::empty(),
    {
        NotificationState { notified_thresholds: HashSet::new() }
    }

    pub fn has_notified(&self, threshold: u32) -> (r: bool)
        ensures
            r == self@.contains(threshold),
    {
        self.notified_thresholds.contains(&threshold)
    }

    pub fn mark_notified(&mut self, threshold: u32)
        ensures
            final(self)@ == old(self)@.insert(threshold),
    {
        self.notified_thresholds.insert(threshold);
    }

    pub fn reset(&mut self)
        ensures
            final(self)@ == Set::<u32>::empty(),
    {
        self.notified_thresholds.clear();
    }
}

/// The alert for a threshold.
pub fn alert_for(threshold: u32) -> (a: Alert)
    ensures
        a.threshold == threshold,
        a.title@ == title_of(threshold),
        a.body@ == body_of(threshold),
{
    let title = if threshold == 100 {
        String::from_str("\u{1F6AB} Usage Limit Reached")
    } else if threshold >= 90 {
        String::from_str("\u{26A0}\u{FE0F} High Usage Warning")
    } else {
        String::from_str("\u{1F4CA} Usage Alert")
    };
    let mut body = join2("You've used ", decimal_text(threshold as u64).as_str());
    body.append("% of your usage cap.");
    Alert { threshold, title, body }
}

/// The index of the first threshold from `from` on that is due at a usage of
/// `percent` whole percent, or `None` where none is.
///
/// A caller that shows the alert and marks the threshold before it asks for
/// the next index alerts each threshold once, in the order of the settings.
pub fn next_alert(
    settings: &NotificationSettings,
    state: &NotificationState,
    percent: u32,
    from: usize,
) -> (r: Option<usize>)
    ensures
        r matches Some(i) ==> from <= i && due(*settings, state@, percent, i as int),
        r matches Some(i) ==> forall|j: int| from <= j < i ==> !due(*settings, state@, percent, j),
        r is None ==> forall|j: int| from <= j ==> !due(*settings, state@, percent, j),
{
    if !settings.enabled {
        return None;
    }
    let mut i: usize = from;
    while i < settings.thresholds.len()
        invariant
            settings.enabled,
            from <= i,
            forall|j: int| from <= j < i ==> !due(*settings, state@, percent, j),
        decreases settings.thresholds.len() - i,
    {
        let threshold = settings.thresholds[i];
        if percent >= threshold && !state.has_notified(threshold) {
            return Some(i);
        }
        i += 1;
    }
    None
}

} // verus!
