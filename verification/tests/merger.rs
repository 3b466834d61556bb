use battery_applet::merger::{Merger, SourceEvent, Subscriptions, Update};
use battery_applet::property::Property;

fn run(merger: &mut Merger, events: &[SourceEvent]) -> Vec<Update> {
    let mut released = Vec::new();
    for event in events {
        released.extend(merger.handle(*event));
    }
    released
}

fn merged() -> Merger {
    let mut merger = Merger::new();
    let released = run(
        &mut merger,
        &[
            SourceEvent::Subscribed(Property::IconName),
            SourceEvent::Subscribed(Property::Percentage),
            SourceEvent::Subscribed(Property::TimeToEmpty),
        ],
    );
    assert_eq!(released, vec![Update::Initial]);
    merger
}

#[test]
fn nothing_is_released_before_all_subscriptions_stand() {
    let mut merger = Merger::new();
    assert!(!merger.is_merged());
    assert_eq!(merger.handle(SourceEvent::Subscribed(Property::IconName)), vec![]);
    assert_eq!(merger.handle(SourceEvent::Subscribed(Property::Percentage)), vec![]);
    assert!(!merger.is_merged());
}

#[test]
fn setup_releases_one_initial_update_without_any_change() {
    let mut merger = Merger::new();
    let released = run(
        &mut merger,
        &[
            SourceEvent::Subscribed(Property::IconName),
            SourceEvent::Subscribed(Property::Percentage),
            SourceEvent::Subscribed(Property::TimeToEmpty),
        ],
    );
    assert_eq!(released, vec![Update::Initial]);
    assert!(merger.is_merged());
}

#[test]
fn subscription_order_does_not_matter() {
    let all = [Property::IconName, Property::Percentage, Property::TimeToEmpty];
    for a in all {
        for b in all {
            for c in all {
                if a == b || b == c || a == c {
                    continue;
                }
                let mut merger = Merger::new();
                let released = run(
                    &mut merger,
                    &[
                        SourceEvent::Subscribed(a),
                        SourceEvent::Subscribed(b),
                        SourceEvent::Subscribed(c),
                    ],
                );
                assert_eq!(released, vec![Update::Initial]);
            }
        }
    }
}

#[test]
fn a_repeated_subscription_releases_nothing() {
    let mut merger = Merger::new();
    let released = run(
        &mut merger,
        &[
            SourceEvent::Subscribed(Property::IconName),
            SourceEvent::Subscribed(Property::IconName),
            SourceEvent::Subscribed(Property::Percentage),
        ],
    );
    assert_eq!(released, vec![]);
    assert!(!merger.is_merged());
    let mut merger = merged();
    assert_eq!(merger.handle(SourceEvent::Subscribed(Property::Percentage)), vec![]);
    assert!(merger.is_merged());
}

#[test]
fn changes_a_b_a_give_three_updates_in_that_order() {
    let mut merger = merged();
    let released = run(
        &mut merger,
        &[
            SourceEvent::Changed(Property::IconName),
            SourceEvent::Changed(Property::Percentage),
            SourceEvent::Changed(Property::IconName),
        ],
    );
    assert_eq!(
        released,
        vec![
            Update::Change(Property::IconName),
            Update::Change(Property::Percentage),
            Update::Change(Property::IconName),
        ]
    );
}

#[test]
fn equal_changes_are_not_merged_into_one() {
    let mut merger = merged();
    let released = run(
        &mut merger,
        &[
            SourceEvent::Changed(Property::Percentage),
            SourceEvent::Changed(Property::Percentage),
            SourceEvent::Changed(Property::Percentage),
            SourceEvent::Changed(Property::Percentage),
        ],
    );
    assert_eq!(released, vec![Update::Change(Property::Percentage); 4]);
}

#[test]
fn simultaneous_changes_are_released_in_either_arrival_order() {
    let mut merger = merged();
    let released = run(
        &mut merger,
        &[SourceEvent::Changed(Property::IconName), SourceEvent::Changed(Property::Percentage)],
    );
    assert_eq!(
        released,
        vec![Update::Change(Property::IconName), Update::Change(Property::Percentage)]
    );
    let mut merger = merged();
    let released = run(
        &mut merger,
        &[SourceEvent::Changed(Property::Percentage), SourceEvent::Changed(Property::IconName)],
    );
    assert_eq!(
        released,
        vec![Update::Change(Property::Percentage), Update::Change(Property::IconName)]
    );
}

#[test]
fn an_early_change_is_held_back_behind_the_initial_update() {
    let mut merger = Merger::new();
    assert_eq!(merger.handle(SourceEvent::Subscribed(Property::IconName)), vec![]);
    assert_eq!(merger.handle(SourceEvent::Changed(Property::IconName)), vec![]);
    assert_eq!(merger.handle(SourceEvent::Subscribed(Property::Percentage)), vec![]);
    assert_eq!(merger.handle(SourceEvent::Changed(Property::Percentage)), vec![]);
    assert_eq!(merger.handle(SourceEvent::Changed(Property::IconName)), vec![]);
    assert_eq!(
        merger.handle(SourceEvent::Subscribed(Property::TimeToEmpty)),
        vec![
            Update::Initial,
            Update::Change(Property::IconName),
            Update::Change(Property::Percentage),
            Update::Change(Property::IconName),
        ]
    );
    assert_eq!(
        merger.handle(SourceEvent::Changed(Property::TimeToEmpty)),
        vec![Update::Change(Property::TimeToEmpty)]
    );
}

#[test]
fn a_change_without_a_subscription_is_not_observed() {
    let mut merger = Merger::new();
    assert_eq!(merger.handle(SourceEvent::Changed(Property::TimeToEmpty)), vec![]);
    let released = run(
        &mut merger,
        &[
            SourceEvent::Subscribed(Property::IconName),
            SourceEvent::Changed(Property::Percentage),
            SourceEvent::Subscribed(Property::Percentage),
            SourceEvent::Subscribed(Property::TimeToEmpty),
        ],
    );
    assert_eq!(released, vec![Update::Initial]);
}

#[test]
fn the_initial_update_is_released_once() {
    let mut merger = merged();
    let released = run(
        &mut merger,
        &[
            SourceEvent::Subscribed(Property::IconName),
            SourceEvent::Changed(Property::IconName),
            SourceEvent::Subscribed(Property::TimeToEmpty),
            SourceEvent::Changed(Property::TimeToEmpty),
        ],
    );
    assert_eq!(
        released,
        vec![Update::Change(Property::IconName), Update::Change(Property::TimeToEmpty)]
    );
}

#[test]
fn subscriptions_are_a_set() {
    let mut subscribed =
        Subscriptions { icon_name: false, percentage: false, time_to_empty: false };
    assert!(!subscribed.contains(Property::Percentage));
    assert!(!subscribed.is_complete());
    subscribed.insert(Property::Percentage);
    subscribed.insert(Property::Percentage);
    assert!(subscribed.contains(Property::Percentage));
    assert!(!subscribed.contains(Property::IconName));
    assert!(!subscribed.contains(Property::TimeToEmpty));
    subscribed.insert(Property::IconName);
    assert!(!subscribed.is_complete());
    subscribed.insert(Property::TimeToEmpty);
    assert!(subscribed.is_complete());
    assert_eq!(
        subscribed,
        Subscriptions { icon_name: true, percentage: true, time_to_empty: true }
    );
}
