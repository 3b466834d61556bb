use battery_applet::model::{AppModel, AppMsg, ControlIntent, ControlTarget, Effect};
use battery_applet::percent::Percent;
use battery_applet::property::Property;
use battery_applet::resolve::{Progress, Stage, SyncError};

fn percent(value: f64) -> Percent {
    Percent::from_bits(value.to_bits())
}

fn assert_defaults(model: &AppModel) {
    assert_eq!(model.snapshot().icon_name(), "battery-symbolic");
    assert_eq!(model.snapshot().battery_percent().to_bits(), 0.0f64.to_bits());
    assert_eq!(model.snapshot().time_remaining(), 0);
}

#[test]
fn the_model_starts_with_the_defaults_and_no_device() {
    let model = AppModel::init();
    assert_defaults(&model);
    assert_eq!(f64::from_bits(model.display_brightness().to_bits()), 0.0);
    assert_eq!(f64::from_bits(model.keyboard_brightness().to_bits()), 0.0);
    assert!(model.device().is_none());
}

#[test]
fn without_a_device_a_recompute_request_does_nothing() {
    let mut model = AppModel::init();
    for _ in 0..5 {
        assert_eq!(model.update(AppMsg::UpdateProperties), Effect::Idle);
        assert_defaults(&model);
        assert!(model.device().is_none());
    }
}

#[test]
fn after_a_connect_failure_the_snapshot_stays_at_its_defaults() {
    let progress = Progress::begin().advance(false);
    assert_eq!(progress, Progress::Failed(SyncError::Connect));
    // No device arrives; the sliders and recompute requests still do.
    let mut model = AppModel::init();
    assert_eq!(model.update(AppMsg::SetDisplayBrightness(percent(30.0))), Effect::Idle);
    assert_eq!(model.update(AppMsg::UpdateProperties), Effect::Idle);
    assert_eq!(model.update(AppMsg::SetKeyboardBrightness(percent(70.0))), Effect::Idle);
    assert_eq!(model.update(AppMsg::UpdateProperties), Effect::Idle);
    assert_defaults(&model);
    assert!(model.device().is_none());
}

#[test]
fn display_brightness_message_sets_the_display_value_only() {
    let mut model = AppModel::init();
    assert_eq!(model.update(AppMsg::SetDisplayBrightness(percent(55.0))), Effect::Idle);
    assert_eq!(f64::from_bits(model.display_brightness().to_bits()), 55.0);
    assert_eq!(f64::from_bits(model.keyboard_brightness().to_bits()), 0.0);
    assert_defaults(&model);
}

#[test]
fn keyboard_brightness_message_sets_the_keyboard_value_only() {
    let mut model = AppModel::init();
    assert_eq!(model.update(AppMsg::SetKeyboardBrightness(percent(100.0))), Effect::Idle);
    assert_eq!(f64::from_bits(model.keyboard_brightness().to_bits()), 100.0);
    assert_eq!(f64::from_bits(model.display_brightness().to_bits()), 0.0);
    assert_defaults(&model);
}

#[test]
fn an_intent_sets_the_value_shown_for_its_target() {
    let mut model = AppModel::init();
    model.apply(ControlIntent { target: ControlTarget::DisplayBrightness, value: percent(25.0) });
    model.apply(ControlIntent { target: ControlTarget::KeyboardBrightness, value: percent(75.0) });
    assert_eq!(f64::from_bits(model.display_brightness().to_bits()), 25.0);
    assert_eq!(f64::from_bits(model.keyboard_brightness().to_bits()), 75.0);
    model.apply(ControlIntent { target: ControlTarget::DisplayBrightness, value: percent(0.0) });
    assert_eq!(f64::from_bits(model.display_brightness().to_bits()), 0.0);
    assert_eq!(f64::from_bits(model.keyboard_brightness().to_bits()), 75.0);
    assert_defaults(&model);
}

#[test]
fn properties_have_the_names_of_the_power_service() {
    assert_eq!(Property::IconName.name(), "IconName");
    assert_eq!(Property::Percentage.name(), "Percentage");
    assert_eq!(Property::TimeToEmpty.name(), "TimeToEmpty");
}

#[test]
fn the_steps_come_in_their_order() {
    let progress = Progress::begin();
    assert_eq!(progress, Progress::Next(Stage::Connect));
    let progress = progress.advance(true);
    assert_eq!(progress, Progress::Next(Stage::LocateDevice));
    let progress = progress.advance(true);
    assert_eq!(progress, Progress::Next(Stage::BindDevice));
    let progress = progress.advance(true);
    assert_eq!(progress, Progress::Resolved);
}

#[test]
fn a_failed_connect_is_a_connect_error() {
    assert_eq!(Progress::begin().advance(false), Progress::Failed(SyncError::Connect));
}

#[test]
fn a_failed_later_step_is_a_resolve_error() {
    let connected = Progress::begin().advance(true);
    assert_eq!(connected.advance(false), Progress::Failed(SyncError::Resolve));
    let located = connected.advance(true);
    assert_eq!(located.advance(false), Progress::Failed(SyncError::Resolve));
}

#[test]
fn nothing_is_tried_again_after_the_attempt_is_over() {
    let failed = Progress::begin().advance(false);
    assert_eq!(failed.advance(true), failed);
    assert_eq!(failed.advance(true).advance(true).advance(true), failed);
    let resolved = Progress::begin().advance(true).advance(true).advance(true);
    assert_eq!(resolved.advance(false), Progress::Resolved);
    assert_eq!(resolved.advance(true), Progress::Resolved);
}
