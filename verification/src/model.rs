//! The applet's state and its reaction to each message.

use vstd::prelude::*;
use crate::device::read_properties;
use crate::merger::{MergerView, SourceEvent, lemma_merged_sequence};
use crate::percent::Percent;
use crate::snapshot::{ReadingsView, SnapshotView, StateSnapshot};

verus! {

/// What a brightness intent is aimed at.
#[derive(Clone, Copy, Debug, PartialEq, Eq, Structural)]
pub enum ControlTarget {
    DisplayBrightness,
    KeyboardBrightness,
}

/// A wish of the user to set a brightness.
#[derive(Clone, Copy, Debug, PartialEq, Eq, Structural)]
pub struct ControlIntent {
    pub target: ControlTarget,
    pub value: Percent,
}

/// A message to the applet.
pub enum AppMsg {
    /// The user moved the display brightness slider.
    SetDisplayBrightness(Percent),
    /// The user moved the keyboard brightness slider.
    SetKeyboardBrightness(Percent),
    /// The display device was resolved.
    SetDevice(zbus::Proxy<'static>),
    /// Something may have changed: recompute the snapshot now.
    UpdateProperties,
}

/// What handling a message did, or leaves for the caller to do.
#[derive(Clone, Copy, Debug, PartialEq, Eq, Structural)]
pub enum Effect {
    /// Nothing was read and nothing is left to do.
    Idle,
    /// A device was bound: the caller subscribes to the changes of its
    /// observed properties.
    Subscribe,
    /// The observed properties were read once from the device's cache and
    /// the snapshot was recomputed from what the reads gave.
    Recomputed,
}

/// The applet's state.
pub struct AppModel {
    snapshot: StateSnapshot,
    display_brightness: Percent,
    keyboard_brightness: Percent,
    device: Option<zbus::Proxy<'static>>,
}

/// The applet's state as a mathematical value.
pub ghost struct ModelView {
    pub snapshot: SnapshotView,
    pub display_brightness: Percent,
    pub keyboard_brightness: Percent,
    pub device: Option<zbus::Proxy<'static>>,
}

impl View for AppModel {
    type V = ModelView;

    closed spec fn view(&self) -> ModelView {
        ModelView {
            snapshot: self.snapshot@,
            display_brightness: self.display_brightness,
            keyboard_brightness: self.keyboard_brightness,
            device: self.device,
        }
    }
}

impl ModelView {
    /// The state at start: the default snapshot, both sliders at zero, no
    /// device.
    pub open spec fn initial() -> ModelView {
        ModelView {
            snapshot: SnapshotView::initial(),
            display_brightness: Percent { bits: crate::percent::ZERO_BITS },
            keyboard_brightness: Percent { bits: crate::percent::ZERO_BITS },
            device: None,
        }
    }

    /// The state after a brightness intent: the value shown for its target
    /// is the intent's value.  Nothing else changes.
    pub open spec fn intended(self, intent: ControlIntent) -> ModelView {
        match intent.target {
            ControlTarget::DisplayBrightness => ModelView {
                display_brightness: intent.value,
                ..self
            },
            ControlTarget::KeyboardBrightness => ModelView {
                keyboard_brightness: intent.value,
                ..self
            },
        }
    }

    /// The state after `msg`, where `readings` is what the device's cache
    /// gives at that moment.  Only a recomputation with a device bound
    /// looks at `readings`.
    pub open spec fn after(self, msg: AppMsg, readings: ReadingsView) -> ModelView {
        match msg {
            AppMsg::SetDisplayBrightness(value) => self.intended(
                ControlIntent { target: ControlTarget::DisplayBrightness, value },
            ),
            AppMsg::SetKeyboardBrightness(value) => self.intended(
                ControlIntent { target: ControlTarget::KeyboardBrightness, value },
            ),
            AppMsg::SetDevice(device) => ModelView { device: Some(device), ..self },
            AppMsg::UpdateProperties => if self.device is Some {
                ModelView { snapshot: self.snapshot.applied(readings), ..self }
            } else {
                self
            },
        }
    }

    /// The state after the messages `msgs`, in their order, where
    /// `rounds[i]` is what the device's cache gives when `msgs[i]` is
    /// handled.
    pub open spec fn after_all(self, msgs: Seq<AppMsg>, rounds: Seq<ReadingsView>) -> ModelView
        recommends
            msgs.len() == rounds.len(),
        decreases msgs.len(),
    {
        if msgs.len() == 0 {
            self
        } else {
            self.after_all(msgs.drop_last(), rounds.drop_last()).after(msgs.last(), rounds.last())
        }
    }

    /// What handling `msg` in this state does.
    pub open spec fn effect_of(self, msg: AppMsg) -> Effect {
        match msg {
            AppMsg::SetDevice(_) => Effect::Subscribe,
            AppMsg::UpdateProperties => if self.device is Some {
                Effect::Recomputed
            } else {
                Effect::Idle
            },
            _ => Effect::Idle,
        }
    }
}

impl AppModel {
    /// The applet's state at start.
    pub fn init() -> (model: AppModel)
        ensures
            model@ == ModelView::initial(),
    {
        AppModel {
            snapshot: StateSnapshot::initial(),
            display_brightness: Percent::zero(),
            keyboard_brightness: Percent::zero(),
            device: None,
        }
    }

    /// The device state to show.
    pub fn snapshot(&self) -> (snapshot: &StateSnapshot)
        ensures
            snapshot@ == self@.snapshot,
    {
        &self.snapshot
    }

    /// The display brightness to show.
    pub fn display_brightness(&self) -> (value: Percent)
        ensures
            value == self@.display_brightness,
    {
        self.display_brightness
    }

    /// The keyboard brightness to show.
    pub fn keyboard_brightness(&self) -> (value: Percent)
        ensures
            value == self@.keyboard_brightness,
    {
        self.keyboard_brightness
    }

    /// The bound device, if one was resolved.
    pub fn device(&self) -> (device: Option<&zbus::Proxy<'static>>)
        ensures
            device is Some == self@.device is Some,
            device matches Some(d) ==> Some(*d) == self@.device,
    {
        self.device.as_ref()
    }

    /// Takes a brightness intent: the value shown for its target becomes the
    /// intent's value.  No brightness service is called.
    pub fn apply(&mut self, intent: ControlIntent)
        ensures
            final(self)@ == old(self)@.intended(intent),
    {
        match intent.target {
            ControlTarget::DisplayBrightness => {
                self.display_brightness = intent.value;
            },
            ControlTarget::KeyboardBrightness => {
                self.keyboard_brightness = intent.value;
            },
        }
    }

    /// Handles one message.
    ///
    /// A brightness message is taken as the intent it stands for. A resolved
    /// device is bound, and the caller is told to subscribe.  A request to
    /// recompute reads the three observed properties from the bound
    /// device's cache and applies them field by field; with no device bound
    /// it does nothing.  What the cache gives is not known here, so of a
    /// recomputation the contract says that the new state is the old one
    /// after some round of reads.
    pub fn update(&mut self, msg: AppMsg) -> (effect: Effect)
        ensures
            effect == old(self)@.effect_of(msg),
            exists|readings: ReadingsView| final(self)@ == old(self)@.after(msg, readings),
            effect != Effect::Recomputed ==> forall|readings: ReadingsView|
                final(self)@ == #[trigger] old(self)@.after(msg, readings),
    {
        match msg {
            AppMsg::SetDisplayBrightness(value) => {
                self.apply(ControlIntent { target: ControlTarget::DisplayBrightness, value });
                assert(self@ == old(self)@.after(msg, arbitrary()));
                Effect::Idle
            },
            AppMsg::SetKeyboardBrightness(value) => {
                self.apply(ControlIntent { target: ControlTarget::KeyboardBrightness, value });
                assert(self@ == old(self)@.after(msg, arbitrary()));
                Effect::Idle
            },
            AppMsg::SetDevice(device) => {
                self.device = Some(device);
                assert(self@ == old(self)@.after(msg, arbitrary()));
                Effect::Subscribe
            },
            AppMsg::UpdateProperties => {
                if let Some(device) = &self.device {
                    let readings = read_properties(device);
                    let ghost round = readings@;
                    self.snapshot.apply(readings);
                    assert(self@ == old(self)@.after(msg, round));
                    Effect::Recomputed
                } else {
                    assert(self@ == old(self)@.after(msg, arbitrary()));
                    Effect::Idle
                }
            },
        }
    }
}

/// As many requests to recompute as `n` says.
pub open spec fn recompute_requests(n: nat) -> Seq<AppMsg> {
    Seq::new(n, |i: int| AppMsg::UpdateProperties)
}

/// Without a device the snapshot stays at its defaults for good: whatever
/// messages arrive, and whatever a cache would give, as long as no device
/// is bound the snapshot is the initial one and no device appears.
pub proof fn lemma_defaults_stay_without_device(msgs: Seq<AppMsg>, rounds: Seq<ReadingsView>)
    requires
        msgs.len() == rounds.len(),
        forall|i: int| 0 <= i < msgs.len() ==> !((#[trigger] msgs[i]) is SetDevice),
    ensures
        ModelView::initial().after_all(msgs, rounds).snapshot == SnapshotView::initial(),
        ModelView::initial().after_all(msgs, rounds).device is None,
    decreases msgs.len(),
{
    if msgs.len() > 0 {
        lemma_defaults_stay_without_device(msgs.drop_last(), rounds.drop_last());
    }
}

/// With a device bound every request to recompute is carried out, each on
/// its own and in the order of the requests: after the requests the
/// snapshot is the old one with every round of reads applied in turn, and
/// nothing but the snapshot has changed.
pub proof fn lemma_each_request_recomputes(model: ModelView, rounds: Seq<ReadingsView>)
    requires
        model.device is Some,
    ensures
        ({
            let end = model.after_all(recompute_requests(rounds.len()), rounds);
            &&& end.snapshot == model.snapshot.applied_all(rounds)
            &&& end.device == model.device
            &&& end.display_brightness == model.display_brightness
            &&& end.keyboard_brightness == model.keyboard_brightness
            &&& end.effect_of(AppMsg::UpdateProperties) == Effect::Recomputed
        }),
    decreases rounds.len(),
{
    if rounds.len() > 0 {
        let earlier = rounds.drop_last();
        lemma_each_request_recomputes(model, earlier);
        assert(recompute_requests(rounds.len()).drop_last() =~= recompute_requests(earlier.len()));
    }
}

/// With a device bound and the merge set up, the snapshot is recomputed
/// once for the initial event and once for every observed change
/// notification, no more and no less: if one request to recompute is sent
/// for each event that the merger released, then the rounds of reads are
/// one more than the observed notifications, and the snapshot is the old
/// one with each of these rounds applied in turn.
pub proof fn lemma_one_recomputation_per_update(
    model: ModelView,
    events: Seq<SourceEvent>,
    rounds: Seq<ReadingsView>,
)
    requires
        model.device is Some,
        MergerView::initial().after_all(events).merged(),
        rounds.len() == MergerView::initial().emitted_all(events).len(),
    ensures
        rounds.len() == 1 + MergerView::initial().observed(events).len(),
        model.after_all(recompute_requests(rounds.len()), rounds).snapshot
            == model.snapshot.applied_all(rounds),
{
    lemma_merged_sequence(events);
    lemma_each_request_recomputes(model, rounds);
}

} // verus!
