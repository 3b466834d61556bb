//! Merging the change notifications of the observed properties into one
//! sequence of update events.
//!
//! The caller subscribes to each property and reports every subscription
//! and every change notification, as they happen.  The merger answers each
//! report with the update events that are due: none until all three
//! subscriptions stand, then one initial event, then one event per change
//! notification, in the order of arrival.

use vstd::prelude::*;
use crate::property::Property;

verus! {

/// What the caller reports to the merger.
#[derive(Clone, Copy, Debug, PartialEq, Eq, Structural)]
pub enum SourceEvent {
    /// The subscription to the property's changes was established.
    Subscribed(Property),
    /// A change notification for the property arrived.
    Changed(Property),
}

/// An event of the merged sequence.  Each one asks for one recomputation of
/// the snapshot.
#[derive(Clone, Copy, Debug, PartialEq, Eq, Structural)]
pub enum Update {
    /// The event made up when the merge is set up, so that the snapshot is
    /// filled without waiting for a change.
    Initial,
    /// The event for one change notification of the property.
    Change(Property),
}

/// The set of properties subscribed to.
#[derive(Clone, Copy, Debug, PartialEq, Eq, Structural)]
pub struct Subscriptions {
    pub icon_name: bool,
    pub percentage: bool,
    pub time_to_empty: bool,
}

impl Subscriptions {
    /// No subscription.
    pub open spec fn none() -> Subscriptions {
        Subscriptions { icon_name: false, percentage: false, time_to_empty: false }
    }

    /// `true` when the property is subscribed to.
    pub open spec fn has(self, property: Property) -> bool {
        match property {
            Property::IconName => self.icon_name,
            Property::Percentage => self.percentage,
            Property::TimeToEmpty => self.time_to_empty,
        }
    }

    /// These subscriptions and the one to `property`.
    pub open spec fn with(self, property: Property) -> Subscriptions {
        match property {
            Property::IconName => Subscriptions { icon_name: true, ..self },
            Property::Percentage => Subscriptions { percentage: true, ..self },
            Property::TimeToEmpty => Subscriptions { time_to_empty: true, ..self },
        }
    }

    /// `true` when all three properties are subscribed to.
    pub open spec fn complete(self) -> bool {
        self.icon_name && self.percentage && self.time_to_empty
    }

    /// Tells whether the property is subscribed to.
    pub fn contains(self, property: Property) -> (b: bool)
        ensures
            b == self.has(property),
    {
        match property {
            Property::IconName => self.icon_name,
            Property::Percentage => self.percentage,
            Property::TimeToEmpty => self.time_to_empty,
        }
    }

    /// Adds the subscription to `property`.
    pub fn insert(&mut self, property: Property)
        ensures
            *final(self) == old(self).with(property),
    {
        match property {
            Property::IconName => {
                self.icon_name = true;
            },
            Property::Percentage => {
                self.percentage = true;
            },
            Property::TimeToEmpty => {
                self.time_to_empty = true;
            },
        }
    }

    /// Tells whether all three properties are subscribed to.
    pub fn is_complete(self) -> (b: bool)
        ensures
            b == self.complete(),
    {
        self.icon_name && self.percentage && self.time_to_empty
    }
}

/// The update events for the change notifications `changes`, one for each,
/// in the same order.
pub open spec fn changes_of(changes: Seq<Property>) -> Seq<Update> {
    changes.map_values(|property: Property| Update::Change(property))
}

/// The merger as a mathematical value.
pub ghost struct MergerView {
    pub subscribed: Subscriptions,
    /// Change notifications that arrived on a standing subscription before
    /// the merge was set up, oldest first.
    pub pending: Seq<Property>,
}

impl MergerView {
    /// The merger before any report.
    pub open spec fn initial() -> MergerView {
        MergerView { subscribed: Subscriptions::none(), pending: Seq::empty() }
    }

    /// `true` when all three subscriptions stand, so that events flow.
    pub open spec fn merged(self) -> bool {
        self.subscribed.complete()
    }

    /// `true` when nothing is held back once events flow.
    pub open spec fn wf(self) -> bool {
        self.merged() ==> self.pending.len() == 0
    }

    /// The merger after the report `event`.
    pub open spec fn after(self, event: SourceEvent) -> MergerView {
        match event {
            SourceEvent::Subscribed(property) => if self.merged() {
                self
            } else if self.subscribed.with(property).complete() {
                MergerView { subscribed: self.subscribed.with(property), pending: Seq::empty() }
            } else {
                MergerView { subscribed: self.subscribed.with(property), ..self }
            },
            SourceEvent::Changed(property) => if !self.merged() && self.subscribed.has(property) {
                MergerView { pending: self.pending.push(property), ..self }
            } else {
                self
            },
        }
    }

    /// The update events that the report `event` releases.
    ///
    /// The subscription that completes the set releases the initial event
    /// and, behind it, the events for the notifications held back.  Once
    /// the set is complete every notification releases its own event. A
    /// notification that arrives earlier is held back if its property is
    /// subscribed to; without a subscription nobody observes it.
    pub open spec fn emitted(self, event: SourceEvent) -> Seq<Update> {
        match event {
            SourceEvent::Subscribed(property) => if !self.merged() && self.subscribed.with(
                property,
            ).complete() {
                seq![Update::Initial] + changes_of(self.pending)
            } else {
                Seq::empty()
            },
            SourceEvent::Changed(property) => if self.merged() {
                seq![Update::Change(property)]
            } else {
                Seq::empty()
            },
        }
    }

    /// The merger after the reports `events`, in their order.
    pub open spec fn after_all(self, events: Seq<SourceEvent>) -> MergerView
        decreases events.len(),
    {
        if events.len() == 0 {
            self
        } else {
            self.after_all(events.drop_last()).after(events.last())
        }
    }

    /// All update events that the reports `events` release, in their order.
    pub open spec fn emitted_all(self, events: Seq<SourceEvent>) -> Seq<Update>
        decreases events.len(),
    {
        if events.len() == 0 {
            Seq::empty()
        } else {
            self.emitted_all(events.drop_last()) + self.after_all(events.drop_last()).emitted(
                events.last(),
            )
        }
    }

    /// The change notifications among `events` that arrive on a standing
    /// subscription, in their order.
    pub open spec fn observed(self, events: Seq<SourceEvent>) -> Seq<Property>
        decreases events.len(),
    {
        if events.len() == 0 {
            Seq::empty()
        } else {
            let earlier = self.observed(events.drop_last());
            match events.last() {
                SourceEvent::Changed(property) => if self.after_all(
                    events.drop_last(),
                ).subscribed.has(property) {
                    earlier.push(property)
                } else {
                    earlier
                },
                SourceEvent::Subscribed(_) => earlier,
            }
        }
    }
}

/// Merges the change notifications of the three observed properties.
pub struct Merger {
    subscribed: Subscriptions,
    pending: Vec<Property>,
}

impl View for Merger {
    type V = MergerView;

    closed spec fn view(&self) -> MergerView {
        MergerView { subscribed: self.subscribed, pending: self.pending@ }
    }
}

impl Merger {
    /// A merger to which nothing was reported yet.
    pub fn new() -> (merger: Merger)
        ensures
            merger@ == MergerView::initial(),
            merger@.wf(),
    {
        Merger {
            subscribed: Subscriptions { icon_name: false, percentage: false, time_to_empty: false },
            pending: Vec::new(),
        }
    }

    /// Tells whether all three subscriptions stand.
    pub fn is_merged(&self) -> (b: bool)
        ensures
            b == self@.merged(),
    {
        self.subscribed.is_complete()
    }

    /// Takes one report and returns the update events that it releases, in
    /// the order in which they are due.
    pub fn handle(&mut self, event: SourceEvent) -> (updates: Vec<Update>)
        ensures
            final(self)@ == old(self)@.after(event),
            updates@ == old(self)@.emitted(event),
            old(self)@.wf() ==> final(self)@.wf(),
    {
        let mut updates: Vec<Update> = Vec::new();
        match event {
            SourceEvent::Subscribed(property) => {
                if !self.subscribed.is_complete() {
                    self.subscribed.insert(property);
                    if self.subscribed.is_complete() {
                        updates.push(Update::Initial);
                        let mut i: usize = 0;
                        while i < self.pending.len()
                            invariant
                                i <= self.pending.len(),
                                self.pending == old(self).pending,
                                updates@ == seq![Update::Initial] + changes_of(
                                    self.pending@.take(i as int),
                                ),
                            decreases self.pending.len() - i,
                        {
                            updates.push(Update::Change(self.pending[i]));
                            assert(self.pending@.take(i + 1) == self.pending@.take(
                                i as int,
                            ).push(self.pending@[i as int]));
                            i += 1;
                        }
                        assert(self.pending@.take(i as int) == self.pending@);
                        self.pending = Vec::new();
                    }
                }
            },
            SourceEvent::Changed(property) => {
                if self.subscribed.is_complete() {
                    updates.push(Update::Change(property));
                } else if self.subscribed.contains(property) {
                    self.pending.push(property);
                }
            },
        }
        updates
    }
}

/// What a merger that starts empty has released after any reports.
///
/// Until all three subscriptions stand it has released nothing and holds
/// back exactly the notifications observed so far.  From then on it has
/// released the initial event, once and first, and behind it one event for
/// each observed notification, in the order of arrival: none is dropped,
/// none is doubled, no two are merged into one.  The order in which the
/// subscriptions were established plays no part.
pub proof fn lemma_merged_sequence(events: Seq<SourceEvent>)
    ensures
        ({
            let start = MergerView::initial();
            let merger = start.after_all(events);
            let released = start.emitted_all(events);
            let observed = start.observed(events);
            &&& merger.wf()
            &&& !merger.merged() ==> released == Seq::<Update>::empty() && merger.pending
                == observed
            &&& merger.merged() ==> released == seq![Update::Initial] + changes_of(observed)
        }),
    decreases events.len(),
{
    let start = MergerView::initial();
    if events.len() > 0 {
        let earlier = events.drop_last();
        lemma_merged_sequence(earlier);
        let before = start.after_all(earlier);
        let seen = start.observed(earlier);
        match events.last() {
            SourceEvent::Subscribed(property) => {
                if !before.merged() && before.subscribed.with(property).complete() {
                    assert(start.emitted_all(events) =~= seq![Update::Initial] + changes_of(seen));
                } else {
                    assert(start.emitted_all(events) =~= start.emitted_all(earlier));
                }
            },
            SourceEvent::Changed(property) => {
                if before.merged() {
                    assert(changes_of(seen.push(property)) =~= changes_of(seen).push(
                        Update::Change(property),
                    ));
                    assert(start.emitted_all(events) =~= seq![Update::Initial] + changes_of(
                        seen.push(property),
                    ));
                } else {
                    assert(start.emitted_all(events) =~= start.emitted_all(earlier));
                }
            },
        }
    }
}

/// Setting up the merge releases exactly one event, the initial one, also
/// when no change notification ever arrives: if the reports are
/// subscriptions only and all three properties are among them, in whatever
/// order, then the events released are the initial event and nothing else.
pub proof fn lemma_setup_releases_one_initial_update(events: Seq<SourceEvent>)
    requires
        forall|i: int| 0 <= i < events.len() ==> (#[trigger] events[i]) is Subscribed,
        MergerView::initial().after_all(events).merged(),
    ensures
        MergerView::initial().emitted_all(events) == seq![Update::Initial],
{
    lemma_merged_sequence(events);
    lemma_subscriptions_observe_nothing(events);
    assert(changes_of(Seq::<Property>::empty()) =~= Seq::<Update>::empty());
    assert(seq![Update::Initial] + Seq::<Update>::empty() =~= seq![Update::Initial]);
}

/// Reports of subscriptions hold no change notification to observe.
proof fn lemma_subscriptions_observe_nothing(events: Seq<SourceEvent>)
    requires
        forall|i: int| 0 <= i < events.len() ==> (#[trigger] events[i]) is Subscribed,
    ensures
        MergerView::initial().observed(events) == Seq::<Property>::empty(),
    decreases events.len(),
{
    if events.len() > 0 {
        lemma_subscriptions_observe_nothing(events.drop_last());
    }
}

/// The reports of the change notifications `changes`, one for each, in the
/// same order.
pub open spec fn reports_of(changes: Seq<Property>) -> Seq<SourceEvent> {
    changes.map_values(|property: Property| SourceEvent::Changed(property))
}

/// Once the merge is set up, change notifications pass one for one and in
/// their order of arrival: the events released for the notifications
/// `changes` are the events for each of them, as many as there are
/// notifications, in the same order, and the merger is as it was.
pub proof fn lemma_changes_pass_in_order(merger: MergerView, changes: Seq<Property>)
    requires
        merger.merged(),
    ensures
        merger.emitted_all(reports_of(changes)) == changes_of(changes),
        merger.emitted_all(reports_of(changes)).len() == changes.len(),
        merger.after_all(reports_of(changes)) == merger,
    decreases changes.len(),
{
    let reports = reports_of(changes);
    if changes.len() == 0 {
        assert(merger.emitted_all(reports) =~= changes_of(changes));
    } else {
        let earlier = changes.drop_last();
        lemma_changes_pass_in_order(merger, earlier);
        assert(reports.drop_last() =~= reports_of(earlier));
        assert(reports.last() == SourceEvent::Changed(changes.last()));
        assert(merger.emitted_all(reports) =~= changes_of(changes));
    }
}

/// The merged sequence has no end of its own: once the merge is set up it
/// stays set up, whatever is reported, and every later notification is
/// answered with its event.
pub proof fn lemma_merge_is_never_undone(merger: MergerView, events: Seq<SourceEvent>)
    requires
        merger.merged(),
    ensures
        merger.after_all(events) == merger,
        forall|property: Property|
            #[trigger] merger.after_all(events).emitted(SourceEvent::Changed(property)) == seq![
                Update::Change(property),
            ],
    decreases events.len(),
{
    if events.len() > 0 {
        lemma_merge_is_never_undone(merger, events.drop_last());
    }
}

} // verus!
