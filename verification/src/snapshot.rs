//! The snapshot of device state and how one round of property reads
//! changes it.

use vstd::prelude::*;
use crate::percent::Percent;

verus! {

/// What one read of a cached property gave.
#[derive(Debug)]
pub enum ReadOutcome<T> {
    /// The read succeeded and the property has a value.
    Value(T),
    /// The read succeeded and the property has no value.
    Absent,
    /// The read failed.
    Failed,
}

impl<T> ReadOutcome<T> {
    /// The value to keep after this read: the one read if there is one,
    /// else `current`.
    pub open spec fn or_keep(self, current: T) -> T {
        match self {
            ReadOutcome::Value(v) => v,
            _ => current,
        }
    }
}

impl<T: View> View for ReadOutcome<T> {
    type V = ReadOutcome<T::V>;

    open spec fn view(&self) -> ReadOutcome<T::V> {
        match *self {
            ReadOutcome::Value(v) => ReadOutcome::Value(v@),
            ReadOutcome::Absent => ReadOutcome::Absent,
            ReadOutcome::Failed => ReadOutcome::Failed,
        }
    }
}

/// The outcomes of one round of reads, one per observed property.
#[derive(Debug)]
pub struct Readings {
    pub icon_name: ReadOutcome<String>,
    pub percentage: ReadOutcome<Percent>,
    /// Time to empty, in seconds.
    pub time_to_empty: ReadOutcome<i64>,
}

/// A round of reads as a mathematical value.
pub ghost struct ReadingsView {
    pub icon_name: ReadOutcome<Seq<char>>,
    pub percentage: ReadOutcome<Percent>,
    pub time_to_empty: ReadOutcome<i64>,
}

impl View for Readings {
    type V = ReadingsView;

    open spec fn view(&self) -> ReadingsView {
        ReadingsView {
            icon_name: self.icon_name@,
            percentage: self.percentage,
            time_to_empty: self.time_to_empty,
        }
    }
}

/// The duration, in whole seconds, that a signed count of seconds stands
/// for.  A negative count is read as the unsigned 64-bit number with the
/// same bits.
pub open spec fn duration_of(secs: i64) -> u64 {
    if secs >= 0 {
        secs as u64
    } else {
        (secs + 0x1_0000_0000_0000_0000) as u64
    }
}

/// The duration, in whole seconds, for a signed count of seconds: what an
/// integer cast to the unsigned type gives.
pub fn seconds_to_duration(secs: i64) -> (d: u64)
    ensures
        d == duration_of(secs),
{
    let d: u64 = #[verifier::truncate] (secs as u64);
    assert(secs >= 0 ==> d == secs) by (bit_vector)
        requires
            d == secs as u64,
    ;
    assert(secs < 0 ==> d == secs + 0x1_0000_0000_0000_0000) by (bit_vector)
        requires
            d == secs as u64,
    ;
    d
}

/// The device state that the applet shows: the last values read with
/// success, or the defaults where nothing was read yet.
#[derive(Debug)]
pub struct StateSnapshot {
    icon_name: String,
    battery_percent: Percent,
    time_remaining: u64,
}

/// A snapshot as a mathematical value.
pub ghost struct SnapshotView {
    pub icon_name: Seq<char>,
    pub battery_percent: Percent,
    /// Whole seconds.
    pub time_remaining: u64,
}

impl View for StateSnapshot {
    type V = SnapshotView;

    closed spec fn view(&self) -> SnapshotView {
        SnapshotView {
            icon_name: self.icon_name@,
            battery_percent: self.battery_percent,
            time_remaining: self.time_remaining,
        }
    }
}

impl SnapshotView {
    /// The snapshot before anything was read: the generic battery icon,
    /// zero percent, no time remaining.
    pub open spec fn initial() -> SnapshotView {
        SnapshotView {
            icon_name: "battery-symbolic"@,
            battery_percent: Percent { bits: crate::percent::ZERO_BITS },
            time_remaining: 0,
        }
    }

    /// The snapshot after one round of reads.  Each field is decided by its
    /// own read alone: a value replaces the field, anything else leaves it.
    pub open spec fn applied(self, readings: ReadingsView) -> SnapshotView {
        SnapshotView {
            icon_name: readings.icon_name.or_keep(self.icon_name),
            battery_percent: readings.percentage.or_keep(self.battery_percent),
            time_remaining: readings.time_remaining().or_keep(self.time_remaining),
        }
    }

    /// The snapshot after several rounds of reads, in their order.
    pub open spec fn applied_all(self, rounds: Seq<ReadingsView>) -> SnapshotView
        decreases rounds.len(),
    {
        if rounds.len() == 0 {
            self
        } else {
            self.applied_all(rounds.drop_last()).applied(rounds.last())
        }
    }

    /// `true` when the percentage lies between 0 and 100.
    pub open spec fn in_range(self) -> bool {
        self.battery_percent.in_range()
    }
}

impl ReadingsView {
    /// The read of the time to empty, as a duration in whole seconds.
    pub open spec fn time_remaining(self) -> ReadOutcome<u64> {
        match self.time_to_empty {
            ReadOutcome::Value(secs) => ReadOutcome::Value(duration_of(secs)),
            ReadOutcome::Absent => ReadOutcome::Absent,
            ReadOutcome::Failed => ReadOutcome::Failed,
        }
    }

    /// `true` when the percentage read, if there is one, lies between 0
    /// and 100.
    pub open spec fn in_range(self) -> bool {
        self.percentage matches ReadOutcome::Value(p) ==> p.in_range()
    }
}

impl StateSnapshot {
    /// The snapshot before anything was read.
    pub fn initial() -> (snapshot: StateSnapshot)
        ensures
            snapshot@ == SnapshotView::initial(),
    {
        StateSnapshot {
            icon_name: "battery-symbolic".to_owned(),
            battery_percent: Percent::zero(),
            time_remaining: 0,
        }
    }

    /// Name of the icon that stands for the battery's state.
    pub fn icon_name(&self) -> (name: &str)
        ensures
            name@ == self@.icon_name,
    {
        self.icon_name.as_str()
    }

    /// Charge of the battery.
    pub fn battery_percent(&self) -> (percent: Percent)
        ensures
            percent == self@.battery_percent,
    {
        self.battery_percent
    }

    /// Time until the battery is empty, in whole seconds.
    pub fn time_remaining(&self) -> (secs: u64)
        ensures
            secs == self@.time_remaining,
    {
        self.time_remaining
    }

    /// Takes over one round of reads.  A field whose read gave a value is
    /// overwritten with it; a field whose read failed or found nothing keeps
    /// what it had.
    pub fn apply(&mut self, readings: Readings)
        ensures
            final(self)@ == old(self)@.applied(readings@),
            old(self)@.in_range() && readings@.in_range() ==> final(self)@.in_range(),
    {
        if let ReadOutcome::Value(percentage) = readings.percentage {
            self.battery_percent = percentage;
        }
        if let ReadOutcome::Value(icon_name) = readings.icon_name {
            self.icon_name = icon_name;
        }
        if let ReadOutcome::Value(secs) = readings.time_to_empty {
            self.time_remaining = seconds_to_duration(secs);
        }
    }
}

/// The value that a field holds after the reads `outcomes`, in their
/// order, when it held `current` before: the last value read, or `current`
/// when no read gave one.
pub open spec fn last_value<T>(outcomes: Seq<ReadOutcome<T>>, current: T) -> T
    decreases outcomes.len(),
{
    if outcomes.len() == 0 {
        current
    } else {
        outcomes.last().or_keep(last_value(outcomes.drop_last(), current))
    }
}

/// In any sequence of rounds, round `i` changes a field only if its read of
/// that field's property gave a value, and then the field becomes that
/// value.  A failed read and a read that found nothing leave the field as
/// the rounds before left it.
pub proof fn lemma_field_changes_only_on_value(
    start: SnapshotView,
    rounds: Seq<ReadingsView>,
    i: int,
)
    requires
        0 <= i < rounds.len(),
    ensures
        ({
            let before = start.applied_all(rounds.take(i));
            let after = start.applied_all(rounds.take(i + 1));
            &&& after == before.applied(rounds[i])
            &&& match rounds[i].icon_name {
                ReadOutcome::Value(name) => after.icon_name == name,
                _ => after.icon_name == before.icon_name,
            }
            &&& match rounds[i].percentage {
                ReadOutcome::Value(percent) => after.battery_percent == percent,
                _ => after.battery_percent == before.battery_percent,
            }
            &&& match rounds[i].time_to_empty {
                ReadOutcome::Value(secs) => after.time_remaining == duration_of(secs),
                _ => after.time_remaining == before.time_remaining,
            }
        }),
{
    let upto = rounds.take(i + 1);
    assert(upto.drop_last() =~= rounds.take(i));
    assert(upto.last() == rounds[i]);
}

/// After any sequence of rounds each field holds the last value that was
/// read for it with success, or what it held at the start when no round
/// read one.
pub proof fn lemma_fields_hold_last_values(start: SnapshotView, rounds: Seq<ReadingsView>)
    ensures
        start.applied_all(rounds).icon_name == last_value(
            rounds.map_values(|r: ReadingsView| r.icon_name),
            start.icon_name,
        ),
        start.applied_all(rounds).battery_percent == last_value(
            rounds.map_values(|r: ReadingsView| r.percentage),
            start.battery_percent,
        ),
        start.applied_all(rounds).time_remaining == last_value(
            rounds.map_values(|r: ReadingsView| r.time_remaining()),
            start.time_remaining,
        ),
    decreases rounds.len(),
{
    if rounds.len() > 0 {
        let earlier = rounds.drop_last();
        lemma_fields_hold_last_values(start, earlier);
        assert(rounds.map_values(|r: ReadingsView| r.icon_name).drop_last()
            =~= earlier.map_values(|r: ReadingsView| r.icon_name));
        assert(rounds.map_values(|r: ReadingsView| r.percentage).drop_last()
            =~= earlier.map_values(|r: ReadingsView| r.percentage));
        assert(rounds.map_values(|r: ReadingsView| r.time_remaining()).drop_last()
            =~= earlier.map_values(|r: ReadingsView| r.time_remaining()));
    }
}

/// Rounds whose percentages lie between 0 and 100 keep the snapshot's
/// percentage in that range.
pub proof fn lemma_range_is_kept(start: SnapshotView, rounds: Seq<ReadingsView>)
    requires
        start.in_range(),
        forall|i: int| 0 <= i < rounds.len() ==> (#[trigger] rounds[i]).in_range(),
    ensures
        start.applied_all(rounds).in_range(),
    decreases rounds.len(),
{
    if rounds.len() > 0 {
        lemma_range_is_kept(start, rounds.drop_last());
    }
}

} // verus!
