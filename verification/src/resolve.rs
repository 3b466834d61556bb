//! Finding the display device: which step comes next, and what a failed
//! step means.
//!
//! The caller performs the steps on the bus, one at a time, and reports
//! whether each succeeded.  The first failure ends the attempt; nothing is
//! tried again.

use vstd::prelude::*;

verus! {

/// A step on the way to the display device.
#[derive(Clone, Copy, Debug, PartialEq, Eq, Structural)]
pub enum Stage {
    /// Open the connection to the system bus.
    Connect,
    /// Ask the power service for the object path of its display device.
    LocateDevice,
    /// Bind a proxy that caches properties to that path.
    BindDevice,
}

/// Why no display device was found.
#[derive(Clone, Copy, Debug, PartialEq, Eq, Structural)]
pub enum SyncError {
    /// The bus could not be reached.
    Connect,
    /// The power service gave no display device, or its path could not be
    /// bound.
    Resolve,
}

/// Where the attempt stands.
#[derive(Clone, Copy, Debug, PartialEq, Eq, Structural)]
pub enum Progress {
    /// The caller performs this step next.
    Next(Stage),
    /// The device is bound and can be handed to the applet.
    Resolved,
    /// The attempt is over and no device will come.
    Failed(SyncError),
}

impl Stage {
    /// The error that a failure of this step amounts to.
    pub open spec fn error(self) -> SyncError {
        match self {
            Stage::Connect => SyncError::Connect,
            _ => SyncError::Resolve,
        }
    }

    /// Where the attempt stands after this step.
    pub open spec fn followed_by(self, succeeded: bool) -> Progress {
        if !succeeded {
            Progress::Failed(self.error())
        } else {
            match self {
                Stage::Connect => Progress::Next(Stage::LocateDevice),
                Stage::LocateDevice => Progress::Next(Stage::BindDevice),
                Stage::BindDevice => Progress::Resolved,
            }
        }
    }
}

impl Progress {
    /// The attempt before any step.
    pub open spec fn start() -> Progress {
        Progress::Next(Stage::Connect)
    }

    /// Where the attempt stands after one more report.  Once it is over a
    /// report changes nothing.
    pub open spec fn after(self, succeeded: bool) -> Progress {
        match self {
            Progress::Next(stage) => stage.followed_by(succeeded),
            _ => self,
        }
    }

    /// Where the attempt stands after the reports `outcomes`, in their
    /// order.
    pub open spec fn after_all(self, outcomes: Seq<bool>) -> Progress
        decreases outcomes.len(),
    {
        if outcomes.len() == 0 {
            self
        } else {
            self.after_all(outcomes.drop_last()).after(outcomes.last())
        }
    }

    /// The attempt before any step: the caller connects first.
    pub fn begin() -> (progress: Progress)
        ensures
            progress == Progress::start(),
    {
        Progress::Next(Stage::Connect)
    }

    /// Takes the report on the step that was due.
    pub fn advance(self, succeeded: bool) -> (progress: Progress)
        ensures
            progress == self.after(succeeded),
    {
        match self {
            Progress::Next(stage) => {
                if !succeeded {
                    match stage {
                        Stage::Connect => Progress::Failed(SyncError::Connect),
                        _ => Progress::Failed(SyncError::Resolve),
                    }
                } else {
                    match stage {
                        Stage::Connect => Progress::Next(Stage::LocateDevice),
                        Stage::LocateDevice => Progress::Next(Stage::BindDevice),
                        Stage::BindDevice => Progress::Resolved,
                    }
                }
            },
            _ => self,
        }
    }
}

/// An attempt that is over stays as it is, whatever is reported: after a
/// failure no step is taken again, and a bound device stays bound.
pub proof fn lemma_no_retry(progress: Progress, outcomes: Seq<bool>)
    requires
        !(progress is Next),
    ensures
        progress.after_all(outcomes) == progress,
    decreases outcomes.len(),
{
    if outcomes.len() > 0 {
        lemma_no_retry(progress, outcomes.drop_last());
    }
}

/// The steps are taken in their order, each only after the one before it
/// succeeded.  The device is resolved exactly when the first three reports
/// are all successes.  A failure of the first step is a connect error, and
/// a failure of a later step is a resolve error.
pub proof fn lemma_outcome_of_attempt(outcomes: Seq<bool>)
    ensures
        ({
            let end = Progress::start().after_all(outcomes);
            &&& end == Progress::Next(Stage::Connect) <==> outcomes.len() == 0
            &&& end == Progress::Next(Stage::LocateDevice) <==> outcomes.len() == 1 && outcomes[0]
            &&& end == Progress::Next(Stage::BindDevice) <==> outcomes.len() == 2 && outcomes[0]
                && outcomes[1]
            &&& end == Progress::Resolved <==> outcomes.len() >= 3 && outcomes[0] && outcomes[1]
                && outcomes[2]
            &&& end == Progress::Failed(SyncError::Connect) <==> outcomes.len() >= 1
                && !outcomes[0]
            &&& end == Progress::Failed(SyncError::Resolve) <==> outcomes.len() >= 2 && outcomes[0]
                && (!outcomes[1] || (outcomes.len() >= 3 && !outcomes[2]))
        }),
    decreases outcomes.len(),
{
    if outcomes.len() > 0 {
        let earlier = outcomes.drop_last();
        lemma_outcome_of_attempt(earlier);
        if earlier.len() >= 1 {
            assert(earlier[0] == outcomes[0]);
        }
        if earlier.len() >= 2 {
            assert(earlier[1] == outcomes[1]);
        }
        if earlier.len() >= 3 {
            assert(earlier[2] == outcomes[2]);
        }
    }
}

} // verus!
