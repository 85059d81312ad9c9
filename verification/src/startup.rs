//! Choices made once, when the program starts.

use vstd::prelude::*;

verus! {

/// How finely the program tells the system that it knows the pixels of each monitor.
#[derive(Clone, Copy, Debug, PartialEq, Eq, Structural)]
pub enum DpiAwareness {
    PerMonitorV2,
    PerMonitor,
    System,
}

impl DpiAwareness {
    /// The awareness to ask for when this one was refused.
    pub open spec fn coarser(self) -> Option<DpiAwareness> {
        match self {
            DpiAwareness::PerMonitorV2 => Some(DpiAwareness::PerMonitor),
            DpiAwareness::PerMonitor => Some(DpiAwareness::System),
            DpiAwareness::System => None,
        }
    }

    /// What is asked for after this awareness was granted or refused.
    pub open spec fn next_asked(self, granted: bool) -> Option<DpiAwareness> {
        if granted {
            None
        } else {
            self.coarser()
        }
    }

    /// What to ask for after this awareness was granted or refused: nothing once one was granted,
    /// the next coarser one otherwise. Whether the coarsest is granted does not matter.
    pub fn fallback(self, granted: bool) -> (next: Option<DpiAwareness>)
        ensures
            next == (if granted {
                None
            } else {
                self.coarser()
            }),
            next == self.next_asked(granted),
    {
        if granted {
            None
        } else {
            match self {
                DpiAwareness::PerMonitorV2 => Some(DpiAwareness::PerMonitor),
                DpiAwareness::PerMonitor => Some(DpiAwareness::System),
                DpiAwareness::System => None,
            }
        }
    }
}

/// The finest awareness is asked for first, then the next coarser ones in turn, each only after the
/// one before it was refused. Nothing is asked for after one was granted, or after the coarsest.
pub proof fn law_finest_awareness_is_kept(a: DpiAwareness, granted: bool)
    ensures
        a.next_asked(granted).is_none() <==> granted || a == DpiAwareness::System,
        a.next_asked(granted) == Some(DpiAwareness::PerMonitor) <==> !granted && a
            == DpiAwareness::PerMonitorV2,
        a.next_asked(granted) == Some(DpiAwareness::System) <==> !granted && a
            == DpiAwareness::PerMonitor,
        a.next_asked(granted) != Some(DpiAwareness::PerMonitorV2),
{
}

} // verus!
