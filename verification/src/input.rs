//! The vocabulary of counted input: where an action came from, what kind it
//! was, and the moment it happened.

use vstd::prelude::*;

use crate::datekey::DateKey;

verus! {

/// Whether a counted action came from the global OS-level listener or from an
/// explicit in-app action.
#[derive(Debug, Clone, Copy, PartialEq, Eq, Structural, Hash)]
pub enum InputOrigin {
    Global,
    App,
}

/// The input modality of a counted action.
#[derive(Debug, Clone, Copy, PartialEq, Eq, Structural, Hash)]
pub enum InputSource {
    Keyboard,
    MouseSingle,
}

/// One animation pop sent to the UI: a chunk of freshly counted merit.
#[derive(Debug, Clone, Copy, PartialEq, Eq, Structural)]
pub struct InputEvent {
    pub origin: InputOrigin,
    pub source: InputSource,
    pub count: u64,
}

/// The foreground application a trigger is attributed to.
#[derive(Debug, Clone)]
pub struct AppContext {
    pub id: String,
    pub name: Option<String>,
}

impl AppContext {
    /// The placeholder used when the foreground application is unknown.
    pub fn unknown() -> (r: AppContext)
        ensures
            r.id@ == "__unknown__"@,
            r.name is None,
    {
        AppContext { id: String::from_str("__unknown__"), name: None }
    }
}

/// The local moment an event is counted at, read from the clock by the caller:
/// the calendar day, the hour of that day, and milliseconds since the epoch.
#[derive(Debug, Clone, Copy, PartialEq, Eq, Structural)]
pub struct LocalNow {
    pub date: DateKey,
    pub hour: u8,
    pub epoch_ms: u64,
}

impl LocalNow {
    /// A plausible clock reading: a real calendar day and an hour below 24.
    pub open spec fn wf(self) -> bool {
        &&& self.date.wf()
        &&& self.hour < 24
    }

    /// Builds a moment, rejecting impossible dates and hours.
    pub fn new(date: DateKey, hour: u8, epoch_ms: u64) -> (r: Option<LocalNow>)
        ensures
            r is Some <==> (LocalNow { date, hour, epoch_ms }).wf(),
            r is Some ==> r->Some_0 == (LocalNow { date, hour, epoch_ms }),
    {
        if date.month >= 1 && date.month <= 12 && date.day >= 1 && date.day <= 31 && date.year
            >= 1970 && date.year <= 9999 && hour < 24 {
            Some(LocalNow { date, hour, epoch_ms })
        } else {
            None
        }
    }
}

} // verus!
