//! Classification of a server's reply time against a latency tolerance.

use vstd::prelude::*;

verus! {

/// Longest round trip, in milliseconds, that still counts as a fast reply.
pub const TOLERANCE_MS: u128 = 1200;

/// What a polling cycle found out about one server.
#[derive(Clone, Copy, Debug, PartialEq, Eq, Structural)]
pub enum Classification {
    /// The server answered within the tolerance.
    Fast,
    /// The server answered, but took longer than the tolerance.
    Slow,
    /// The server is not running; nothing was sent to it.
    Stopped,
}

/// The class of a reply that took `elapsed_ms` when `tolerance_ms` is allowed.
pub open spec fn classify_spec(elapsed_ms: int, tolerance_ms: int) -> Classification {
    if elapsed_ms <= tolerance_ms {
        Classification::Fast
    } else {
        Classification::Slow
    }
}

/// The lower-case word under which a class is reported.
pub open spec fn label_spec(class: Classification) -> Seq<char> {
    match class {
        Classification::Fast => "fast"@,
        Classification::Slow => "slow"@,
        Classification::Stopped => "stopped"@,
    }
}

impl Classification {
    /// The lower-case word under which this class is reported.
    pub fn label(self) -> (word: &'static str)
        ensures
            word@ == label_spec(self),
    {
        match self {
            Classification::Fast => "fast",
            Classification::Slow => "slow",
            Classification::Stopped => "stopped",
        }
    }
}

/// Classifies a reply time against a tolerance chosen by the caller.
pub fn classify_with(elapsed_ms: u128, tolerance_ms: u128) -> (class: Classification)
    ensures
        class == classify_spec(elapsed_ms as int, tolerance_ms as int),
{
    if elapsed_ms <= tolerance_ms {
        Classification::Fast
    } else {
        Classification::Slow
    }
}

/// Classifies a reply time against [`TOLERANCE_MS`].
pub fn classify(elapsed_ms: u128) -> (class: Classification)
    ensures
        class == classify_spec(elapsed_ms as int, TOLERANCE_MS as int),
        elapsed_ms <= 1200 ==> class == Classification::Fast,
        elapsed_ms > 1200 ==> class == Classification::Slow,
{
    classify_with(elapsed_ms, TOLERANCE_MS)
}

/// Returns whether a server is responding within the tolerated time limit
/// (1.2 seconds): `"fast"` if it is, `"slow"` if it is not.
pub fn within_tolerance(time: u128) -> (word: &'static str)
    ensures
        word@ == label_spec(classify_spec(time as int, TOLERANCE_MS as int)),
        time <= 1200 ==> word@ == "fast"@,
        time > 1200 ==> word@ == "slow"@,
{
    classify(time).label()
}

} // verus!
