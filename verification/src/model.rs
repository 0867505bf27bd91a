use vstd::prelude::*;

verus! {

/// Coarse movement classification attached to one location observation.
///
/// Exactly one value per record; it is derived from the raw activity
/// guesses, never transported as-is (see `crate::parser`).
#[derive(Debug, PartialEq, Eq)]
pub enum TimelineActivity {
    Unknown,
    Still,
    OnFoot,
    OnBike,
    InRoadVehicle,
    InRailVehicle,
}

/// A timezone-aware instant, stored as seconds since the Unix epoch (UTC)
/// together with the nanoseconds since the last second boundary.
#[derive(Debug, PartialEq, Eq, Clone, Copy)]
pub struct UtcInstant {
    pub secs: i64,
    pub nanos: u32,
}

/// One validated location observation: the final output unit.
///
/// Latitude and longitude are scaled by 10^7 ("E7" scaling), which keeps
/// full precision without floating point. A record is only ever built with
/// latitude, longitude and timestamp present; accuracy stays optional and
/// the activity defaults to `Unknown`.
#[derive(Debug, PartialEq, Eq)]
pub struct TimelineRecord {
    pub lat_e7: i32,
    pub lon_e7: i32,
    pub accuracy: Option<u32>,
    pub timestamp: UtcInstant,
    pub activity: TimelineActivity,
}

/// One raw movement-type guess: a label with a confidence percentage
/// (0 to 255 as transported, though the scale is nominally 0 to 100).
#[derive(Debug, PartialEq, Eq)]
pub struct RawGuess {
    pub label: String,
    pub confidence: u8,
}

/// One timestamped batch of movement-type guesses.
#[derive(Debug, PartialEq, Eq)]
pub struct RawWindow {
    pub guesses: Vec<RawGuess>,
}

/// The intermediate, partially populated form of one array element, as
/// decoded from the document before any validation. Every slot may be
/// absent; unknown fields of the source element are ignored.
#[derive(Debug, PartialEq, Eq)]
pub struct RawRecord {
    pub latitude_e7: Option<i32>,
    pub longitude_e7: Option<i32>,
    pub timestamp: Option<UtcInstant>,
    pub accuracy: Option<u32>,
    pub activity: Vec<RawWindow>,
}

/// The error taxonomy of the crate.
///
/// `Document`, `NoArchiveEntry`, `Archive` and `Stream` are structural:
/// they surface before or instead of a sequence. `Malformed` and
/// `MissingMandatory` concern a single element and are recovered from by
/// the record sequence. `UnmappedActivity` is the fatal, unrecoverable
/// class: an activity label outside the fixed table.
#[derive(Debug, PartialEq, Eq)]
pub enum TimelineError {
    /// The document is not an object holding the locations array, or could
    /// not be read up to that point.
    Document,
    /// The underlying byte stream failed or held malformed JSON.
    Stream,
    /// One array element did not have the expected shape.
    Malformed,
    /// One array element lacked latitude, longitude or timestamp; carries
    /// the partially decoded element for diagnostics.
    MissingMandatory(RawRecord),
    /// An activity guess label outside the fixed recognized set.
    UnmappedActivity(String),
    /// No entry of the archive has the expected name suffix.
    NoArchiveEntry,
    /// The archive entry could not be opened.
    Archive,
}

} // verus!
