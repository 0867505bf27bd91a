use vstd::prelude::*;

use crate::model::RawGuess;
use crate::model::RawRecord;
use crate::model::RawWindow;
use crate::model::TimelineActivity;
use crate::model::TimelineError;
use crate::model::TimelineRecord;
use crate::model::UtcInstant;
use crate::time::parse_rfc3339;
use crate::tokens::lemma_enter_exit;
use crate::tokens::JsonTokens;
use crate::tokens::Nest;
use crate::tokens::ValueKind;

verus! {

// ---------------------------------------------------------------------------
// Activity reduction: a noisy sequence of guess windows becomes one
// classification. Only the last window counts ("most recent observation
// wins"); within it, the first guess with confidence strictly above 90
// whose label is in the fixed table decides.
// ---------------------------------------------------------------------------

/// How one guess label relates to the fixed classification table.
#[derive(Debug, PartialEq, Eq)]
pub enum LabelClass {
    /// The label decides the classification.
    Mapped(TimelineActivity),
    /// The label is recognized but skipped; later guesses are still scanned.
    Ignored,
    /// The label is outside the table: the fatal, unrecoverable condition.
    Unmapped,
}

/// The fixed classification table. `IN_RAIL_VEHICLE` maps to the
/// road-vehicle variant on purpose: a historical quirk of the source data
/// that is kept for compatibility, so `InRailVehicle` is never produced.
pub open spec fn classify_label(label: Seq<char>) -> LabelClass {
    if label == "STILL"@ {
        LabelClass::Mapped(TimelineActivity::Still)
    } else if label == "WALKING"@ || label == "ON_FOOT"@ {
        LabelClass::Mapped(TimelineActivity::OnFoot)
    } else if label == "ON_BICYCLE"@ {
        LabelClass::Mapped(TimelineActivity::OnBike)
    } else if label == "IN_ROAD_VEHICLE"@ {
        LabelClass::Mapped(TimelineActivity::InRoadVehicle)
    } else if label == "IN_RAIL_VEHICLE"@ {
        LabelClass::Mapped(TimelineActivity::InRoadVehicle)
    } else if label == "UNKNOWN"@ || label == "IN_VEHICLE"@ || label == "EXITING_VEHICLE"@
        || label == "TILTING"@ {
        LabelClass::Ignored
    } else {
        LabelClass::Unmapped
    }
}

/// A guess takes part in the reduction only above the fixed threshold.
pub open spec fn qualifies(g: RawGuess) -> bool {
    g.confidence > 90
}

/// Scans the guesses of one window in order. The first qualifying guess
/// with a mapped label decides; qualifying ignored labels are skipped; a
/// qualifying unmapped label is fatal and carries the label out.
pub open spec fn reduce_guesses(gs: Seq<RawGuess>) -> Result<TimelineActivity, Seq<char>>
    decreases gs.len(),
{
    if gs.len() == 0 {
        Ok(TimelineActivity::Unknown)
    } else if !qualifies(gs[0]) {
        reduce_guesses(gs.drop_first())
    } else {
        match classify_label(gs[0].label@) {
            LabelClass::Mapped(a) => Ok(a),
            LabelClass::Ignored => reduce_guesses(gs.drop_first()),
            LabelClass::Unmapped => Err(gs[0].label@),
        }
    }
}

/// Reduces a whole activity history: only the last window is consulted;
/// an empty history means `Unknown`.
pub open spec fn reduce_windows(ws: Seq<RawWindow>) -> Result<TimelineActivity, Seq<char>> {
    if ws.len() == 0 {
        Ok(TimelineActivity::Unknown)
    } else {
        reduce_guesses(ws.last().guesses@)
    }
}

/// True exactly when the owned text and the literal are the same text.
pub(crate) fn text_is(s: &String, lit: &str) -> (r: bool)
    ensures
        r == (s@ == lit@),
{
    s.eq(&lit.to_owned())
}

/// Looks one label up in the fixed table.
pub fn classify(label: &String) -> (c: LabelClass)
    ensures
        c == classify_label(label@),
{
    if text_is(label, "STILL") {
        LabelClass::Mapped(TimelineActivity::Still)
    } else if text_is(label, "WALKING") || text_is(label, "ON_FOOT") {
        LabelClass::Mapped(TimelineActivity::OnFoot)
    } else if text_is(label, "ON_BICYCLE") {
        LabelClass::Mapped(TimelineActivity::OnBike)
    } else if text_is(label, "IN_ROAD_VEHICLE") {
        LabelClass::Mapped(TimelineActivity::InRoadVehicle)
    } else if text_is(label, "IN_RAIL_VEHICLE") {
        LabelClass::Mapped(TimelineActivity::InRoadVehicle)
    } else if text_is(label, "UNKNOWN") || text_is(label, "IN_VEHICLE")
        || text_is(label, "EXITING_VEHICLE") || text_is(label, "TILTING") {
        LabelClass::Ignored
    } else {
        LabelClass::Unmapped
    }
}

/// Reduces an activity history to one classification, or reports the
/// fatal unmapped label.
pub fn reduce_activity(windows: &Vec<RawWindow>) -> (r: Result<TimelineActivity, TimelineError>)
    ensures
        (match reduce_windows(windows@) {
            Ok(a) => r == Ok::<TimelineActivity, TimelineError>(a),
            Err(l) => r matches Err(e) && e matches TimelineError::UnmappedActivity(lbl)
                && lbl@ == l,
        }),
{
    if windows.len() == 0 {
        return Ok(TimelineActivity::Unknown);
    }
    let gs = &windows[windows.len() - 1].guesses;
    let n: usize = gs.len();
    let mut i: usize = 0;
    proof {
        assert(gs@.skip(0) =~= gs@);
    }
    while i < n
        invariant
            i <= n,
            n == gs@.len(),
            gs@ == windows@.last().guesses@,
            windows@.len() > 0,
            reduce_guesses(gs@.skip(i as int)) == reduce_guesses(gs@),
        decreases n - i,
    {
        proof {
            assert(gs@.skip(i as int)[0] == gs@[i as int]);
        }
        if gs[i].confidence > 90 {
            match classify(&gs[i].label) {
                LabelClass::Mapped(a) => {
                    return Ok(a);
                },
                LabelClass::Ignored => {},
                LabelClass::Unmapped => {
                    return Err(TimelineError::UnmappedActivity(gs[i].label.clone()));
                },
            }
        }
        proof {
            assert(gs@.skip(i as int).drop_first() =~= gs@.skip(i as int + 1));
        }
        i = i + 1;
    }
    proof {
        assert(gs@.skip(n as int) =~= Seq::<RawGuess>::empty());
    }
    Ok(TimelineActivity::Unknown)
}

// ---------------------------------------------------------------------------
// Validation: the intermediate element becomes a record exactly when the
// three mandatory fields are present and the reduction is not fatal.
// ---------------------------------------------------------------------------

/// Latitude, longitude and timestamp are the mandatory slots.
pub open spec fn mandatory_present(raw: RawRecord) -> bool {
    raw.latitude_e7 is Some && raw.longitude_e7 is Some && raw.timestamp is Some
}

/// The record an element with all mandatory fields yields, given the
/// reduced activity.
pub open spec fn spec_record(raw: RawRecord, a: TimelineActivity) -> TimelineRecord {
    TimelineRecord {
        lat_e7: raw.latitude_e7->0,
        lon_e7: raw.longitude_e7->0,
        accuracy: raw.accuracy,
        timestamp: raw.timestamp->0,
        activity: a,
    }
}

/// What one decoded element yields: a record exactly when the mandatory
/// fields are present and the activity reduction is not fatal.
pub open spec fn decoded_record(raw: RawRecord) -> Option<TimelineRecord> {
    if mandatory_present(raw) {
        match reduce_windows(raw.activity@) {
            Ok(a) => Some(spec_record(raw, a)),
            Err(_) => None,
        }
    } else {
        None
    }
}

/// Validates one intermediate element and builds the record.
pub fn record_from_raw(raw: RawRecord) -> (r: Result<TimelineRecord, TimelineError>)
    ensures
        mandatory_present(raw) ==> (match reduce_windows(raw.activity@) {
            Ok(a) => r == Ok::<TimelineRecord, TimelineError>(spec_record(raw, a)),
            Err(l) => r matches Err(e) && e matches TimelineError::UnmappedActivity(lbl)
                && lbl@ == l,
        }),
        !mandatory_present(raw) ==> r == Err::<TimelineRecord, TimelineError>(
            TimelineError::MissingMandatory(raw),
        ),
{
    match (raw.latitude_e7, raw.longitude_e7, raw.timestamp) {
        (Some(lat), Some(lon), Some(ts)) => {
            match reduce_activity(&raw.activity) {
                Ok(a) => Ok(TimelineRecord {
                    lat_e7: lat,
                    lon_e7: lon,
                    accuracy: raw.accuracy,
                    timestamp: ts,
                    activity: a,
                }),
                Err(e) => Err(e),
            }
        },
        _ => Err(TimelineError::MissingMandatory(raw)),
    }
}

// ---------------------------------------------------------------------------
// Laws of the decoder.
// ---------------------------------------------------------------------------

/// Mandatory-field invariant: an element yields a record exactly when
/// latitude, longitude and timestamp are all present and the activity
/// reduction is not fatal; any mandatory slot absent means no record.
pub proof fn lemma_mandatory_field_invariant(raw: RawRecord)
    ensures
        decoded_record(raw) is Some <==> (mandatory_present(raw) && reduce_windows(
            raw.activity@,
        ) is Ok),
{
}

/// Reduction determinism, positive half: if every guess before position
/// `i` either misses the confidence threshold or carries a recognized but
/// ignored label, and the guess at `i` qualifies and maps, then the
/// reduction returns exactly that mapped classification.
pub proof fn lemma_reduction_first_match(gs: Seq<RawGuess>, i: int, a: TimelineActivity)
    requires
        0 <= i < gs.len(),
        qualifies(gs[i]),
        classify_label(gs[i].label@) == LabelClass::Mapped(a),
        forall|j: int| 0 <= j < i ==> !qualifies(gs[j]) || classify_label(gs[j].label@) is Ignored,
    ensures
        reduce_guesses(gs) == Ok::<TimelineActivity, Seq<char>>(a),
    decreases i,
{
    if i > 0 {
        assert forall|j: int| 0 <= j < i - 1 implies !qualifies(gs.drop_first()[j])
            || classify_label(gs.drop_first()[j].label@) is Ignored by {
            assert(gs.drop_first()[j] == gs[j + 1]);
        }
        assert(gs.drop_first()[i - 1] == gs[i]);
        lemma_reduction_first_match(gs.drop_first(), i - 1, a);
    }
}

/// Reduction determinism, negative half: a window in which no guess both
/// qualifies and maps reduces to `Unknown`.
pub proof fn lemma_reduction_no_match(gs: Seq<RawGuess>)
    requires
        forall|j: int| 0 <= j < gs.len() ==> !qualifies(gs[j]) || classify_label(
            gs[j].label@,
        ) is Ignored,
    ensures
        reduce_guesses(gs) == Ok::<TimelineActivity, Seq<char>>(TimelineActivity::Unknown),
    decreases gs.len(),
{
    if gs.len() > 0 {
        assert forall|j: int| 0 <= j < gs.drop_first().len() implies !qualifies(
            gs.drop_first()[j],
        ) || classify_label(gs.drop_first()[j].label@) is Ignored by {
            assert(gs.drop_first()[j] == gs[j + 1]);
        }
        lemma_reduction_no_match(gs.drop_first());
    }
}

/// Only the last window matters: two activity histories with the same
/// last window reduce alike, whatever their earlier windows hold.
pub proof fn lemma_last_window_wins(ws1: Seq<RawWindow>, ws2: Seq<RawWindow>)
    requires
        ws1.len() > 0,
        ws2.len() > 0,
        ws1.last() == ws2.last(),
    ensures
        reduce_windows(ws1) == reduce_windows(ws2),
{
}

/// The records a batch of decoded elements yields, in order: one per
/// element whose decode succeeds, none for the elements that fail.
pub open spec fn yielded_records(raws: Seq<RawRecord>) -> Seq<TimelineRecord>
    decreases raws.len(),
{
    if raws.len() == 0 {
        Seq::<TimelineRecord>::empty()
    } else {
        match decoded_record(raws[0]) {
            Some(rec) => seq![rec] + yielded_records(raws.drop_first()),
            None => yielded_records(raws.drop_first()),
        }
    }
}

/// How many elements of a batch fail to decode.
pub open spec fn count_skipped(raws: Seq<RawRecord>) -> int
    decreases raws.len(),
{
    if raws.len() == 0 {
        0
    } else {
        (if decoded_record(raws[0]) is None {
            1int
        } else {
            0int
        }) + count_skipped(raws.drop_first())
    }
}

/// Skip-and-continue: of N elements of which K fail to decode, exactly
/// N − K records come out; the order of the survivors is the original
/// order of their elements (built into `yielded_records`).
pub proof fn lemma_skip_and_continue(raws: Seq<RawRecord>)
    ensures
        yielded_records(raws).len() == raws.len() - count_skipped(raws),
        0 <= count_skipped(raws) <= raws.len(),
    decreases raws.len(),
{
    if raws.len() > 0 {
        lemma_skip_and_continue(raws.drop_first());
    }
}

// ---------------------------------------------------------------------------
// The streaming element decoder: drives the token reader over exactly one
// array element and builds the intermediate record. Whatever a field
// holds, the element is consumed whole — a wrong shape is recorded, not
// thrown — so the reader stays aligned on the next element. Only a
// failure of the reader itself abandons it.
// ---------------------------------------------------------------------------

/// The outcome of reading one optional member value.
enum Slot<T> {
    /// JSON null: the slot stays absent.
    Absent,
    /// A well-shaped value.
    Present(T),
    /// A value of the wrong shape; it was consumed all the same.
    Bad,
}

/// Reads one member value expected to be an integer. `null` leaves the
/// slot absent; a number out of 64-bit signed range or any other kind of
/// value is consumed and marked bad.
fn read_opt_i64<'a>(tok: &mut JsonTokens<'a>) -> (r: Result<Slot<i64>, ()>)
    requires
        old(tok).shape().at_value(),
    ensures
        r is Ok ==> final(tok).shape() == old(tok).shape().value_done(),
{
    let kind = match tok.peek() {
        Ok(k) => k,
        Err(_) => {
            return Err(());
        },
    };
    match kind {
        ValueKind::Number => match tok.next_i64() {
            Ok(Some(v)) => Ok(Slot::Present(v)),
            Ok(None) => Ok(Slot::Bad),
            Err(_) => Err(()),
        },
        ValueKind::Null => match tok.skip_value() {
            Ok(()) => Ok(Slot::Absent),
            Err(_) => Err(()),
        },
        _ => match tok.skip_value() {
            Ok(()) => Ok(Slot::Bad),
            Err(_) => Err(()),
        },
    }
}

/// Reads one member value expected to be a timestamp string. `null`
/// leaves the slot absent; a non-string or a string that is not a valid
/// RFC 3339 timestamp is consumed and marked bad.
fn read_opt_instant<'a>(tok: &mut JsonTokens<'a>) -> (r: Result<Slot<UtcInstant>, ()>)
    requires
        old(tok).shape().at_value(),
    ensures
        r is Ok ==> final(tok).shape() == old(tok).shape().value_done(),
{
    let kind = match tok.peek() {
        Ok(k) => k,
        Err(_) => {
            return Err(());
        },
    };
    match kind {
        ValueKind::Str => match tok.next_string() {
            Ok(s) => match parse_rfc3339(s.as_str()) {
                Some(t) => Ok(Slot::Present(t)),
                None => Ok(Slot::Bad),
            },
            Err(_) => Err(()),
        },
        ValueKind::Null => match tok.skip_value() {
            Ok(()) => Ok(Slot::Absent),
            Err(_) => Err(()),
        },
        _ => match tok.skip_value() {
            Ok(()) => Ok(Slot::Bad),
            Err(_) => Err(()),
        },
    }
}

/// Reads one guess of a window: an object with a string `type` and an
/// integer `confidence` between 0 and 255. `None` for any other shape,
/// a missing or repeated member, or a confidence out of range; the value
/// is consumed whole all the same.
fn read_guess<'a>(tok: &mut JsonTokens<'a>) -> (r: Result<Option<RawGuess>, ()>)
    requires
        old(tok).shape().at_value(),
    ensures
        r is Ok ==> final(tok).shape() == old(tok).shape().value_done(),
{
    let kind = match tok.peek() {
        Ok(k) => k,
        Err(_) => {
            return Err(());
        },
    };
    if !(matches!(kind, ValueKind::Object)) {
        return match tok.skip_value() {
            Ok(()) => Ok(None),
            Err(_) => Err(()),
        };
    }
    match tok.begin_object() {
        Ok(()) => (),
        Err(_) => {
            return Err(());
        },
    }
    let ghost entered = old(tok).shape().pushed(Nest::InObject);
    let mut label: Option<String> = None;
    let mut confidence: Option<u8> = None;
    let mut label_seen = false;
    let mut conf_seen = false;
    let mut bad = false;
    let mut fuel: u64 = u64::MAX;
    loop
        invariant
            tok.shape() == entered,
            entered == old(tok).shape().pushed(Nest::InObject),
            old(tok).shape().at_value(),
        decreases fuel,
    {
        let more = match tok.has_next() {
            Ok(b) => b,
            Err(_) => {
                return Err(());
            },
        };
        if !more {
            break;
        }
        if fuel == 0 {
            return Err(());
        }
        fuel = fuel - 1;
        let name = match tok.next_name() {
            Ok(n) => n,
            Err(_) => {
                return Err(());
            },
        };
        if text_is(&name, "type") {
            if label_seen {
                bad = true;
            }
            label_seen = true;
            let vkind = match tok.peek() {
                Ok(k) => k,
                Err(_) => {
                    return Err(());
                },
            };
            if matches!(vkind, ValueKind::Str) {
                match tok.next_string() {
                    Ok(s) => {
                        label = Some(s);
                    },
                    Err(_) => {
                        return Err(());
                    },
                }
            } else {
                match tok.skip_value() {
                    Ok(()) => {
                        bad = true;
                    },
                    Err(_) => {
                        return Err(());
                    },
                }
            }
        } else if text_is(&name, "confidence") {
            if conf_seen {
                bad = true;
            }
            conf_seen = true;
            match read_opt_i64(tok) {
                Ok(Slot::Present(v)) => {
                    if 0 <= v && v <= 255 {
                        confidence = Some(v as u8);
                    } else {
                        bad = true;
                    }
                },
                Ok(Slot::Absent) => {
                    bad = true;
                },
                Ok(Slot::Bad) => {
                    bad = true;
                },
                Err(_) => {
                    return Err(());
                },
            }
        } else {
            match tok.skip_value() {
                Ok(()) => (),
                Err(_) => {
                    return Err(());
                },
            }
        }
    }
    match tok.end_object() {
        Ok(()) => (),
        Err(_) => {
            return Err(());
        },
    }
    proof {
        lemma_enter_exit(old(tok).shape(), Nest::InObject);
    }
    if bad {
        return Ok(None);
    }
    match (label, confidence) {
        (Some(l), Some(c)) => Ok(Some(RawGuess { label: l, confidence: c })),
        _ => Ok(None),
    }
}

/// Reads the guess list of one window. `None` where the list or any
/// guess in it is malformed; the list is consumed whole all the same.
fn read_guesses<'a>(tok: &mut JsonTokens<'a>) -> (r: Result<Option<Vec<RawGuess>>, ()>)
    requires
        old(tok).shape().at_value(),
    ensures
        r is Ok ==> final(tok).shape() == old(tok).shape().value_done(),
{
    let kind = match tok.peek() {
        Ok(k) => k,
        Err(_) => {
            return Err(());
        },
    };
    if !(matches!(kind, ValueKind::Array)) {
        return match tok.skip_value() {
            Ok(()) => Ok(None),
            Err(_) => Err(()),
        };
    }
    match tok.begin_array() {
        Ok(()) => (),
        Err(_) => {
            return Err(());
        },
    }
    let ghost entered = old(tok).shape().pushed(Nest::InArray);
    let mut out: Vec<RawGuess> = Vec::new();
    let mut bad = false;
    let mut fuel: u64 = u64::MAX;
    loop
        invariant
            tok.shape() == entered,
            entered == old(tok).shape().pushed(Nest::InArray),
            old(tok).shape().at_value(),
        decreases fuel,
    {
        let more = match tok.has_next() {
            Ok(b) => b,
            Err(_) => {
                return Err(());
            },
        };
        if !more {
            break;
        }
        if fuel == 0 {
            return Err(());
        }
        fuel = fuel - 1;
        match read_guess(tok) {
            Ok(Some(g)) => {
                out.push(g);
            },
            Ok(None) => {
                bad = true;
            },
            Err(_) => {
                return Err(());
            },
        }
    }
    match tok.end_array() {
        Ok(()) => (),
        Err(_) => {
            return Err(());
        },
    }
    proof {
        lemma_enter_exit(old(tok).shape(), Nest::InArray);
    }
    if bad {
        Ok(None)
    } else {
        Ok(Some(out))
    }
}

/// Reads one window: an object whose `activity` member holds the guess
/// list; other members are ignored. `None` for any other shape, or a
/// missing, repeated or malformed guess list.
fn read_window<'a>(tok: &mut JsonTokens<'a>) -> (r: Result<Option<RawWindow>, ()>)
    requires
        old(tok).shape().at_value(),
    ensures
        r is Ok ==> final(tok).shape() == old(tok).shape().value_done(),
{
    let kind = match tok.peek() {
        Ok(k) => k,
        Err(_) => {
            return Err(());
        },
    };
    if !(matches!(kind, ValueKind::Object)) {
        return match tok.skip_value() {
            Ok(()) => Ok(None),
            Err(_) => Err(()),
        };
    }
    match tok.begin_object() {
        Ok(()) => (),
        Err(_) => {
            return Err(());
        },
    }
    let ghost entered = old(tok).shape().pushed(Nest::InObject);
    let mut guesses: Option<Vec<RawGuess>> = None;
    let mut guesses_seen = false;
    let mut bad = false;
    let mut fuel: u64 = u64::MAX;
    loop
        invariant
            tok.shape() == entered,
            entered == old(tok).shape().pushed(Nest::InObject),
            old(tok).shape().at_value(),
        decreases fuel,
    {
        let more = match tok.has_next() {
            Ok(b) => b,
            Err(_) => {
                return Err(());
            },
        };
        if !more {
            break;
        }
        if fuel == 0 {
            return Err(());
        }
        fuel = fuel - 1;
        let name = match tok.next_name() {
            Ok(n) => n,
            Err(_) => {
                return Err(());
            },
        };
        if text_is(&name, "activity") {
            if guesses_seen {
                bad = true;
            }
            guesses_seen = true;
            match read_guesses(tok) {
                Ok(Some(gs)) => {
                    guesses = Some(gs);
                },
                Ok(None) => {
                    bad = true;
                },
                Err(_) => {
                    return Err(());
                },
            }
        } else {
            match tok.skip_value() {
                Ok(()) => (),
                Err(_) => {
                    return Err(());
                },
            }
        }
    }
    match tok.end_object() {
        Ok(()) => (),
        Err(_) => {
            return Err(());
        },
    }
    proof {
        lemma_enter_exit(old(tok).shape(), Nest::InObject);
    }
    if bad {
        return Ok(None);
    }
    match guesses {
        Some(gs) => Ok(Some(RawWindow { guesses: gs })),
        None => Ok(None),
    }
}

/// Reads the activity history of an element: an array of windows.
/// `None` where the history or any window in it is malformed; the
/// history is consumed whole all the same.
fn read_windows<'a>(tok: &mut JsonTokens<'a>) -> (r: Result<Option<Vec<RawWindow>>, ()>)
    requires
        old(tok).shape().at_value(),
    ensures
        r is Ok ==> final(tok).shape() == old(tok).shape().value_done(),
{
    let kind = match tok.peek() {
        Ok(k) => k,
        Err(_) => {
            return Err(());
        },
    };
    if !(matches!(kind, ValueKind::Array)) {
        return match tok.skip_value() {
            Ok(()) => Ok(None),
            Err(_) => Err(()),
        };
    }
    match tok.begin_array() {
        Ok(()) => (),
        Err(_) => {
            return Err(());
        },
    }
    let ghost entered = old(tok).shape().pushed(Nest::InArray);
    let mut out: Vec<RawWindow> = Vec::new();
    let mut bad = false;
    let mut fuel: u64 = u64::MAX;
    loop
        invariant
            tok.shape() == entered,
            entered == old(tok).shape().pushed(Nest::InArray),
            old(tok).shape().at_value(),
        decreases fuel,
    {
        let more = match tok.has_next() {
            Ok(b) => b,
            Err(_) => {
                return Err(());
            },
        };
        if !more {
            break;
        }
        if fuel == 0 {
            return Err(());
        }
        fuel = fuel - 1;
        match read_window(tok) {
            Ok(Some(w)) => {
                out.push(w);
            },
            Ok(None) => {
                bad = true;
            },
            Err(_) => {
                return Err(());
            },
        }
    }
    match tok.end_array() {
        Ok(()) => (),
        Err(_) => {
            return Err(());
        },
    }
    proof {
        lemma_enter_exit(old(tok).shape(), Nest::InArray);
    }
    if bad {
        Ok(None)
    } else {
        Ok(Some(out))
    }
}

/// Decodes exactly one array element into a record, or fails.
///
/// The element is consumed whole whatever the outcome, except when the
/// underlying reader itself fails (`Stream`), after which the reader is
/// abandoned. An element that is not an object, holds a field of the
/// wrong shape, or repeats a field is `Malformed`; one lacking latitude,
/// longitude or timestamp is `MissingMandatory`; a qualifying activity
/// guess whose label is outside the fixed table is the fatal
/// `UnmappedActivity`.
pub fn read_timeline_record<'a>(tok: &mut JsonTokens<'a>) -> (r: Result<
    TimelineRecord,
    TimelineError,
>)
    requires
        old(tok).shape().at_value(),
    ensures
        r is Ok ==> final(tok).shape() == old(tok).shape().value_done(),
        (match r {
            Ok(_) => true,
            Err(e) => !(e is Stream) ==> final(tok).shape() == old(tok).shape().value_done() && (
            e is Malformed || e is MissingMandatory || e is UnmappedActivity),
        }),
        r matches Ok(rec) ==> exists|raw: RawRecord| decoded_record(raw) == Some(rec),
{
    let kind = match tok.peek() {
        Ok(k) => k,
        Err(_) => {
            return Err(TimelineError::Stream);
        },
    };
    if !(matches!(kind, ValueKind::Object)) {
        return match tok.skip_value() {
            Ok(()) => Err(TimelineError::Malformed),
            Err(_) => Err(TimelineError::Stream),
        };
    }
    match tok.begin_object() {
        Ok(()) => (),
        Err(_) => {
            return Err(TimelineError::Stream);
        },
    }
    let ghost entered = old(tok).shape().pushed(Nest::InObject);
    let mut latitude: Option<i32> = None;
    let mut longitude: Option<i32> = None;
    let mut stamp: Option<UtcInstant> = None;
    let mut accuracy: Option<u32> = None;
    let mut windows: Vec<RawWindow> = Vec::new();
    let mut lat_seen = false;
    let mut lon_seen = false;
    let mut stamp_seen = false;
    let mut acc_seen = false;
    let mut act_seen = false;
    let mut bad = false;
    let mut fuel: u64 = u64::MAX;
    loop
        invariant
            tok.shape() == entered,
            entered == old(tok).shape().pushed(Nest::InObject),
            old(tok).shape().at_value(),
        decreases fuel,
    {
        let more = match tok.has_next() {
            Ok(b) => b,
            Err(_) => {
                return Err(TimelineError::Stream);
            },
        };
        if !more {
            break;
        }
        if fuel == 0 {
            return Err(TimelineError::Stream);
        }
        fuel = fuel - 1;
        let name = match tok.next_name() {
            Ok(n) => n,
            Err(_) => {
                return Err(TimelineError::Stream);
            },
        };
        if text_is(&name, "latitudeE7") {
            if lat_seen {
                bad = true;
            }
            lat_seen = true;
            match read_opt_i64(tok) {
                Ok(Slot::Present(v)) => {
                    if (i32::MIN as i64) <= v && v <= (i32::MAX as i64) {
                        latitude = Some(v as i32);
                    } else {
                        bad = true;
                    }
                },
                Ok(Slot::Absent) => (),
                Ok(Slot::Bad) => {
                    bad = true;
                },
                Err(_) => {
                    return Err(TimelineError::Stream);
                },
            }
        } else if text_is(&name, "longitudeE7") {
            if lon_seen {
                bad = true;
            }
            lon_seen = true;
            match read_opt_i64(tok) {
                Ok(Slot::Present(v)) => {
                    if (i32::MIN as i64) <= v && v <= (i32::MAX as i64) {
                        longitude = Some(v as i32);
                    } else {
                        bad = true;
                    }
                },
                Ok(Slot::Absent) => (),
                Ok(Slot::Bad) => {
                    bad = true;
                },
                Err(_) => {
                    return Err(TimelineError::Stream);
                },
            }
        } else if text_is(&name, "timestamp") {
            if stamp_seen {
                bad = true;
            }
            stamp_seen = true;
            match read_opt_instant(tok) {
                Ok(Slot::Present(t)) => {
                    stamp = Some(t);
                },
                Ok(Slot::Absent) => (),
                Ok(Slot::Bad) => {
                    bad = true;
                },
                Err(_) => {
                    return Err(TimelineError::Stream);
                },
            }
        } else if text_is(&name, "accuracy") {
            if acc_seen {
                bad = true;
            }
            acc_seen = true;
            match read_opt_i64(tok) {
                Ok(Slot::Present(v)) => {
                    if 0 <= v && v <= (u32::MAX as i64) {
                        accuracy = Some(v as u32);
                    } else {
                        bad = true;
                    }
                },
                Ok(Slot::Absent) => (),
                Ok(Slot::Bad) => {
                    bad = true;
                },
                Err(_) => {
                    return Err(TimelineError::Stream);
                },
            }
        } else if text_is(&name, "activity") {
            if act_seen {
                bad = true;
            }
            act_seen = true;
            match read_windows(tok) {
                Ok(Some(ws)) => {
                    windows = ws;
                },
                Ok(None) => {
                    bad = true;
                },
                Err(_) => {
                    return Err(TimelineError::Stream);
                },
            }
        } else {
            match tok.skip_value() {
                Ok(()) => (),
                Err(_) => {
                    return Err(TimelineError::Stream);
                },
            }
        }
    }
    match tok.end_object() {
        Ok(()) => (),
        Err(_) => {
            return Err(TimelineError::Stream);
        },
    }
    proof {
        lemma_enter_exit(old(tok).shape(), Nest::InObject);
    }
    if bad {
        return Err(TimelineError::Malformed);
    }
    let raw = RawRecord {
        latitude_e7: latitude,
        longitude_e7: longitude,
        timestamp: stamp,
        accuracy: accuracy,
        activity: windows,
    };
    let ghost raw_snapshot = raw;
    match record_from_raw(raw) {
        Ok(rec) => {
            proof {
                assert(decoded_record(raw_snapshot) == Some(rec));
            }
            Ok(rec)
        },
        Err(e) => Err(e),
    }
}

} // verus!
