use vstd::prelude::*;

pub mod archive;
pub mod model;
pub mod parser;
pub mod time;
pub mod tokens;

verus! {

pub use crate::archive::read_timeline_records_from_archive;
pub use crate::model::TimelineActivity;
pub use crate::model::TimelineError;
pub use crate::model::TimelineRecord;

use crate::model::RawRecord;
use crate::parser::decoded_record;
use crate::parser::read_timeline_record;
use crate::parser::text_is;
use crate::tokens::fresh_shape;
use crate::tokens::JsonTokens;
use crate::tokens::Nest;

/// The pull-based, single-pass, forward-only sequence of validated
/// records over one open locations array.
///
/// Each pull decodes array elements until one yields a record or the
/// array is exhausted; malformed elements are silently skipped. Once the
/// end is reported, every later pull reports it again. Pulls must be
/// serialized by the consumer; the sequence owns its reader exclusively.
pub struct TimelineRecordsIter<'a> {
    tok: JsonTokens<'a>,
    done: bool,
}

impl<'a> TimelineRecordsIter<'a> {
    /// Whether the sequence has reached its terminal state: the end was
    /// reported (or the fatal error was raised) and nothing follows.
    pub closed spec fn finished(self) -> bool {
        self.done
    }

    /// While the sequence is not finished, its reader stands inside the
    /// locations array, between elements.
    pub closed spec fn wf(self) -> bool {
        !self.done ==> {
            &&& self.tok.shape().live
            &&& !self.tok.shape().root_consumed
            &&& !self.tok.shape().expects_name
            &&& self.tok.shape().frames.len() > 0
            &&& self.tok.shape().frames.last() is InArray
        }
    }

    /// One pull: either the next record of the sequence, the end of the
    /// sequence, or the fatal unmapped-label error.
    ///
    /// A pull on a finished sequence reports the end again (exhaustion
    /// is idempotent: `Ok(None)` makes the sequence finished, and on a
    /// finished sequence every pull returns `Ok(None)`). Elements that
    /// fail to decode are skipped without a trace; reader failures end
    /// the sequence silently. The only error a pull raises is the fatal
    /// `UnmappedActivity`.
    pub fn next(&mut self) -> (r: Result<Option<TimelineRecord>, TimelineError>)
        requires
            old(self).wf(),
        ensures
            final(self).wf(),
            old(self).finished() ==> r == Ok::<Option<TimelineRecord>, TimelineError>(None),
            (match r {
                Ok(Some(rec)) => exists|raw: RawRecord| decoded_record(raw) == Some(rec),
                Ok(None) => final(self).finished(),
                Err(e) => e is UnmappedActivity && final(self).finished(),
            }),
    {
        if self.done {
            return Ok(None);
        }
        let mut fuel: u64 = u64::MAX;
        loop
            invariant
                !old(self).done,
                !self.done,
                self.wf(),
            decreases fuel,
        {
            let more = match self.tok.has_next() {
                Ok(b) => b,
                Err(_) => {
                    self.done = true;
                    return Ok(None);
                },
            };
            if !more {
                self.done = true;
                return Ok(None);
            }
            if fuel == 0 {
                self.done = true;
                return Ok(None);
            }
            fuel = fuel - 1;
            match read_timeline_record(&mut self.tok) {
                Ok(rec) => {
                    return Ok(Some(rec));
                },
                Err(TimelineError::Stream) => {
                    self.done = true;
                    return Ok(None);
                },
                Err(TimelineError::UnmappedActivity(label)) => {
                    self.done = true;
                    return Err(TimelineError::UnmappedActivity(label));
                },
                Err(_) => {},
            }
        }
    }
}

/// Opens the record sequence over a byte stream assumed to hold one JSON
/// document: navigates to the value of the top-level `locations` member
/// without buffering sibling values, opens it as an array, and hands
/// back the sequence positioned before the first element.
///
/// Fails with `Document` where the root is not an object, no `locations`
/// member holds an array, or the reader fails on the way there; the
/// sequence is then never produced.
pub fn read_timeline_records_from_json<'a, R: std::io::Read + 'a>(reader: R) -> (r: Result<
    TimelineRecordsIter<'a>,
    TimelineError,
>)
    ensures
        r matches Ok(it) ==> it.wf() && !it.finished(),
{
    open_locations(JsonTokens::new(reader))
}

/// The document locator: from a fresh reader, walks the members of the
/// root object, skipping every value but the one under `locations`, and
/// opens that value as the array the sequence will consume.
pub(crate) fn open_locations<'a>(tok: JsonTokens<'a>) -> (r: Result<
    TimelineRecordsIter<'a>,
    TimelineError,
>)
    requires
        tok.shape() == fresh_shape(),
    ensures
        r matches Ok(it) ==> it.wf() && !it.finished(),
{
    let mut tok = tok;
    match tok.begin_object() {
        Ok(()) => (),
        Err(_) => {
            return Err(TimelineError::Document);
        },
    }
    let ghost entered = fresh_shape().pushed(Nest::InObject);
    let mut fuel: u64 = u64::MAX;
    loop
        invariant
            tok.shape() == entered,
            entered == fresh_shape().pushed(Nest::InObject),
        decreases fuel,
    {
        let more = match tok.has_next() {
            Ok(b) => b,
            Err(_) => {
                return Err(TimelineError::Document);
            },
        };
        if !more {
            return Err(TimelineError::Document);
        }
        if fuel == 0 {
            return Err(TimelineError::Document);
        }
        fuel = fuel - 1;
        let name = match tok.next_name() {
            Ok(n) => n,
            Err(_) => {
                return Err(TimelineError::Document);
            },
        };
        if text_is(&name, "locations") {
            match tok.begin_array() {
                Ok(()) => {
                    return Ok(TimelineRecordsIter { tok, done: false });
                },
                Err(_) => {
                    return Err(TimelineError::Document);
                },
            }
        } else {
            match tok.skip_value() {
                Ok(()) => (),
                Err(_) => {
                    return Err(TimelineError::Document);
                },
            }
        }
    }
}

} // verus!
