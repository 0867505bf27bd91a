use vstd::prelude::*;

use struson::reader::JsonReader;
use struson::reader::JsonStreamReader;

verus! {

/// The kinds of JSON container a streaming reader can be inside of.
pub enum Nest {
    InObject,
    InArray,
}

/// An abstract view of a streaming reader's position, following the
/// protocol struson documents: the stack of containers entered, whether a
/// member name is due (inside an object), whether the root value has been
/// fully consumed, and whether the reader is still usable. `live` goes
/// false once any call fails — struson leaves a reader in an unspecified
/// state after syntax and I/O errors — and this crate then never touches
/// the reader again.
pub struct ReaderShape {
    pub frames: Seq<Nest>,
    pub expects_name: bool,
    pub root_consumed: bool,
    pub live: bool,
}

impl ReaderShape {
    /// A value may be consumed here: nothing failed so far, no member
    /// name is due, and the root value is not consumed yet.
    pub open spec fn at_value(self) -> bool {
        self.live && !self.expects_name && !self.root_consumed
    }

    /// The reader stands between the entries of a container, where
    /// checking for a next element or member is allowed.
    pub open spec fn at_entry(self) -> bool {
        self.live && self.frames.len() > 0 && (self.frames.last() is InObject
            ==> self.expects_name)
    }

    /// The reader stands inside an object, before a member name.
    pub open spec fn at_name(self) -> bool {
        self.live && self.frames.len() > 0 && self.frames.last() is InObject && self.expects_name
    }

    /// The shape after one complete value was consumed at this position.
    pub open spec fn value_done(self) -> ReaderShape {
        if self.frames.len() == 0 {
            ReaderShape { root_consumed: true, ..self }
        } else if self.frames.last() is InObject {
            ReaderShape { expects_name: true, ..self }
        } else {
            self
        }
    }

    /// The shape after entering a container of the given kind.
    pub open spec fn pushed(self, n: Nest) -> ReaderShape {
        ReaderShape { frames: self.frames.push(n), expects_name: n is InObject, ..self }
    }

    /// The shape after leaving the innermost container, which counts as
    /// one consumed value of the enclosing position.
    pub open spec fn popped(self) -> ReaderShape {
        ReaderShape { frames: self.frames.drop_last(), expects_name: false, ..self }.value_done()
    }

    /// The shape after a member name was consumed.
    pub open spec fn after_name(self) -> ReaderShape {
        ReaderShape { expects_name: false, ..self }
    }

    /// The shape of a reader that is no longer usable.
    pub open spec fn dead(self) -> ReaderShape {
        ReaderShape { live: false, ..self }
    }
}

/// Entering a container and leaving it again consumes, as seen from the
/// enclosing position, exactly one value.
pub proof fn lemma_enter_exit(s: ReaderShape, n: Nest)
    requires
        !s.expects_name,
    ensures
        s.pushed(n).popped() == s.value_done(),
{
    assert(s.frames.push(n).drop_last() =~= s.frames);
}

/// The shape of a freshly created reader: before the root value.
pub open spec fn fresh_shape() -> ReaderShape {
    ReaderShape { frames: Seq::empty(), expects_name: false, root_consumed: false, live: true }
}

/// What kind of JSON value comes next, as reported by a peek.
#[derive(Debug, PartialEq, Eq, Clone, Copy)]
pub enum ValueKind {
    Null,
    Bool,
    Number,
    Str,
    Array,
    Object,
}

/// Holds struson's stream reader over a type-erased byte source. The
/// bound `R: Read` on `JsonStreamReader` cannot be written on a struct
/// here, so the source is boxed and the whole holder kept opaque; every
/// access goes through the contracted methods of `JsonTokens`.
#[verifier::external_body]
pub struct HiddenReader<'a> {
    inner: JsonStreamReader<Box<dyn std::io::Read + 'a>>,
}

/// Relies on struson's `JsonStreamReader::new`: a fresh stream reader
/// stands before the root value of its document.
#[verifier::external_body]
pub(crate) fn stream_reader_new<'a, R: std::io::Read + 'a>(reader: R) -> HiddenReader<'a> {
    HiddenReader { inner: JsonStreamReader::new(Box::new(reader)) }
}

/// A streaming JSON token reader: struson's `JsonStreamReader`, paired
/// with the abstract shape that tracks which calls its protocol allows.
/// Each method's precondition keeps the calls within the protocol, which
/// struson enforces by panicking; each failure result stands for any of
/// struson's error cases, after which the reader is retired.
pub struct JsonTokens<'a> {
    inner: HiddenReader<'a>,
    shape_g: Ghost<ReaderShape>,
}

impl<'a> JsonTokens<'a> {
    /// The abstract position of this reader.
    pub closed spec fn shape(self) -> ReaderShape {
        self.shape_g@
    }

    /// A fresh token reader over the given byte source, standing before
    /// the root value of the document.
    pub fn new<R: std::io::Read + 'a>(reader: R) -> (t: JsonTokens<'a>)
        ensures
            t.shape() == fresh_shape(),
    {
        JsonTokens::from_source(stream_reader_new(reader))
    }

    /// A token reader over a freshly opened source holder, standing
    /// before the root value of its document.
    pub(crate) fn from_source(source: HiddenReader<'a>) -> (t: JsonTokens<'a>)
        ensures
            t.shape() == fresh_shape(),
    {
        JsonTokens { inner: source, shape_g: Ghost(fresh_shape()) }
    }

    /// Relies on struson's `JsonReader::begin_object`: allowed before a
    /// value; on success the reader enters the object.
    #[verifier::external_body]
    pub fn begin_object(&mut self) -> (r: Result<(), ()>)
        requires
            old(self).shape().at_value(),
        ensures
            r is Ok ==> final(self).shape() == old(self).shape().pushed(Nest::InObject),
            r is Err ==> final(self).shape() == old(self).shape().dead(),
    {
        match self.inner.inner.begin_object() {
            Ok(()) => Ok(()),
            Err(_) => Err(()),
        }
    }

    /// Relies on struson's `JsonReader::begin_array`: allowed before a
    /// value; on success the reader enters the array.
    #[verifier::external_body]
    pub fn begin_array(&mut self) -> (r: Result<(), ()>)
        requires
            old(self).shape().at_value(),
        ensures
            r is Ok ==> final(self).shape() == old(self).shape().pushed(Nest::InArray),
            r is Err ==> final(self).shape() == old(self).shape().dead(),
    {
        match self.inner.inner.begin_array() {
            Ok(()) => Ok(()),
            Err(_) => Err(()),
        }
    }

    /// Relies on struson's `JsonReader::end_object`: allowed inside an
    /// object when no member is half read; on success the object is left.
    #[verifier::external_body]
    pub fn end_object(&mut self) -> (r: Result<(), ()>)
        requires
            old(self).shape().at_name(),
        ensures
            r is Ok ==> final(self).shape() == old(self).shape().popped(),
            r is Err ==> final(self).shape() == old(self).shape().dead(),
    {
        match self.inner.inner.end_object() {
            Ok(()) => Ok(()),
            Err(_) => Err(()),
        }
    }

    /// Relies on struson's `JsonReader::end_array`: allowed inside an
    /// array; on success the array is left.
    #[verifier::external_body]
    pub fn end_array(&mut self) -> (r: Result<(), ()>)
        requires
            old(self).shape().live,
            old(self).shape().frames.len() > 0,
            old(self).shape().frames.last() is InArray,
        ensures
            r is Ok ==> final(self).shape() == old(self).shape().popped(),
            r is Err ==> final(self).shape() == old(self).shape().dead(),
    {
        match self.inner.inner.end_array() {
            Ok(()) => Ok(()),
            Err(_) => Err(()),
        }
    }

    /// Relies on struson's `JsonReader::has_next`: allowed between the
    /// entries of a container; reports whether another element or member
    /// follows, consuming nothing.
    #[verifier::external_body]
    pub fn has_next(&mut self) -> (r: Result<bool, ()>)
        requires
            old(self).shape().at_entry(),
        ensures
            r is Ok ==> final(self).shape() == old(self).shape(),
            r is Err ==> final(self).shape() == old(self).shape().dead(),
    {
        match self.inner.inner.has_next() {
            Ok(b) => Ok(b),
            Err(_) => Err(()),
        }
    }

    /// Relies on struson's `JsonReader::next_name_owned`: allowed before
    /// a member name; on success the member's value comes next.
    #[verifier::external_body]
    pub fn next_name(&mut self) -> (r: Result<String, ()>)
        requires
            old(self).shape().at_name(),
        ensures
            r is Ok ==> final(self).shape() == old(self).shape().after_name(),
            r is Err ==> final(self).shape() == old(self).shape().dead(),
    {
        match self.inner.inner.next_name_owned() {
            Ok(name) => Ok(name),
            Err(_) => Err(()),
        }
    }

    /// Relies on struson's `JsonReader::peek`: allowed before a value;
    /// reports the kind of the next value, consuming nothing.
    #[verifier::external_body]
    pub fn peek(&mut self) -> (r: Result<ValueKind, ()>)
        requires
            old(self).shape().at_value(),
        ensures
            r is Ok ==> final(self).shape() == old(self).shape(),
            r is Err ==> final(self).shape() == old(self).shape().dead(),
    {
        match self.inner.inner.peek() {
            Ok(struson::reader::ValueType::Null) => Ok(ValueKind::Null),
            Ok(struson::reader::ValueType::Boolean) => Ok(ValueKind::Bool),
            Ok(struson::reader::ValueType::Number) => Ok(ValueKind::Number),
            Ok(struson::reader::ValueType::String) => Ok(ValueKind::Str),
            Ok(struson::reader::ValueType::Array) => Ok(ValueKind::Array),
            Ok(struson::reader::ValueType::Object) => Ok(ValueKind::Object),
            Err(_) => Err(()),
        }
    }

    /// Relies on struson's `JsonReader::next_string`: allowed before a
    /// value; on success a string value was consumed.
    #[verifier::external_body]
    pub fn next_string(&mut self) -> (r: Result<String, ()>)
        requires
            old(self).shape().at_value(),
        ensures
            r is Ok ==> final(self).shape() == old(self).shape().value_done(),
            r is Err ==> final(self).shape() == old(self).shape().dead(),
    {
        match self.inner.inner.next_string() {
            Ok(s) => Ok(s),
            Err(_) => Err(()),
        }
    }

    /// Relies on struson's `JsonReader::next_number`: allowed before a
    /// value; on success a number value was consumed, and `None` stands
    /// for a JSON number that does not parse as a 64-bit signed integer.
    #[verifier::external_body]
    pub fn next_i64(&mut self) -> (r: Result<Option<i64>, ()>)
        requires
            old(self).shape().at_value(),
        ensures
            r is Ok ==> final(self).shape() == old(self).shape().value_done(),
            r is Err ==> final(self).shape() == old(self).shape().dead(),
    {
        match self.inner.inner.next_number::<i64>() {
            Ok(Ok(v)) => Ok(Some(v)),
            Ok(Err(_)) => Ok(None),
            Err(_) => Err(()),
        }
    }

    /// Relies on struson's `JsonReader::skip_value`: allowed before a
    /// value; on success one whole value was consumed and discarded.
    #[verifier::external_body]
    pub fn skip_value(&mut self) -> (r: Result<(), ()>)
        requires
            old(self).shape().at_value(),
        ensures
            r is Ok ==> final(self).shape() == old(self).shape().value_done(),
            r is Err ==> final(self).shape() == old(self).shape().dead(),
    {
        match self.inner.inner.skip_value() {
            Ok(()) => Ok(()),
            Err(_) => Err(()),
        }
    }
}

} // verus!
