//! Tagged signals.
//!
//! An [`IO`] pairs one kind of the closed catalog with an optional payload.
//! Exactly one kind is active per instance and it never changes after
//! construction: every transformation preserves the kind and touches only
//! the payload or its type. Two tagged signals are kind-equal exactly when
//! their active kinds match, regardless of payload value or payload type.

use vstd::prelude::*;

use crate::kind::Kind;

verus! {

/// A tagged signal: one catalog kind, optionally carrying a payload.
///
/// The payload type varies per pipeline stage: `()` for a bare marker,
/// `usize` for index assignment, a vector of physical values, or a
/// [`Stream`] pulled one element at a time.
#[derive(Clone, Debug)]
pub struct IO<T> {
    /// The active kind. Constructors and transformations never change it.
    pub kind: Kind,
    /// The payload, if any.
    pub data: Option<T>,
}

/// IO error type: a signal whose payload was required but absent.
#[derive(Debug)]
pub enum IOError<T> {
    Missing(IO<T>),
}

/// A bare tag: a tagged signal carrying no payload type.
pub type Tags = IO<()>;

/// Kind equality: true exactly when the active kinds match. Payload value
/// and payload type are both ignored.
pub open spec fn spec_kind_equal<T, U>(a: IO<T>, b: IO<U>) -> bool {
    a.kind == b.kind
}

/// The identity test used everywhere else (lookup, removal, routing):
/// two tagged signals are equal exactly when their kinds match, whatever
/// their payloads or payload types.
pub fn kind_equal<T, U>(a: &IO<T>, b: &IO<U>) -> (r: bool)
    ensures
        r == spec_kind_equal(*a, *b),
{
    a.kind == b.kind
}

/// What [`retag`] builds: a same-kind signal with a fresh empty payload.
pub open spec fn spec_retag<T, U>(from: IO<U>) -> IO<T> {
    IO { kind: from.kind, data: None }
}

/// A same-kind signal of another payload type, with a fresh empty payload.
/// Used to convert between pipeline stages, e.g. to turn an index-typed
/// marker into a value-typed slot of the same kind.
pub fn retag<T, U>(from: &IO<U>) -> (r: IO<T>)
    ensures
        r == spec_retag::<T, U>(*from),
        r.kind == from.kind,
        r.data is None,
{
    IO { kind: from.kind, data: None }
}

/// A signal of the given tag's kind carrying the given payload.
pub fn with_payload<T>(tag: &IO<()>, data: Option<T>) -> (r: IO<T>)
    ensures
        r.kind == tag.kind,
        r.data == data,
{
    IO { kind: tag.kind, data }
}

impl<T> IO<T> {
    /// A tagged signal of the given kind with no payload.
    pub fn empty(kind: Kind) -> (r: IO<T>)
        ensures
            r.kind == kind,
            r.data is None,
    {
        IO { kind, data: None }
    }

    /// A tagged signal of the given kind filled with the given payload.
    pub fn filled(kind: Kind, value: T) -> (r: IO<T>)
        ensures
            r.kind == kind,
            r.data == Some(value),
    {
        IO { kind, data: Some(value) }
    }

    /// The payload, consuming the signal.
    pub fn extract_payload(self) -> (r: Option<T>)
        ensures
            r == self.data,
    {
        self.data
    }

    /// A reference to the payload, without consuming the signal.
    pub fn payload_ref(&self) -> (r: Option<&T>)
        ensures
            r is Some <==> self.data is Some,
            r matches Some(v) ==> self.data == Some(*v),
    {
        self.data.as_ref()
    }

    /// The payload as a success value, or the originating kind as a
    /// self-describing missing-signal error.
    pub fn into_result(self) -> (r: Result<T, IOError<T>>)
        ensures
            self.data matches Some(v) ==> r == Ok::<T, IOError<T>>(v),
            self.data is None ==> r == Err::<T, IOError<T>>(
                IOError::Missing(IO { kind: self.kind, data: None }),
            ),
    {
        match self.data {
            Some(v) => Ok(v),
            None => Err(IOError::Missing(IO { kind: self.kind, data: None })),
        }
    }

    /// The catalog name of the active kind, independent of the payload.
    pub fn kind_name(&self) -> (r: String)
        ensures
            r@ == self.kind.spec_name(),
    {
        self.kind.name().to_owned()
    }
}

impl<T: Clone> IO<T> {
    /// A clone of the payload, without consuming the signal.
    pub fn payload_cloned(&self) -> (r: Option<T>)
        ensures
            r is Some <==> self.data is Some,
            r matches Some(v) ==> cloned::<T>(self.data->0, v),
    {
        self.data.as_ref().cloned()
    }
}

impl IO<usize> {
    /// Assigns `n` as the payload, regardless of prior state. Used to give
    /// every catalog kind a stable numeric index, e.g. for dense-array
    /// placement.
    pub fn assign(&mut self, n: usize)
        ensures
            final(self).kind == old(self).kind,
            final(self).data == Some(n),
    {
        self.data = Some(n);
    }
}

/// A finite, stateful, non-restartable lazy sequence owned by a signal
/// instance. Elements are pulled synchronously, one at a time, with no
/// buffering beyond the element in flight.
#[derive(Clone, Debug)]
pub struct Stream<T> {
    /// The elements not yet pulled, stored in reverse order so that a pull
    /// is a pop from the back.
    rem: Vec<T>,
}

impl<T> View for Stream<T> {
    type V = Seq<T>;

    /// The elements still to be pulled, in pull order.
    closed spec fn view(&self) -> Seq<T> {
        self.rem@.reverse()
    }
}

impl<T> Stream<T> {
    /// A stream that will yield the elements of `items` in order.
    pub fn from_vec(items: Vec<T>) -> (s: Stream<T>)
        ensures
            s@ == items@,
    {
        let ghost orig = items@;
        let mut items = items;
        let mut rem: Vec<T> = Vec::new();
        while items.len() > 0
            invariant
                items@ + rem@.reverse() =~= orig,
            decreases items.len(),
        {
            let x = items.pop().unwrap();
            rem.push(x);
            proof {
                assert(items@ + rem@.reverse() =~= orig);
            }
        }
        let s = Stream { rem };
        proof {
            assert(s@ =~= orig);
        }
        s
    }

    /// Pulls the next element, if any. A pulled element is gone: the
    /// stream never restarts.
    pub fn next(&mut self) -> (r: Option<T>)
        ensures
            old(self)@.len() > 0
                ==> r == Some(old(self)@[0]) && final(self)@ == old(self)@.drop_first(),
            old(self)@.len() == 0 ==> r is None && final(self)@ == old(self)@,
    {
        let r = self.rem.pop();
        proof {
            if old(self)@.len() > 0 {
                assert(final(self)@ =~= old(self)@.drop_first());
            }
        }
        r
    }

    /// How many elements remain.
    pub fn remaining(&self) -> (n: usize)
        ensures
            n == self@.len(),
    {
        self.rem.len()
    }
}

/// Law: kind equality ignores the payload. For any catalog kind, an
/// empty signal and a signal filled with any value of any payload type
/// are kind-equal.
pub proof fn lemma_kind_equal_ignores_payload<T, V>(k: Kind, v: V)
    ensures
        spec_kind_equal(IO::<T> { kind: k, data: None }, IO::<V> { kind: k, data: Some(v) }),
{
}

/// Law: two tagged signals of distinct kinds are never kind-equal,
/// regardless of their payloads or payload types.
pub proof fn lemma_kind_equal_distinct<T, U>(a: IO<T>, b: IO<U>)
    requires
        a.kind != b.kind,
    ensures
        !spec_kind_equal(a, b),
{
}

/// Law: retagging preserves the kind, and with it the kind name.
pub proof fn lemma_retag_preserves_kind_name<T, U>(x: IO<U>)
    ensures
        spec_retag::<T, U>(x).kind == x.kind,
        spec_retag::<T, U>(x).kind.spec_name() == x.kind.spec_name(),
{
}

/// Draws the next element of the signal's lazy payload and wraps it with
/// the same kind; yields nothing if the payload is absent or exhausted.
pub fn pull_next<T>(from: &mut IO<Stream<T>>) -> (r: Option<IO<T>>)
    ensures
        final(from).kind == old(from).kind,
        old(from).data is None ==> r is None && final(from).data is None,
        old(from).data matches Some(s) ==> ((s@.len() == 0 ==> r is None && (final(
            from).data matches Some(s2) && s2@ == s@)) && (s@.len() > 0 ==> (r matches Some(io)
            && io.kind == old(from).kind && io.data == Some(s@[0])) && (final(
            from).data matches Some(s3) && s3@ == s@.drop_first()))),
{
    let k = from.kind;
    let d = from.data.take();
    match d {
        None => None,
        Some(mut s) => {
            let x = s.next();
            from.data = Some(s);
            match x {
                None => None,
                Some(v) => Some(IO { kind: k, data: Some(v) }),
            }
        },
    }
}

} // verus!
