//! Combinator algebra for chaining dependent network operations: a sequence
//! runs its stages strictly in the order written, propagates errors
//! unchanged, and applies its continuations only to stage successes.

use vstd::prelude::*;

use crate::http::{execute_sync, ClientSync, DefaultRequestFactory, Error, FromResponse, Request};

verus! {

/// A chain of request operations that can be run against a transport.
///
/// `valid_output` pins down where a success can have come from: every stage
/// success is the decode of a body the service sent, and every continuation
/// output satisfies that continuation's postcondition applied to such a
/// stage success. `wf` says the continuations accept whatever the prior
/// stages can produce.
pub trait Sequence: Sized {
    type Output;

    type Error;

    /// The sequence's continuations accept every value its stages can
    /// produce.
    spec fn wf(self) -> bool;

    /// What must hold of any success this sequence can return.
    spec fn valid_output(self, o: Self::Output) -> bool;

    /// Runs the stages strictly in the order written, against a blocking
    /// transport; a later stage never starts before the prior stage's
    /// result is known.
    fn do_sync<C: ClientSync>(self, client: &C) -> (r: Result<Self::Output, Self::Error>)
        requires
            self.wf(),
        ensures
            r matches Ok(o) ==> self.valid_output(o),
    ;

    /// On success apply `f` to the output, producing a new output or a new
    /// error; on failure propagate unchanged.
    fn map<O, E, F: FnOnce(Self::Output) -> Result<O, E>>(self, f: F) -> (r: MapSequence<Self, F>)
        ensures
            r == (MapSequence { c: self, f }),
    {
        MapSequence { c: self, f }
    }

    /// Treat the output as intermediate state consumed to build the next
    /// stage; the overall output is the final stage's output.
    fn state<SS, F: FnOnce(Self::Output) -> SS>(self, f: F) -> (r: StateSequence<Self, F>)
        ensures
            r == (StateSequence { s: self, f }),
    {
        StateSequence { s: self, f }
    }

    /// On success `f` either supplies the next sequence, which is run as
    /// well, or fails; errors from either stage propagate.
    fn chain<SS, E, F: FnOnce(Self::Output) -> Result<SS, E>>(self, f: F) -> (r: SequenceChain<
        Self,
        F,
    >)
        ensures
            r == (SequenceChain { s: self, f }),
    {
        SequenceChain { s: self, f }
    }
}

/// Every typed request is a one-stage sequence: its output is the decoded
/// response body.
impl<R: Request> Sequence for R {
    type Output = <R::Response as FromResponse>::Output;

    type Error = Error;

    open spec fn wf(self) -> bool {
        true
    }

    open spec fn valid_output(self, o: Self::Output) -> bool {
        exists|body: Seq<u8>|
            #[trigger] <R::Response as FromResponse>::good(body)
                && <R::Response as FromResponse>::output_matches(body, o)
    }

    fn do_sync<C: ClientSync>(self, client: &C) -> (r: Result<Self::Output, Self::Error>) {
        execute_sync(&self, client, &DefaultRequestFactory {  })
    }
}

/// Runs the inner sequence; on success applies the continuation to its
/// output; on failure propagates the error unchanged (converted into the
/// continuation's error type).
pub struct MapSequence<C, F> {
    pub c: C,
    pub f: F,
}

impl<C, O, E, F> Sequence for MapSequence<C, F> where
    C: Sequence,
    F: FnOnce(C::Output) -> Result<O, E>,
    E: From<C::Error>,
 {
    type Output = O;

    type Error = E;

    open spec fn wf(self) -> bool {
        &&& self.c.wf()
        &&& forall|v: C::Output| self.c.valid_output(v) ==> call_requires(self.f, (v,))
    }

    open spec fn valid_output(self, o: O) -> bool {
        exists|v: C::Output|
            #[trigger] call_ensures(self.f, (v,), Ok::<O, E>(o)) && self.c.valid_output(v)
    }

    fn do_sync<T: ClientSync>(self, client: &T) -> (r: Result<O, E>) {
        let MapSequence { c, f } = self;
        match c.do_sync(client) {
            Ok(v) => match f(v) {
                Ok(o) => Ok(o),
                Err(e) => Err(e),
            },
            Err(e) => Err(E::from(e)),
        }
    }
}

/// Runs the inner sequence, hands its output to the continuation to build
/// the next sequence, and runs that too: for flows whose first result is
/// purely intermediate state.
pub struct StateSequence<S, F> {
    pub s: S,
    pub f: F,
}

impl<S, SS, F> Sequence for StateSequence<S, F> where
    S: Sequence,
    SS: Sequence,
    F: FnOnce(S::Output) -> SS,
    SS::Error: From<S::Error>,
 {
    type Output = SS::Output;

    type Error = SS::Error;

    open spec fn wf(self) -> bool {
        &&& self.s.wf()
        &&& forall|v: S::Output| self.s.valid_output(v) ==> call_requires(self.f, (v,))
        &&& forall|v: S::Output, ss: SS|
            self.s.valid_output(v) && #[trigger] call_ensures(self.f, (v,), ss) ==> ss.wf()
    }

    open spec fn valid_output(self, o: SS::Output) -> bool {
        exists|v: S::Output, ss: SS|
            #[trigger] call_ensures(self.f, (v,), ss) && self.s.valid_output(v)
                && ss.valid_output(o)
    }

    fn do_sync<T: ClientSync>(self, client: &T) -> (r: Result<SS::Output, SS::Error>) {
        let StateSequence { s, f } = self;
        let v = match s.do_sync(client) {
            Ok(v) => v,
            Err(e) => {
                return Err(SS::Error::from(e));
            },
        };
        let ss = f(v);
        ss.do_sync(client)
    }
}

/// Produces a sequence from a plain state value and runs it.
pub struct StateProducerSequence<S, F> {
    pub s: S,
    pub f: F,
}

impl<S, F> StateProducerSequence<S, F> {
    pub fn new(s: S, f: F) -> (r: Self)
        ensures
            r == (StateProducerSequence { s, f }),
    {
        Self { s, f }
    }
}

impl<S, Sq, F> Sequence for StateProducerSequence<S, F> where
    Sq: Sequence,
    F: FnOnce(S) -> Sq,
 {
    type Output = Sq::Output;

    type Error = Sq::Error;

    open spec fn wf(self) -> bool {
        &&& call_requires(self.f, (self.s,))
        &&& forall|q: Sq| #[trigger] call_ensures(self.f, (self.s,), q) ==> q.wf()
    }

    open spec fn valid_output(self, o: Sq::Output) -> bool {
        exists|q: Sq| #[trigger] call_ensures(self.f, (self.s,), q) && q.valid_output(o)
    }

    fn do_sync<T: ClientSync>(self, client: &T) -> (r: Result<Sq::Output, Sq::Error>) {
        let StateProducerSequence { s, f } = self;
        let q = f(s);
        q.do_sync(client)
    }
}

/// Runs the inner sequence; on success the continuation either supplies the
/// next sequence, which is run as well, or fails; errors from either stage
/// propagate, unified into the final error type.
pub struct SequenceChain<S, F> {
    pub s: S,
    pub f: F,
}

impl<S, SS, E, F> Sequence for SequenceChain<S, F> where
    S: Sequence,
    SS: Sequence,
    F: FnOnce(S::Output) -> Result<SS, E>,
    SS::Error: From<S::Error> + From<E>,
 {
    type Output = SS::Output;

    type Error = SS::Error;

    open spec fn wf(self) -> bool {
        &&& self.s.wf()
        &&& forall|v: S::Output| self.s.valid_output(v) ==> call_requires(self.f, (v,))
        &&& forall|v: S::Output, ss: SS|
            self.s.valid_output(v) && #[trigger] call_ensures(self.f, (v,), Ok::<SS, E>(ss))
                ==> ss.wf()
    }

    open spec fn valid_output(self, o: SS::Output) -> bool {
        exists|v: S::Output, ss: SS|
            #[trigger] call_ensures(self.f, (v,), Ok::<SS, E>(ss)) && self.s.valid_output(v)
                && ss.valid_output(o)
    }

    fn do_sync<T: ClientSync>(self, client: &T) -> (r: Result<SS::Output, SS::Error>) {
        let SequenceChain { s, f } = self;
        let v = match s.do_sync(client) {
            Ok(v) => v,
            Err(e) => {
                return Err(SS::Error::from(e));
            },
        };
        let ss = match f(v) {
            Ok(ss) => ss,
            Err(e) => {
                return Err(SS::Error::from(e));
            },
        };
        ss.do_sync(client)
    }
}

} // verus!
