//! Round-robin selection over a fixed, non-empty list of backend endpoints.
use vstd::prelude::*;

use crate::error::BalancerError;

verus! {

/// The list after one round-robin step: the head moves to the tail.
pub open spec fn rotate_once<T>(s: Seq<T>) -> Seq<T>
    recommends
        s.len() > 0,
{
    s.subrange(1, s.len() as int).push(s[0])
}

/// The text of each endpoint in a list.
pub open spec fn endpoints(v: Seq<String>) -> Seq<Seq<char>> {
    v.map_values(|b: String| b@)
}

/// Returns the endpoint at the head of `backends` and rotates the list left
/// by one, so that the returned endpoint becomes its tail.
pub fn round_robin(backends: &mut Vec<String>) -> (r: String)
    requires
        old(backends).len() > 0,
    ensures
        r@ == old(backends)@[0]@,
        final(backends)@ == rotate_once(old(backends)@),
{
    let first = backends.remove(0);
    let r = first.clone();
    backends.push(first);
    r
}

/// Hands out backend endpoints in the fixed cyclic order of the list it was
/// built from.
pub struct Selector {
    backends: Vec<String>,
}

/// What the accept loop does after one call to `accept`.
#[derive(Debug, Clone, PartialEq, Eq)]
pub enum Dispatch {
    /// Relay the accepted connection to this endpoint, in a task of its own.
    Relay(String),
    /// Stop serving: the listener cannot accept any more.
    Shutdown(BalancerError),
}

impl View for Selector {
    type V = Seq<Seq<char>>;

    /// The endpoints in the order in which they will next be handed out.
    closed spec fn view(&self) -> Seq<Seq<char>> {
        endpoints(self.backends@)
    }
}

impl Selector {
    /// A selector can always hand out an endpoint.
    pub open spec fn wf(&self) -> bool {
        self@.len() > 0
    }

    /// Builds a selector over `backends`, in the order given; an empty list
    /// is a configuration error.
    pub fn new(backends: Vec<String>) -> (r: Result<Selector, BalancerError>)
        ensures
            r is Ok <==> backends@.len() > 0,
            r matches Ok(s) ==> s.wf() && s@ == endpoints(backends@),
            r matches Err(e) ==> e == BalancerError::Configuration,
    {
        if backends.len() == 0 {
            Err(BalancerError::Configuration)
        } else {
            Ok(Selector { backends })
        }
    }

    /// The number of endpoints.
    pub fn len(&self) -> (r: usize)
        ensures
            r == self@.len(),
    {
        self.backends.len()
    }

    /// Returns the endpoint at the head and moves it to the tail.
    pub fn next(&mut self) -> (r: String)
        requires
            old(self).wf(),
        ensures
            r@ == old(self)@[0],
            final(self)@ == rotate_once(old(self)@),
            final(self).wf(),
    {
        let ghost before = self.backends@;
        let r = round_robin(&mut self.backends);
        assert(self@ =~= rotate_once(endpoints(before)));
        r
    }

    /// Decides what follows one call to `accept`: a connection that came in
    /// is relayed to the next endpoint; a failed accept shuts the server
    /// down, and the rotation is left as it was.
    pub fn on_accept(&mut self, accepted: bool) -> (d: Dispatch)
        requires
            old(self).wf(),
        ensures
            final(self).wf(),
            accepted ==> (d matches Dispatch::Relay(b) && b@ == old(self)@[0]),
            accepted ==> final(self)@ == rotate_once(old(self)@),
            !accepted ==> d == Dispatch::Shutdown(BalancerError::ListenerClosed),
            !accepted ==> final(self)@ == old(self)@,
    {
        if accepted {
            Dispatch::Relay(self.next())
        } else {
            Dispatch::Shutdown(BalancerError::ListenerClosed)
        }
    }
}

} // verus!
