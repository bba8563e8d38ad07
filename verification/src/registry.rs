//! The per-namespace registry of contributions.
//!
//! Every independently built module that wants its own collection of routes
//! holds one [`Registry`]. Modules append their contributions while the
//! process initializes; once the server starts mounting, the registry is
//! treated as frozen and only queried. Aggregation across namespaces is an
//! explicit operation of the caller, never implicit.

use vstd::prelude::*;

use crate::hint::AutoMountHint;
use crate::route::Route;

verus! {

/// One contribution: a route paired with the hint of its declaring group.
/// Many contributions of one group carry the same hint value.
#[derive(Debug, PartialEq, Eq)]
pub struct AutoRoute(pub Route, pub AutoMountHint);

impl Clone for AutoRoute {
    fn clone(&self) -> (r: Self)
        ensures
            r == *self,
    {
        AutoRoute(self.0.clone(), self.1.clone())
    }
}

/// One namespace's collection of contributions. Its view is the sequence of
/// contributions in registration order; queries never depend on that order
/// for correctness, but they preserve it, so repeated queries against the
/// frozen registry agree element for element.
pub struct Registry {
    contributions: Vec<AutoRoute>,
}

impl View for Registry {
    type V = Seq<AutoRoute>;

    closed spec fn view(&self) -> Seq<AutoRoute> {
        self.contributions@
    }
}

impl Registry {
    /// A namespace's empty registry, ready for its modules to register into.
    pub fn new() -> (r: Self)
        ensures
            r@ == Seq::<AutoRoute>::empty(),
    {
        Registry { contributions: Vec::new() }
    }

    /// Appends one contribution. Nothing is deduplicated: registering the
    /// same contribution twice keeps both copies.
    pub fn register(&mut self, contribution: AutoRoute)
        ensures
            final(self)@ == old(self)@.push(contribution),
    {
        self.contributions.push(contribution);
    }

    /// Every contribution in the namespace, in registration order.
    pub fn all(&self) -> (r: &Vec<AutoRoute>)
        ensures
            r@ == self@,
    {
        &self.contributions
    }
}

/// Joins the results of one query run against two namespaces: the second
/// namespace's rows follow the first's. Nothing is deduplicated, even when
/// the two namespaces registered identical routes at identical hints.
pub fn aggregate(a: &Vec<AutoRoute>, b: &Vec<AutoRoute>) -> (r: Vec<AutoRoute>)
    ensures
        r@ == a@ + b@,
{
    let mut r: Vec<AutoRoute> = Vec::new();
    let mut i: usize = 0;
    while i < a.len()
        invariant
            i <= a.len(),
            r@ == a@.take(i as int),
        decreases a.len() - i,
    {
        r.push(a[i].clone());
        proof {
            assert(a@.take(i as int).push(a@[i as int]) =~= a@.take(i + 1 as int));
        }
        i = i + 1;
    }
    let mut j: usize = 0;
    while j < b.len()
        invariant
            j <= b.len(),
            r@ == a@.take(a@.len() as int) + b@.take(j as int),
        decreases b.len() - j,
    {
        r.push(b[j].clone());
        proof {
            assert((a@.take(a@.len() as int) + b@.take(j as int)).push(b@[j as int]) =~= a@.take(
                a@.len() as int,
            ) + b@.take(j + 1 as int));
        }
        j = j + 1;
    }
    proof {
        assert(a@.take(a@.len() as int) =~= a@);
        assert(b@.take(b@.len() as int) =~= b@);
        assert(a@.take(a@.len() as int) + b@.take(b@.len() as int) =~= a@ + b@);
    }
    r
}

} // verus!
