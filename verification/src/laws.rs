//! What the query algebra guarantees as a whole: how the three queries of a
//! frozen registry relate to one another, and that each is a pure function
//! of the registry's contributions.

use vstd::prelude::*;

use crate::registry::AutoRoute;
use crate::resolver::contributions_at;
use crate::resolver::enabled_contributions;
use crate::resolver::enabled_pred;
use crate::resolver::mount_point_pred;
use crate::resolver::routes_of;
use crate::route::Route;

verus! {

/// The enabled query is a sub-collection of the identity query: every
/// contribution it keeps occurs among the collection's contributions, and a
/// contribution of the collection that it drops is exactly one whose hint is
/// disabled.
pub proof fn lemma_enabled_only_within_unfiltred(s: Seq<AutoRoute>)
    ensures
        forall|c: AutoRoute| #[trigger]
            enabled_contributions(s).contains(c) ==> s.contains(c) && c.1.enabled,
        forall|c: AutoRoute| s.contains(c) && !enabled_contributions(s).contains(c)
            ==> !c.1.enabled,
{
    assert forall|c: AutoRoute| #[trigger]
        enabled_contributions(s).contains(c) implies s.contains(c) && c.1.enabled by {
        s.lemma_filter_contains_rev(enabled_pred(), c);
        let j = choose|j: int|
            0 <= j < enabled_contributions(s).len() && enabled_contributions(s)[j] == c;
        s.lemma_filter_pred(enabled_pred(), j);
    };
    assert forall|c: AutoRoute|
        s.contains(c) && !enabled_contributions(s).contains(c) implies !c.1.enabled by {
        if c.1.enabled {
            let i = choose|i: int| 0 <= i < s.len() && s[i] == c;
            assert(enabled_pred()(s[i]));
            s.lemma_filter_contains(enabled_pred(), i);
        }
    };
}

/// The mount-point query keeps a sub-collection of what the enabled query
/// keeps: every contribution selected for a path is an enabled contribution
/// whose hint names that path character for character, and every enabled
/// contribution naming the path is selected.
pub proof fn lemma_mount_point_within_enabled(s: Seq<AutoRoute>, p: Seq<char>)
    ensures
        forall|c: AutoRoute| #[trigger]
            contributions_at(s, p).contains(c) ==> enabled_contributions(s).contains(c)
                && c.1.mount_point@ == p,
        forall|c: AutoRoute|
            enabled_contributions(s).contains(c) && c.1.mount_point@ == p ==> contributions_at(
                s,
                p,
            ).contains(c),
{
    assert forall|c: AutoRoute| #[trigger]
        contributions_at(s, p).contains(c) implies enabled_contributions(s).contains(c)
        && c.1.mount_point@ == p by {
        s.lemma_filter_contains_rev(mount_point_pred(p), c);
        let j = choose|j: int|
            0 <= j < contributions_at(s, p).len() && contributions_at(s, p)[j] == c;
        s.lemma_filter_pred(mount_point_pred(p), j);
        let i = choose|i: int| 0 <= i < s.len() && s[i] == c;
        assert(enabled_pred()(s[i]));
        s.lemma_filter_contains(enabled_pred(), i);
    };
    assert forall|c: AutoRoute|
        enabled_contributions(s).contains(c) && c.1.mount_point@ == p implies contributions_at(
        s,
        p,
    ).contains(c) by {
        s.lemma_filter_contains_rev(enabled_pred(), c);
        let j = choose|j: int|
            0 <= j < enabled_contributions(s).len() && enabled_contributions(s)[j] == c;
        s.lemma_filter_pred(enabled_pred(), j);
        let i = choose|i: int| 0 <= i < s.len() && s[i] == c;
        assert(mount_point_pred(p)(s[i]));
        s.lemma_filter_contains(mount_point_pred(p), i);
    };
}

/// Each query of a frozen registry is a pure function of its contributions:
/// two results of the same query against the same contributions — and, for
/// the mount-point query, the same path — are equal, element for element and
/// in the same order. Repeating a query can therefore never change what the
/// caller mounts.
pub proof fn lemma_queries_deterministic(
    s: Seq<AutoRoute>,
    p: Seq<char>,
    u1: Seq<AutoRoute>,
    u2: Seq<AutoRoute>,
    e1: Seq<AutoRoute>,
    e2: Seq<AutoRoute>,
    m1: Seq<Route>,
    m2: Seq<Route>,
)
    requires
        u1 == s,
        u2 == s,
        e1 == enabled_contributions(s),
        e2 == enabled_contributions(s),
        m1 == routes_of(contributions_at(s, p)),
        m2 == routes_of(contributions_at(s, p)),
    ensures
        u1 == u2,
        e1 == e2,
        m1 == m2,
{
}

} // verus!
