//! The query layer over a frozen registry: the filter algebra that turns
//! "all contributions and their hints" into the route lists the dispatcher
//! installs.

use vstd::prelude::*;

use crate::registry::AutoRoute;
use crate::registry::Registry;
use crate::route::Route;

verus! {

/// Whether a contribution's hint asks for mounting at all.
pub open spec fn enabled_pred() -> spec_fn(AutoRoute) -> bool {
    |c: AutoRoute| c.1.enabled
}

/// Whether a contribution's hint asks for mounting exactly at `p`: the hint
/// must be enabled and its mount point equal to `p` character for character.
pub open spec fn mount_point_pred(p: Seq<char>) -> spec_fn(AutoRoute) -> bool {
    |c: AutoRoute| c.1.enabled && c.1.mount_point@ == p
}

/// The contributions whose hints are enabled, in collection order.
pub open spec fn enabled_contributions(s: Seq<AutoRoute>) -> Seq<AutoRoute> {
    s.filter(enabled_pred())
}

/// The contributions whose hints are enabled and name the mount point `p`,
/// in collection order.
pub open spec fn contributions_at(s: Seq<AutoRoute>, p: Seq<char>) -> Seq<AutoRoute> {
    s.filter(mount_point_pred(p))
}

/// The route descriptors of a run of contributions, hints stripped.
pub open spec fn routes_of(s: Seq<AutoRoute>) -> Seq<Route> {
    s.map_values(|c: AutoRoute| c.0)
}

/// One step of filtering: extending the input by one element extends the
/// filtered result by that element exactly when the predicate holds of it.
pub proof fn lemma_filter_push(s: Seq<AutoRoute>, pred: spec_fn(AutoRoute) -> bool, e: AutoRoute)
    ensures
        pred(e) ==> s.push(e).filter(pred) == s.filter(pred).push(e),
        !pred(e) ==> s.push(e).filter(pred) == s.filter(pred),
{
    reveal(Seq::filter);
    assert(s.push(e).drop_last() == s);
}

/// The query surface of one namespace's frozen registry. Each result is a
/// pure function of the collection's contributions, so repeated queries
/// against an unchanged collection agree element for element.
pub trait RoutesCollection {
    /// The frozen contributions this collection answers queries from.
    spec fn contributions(&self) -> Seq<AutoRoute>;

    /// The identity query: every contribution, disabled ones included, for
    /// callers that filter by rules of their own.
    fn unfiltred(&self) -> (r: Vec<AutoRoute>)
        ensures
            r@ == self.contributions(),
    ;

    /// Every contribution whose hint is enabled, in collection order,
    /// disabled ones discarded.
    fn enabled_only(&self) -> (r: Vec<AutoRoute>)
        ensures
            r@ == enabled_contributions(self.contributions()),
    ;

    /// The route descriptors, hints stripped, of every enabled contribution
    /// whose hint names exactly `path`. Equality is character for character:
    /// no trailing-slash canonicalization, no case folding, no prefix
    /// matching. A disabled contribution is excluded even when its path
    /// matches; a path matching nothing yields the empty list, which is not
    /// an error.
    fn with_hint_mount_point(&self, path: &str) -> (r: Vec<Route>)
        ensures
            r@ == routes_of(contributions_at(self.contributions(), path@)),
    ;
}

impl RoutesCollection for Registry {
    open spec fn contributions(&self) -> Seq<AutoRoute> {
        self@
    }

    fn unfiltred(&self) -> (r: Vec<AutoRoute>)
        ensures
            r@ == self.contributions(),
    {
        let all = self.all();
        let mut r: Vec<AutoRoute> = Vec::new();
        let mut i: usize = 0;
        while i < all.len()
            invariant
                i <= all.len(),
                all@ == self@,
                r@ == all@.take(i as int),
            decreases all.len() - i,
        {
            r.push(all[i].clone());
            proof {
                assert(all@.take(i as int).push(all@[i as int]) =~= all@.take(i + 1 as int));
            }
            i = i + 1;
        }
        proof {
            assert(all@.take(all@.len() as int) =~= all@);
        }
        r
    }

    fn enabled_only(&self) -> (r: Vec<AutoRoute>)
        ensures
            r@ == enabled_contributions(self.contributions()),
    {
        let all = self.all();
        let mut r: Vec<AutoRoute> = Vec::new();
        let mut i: usize = 0;
        while i < all.len()
            invariant
                i <= all.len(),
                all@ == self@,
                r@ == enabled_contributions(all@.take(i as int)),
            decreases all.len() - i,
        {
            let c = &all[i];
            if c.1.enabled {
                r.push(c.clone());
            }
            proof {
                assert(enabled_pred()(all@[i as int]) == all@[i as int].1.enabled);
                assert(all@.take(i as int).push(all@[i as int]) =~= all@.take(i + 1 as int));
                lemma_filter_push(all@.take(i as int), enabled_pred(), all@[i as int]);
            }
            i = i + 1;
        }
        proof {
            assert(all@.take(all@.len() as int) =~= all@);
        }
        r
    }

    fn with_hint_mount_point(&self, path: &str) -> (r: Vec<Route>)
        ensures
            r@ == routes_of(contributions_at(self.contributions(), path@)),
    {
        let p = path.to_owned();
        let all = self.all();
        let mut r: Vec<Route> = Vec::new();
        let mut i: usize = 0;
        while i < all.len()
            invariant
                i <= all.len(),
                all@ == self@,
                p@ == path@,
                r@ == routes_of(contributions_at(all@.take(i as int), path@)),
            decreases all.len() - i,
        {
            let c = &all[i];
            if c.1.enabled && c.1.mount_point == p {
                r.push(c.0.clone());
            }
            proof {
                let kept = contributions_at(all@.take(i as int), path@);
                assert(mount_point_pred(path@)(all@[i as int]) == (all@[i as int].1.enabled
                    && all@[i as int].1.mount_point@ == path@));
                assert(all@.take(i as int).push(all@[i as int]) =~= all@.take(i + 1 as int));
                lemma_filter_push(all@.take(i as int), mount_point_pred(path@), all@[i as int]);
                assert(routes_of(kept.push(all@[i as int])) =~= routes_of(kept).push(
                    all@[i as int].0,
                ));
            }
            i = i + 1;
        }
        proof {
            assert(all@.take(all@.len() as int) =~= all@);
        }
        r
    }
}

} // verus!
