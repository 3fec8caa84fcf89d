//! Picking: which instance a ray hits first.
//!
//! The ray is tested in each instance's own space. An instance is looked at
//! closely only if the ray hits the model's bounding box there, and no
//! farther away than the nearest triangle found so far; then every triangle
//! is tested and the nearest hit is kept. Of two instances hit at the same
//! distance the one that comes first keeps the hit.

use vstd::prelude::*;
use crate::camera::{Ray, SlabDistances, TriangleProbe};
use crate::scalar::Scalar;

verus! {

/// One instance as the ray sees it: the box test's plane distances and the
/// quantities of the triangle test for each triangle of the model, both
/// taken with the ray moved into the instance's space.
pub struct InstanceProbe {
    pub slabs: SlabDistances,
    pub triangles: Vec<TriangleProbe>,
}

/// The nearest hit found so far.
#[derive(Clone, Copy, Debug)]
pub struct PickSearch {
    /// Distance of the nearest hit; positive infinity while there is none.
    pub closest: Scalar,
    /// Index of the instance that owns the nearest hit.
    pub hit: Option<usize>,
}

impl PickSearch {
    /// The search before any instance was looked at.
    pub open spec fn start() -> PickSearch {
        PickSearch { closest: Scalar::infinity(), hit: None }
    }

    /// Whether an instance with these plane distances is looked at closely:
    /// the ray hits its box, and not beyond the nearest hit so far.
    pub open spec fn enters(self, slabs: SlabDistances) -> bool {
        Ray::aabb_distance(slabs) matches Some(d) && !d.gt(self.closest)
    }

    /// The search after one triangle of instance `instance` was tested: a hit
    /// strictly nearer than the nearest so far replaces it.
    pub open spec fn offer(self, instance: usize, probe: TriangleProbe) -> PickSearch {
        match Ray::triangle_distance(probe) {
            Some(t) => if t.lt(self.closest) {
                PickSearch { closest: t, hit: Some(instance) }
            } else {
                self
            },
            None => self,
        }
    }

    /// The search after the triangles `probes` of one instance were tested
    /// in order.
    pub open spec fn scan(self, instance: usize, probes: Seq<TriangleProbe>) -> PickSearch
        decreases probes.len(),
    {
        if probes.len() == 0 {
            self
        } else {
            self.scan(instance, probes.drop_last()).offer(instance, probes.last())
        }
    }

    /// The search after one instance was looked at.
    pub open spec fn visit(self, instance: usize, probe: InstanceProbe) -> PickSearch {
        if self.enters(probe.slabs) {
            self.scan(instance, probe.triangles@)
        } else {
            self
        }
    }

    /// The search after all of `probes` were looked at in order, instance
    /// `i` being described by `probes[i]`.
    pub open spec fn search(probes: Seq<InstanceProbe>) -> PickSearch
        decreases probes.len(),
    {
        if probes.len() == 0 {
            Self::start()
        } else {
            Self::search(probes.drop_last()).visit((probes.len() - 1) as usize, probes.last())
        }
    }

    /// The instance hit and the distance to the hit, if there is one.
    pub open spec fn outcome(self) -> Option<(usize, Scalar)> {
        match self.hit {
            Some(i) => Some((i, self.closest)),
            None => None,
        }
    }

    /// A search that has found nothing yet.
    pub fn new() -> (s: PickSearch)
        ensures
            s == Self::start(),
    {
        PickSearch { closest: Scalar::infinity(), hit: None }
    }

    /// Broad phase: decides from the box test whether the triangles of an
    /// instance need to be tested at all.
    pub fn broad_phase(&self, slabs: &SlabDistances) -> (enter: bool)
        ensures
            enter == self.enters(*slabs),
    {
        match Ray::intersect_aabb(slabs) {
            Some(dist) => !dist.gt(self.closest),
            None => false,
        }
    }

    /// Narrow phase: takes the test of one triangle of instance `instance`
    /// into account.
    pub fn narrow_phase(&mut self, instance: usize, probe: &TriangleProbe)
        ensures
            *final(self) == old(self).offer(instance, *probe),
    {
        if let Some(tri_dist) = Ray::intersect_triangle(probe) {
            if tri_dist.lt(self.closest) {
                self.closest = tri_dist;
                self.hit = Some(instance);
            }
        }
    }

    /// The instance hit and the distance to the hit, if there is one.
    pub fn result(&self) -> (r: Option<(usize, Scalar)>)
        ensures
            r == self.outcome(),
    {
        match self.hit {
            Some(i) => Some((i, self.closest)),
            None => None,
        }
    }
}

/// Casts a ray into the scene and returns the nearest instance it hits, with
/// the distance of the hit. `probes[i]` describes instance `i`. Where nothing
/// is hit, or there is no instance, the result is `None`.
pub fn get_hit_instance(probes: &Vec<InstanceProbe>) -> (r: Option<(usize, Scalar)>)
    ensures
        r == PickSearch::search(probes@).outcome(),
{
    let mut search = PickSearch::new();
    let mut i: usize = 0;
    while i < probes.len()
        invariant
            0 <= i <= probes.len(),
            search == PickSearch::search(probes@.take(i as int)),
        decreases probes.len() - i,
    {
        let probe = &probes[i];
        let ghost before = search;
        if search.broad_phase(&probe.slabs) {
            let mut k: usize = 0;
            while k < probe.triangles.len()
                invariant
                    0 <= k <= probe.triangles.len(),
                    search == before.scan(i, probe.triangles@.take(k as int)),
                decreases probe.triangles.len() - k,
            {
                search.narrow_phase(i, &probe.triangles[k]);
                proof {
                    assert(probe.triangles@.take(k + 1).drop_last() == probe.triangles@.take(
                        k as int,
                    ));
                }
                k = k + 1;
            }
            proof {
                assert(probe.triangles@.take(probe.triangles.len() as int) == probe.triangles@);
            }
        }
        proof {
            assert(probes@.take(i + 1).drop_last() == probes@.take(i as int));
        }
        i = i + 1;
    }
    proof {
        assert(probes@.take(probes.len() as int) == probes@);
    }
    search.result()
}

impl InstanceProbe {
    /// Distance at which the ray hits triangle `k` of this instance, if it
    /// hits it.
    pub open spec fn hit_distance(self, k: int) -> Option<Scalar> {
        Ray::triangle_distance(self.triangles@[k])
    }

    /// The box encloses the triangles, as far as this ray can tell: if the
    /// ray hits a triangle, it hits the box too, and no farther away.
    pub open spec fn enclosed(self) -> bool {
        forall|k: int|
            0 <= k < self.triangles@.len() ==> (#[trigger] self.hit_distance(k) matches Some(t)
                ==> Ray::aabb_distance(self.slabs) matches Some(a) && a.le(t))
    }

    /// `d` is the distance of the nearest triangle of this instance that the
    /// ray hits.
    pub open spec fn nearest_hit(self, d: Scalar) -> bool {
        &&& exists|k: int|
            0 <= k < self.triangles@.len() && #[trigger] self.hit_distance(k) == Some(d)
        &&& forall|k: int|
            0 <= k < self.triangles@.len() ==> (#[trigger] self.hit_distance(k) matches Some(t)
                ==> d.le(t))
    }
}

/// What it means for a search to hold the nearest hit among `probes`: its
/// distance is that of a triangle of the instance it names, no triangle of
/// any instance is hit nearer, and every triangle of an earlier instance is
/// hit strictly farther away. Without a hit the distance is infinite, and
/// no triangle is hit at a finite distance.
pub open spec fn holds_nearest(probes: Seq<InstanceProbe>, s: PickSearch) -> bool {
    &&& !s.closest.is_nan()
    &&& match s.hit {
        Some(i) => {
            &&& i < probes.len()
            &&& s.closest.lt(Scalar::infinity())
            &&& exists|k: int|
                0 <= k < probes[i as int].triangles@.len() && #[trigger] probes[i as int].hit_distance(
                    k,
                ) == Some(s.closest)
            &&& forall|j: int, k: int|
                0 <= j < i && 0 <= k < probes[j].triangles@.len() ==> (
                #[trigger] probes[j].hit_distance(k) matches Some(t) ==> s.closest.lt(t))
        },
        None => s.closest == Scalar::infinity(),
    }
    &&& forall|j: int, k: int|
        0 <= j < probes.len() && 0 <= k < probes[j].triangles@.len() ==> (
        #[trigger] probes[j].hit_distance(k) matches Some(t) ==> s.closest.le(t))
}

/// Testing triangles never moves the nearest hit farther away. After the
/// triangles of an instance were tested, none of them is hit nearer than the
/// nearest hit; and either the search is as before, or it names this
/// instance, at the distance of one of its triangles, strictly nearer than
/// before.
pub proof fn lemma_scan(s: PickSearch, instance: usize, probe: InstanceProbe)
    requires
        !s.closest.is_nan(),
    ensures
        ({
            let r = s.scan(instance, probe.triangles@);
            &&& !r.closest.is_nan()
            &&& r.closest.le(s.closest)
            &&& forall|k: int|
                0 <= k < probe.triangles@.len() ==> (#[trigger] probe.hit_distance(k) matches Some(
                    t,
                ) ==> r.closest.le(t))
            &&& r == s || {
                &&& r.hit == Some(instance)
                &&& r.closest.lt(s.closest)
                &&& exists|k: int|
                    0 <= k < probe.triangles@.len() && #[trigger] probe.hit_distance(k) == Some(
                        r.closest,
                    )
            }
        }),
{
    lemma_scan_prefix(s, instance, probe, probe.triangles@.len() as int);
    assert(probe.triangles@.take(probe.triangles@.len() as int) == probe.triangles@);
}

/// `lemma_scan` for the first `n` triangles of the instance.
proof fn lemma_scan_prefix(s: PickSearch, instance: usize, probe: InstanceProbe, n: int)
    requires
        !s.closest.is_nan(),
        0 <= n <= probe.triangles@.len(),
    ensures
        ({
            let r = s.scan(instance, probe.triangles@.take(n));
            &&& !r.closest.is_nan()
            &&& r.closest.le(s.closest)
            &&& forall|k: int|
                0 <= k < n ==> (#[trigger] probe.hit_distance(k) matches Some(t) ==> r.closest.le(
                    t,
                ))
            &&& r == s || {
                &&& r.hit == Some(instance)
                &&& r.closest.lt(s.closest)
                &&& exists|k: int| 0 <= k < n && #[trigger] probe.hit_distance(k) == Some(r.closest)
            }
        }),
    decreases n,
{
    if n > 0 {
        lemma_scan_prefix(s, instance, probe, n - 1);
        assert(probe.triangles@.take(n).drop_last() == probe.triangles@.take(n - 1));
        assert(probe.hit_distance(n - 1) == Ray::triangle_distance(probe.triangles@[n - 1]));
    }
}

/// Picking finds the nearest hit, and the first instance keeps a tie:
/// provided each instance's box encloses its triangles as far as the ray can
/// tell, the search over `probes` ends holding the nearest hit among them.
pub proof fn lemma_search_holds_nearest(probes: Seq<InstanceProbe>)
    requires
        probes.len() <= usize::MAX,
        forall|i: int| 0 <= i < probes.len() ==> (#[trigger] probes[i]).enclosed(),
    ensures
        holds_nearest(probes, PickSearch::search(probes)),
    decreases probes.len(),
{
    if probes.len() > 0 {
        let n = probes.len() - 1;
        let before = probes.drop_last();
        let last = probes.last();
        let prev = PickSearch::search(before);
        let s = PickSearch::search(probes);
        lemma_search_holds_nearest(before);
        assert forall|j: int, k: int|
            0 <= j < n && 0 <= k < probes[j].triangles@.len() implies (
        #[trigger] probes[j].hit_distance(k) matches Some(t) ==> prev.closest.le(t)) by {
            assert(probes[j] == before[j]);
        }
        if prev.enters(last.slabs) {
            lemma_scan(prev, n as usize, last);
            if s == prev {
                lemma_keeps_nearest(probes, prev);
            }
        } else {
            lemma_keeps_nearest(probes, prev);
        }
    }
}

/// A search that held the nearest hit among all instances but the last still
/// holds it among all, if no triangle of the last instance is hit nearer.
proof fn lemma_keeps_nearest(probes: Seq<InstanceProbe>, prev: PickSearch)
    requires
        probes.len() > 0,
        holds_nearest(probes.drop_last(), prev),
        forall|k: int|
            0 <= k < probes.last().triangles@.len() ==> (#[trigger] probes.last().hit_distance(
                k,
            ) matches Some(t) ==> prev.closest.le(t)),
    ensures
        holds_nearest(probes, prev),
{
    let before = probes.drop_last();
    let n = probes.len() - 1;
    assert forall|j: int, k: int|
        0 <= j < probes.len() && 0 <= k < probes[j].triangles@.len() implies (
    #[trigger] probes[j].hit_distance(k) matches Some(t) ==> prev.closest.le(t)) by {
        if j < n {
            assert(probes[j] == before[j]);
        } else {
            assert(probes[j] == probes.last());
        }
    }
    if prev.hit is Some {
        let i = prev.hit->0;
        assert forall|j: int, k: int|
            0 <= j < i && 0 <= k < probes[j].triangles@.len() implies (
        #[trigger] probes[j].hit_distance(k) matches Some(t) ==> prev.closest.lt(t)) by {
            assert(probes[j] == before[j]);
        }
    }
}

/// Picking does not depend on the order of the instances where the
/// distances differ: of two instances that the ray hits at different
/// distances, the nearer one is returned, with its distance, whether it comes
/// first or second.
pub proof fn lemma_nearer_instance_wins(
    near: InstanceProbe,
    far: InstanceProbe,
    d_near: Scalar,
    d_far: Scalar,
)
    requires
        near.enclosed(),
        far.enclosed(),
        near.nearest_hit(d_near),
        far.nearest_hit(d_far),
        d_near.lt(d_far),
    ensures
        PickSearch::search(seq![near, far]).outcome() == Some((0usize, d_near)),
        PickSearch::search(seq![far, near]).outcome() == Some((1usize, d_near)),
{
    let k_near = choose|k: int|
        0 <= k < near.triangles@.len() && #[trigger] near.hit_distance(k) == Some(d_near);
    lemma_two(seq![near, far], 0, k_near, d_near);
    lemma_two(seq![far, near], 1, k_near, d_near);
}

/// Among two instances, an instance whose nearest hit is at a finite
/// distance, strictly nearer than every hit of the other, is the one picked.
proof fn lemma_two(probes: Seq<InstanceProbe>, w: int, k_w: int, d: Scalar)
    requires
        probes.len() == 2,
        0 <= w < 2,
        probes[0].enclosed(),
        probes[1].enclosed(),
        0 <= k_w < probes[w].triangles@.len(),
        probes[w].hit_distance(k_w) == Some(d),
        d.lt(Scalar::infinity()),
        forall|k: int|
            0 <= k < probes[w].triangles@.len() ==> (#[trigger] probes[w].hit_distance(
                k,
            ) matches Some(t) ==> d.le(t)),
        forall|k: int|
            0 <= k < probes[1 - w].triangles@.len() ==> (#[trigger] probes[1 - w].hit_distance(
                k,
            ) matches Some(t) ==> d.lt(t)),
    ensures
        PickSearch::search(probes).outcome() == Some((w as usize, d)),
{
    let s = PickSearch::search(probes);
    lemma_search_holds_nearest(probes);
    let i = s.hit->0 as int;
    let k = choose|k: int|
        0 <= k < probes[i].triangles@.len() && #[trigger] probes[i].hit_distance(k) == Some(
            s.closest,
        );
    assert(i == w || i == 1 - w);
}

} // verus!
