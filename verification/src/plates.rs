//! Which armour plate the ground truth names.
//!
//! Whoever sees the scene measures: how far a plate is from the camera and, on an outpost, how far
//! from the axis. Which plate counts is decided here.
use crate::float::F32;
use crate::names::{chars_of, reads};
use vstd::prelude::*;

verus! {

/// How many plates have to agree on a radius before they are taken for a ring.
pub const OUTPOST_RADIUS_MODEL_MIN_INLIERS: usize = 2;

/// The pattern of `0.05`, the smallest radius in metres that can be that of a ring.
pub const OUTPOST_RADIUS_MODEL_MIN_RADIUS_M: u32 = 0x3d4c_cccd;

/// Which node of a plate stands for its place.
#[derive(Debug, Clone, Copy, PartialEq, Eq, Structural)]
pub enum PlateReference {
    /// Its centre node; a plate without one is left out.
    CenterNode,
    /// Its centre node or, on a model that has none, its root.
    CenterNodeOrPlateRoot,
}

/// A plate that may be chosen.
#[derive(Debug, Clone, Copy)]
pub struct PlateCandidate {
    /// The square of its distance from the camera.
    pub distance_squared: F32,
    /// Where it is.
    pub world: [F32; 3],
    /// Its horizontal distance from the axis of the outpost.
    pub outpost_radius_m: F32,
}

/// How the names of centre nodes end.
pub const CENTER_SUFFIX: &'static str = "CENTER";

/// Whether a node is named as the centre of a plate.
pub fn names_a_center(name: &str) -> (r: bool)
    ensures
        r == CENTER_SUFFIX@.is_suffix_of(name@),
{
    let chars = chars_of(name);
    let suffix = chars_of(CENTER_SUFFIX);
    if chars.len() < suffix.len() {
        return false;
    }
    reads(&chars, chars.len() - suffix.len(), chars.len(), &suffix)
}

/// What is known of a plate's centre node.
#[derive(Debug, Clone, Copy)]
pub enum CenterSighting {
    /// The plate has none.
    Absent,
    /// It has one whose place is not known.
    Unplaced,
    /// It has one.
    Placed(PlateCandidate),
}

/// A plate as the scene shows it.
#[derive(Debug)]
pub struct PlateSighting {
    /// The nodes above it, from its parent up.
    pub ancestors: Vec<u64>,
    pub center: CenterSighting,
    /// The plate's root, where its place is known.
    pub root: Option<PlateCandidate>,
}

/// What a plate contributes to the choice for the target whose root is `target`.
pub open spec fn contribution(
    target: u64,
    reference: PlateReference,
    plate: PlateSighting,
) -> Option<PlateCandidate> {
    if !plate.ancestors@.contains(target) {
        None
    } else {
        match plate.center {
            CenterSighting::Placed(candidate) => Some(candidate),
            CenterSighting::Unplaced => None,
            CenterSighting::Absent => match reference {
                PlateReference::CenterNode => None,
                PlateReference::CenterNodeOrPlateRoot => plate.root,
            },
        }
    }
}

/// What all plates contribute, in their order.
pub open spec fn contributions(
    target: u64,
    reference: PlateReference,
    plates: Seq<PlateSighting>,
) -> Seq<PlateCandidate>
    decreases plates.len(),
{
    if plates.len() == 0 {
        Seq::empty()
    } else {
        let before = contributions(target, reference, plates.drop_last());
        match contribution(target, reference, plates.last()) {
            Some(candidate) => before.push(candidate),
            None => before,
        }
    }
}

/// The one at `k` is nearest to the camera among the marked ones; of equally near ones the first.
pub open spec fn is_nearest(candidates: Seq<PlateCandidate>, marked: Seq<bool>, k: int) -> bool {
    &&& 0 <= k < candidates.len()
    &&& marked[k]
    &&& forall|j: int|
        0 <= j < candidates.len() && #[trigger] marked[j] ==> comes_before(candidates, k, j)
}

/// The one at `k` is nearer to the camera than the one at `j`, or as near and not behind it.
pub open spec fn comes_before(candidates: Seq<PlateCandidate>, k: int, j: int) -> bool {
    let (a, b) = (
        candidates[k].distance_squared.total_rank(),
        candidates[j].distance_squared.total_rank(),
    );
    a < b || (a == b && k <= j)
}

/// The place of the marked one that is nearest, where any is marked.
pub open spec fn nearest(candidates: Seq<PlateCandidate>, marked: Seq<bool>) -> Option<int> {
    if exists|k: int| is_nearest(candidates, marked, k) {
        Some(choose|k: int| is_nearest(candidates, marked, k))
    } else {
        None
    }
}

/// Every one marked.
pub open spec fn all_marked(n: nat) -> Seq<bool> {
    Seq::new(n, |i: int| true)
}

/// How many are marked.
pub open spec fn marks(row: Seq<bool>) -> nat
    decreases row.len(),
{
    if row.len() == 0 {
        0
    } else {
        marks(row.drop_last()) + if row.last() {
            1nat
        } else {
            0nat
        }
    }
}

/// A radius that can be that of a ring.
pub open spec fn plausible_radius(candidate: PlateCandidate) -> bool {
    candidate.outpost_radius_m.finite() && candidate.outpost_radius_m.rank() >= (F32 {
        bits: OUTPOST_RADIUS_MODEL_MIN_RADIUS_M,
    }).rank()
}

/// One row of `agreement` for each candidate, each as long as there are candidates. The row at `i`
/// marks those whose radius agrees with that of the candidate at `i`.
pub open spec fn fits(candidates: Seq<PlateCandidate>, agreement: Seq<Vec<bool>>) -> bool {
    &&& agreement.len() == candidates.len()
    &&& forall|i: int|
        0 <= i < agreement.len() ==> (#[trigger] agreement[i])@.len() == candidates.len()
}

/// The candidate at `i` stands for the ring: most plates agree with its radius; among those with as
/// many the radius is smallest, and among equal radii it comes first.
pub open spec fn is_ring_model(
    candidates: Seq<PlateCandidate>,
    agreement: Seq<Vec<bool>>,
    i: int,
) -> bool {
    &&& 0 <= i < candidates.len()
    &&& plausible_radius(candidates[i])
    &&& forall|j: int|
        0 <= j < candidates.len() && plausible_radius(#[trigger] candidates[j]) ==> stands_before(
            candidates,
            agreement,
            i,
            j,
        )
}

/// More plates agree with the radius of the one at `i` than with that of the one at `j`, or as many
/// and the radius is smaller, or it is the same and `i` is not behind `j`.
pub open spec fn stands_before(
    candidates: Seq<PlateCandidate>,
    agreement: Seq<Vec<bool>>,
    i: int,
    j: int,
) -> bool {
    let (a, b) = (marks(agreement[i]@), marks(agreement[j]@));
    let (r, s) = (
        candidates[i].outpost_radius_m.rank(),
        candidates[j].outpost_radius_m.rank(),
    );
    b < a || (a == b && (r < s || (r == s && i <= j)))
}

/// The place of the candidate that stands for the ring, where there is one.
pub open spec fn ring_model(candidates: Seq<PlateCandidate>, agreement: Seq<Vec<bool>>) -> Option<
    int,
> {
    if exists|i: int| is_ring_model(candidates, agreement, i) {
        Some(choose|i: int| is_ring_model(candidates, agreement, i))
    } else {
        None
    }
}

/// The plate of an outpost: the nearest of those that agree on the ring, with how many agree.
pub open spec fn ring_choice(candidates: Seq<PlateCandidate>, agreement: Seq<Vec<bool>>) -> Option<
    ([F32; 3], nat),
> {
    match ring_model(candidates, agreement) {
        Some(i) => if marks(agreement[i]@) < OUTPOST_RADIUS_MODEL_MIN_INLIERS {
            None
        } else {
            match nearest(candidates, agreement[i]@) {
                Some(k) => Some((candidates[k].world, marks(agreement[i]@))),
                None => None,
            }
        },
        None => None,
    }
}

/// The plate that counts for a target, with how many plates speak for it.
pub open spec fn plate_choice(
    reference: PlateReference,
    candidates: Seq<PlateCandidate>,
    agreement: Seq<Vec<bool>>,
) -> Option<([F32; 3], nat)> {
    match reference {
        PlateReference::CenterNode => match nearest(candidates, all_marked(candidates.len())) {
            Some(k) => Some((candidates[k].world, candidates.len())),
            None => None,
        },
        PlateReference::CenterNodeOrPlateRoot => ring_choice(candidates, agreement),
    }
}

proof fn lemma_nearest_is_one(candidates: Seq<PlateCandidate>, marked: Seq<bool>, k: int)
    requires
        is_nearest(candidates, marked, k),
    ensures
        nearest(candidates, marked) == Some(k),
{
    let other = choose|j: int| is_nearest(candidates, marked, j);
    assert(is_nearest(candidates, marked, other));
    assert(marked[k] && marked[other]);
}

proof fn lemma_ring_model_is_one(
    candidates: Seq<PlateCandidate>,
    agreement: Seq<Vec<bool>>,
    i: int,
)
    requires
        is_ring_model(candidates, agreement, i),
    ensures
        ring_model(candidates, agreement) == Some(i),
{
    let other = choose|j: int| is_ring_model(candidates, agreement, j);
    assert(is_ring_model(candidates, agreement, other));
    assert(plausible_radius(candidates[i]) && plausible_radius(candidates[other]));
}

/// The plates of one target that may be chosen. A plate that lacks what is asked of it is left out,
/// and no other plate with it.
pub fn plate_candidates(
    target: u64,
    reference: PlateReference,
    plates: &Vec<PlateSighting>,
) -> (r: Vec<PlateCandidate>)
    ensures
        r@ == contributions(target, reference, plates@),
{
    let mut r: Vec<PlateCandidate> = Vec::new();
    let mut i: usize = 0;
    assert(plates@.subrange(0, 0) =~= Seq::<PlateSighting>::empty());
    while i < plates.len()
        invariant
            i <= plates@.len(),
            r@ == contributions(target, reference, plates@.subrange(0, i as int)),
        decreases plates@.len() - i,
    {
        let plate = &plates[i];
        proof {
            let next = plates@.subrange(0, i + 1);
            assert(next.drop_last() =~= plates@.subrange(0, i as int));
            assert(next.last() == plates@[i as int]);
        }
        if has_ancestor(&plate.ancestors, target) {
            match plate.center {
                CenterSighting::Placed(candidate) => {
                    r.push(candidate);
                },
                CenterSighting::Unplaced => {},
                CenterSighting::Absent => {
                    match reference {
                        PlateReference::CenterNode => {},
                        PlateReference::CenterNodeOrPlateRoot => {
                            if let Some(candidate) = plate.root {
                                r.push(candidate);
                            }
                        },
                    }
                },
            }
        }
        i += 1;
    }
    assert(plates@.subrange(0, plates@.len() as int) =~= plates@);
    r
}

/// Whether a node is among those above another.
pub fn has_ancestor(ancestors: &Vec<u64>, node: u64) -> (r: bool)
    ensures
        r == ancestors@.contains(node),
{
    let mut i: usize = 0;
    while i < ancestors.len()
        invariant
            i <= ancestors@.len(),
            forall|j: int| 0 <= j < i ==> #[trigger] ancestors@[j] != node,
        decreases ancestors@.len() - i,
    {
        if ancestors[i] == node {
            assert(ancestors@[i as int] == node);
            return true;
        }
        i += 1;
    }
    false
}

fn count_marks(row: &Vec<bool>) -> (r: usize)
    ensures
        r == marks(row@),
        r <= row@.len(),
{
    let mut n: usize = 0;
    let mut i: usize = 0;
    assert(row@.subrange(0, 0) =~= Seq::<bool>::empty());
    while i < row.len()
        invariant
            i <= row@.len(),
            n == marks(row@.subrange(0, i as int)),
            n <= i,
        decreases row@.len() - i,
    {
        proof {
            assert(row@.subrange(0, i + 1).drop_last() =~= row@.subrange(0, i as int));
        }
        if row[i] {
            n += 1;
        }
        i += 1;
    }
    assert(row@.subrange(0, row@.len() as int) =~= row@);
    n
}

fn nearest_marked(candidates: &Vec<PlateCandidate>, marked: &Vec<bool>) -> (r: Option<usize>)
    requires
        marked@.len() == candidates@.len(),
    ensures
        r matches Some(k) ==> k < candidates@.len() && nearest(candidates@, marked@) == Some(
            k as int,
        ),
        r is None ==> nearest(candidates@, marked@) is None,
{
    let mut best: Option<usize> = None;
    let mut i: usize = 0;
    while i < candidates.len()
        invariant
            i <= candidates@.len(),
            marked@.len() == candidates@.len(),
            best is None ==> forall|j: int| 0 <= j < i ==> !#[trigger] marked@[j],
            best matches Some(k) ==> k < i && marked@[k as int] && forall|j: int|
                0 <= j < i && #[trigger] marked@[j] ==> comes_before(candidates@, k as int, j),
        decreases candidates@.len() - i,
    {
        if marked[i] {
            match best {
                Some(k) => {
                    if candidates[i].distance_squared.total_lt(candidates[k].distance_squared) {
                        best = Some(i);
                    }
                },
                None => {
                    best = Some(i);
                },
            }
        }
        i += 1;
    }
    proof {
        match best {
            Some(k) => {
                assert(is_nearest(candidates@, marked@, k as int));
                lemma_nearest_is_one(candidates@, marked@, k as int);
            },
            None => {},
        }
    }
    best
}

/// The plate of an outpost, with how many plates agree on the ring it belongs to. A node that is
/// named like a plate but lies elsewhere is not chosen, however near it is.
pub fn select_outpost_plate_reference_with_support(
    candidates: &Vec<PlateCandidate>,
    agreement: &Vec<Vec<bool>>,
) -> (r: Option<([F32; 3], usize)>)
    requires
        fits(candidates@, agreement@),
    ensures
        r is Some <==> ring_choice(candidates@, agreement@) is Some,
        r matches Some(c) ==> ring_choice(candidates@, agreement@) == Some((c.0, c.1 as nat)),
{
    let floor = F32 { bits: OUTPOST_RADIUS_MODEL_MIN_RADIUS_M };
    let mut best: Option<usize> = None;
    let mut best_support: usize = 0;
    let mut i: usize = 0;
    while i < candidates.len()
        invariant
            i <= candidates@.len(),
            fits(candidates@, agreement@),
            floor.bits == OUTPOST_RADIUS_MODEL_MIN_RADIUS_M,
            best is None ==> forall|j: int|
                0 <= j < i ==> !plausible_radius(#[trigger] candidates@[j]),
            best matches Some(k) ==> {
                &&& k < i
                &&& plausible_radius(candidates@[k as int])
                &&& best_support == marks(agreement@[k as int]@)
                &&& forall|j: int|
                    0 <= j < i && plausible_radius(#[trigger] candidates@[j]) ==> stands_before(
                        candidates@,
                        agreement@,
                        k as int,
                        j,
                    )
            },
        decreases candidates@.len() - i,
    {
        let radius = candidates[i].outpost_radius_m;
        if radius.is_finite() && !radius.lt(floor) {
            let support: usize = count_marks(&agreement[i]);
            let better = match best {
                Some(k) => support > best_support || (support == best_support && radius.lt(
                    candidates[k].outpost_radius_m,
                )),
                None => true,
            };
            if better {
                best = Some(i);
                best_support = support;
            }
        }
        i += 1;
    }
    match best {
        Some(k) => {
            proof {
                assert(is_ring_model(candidates@, agreement@, k as int));
                lemma_ring_model_is_one(candidates@, agreement@, k as int);
            }
            if best_support < OUTPOST_RADIUS_MODEL_MIN_INLIERS {
                return None;
            }
            match nearest_marked(candidates, &agreement[k]) {
                Some(chosen) => Some((candidates[chosen].world, best_support)),
                None => None,
            }
        },
        None => None,
    }
}

/// The plate that counts for a target, with how many plates speak for it.
pub fn select_plate_reference_with_support(
    reference: PlateReference,
    candidates: &Vec<PlateCandidate>,
    agreement: &Vec<Vec<bool>>,
) -> (r: Option<([F32; 3], usize)>)
    requires
        reference is CenterNodeOrPlateRoot ==> fits(candidates@, agreement@),
    ensures
        r is Some <==> plate_choice(reference, candidates@, agreement@) is Some,
        r matches Some(c) ==> plate_choice(reference, candidates@, agreement@) == Some(
            (c.0, c.1 as nat),
        ),
{
    match reference {
        PlateReference::CenterNode => {
            let mut marked: Vec<bool> = Vec::new();
            while marked.len() < candidates.len()
                invariant
                    marked@.len() <= candidates@.len(),
                    forall|j: int| 0 <= j < marked@.len() ==> #[trigger] marked@[j],
                decreases candidates@.len() - marked@.len(),
            {
                marked.push(true);
            }
            assert(marked@ =~= all_marked(candidates@.len()));
            match nearest_marked(candidates, &marked) {
                Some(chosen) => Some((candidates[chosen].world, candidates.len())),
                None => None,
            }
        },
        PlateReference::CenterNodeOrPlateRoot => select_outpost_plate_reference_with_support(
            candidates,
            agreement,
        ),
    }
}

/// The plate that counts for a target.
pub fn select_plate_reference(
    reference: PlateReference,
    candidates: &Vec<PlateCandidate>,
    agreement: &Vec<Vec<bool>>,
) -> (r: Option<[F32; 3]>)
    requires
        reference is CenterNodeOrPlateRoot ==> fits(candidates@, agreement@),
    ensures
        r == match plate_choice(reference, candidates@, agreement@) {
            Some(c) => Some(c.0),
            None => None,
        },
{
    match select_plate_reference_with_support(reference, candidates, agreement) {
        Some(c) => Some(c.0),
        None => None,
    }
}

/// Where any plate is there to choose, one is chosen, and none is nearer: a missing centre on one
/// plate takes nothing from the others.
pub proof fn law_a_plate_is_chosen_where_there_is_one(
    target: u64,
    plates: Seq<PlateSighting>,
    seen: int,
)
    requires
        0 <= seen < plates.len(),
        contribution(target, PlateReference::CenterNode, plates[seen]) is Some,
    ensures
        ({
            let candidates = contributions(target, PlateReference::CenterNode, plates);
            &&& candidates.contains(
                contribution(target, PlateReference::CenterNode, plates[seen])->0,
            )
            &&& exists|k: int| #[trigger] is_nearest(candidates, all_marked(candidates.len()), k)
            &&& plate_choice(PlateReference::CenterNode, candidates, Seq::empty()) is Some
        }),
{
    lemma_contribution_counts(target, PlateReference::CenterNode, plates, seen);
    let candidates = contributions(target, PlateReference::CenterNode, plates);
    let any = choose|k: int|
        0 <= k < candidates.len() && candidates[k] == contribution(
            target,
            PlateReference::CenterNode,
            plates[seen],
        )->0;
    let marked = all_marked(candidates.len());
    let k = lemma_nearest_up_to(candidates, marked, any, candidates.len() as int);
    assert(is_nearest(candidates, marked, k));
}

proof fn lemma_contribution_counts(
    target: u64,
    reference: PlateReference,
    plates: Seq<PlateSighting>,
    seen: int,
)
    requires
        0 <= seen < plates.len(),
        contribution(target, reference, plates[seen]) is Some,
    ensures
        contributions(target, reference, plates).contains(
            contribution(target, reference, plates[seen])->0,
        ),
    decreases plates.len(),
{
    let all = contributions(target, reference, plates);
    let before = contributions(target, reference, plates.drop_last());
    if seen == plates.len() - 1 {
        assert(all.last() == contribution(target, reference, plates[seen])->0);
    } else {
        lemma_contribution_counts(target, reference, plates.drop_last(), seen);
        let k = choose|k: int|
            0 <= k < before.len() && before[k] == contribution(target, reference, plates[seen])->0;
        assert(all[k] == before[k]);
    }
}

/// Among the first `n` candidates, where any is marked at all, one marked comes before all marked.
proof fn lemma_nearest_up_to(
    candidates: Seq<PlateCandidate>,
    marked: Seq<bool>,
    any: int,
    n: int,
) -> (k: int)
    requires
        marked.len() == candidates.len(),
        0 <= any < candidates.len(),
        marked[any],
        0 <= n <= candidates.len(),
    ensures
        0 <= k < candidates.len(),
        marked[k],
        forall|j: int| 0 <= j < n && #[trigger] marked[j] ==> comes_before(candidates, k, j),
    decreases n,
{
    if n == 0 {
        any
    } else {
        let k = lemma_nearest_up_to(candidates, marked, any, n - 1);
        if !marked[n - 1] || comes_before(candidates, k, n - 1) {
            k
        } else {
            n - 1
        }
    }
}

/// A chosen plate of an outpost belongs to a ring that at least two plates agree on; a node that
/// does not agree with the ring is not chosen.
pub proof fn law_chosen_plate_lies_on_the_ring(
    candidates: Seq<PlateCandidate>,
    agreement: Seq<Vec<bool>>,
)
    requires
        fits(candidates, agreement),
        ring_choice(candidates, agreement) is Some,
    ensures
        (ring_choice(candidates, agreement)->0).1 >= OUTPOST_RADIUS_MODEL_MIN_INLIERS,
        exists|i: int, k: int|
            #![trigger candidates[i], agreement[i]@[k]]
            is_ring_model(candidates, agreement, i) && 0 <= k < candidates.len()
                && agreement[i]@[k] && candidates[k].world == (ring_choice(
                candidates,
                agreement,
            )->0).0,
{
    let i = ring_model(candidates, agreement)->0;
    let k = nearest(candidates, agreement[i]@)->0;
    assert(is_ring_model(candidates, agreement, i));
    assert(is_nearest(candidates, agreement[i]@, k));
    assert(agreement[i]@[k]);
}

/// Where something is counted, something is marked.
proof fn lemma_some_mark(row: Seq<bool>) -> (k: int)
    requires
        marks(row) > 0,
    ensures
        0 <= k < row.len(),
        row[k],
    decreases row.len(),
{
    if row.last() {
        row.len() - 1
    } else {
        lemma_some_mark(row.drop_last())
    }
}

/// Among the first `n` candidates, where any has a plausible radius at all, one stands before all.
proof fn lemma_ring_model_up_to(
    candidates: Seq<PlateCandidate>,
    agreement: Seq<Vec<bool>>,
    any: int,
    n: int,
) -> (i: int)
    requires
        0 <= any < candidates.len(),
        plausible_radius(candidates[any]),
        0 <= n <= candidates.len(),
    ensures
        0 <= i < candidates.len(),
        plausible_radius(candidates[i]),
        forall|j: int|
            0 <= j < n && plausible_radius(#[trigger] candidates[j]) ==> stands_before(
                candidates,
                agreement,
                i,
                j,
            ),
    decreases n,
{
    if n == 0 {
        any
    } else {
        let i = lemma_ring_model_up_to(candidates, agreement, any, n - 1);
        if !plausible_radius(candidates[n - 1]) || stands_before(
            candidates,
            agreement,
            i,
            n - 1,
        ) {
            i
        } else {
            n - 1
        }
    }
}

/// Where some candidate has a plausible radius, one stands for the ring; where one does whose radius
/// two agree with, a plate is chosen.
proof fn lemma_ring_is_found(
    candidates: Seq<PlateCandidate>,
    agreement: Seq<Vec<bool>>,
    any: int,
) -> (i: int)
    requires
        fits(candidates, agreement),
        0 <= any < candidates.len(),
        plausible_radius(candidates[any]),
    ensures
        is_ring_model(candidates, agreement, i),
        ring_model(candidates, agreement) == Some(i),
        marks(agreement[any]@) <= marks(agreement[i]@),
        marks(agreement[i]@) >= OUTPOST_RADIUS_MODEL_MIN_INLIERS ==> {
            &&& nearest(candidates, agreement[i]@) matches Some(k)
            &&& is_nearest(candidates, agreement[i]@, k)
            &&& ring_choice(candidates, agreement) == Some(
                (candidates[k].world, marks(agreement[i]@)),
            )
        },
{
    let i = lemma_ring_model_up_to(candidates, agreement, any, candidates.len() as int);
    assert(is_ring_model(candidates, agreement, i));
    lemma_ring_model_is_one(candidates, agreement, i);
    if marks(agreement[i]@) >= OUTPOST_RADIUS_MODEL_MIN_INLIERS {
        let row = agreement[i]@;
        let one = lemma_some_mark(row);
        let k = lemma_nearest_up_to(candidates, row, one, candidates.len() as int);
        assert(is_nearest(candidates, row, k));
        lemma_nearest_is_one(candidates, row, k);
    }
    i
}

/// Which plate of an outpost is chosen. There is one exactly where two plates agree on a plausible
/// radius. The ring is the one that most agree on, with the smallest radius among such rings; the
/// plate is the nearest that agrees with it.
pub proof fn law_the_densest_ring_is_chosen(
    candidates: Seq<PlateCandidate>,
    agreement: Seq<Vec<bool>>,
)
    requires
        fits(candidates, agreement),
    ensures
        ring_choice(candidates, agreement) is Some <==> exists|i: int|
            0 <= i < candidates.len() && plausible_radius(#[trigger] candidates[i]) && marks(
                agreement[i]@,
            ) >= OUTPOST_RADIUS_MODEL_MIN_INLIERS,
        ring_choice(candidates, agreement) matches Some(choice) ==> exists|i: int, k: int|
            #[trigger] is_ring_of(candidates, agreement, i, choice.1) && #[trigger] is_plate_of(
                candidates,
                agreement[i]@,
                k,
                choice.0,
            ),
{
    if exists|i: int|
        0 <= i < candidates.len() && plausible_radius(#[trigger] candidates[i]) && marks(
            agreement[i]@,
        ) >= OUTPOST_RADIUS_MODEL_MIN_INLIERS {
        let any = choose|i: int|
            0 <= i < candidates.len() && plausible_radius(#[trigger] candidates[i]) && marks(
                agreement[i]@,
            ) >= OUTPOST_RADIUS_MODEL_MIN_INLIERS;
        let found = lemma_ring_is_found(candidates, agreement, any);
    }
    if ring_choice(candidates, agreement) is Some {
        let i = ring_model(candidates, agreement)->0;
        let k = nearest(candidates, agreement[i]@)->0;
        let choice = ring_choice(candidates, agreement)->0;
        assert(is_ring_model(candidates, agreement, i));
        assert(is_nearest(candidates, agreement[i]@, k));
        assert(plausible_radius(candidates[i]));
        assert(is_ring_of(candidates, agreement, i, choice.1));
        assert(is_plate_of(candidates, agreement[i]@, k, choice.0));
    }
}

/// The candidate at `i` has a plausible radius on which `support` agree, more agree on no plausible
/// radius, and none on which as many do is smaller.
pub open spec fn is_ring_of(
    candidates: Seq<PlateCandidate>,
    agreement: Seq<Vec<bool>>,
    i: int,
    support: nat,
) -> bool {
    &&& 0 <= i < candidates.len()
    &&& plausible_radius(candidates[i])
    &&& marks(agreement[i]@) == support
    &&& forall|j: int|
        0 <= j < candidates.len() && plausible_radius(#[trigger] candidates[j]) ==> marks(
            agreement[j]@,
        ) <= support && (marks(agreement[j]@) == support
            ==> candidates[i].outpost_radius_m.rank() <= candidates[j].outpost_radius_m.rank())
}

/// The marked candidate at `k` is at `world`, and no marked one is nearer.
pub open spec fn is_plate_of(
    candidates: Seq<PlateCandidate>,
    marked: Seq<bool>,
    k: int,
    world: [F32; 3],
) -> bool {
    &&& 0 <= k < candidates.len()
    &&& marked[k]
    &&& candidates[k].world == world
    &&& forall|j: int|
        0 <= j < candidates.len() && #[trigger] marked[j]
            ==> candidates[k].distance_squared.total_rank()
            <= candidates[j].distance_squared.total_rank()
}

/// Each of the numbers below `n` occurs once.
pub open spec fn is_permutation(p: Seq<int>, n: nat) -> bool {
    &&& p.len() == n
    &&& forall|i: int| 0 <= i < n ==> 0 <= #[trigger] p[i] < n
    &&& forall|i: int, j: int| 0 <= i < n && 0 <= j < n && #[trigger] p[i] == #[trigger] p[j] ==> i
        == j
    &&& forall|k: int| 0 <= k < n ==> #[trigger] p.contains(k)
}

/// The candidates `b` are the candidates `a` in another order, and the rows and columns of their
/// agreement are in that order too.
pub open spec fn reordered(
    a: Seq<PlateCandidate>,
    rows_a: Seq<Vec<bool>>,
    b: Seq<PlateCandidate>,
    rows_b: Seq<Vec<bool>>,
    p: Seq<int>,
) -> bool {
    &&& fits(a, rows_a)
    &&& fits(b, rows_b)
    &&& a.len() == b.len()
    &&& is_permutation(p, a.len())
    &&& forall|i: int| 0 <= i < b.len() ==> #[trigger] b[i] == a[p[i]]
    &&& forall|i: int, j: int|
        0 <= i < b.len() && 0 <= j < b.len() ==> #[trigger] rows_b[i]@[j] == rows_a[p[i]]@[p[j]]
}

/// No two candidates are equally far from the camera.
pub open spec fn all_distances_differ(candidates: Seq<PlateCandidate>) -> bool {
    forall|i: int, j: int|
        0 <= i < candidates.len() && 0 <= j < candidates.len() && i != j ==> (
        #[trigger] candidates[i]).distance_squared.total_rank() != (
        #[trigger] candidates[j]).distance_squared.total_rank()
}

/// Which radii agree with a radius depends on the radius alone.
pub open spec fn rows_follow_radii(
    candidates: Seq<PlateCandidate>,
    agreement: Seq<Vec<bool>>,
) -> bool {
    forall|i: int, j: int|
        0 <= i < candidates.len() && 0 <= j < candidates.len() && (
        #[trigger] candidates[i]).outpost_radius_m == (
        #[trigger] candidates[j]).outpost_radius_m ==> agreement[i]@ == agreement[j]@
}

/// The places that are marked.
spec fn marked_places(row: Seq<bool>) -> Set<int> {
    Set::new(|j: int| 0 <= j < row.len() && row[j])
}

proof fn lemma_marks_are_places(row: Seq<bool>)
    ensures
        marked_places(row).finite(),
        marked_places(row).len() == marks(row),
    decreases row.len(),
{
    if row.len() == 0 {
        assert(marked_places(row) =~= Set::empty());
    } else {
        let rest = row.drop_last();
        lemma_marks_are_places(rest);
        if row.last() {
            assert(marked_places(row) =~= marked_places(rest).insert(row.len() - 1));
        } else {
            assert(marked_places(row) =~= marked_places(rest));
        }
    }
}

/// Another order of a row marks as many.
proof fn lemma_marks_reordered(row: Seq<bool>, other: Seq<bool>, p: Seq<int>)
    requires
        is_permutation(p, row.len()),
        other.len() == row.len(),
        forall|j: int| 0 <= j < row.len() ==> #[trigger] other[j] == row[p[j]],
    ensures
        marks(other) == marks(row),
{
    let f = |j: int| p[j];
    let (from, to) = (marked_places(other), marked_places(row));
    lemma_marks_are_places(row);
    lemma_marks_are_places(other);
    assert(from.map(f) =~= to) by {
        assert forall|k: int| #[trigger] to.contains(k) implies from.map(f).contains(k) by {
            assert(p.contains(k));
            let j = choose|j: int| 0 <= j < p.len() && p[j] == k;
            assert(other[j] == row[p[j]]);
            assert(from.contains(j) && f(j) == k);
        }
        assert forall|k: int| #[trigger] from.map(f).contains(k) implies to.contains(k) by {
            let j = choose|j: int| #[trigger] from.contains(j) && f(j) == k;
            assert(other[j] == row[p[j]]);
        }
    }
    assert(vstd::relations::injective_on(f, from)) by {
        assert forall|x: int, y: int|
            from.contains(x) && from.contains(y) && #[trigger] f(x) == #[trigger] f(y) implies x
            == y by {
            assert(p[x] == p[y]);
        }
    }
    vstd::set_lib::lemma_map_size(from, to, f);
}

/// The ring is the same in another order: those who stand for it have the same radius, and their
/// rows mark the same plates.
proof fn lemma_same_ring(
    a: Seq<PlateCandidate>,
    rows_a: Seq<Vec<bool>>,
    b: Seq<PlateCandidate>,
    rows_b: Seq<Vec<bool>>,
    p: Seq<int>,
    i: int,
    j: int,
)
    requires
        reordered(a, rows_a, b, rows_b, p),
        rows_follow_radii(a, rows_a),
        is_ring_model(a, rows_a, i),
        is_ring_model(b, rows_b, j),
    ensures
        rows_a[p[j]]@ == rows_a[i]@,
        marks(rows_b[j]@) == marks(rows_a[i]@),
{
    assert(p.contains(i));
    let back = choose|k: int| 0 <= k < p.len() && p[k] == i;
    lemma_marks_reordered(rows_a[p[j]]@, rows_b[j]@, p);
    lemma_marks_reordered(rows_a[p[back]]@, rows_b[back]@, p);
    assert(b[j] == a[p[j]]);
    assert(b[back] == a[i]);
    assert(plausible_radius(a[p[j]]) && plausible_radius(b[back]));
    assert(stands_before(a, rows_a, i, p[j]));
    assert(stands_before(b, rows_b, j, back));
    assert(a[i].outpost_radius_m == a[p[j]].outpost_radius_m);
}

/// The nearest of the marked ones is the same in another order.
proof fn lemma_same_nearest(
    a: Seq<PlateCandidate>,
    row_a: Seq<bool>,
    b: Seq<PlateCandidate>,
    row_b: Seq<bool>,
    p: Seq<int>,
    k: int,
    l: int,
)
    requires
        a.len() == b.len() == row_a.len() == row_b.len(),
        is_permutation(p, a.len()),
        forall|i: int| 0 <= i < b.len() ==> #[trigger] b[i] == a[p[i]],
        forall|i: int| 0 <= i < b.len() ==> #[trigger] row_b[i] == row_a[p[i]],
        all_distances_differ(a),
        is_nearest(a, row_a, k),
        is_nearest(b, row_b, l),
    ensures
        b[l] == a[k],
{
    assert(p.contains(k));
    let back = choose|i: int| 0 <= i < p.len() && p[i] == k;
    assert(row_b[l] == row_a[p[l]] && row_b[back] == row_a[p[back]]);
    assert(b[l] == a[p[l]] && b[back] == a[k]);
    assert(comes_before(a, k, p[l]));
    assert(comes_before(b, l, back));
    if p[l] != k {
        assert(a[p[l]].distance_squared.total_rank() != a[k].distance_squared.total_rank());
    }
}

/// Where no two plates are equally far from the camera, the plate of an outpost that is chosen, and
/// how many speak for it, do not depend on the order in which the plates are listed.
pub proof fn law_the_order_of_plates_does_not_count(
    a: Seq<PlateCandidate>,
    rows_a: Seq<Vec<bool>>,
    b: Seq<PlateCandidate>,
    rows_b: Seq<Vec<bool>>,
    p: Seq<int>,
)
    requires
        reordered(a, rows_a, b, rows_b, p),
        all_distances_differ(a),
        rows_follow_radii(a, rows_a),
    ensures
        ring_choice(b, rows_b) == ring_choice(a, rows_a),
{
    if exists|i: int| 0 <= i < a.len() && plausible_radius(#[trigger] a[i]) {
        let any = choose|i: int| 0 <= i < a.len() && plausible_radius(#[trigger] a[i]);
        assert(p.contains(any));
        let there = choose|k: int| 0 <= k < p.len() && p[k] == any;
        assert(b[there] == a[any]);
        let i = lemma_ring_is_found(a, rows_a, any);
        let j = lemma_ring_is_found(b, rows_b, there);
        lemma_same_ring(a, rows_a, b, rows_b, p, i, j);
        if marks(rows_a[i]@) >= OUTPOST_RADIUS_MODEL_MIN_INLIERS {
            lemma_same_nearest(
                a,
                rows_a[i]@,
                b,
                rows_b[j]@,
                p,
                nearest(a, rows_a[i]@)->0,
                nearest(b, rows_b[j]@)->0,
            );
        }
    } else {
        assert forall|j: int| 0 <= j < b.len() implies !plausible_radius(#[trigger] b[j]) by {
            assert(b[j] == a[p[j]]);
        }
        assert(ring_model(a, rows_a) is None);
        assert(ring_model(b, rows_b) is None);
    }
}

/// What two lists of plates contribute one after the other is what they contribute together, and a
/// single plate contributes itself or nothing: its centre where it belongs to the target and has
/// one in place, its root where it has no centre and the root will do.
pub proof fn law_each_plate_contributes_for_itself(
    target: u64,
    reference: PlateReference,
    first: Seq<PlateSighting>,
    second: Seq<PlateSighting>,
    plate: PlateSighting,
)
    ensures
        contributions(target, reference, first + second) == contributions(target, reference, first)
            + contributions(target, reference, second),
        !plate.ancestors@.contains(target) ==> contributions(target, reference, seq![plate]).len()
            == 0,
        plate.ancestors@.contains(target) ==> match plate.center {
            CenterSighting::Placed(center) => contributions(target, reference, seq![plate])
                == seq![center],
            CenterSighting::Unplaced => contributions(target, reference, seq![plate]).len() == 0,
            CenterSighting::Absent => if reference is CenterNodeOrPlateRoot && plate.root is Some {
                contributions(target, reference, seq![plate]) == seq![plate.root->0]
            } else {
                contributions(target, reference, seq![plate]).len() == 0
            },
        },
    decreases second.len(),
{
    let one = seq![plate];
    assert(one.drop_last() =~= Seq::<PlateSighting>::empty());
    assert(one.last() == plate);
    reveal_with_fuel(contributions, 2);
    if second.len() == 0 {
        assert(first + second =~= first);
        assert(contributions(target, reference, first) + contributions(target, reference, second)
            =~= contributions(target, reference, first));
    } else {
        law_each_plate_contributes_for_itself(
            target,
            reference,
            first,
            second.drop_last(),
            plate,
        );
        assert((first + second).drop_last() =~= first + second.drop_last());
        assert((first + second).last() == second.last());
        assert(contributions(target, reference, first + second) =~= contributions(
            target,
            reference,
            first,
        ) + contributions(target, reference, second));
    }
}

/// The plate of a vehicle that is named is a nearest one: there is one as soon as there is any
/// candidate, it is the place of a candidate, and no candidate is nearer to the camera; of equally
/// near ones it is the first.
pub proof fn law_the_nearest_plate_is_named(
    candidates: Seq<PlateCandidate>,
    agreement: Seq<Vec<bool>>,
)
    ensures
        plate_choice(PlateReference::CenterNode, candidates, agreement) is Some
            <==> candidates.len() > 0,
        plate_choice(PlateReference::CenterNode, candidates, agreement) matches Some(choice) ==> {
            &&& choice.1 == candidates.len()
            &&& exists|k: int|
                0 <= k < candidates.len() && (#[trigger] candidates[k]).world == choice.0
                    && forall|j: int|
                    0 <= j < candidates.len() ==> candidates[k].distance_squared.total_rank() <= (
                    #[trigger] candidates[j]).distance_squared.total_rank() && (j < k
                        ==> candidates[k].distance_squared.total_rank()
                        < candidates[j].distance_squared.total_rank())
        },
{
    let marked = all_marked(candidates.len());
    if candidates.len() > 0 {
        let k = lemma_nearest_up_to(candidates, marked, 0, candidates.len() as int);
        assert(is_nearest(candidates, marked, k));
        lemma_nearest_is_one(candidates, marked, k);
        assert forall|j: int| 0 <= j < candidates.len() implies candidates[k].distance_squared.total_rank()
            <= (#[trigger] candidates[j]).distance_squared.total_rank() && (j < k
            ==> candidates[k].distance_squared.total_rank()
            < candidates[j].distance_squared.total_rank()) by {
            assert(marked[j]);
        }
        assert(candidates[k].world == (plate_choice(
            PlateReference::CenterNode,
            candidates,
            agreement,
        )->0).0);
    }
}

/// A radius counts exactly where it is a finite number of at least five centimetres.
pub proof fn law_plausible_radii(candidate: PlateCandidate)
    ensures
        plausible_radius(candidate) <==> 0x3d4c_cccd <= candidate.outpost_radius_m.bits
            < 0x7f80_0000,
{
}

/// The plate has its centre in place and belongs to the target.
pub open spec fn is_centered_plate_of(target: u64, plate: PlateSighting) -> bool {
    plate.ancestors@.contains(target) && plate.center is Placed
}

/// The plate of a vehicle that is named is the centre of one of its plates, and no plate of the
/// vehicle has its centre nearer to the camera. One is named exactly where the vehicle has a plate
/// with its centre in place; plates of other vehicles, and plates without a centre, do not count.
pub proof fn law_a_vehicle_shows_its_nearest_plate(target: u64, plates: Seq<PlateSighting>)
    ensures
        ({
            let choice = plate_choice(
                PlateReference::CenterNode,
                contributions(target, PlateReference::CenterNode, plates),
                Seq::empty(),
            );
            &&& choice is Some <==> exists|i: int|
                0 <= i < plates.len() && is_centered_plate_of(target, #[trigger] plates[i])
            &&& choice is Some ==> exists|i: int|
                0 <= i < plates.len() && is_centered_plate_of(target, #[trigger] plates[i])
                    && plates[i].center->Placed_0.world == (choice->0).0 && forall|j: int|
                    0 <= j < plates.len() && is_centered_plate_of(target, #[trigger] plates[j])
                        ==> plates[i].center->Placed_0.distance_squared.total_rank()
                        <= plates[j].center->Placed_0.distance_squared.total_rank()
        }),
{
    let candidates = contributions(target, PlateReference::CenterNode, plates);
    law_the_nearest_plate_is_named(candidates, Seq::empty());
    assert forall|i: int|
        0 <= i < plates.len() && is_centered_plate_of(
            target,
            #[trigger] plates[i],
        ) implies candidates.contains(plates[i].center->Placed_0) by {
        lemma_contribution_counts(target, PlateReference::CenterNode, plates, i);
    }
    if candidates.len() > 0 {
        let choice = plate_choice(PlateReference::CenterNode, candidates, Seq::empty())->0;
        let k = choose|k: int|
            0 <= k < candidates.len() && (#[trigger] candidates[k]).world == choice.0
                && forall|j: int|
                0 <= j < candidates.len() ==> candidates[k].distance_squared.total_rank() <= (
                #[trigger] candidates[j]).distance_squared.total_rank();
        let i = lemma_candidate_is_a_plate(target, plates, k);
        assert forall|j: int|
            0 <= j < plates.len() && is_centered_plate_of(
                target,
                #[trigger] plates[j],
            ) implies plates[i].center->Placed_0.distance_squared.total_rank()
            <= plates[j].center->Placed_0.distance_squared.total_rank() by {
            let c = plates[j].center->Placed_0;
            assert(candidates.contains(c));
            let n = choose|n: int| 0 <= n < candidates.len() && candidates[n] == c;
            assert(candidates[n] == c);
        }
    } else if exists|i: int|
        0 <= i < plates.len() && is_centered_plate_of(target, #[trigger] plates[i]) {
        let i = choose|i: int|
            0 <= i < plates.len() && is_centered_plate_of(target, #[trigger] plates[i]);
        assert(candidates.contains(plates[i].center->Placed_0));
    }
}

/// Each candidate of a vehicle is the centre of one of its plates.
proof fn lemma_candidate_is_a_plate(target: u64, plates: Seq<PlateSighting>, k: int) -> (i: int)
    requires
        0 <= k < contributions(target, PlateReference::CenterNode, plates).len(),
    ensures
        0 <= i < plates.len(),
        is_centered_plate_of(target, plates[i]),
        plates[i].center->Placed_0 == contributions(
            target,
            PlateReference::CenterNode,
            plates,
        )[k],
    decreases plates.len(),
{
    let before = contributions(target, PlateReference::CenterNode, plates.drop_last());
    if k < before.len() {
        lemma_candidate_is_a_plate(target, plates.drop_last(), k)
    } else {
        plates.len() - 1
    }
}

/// So many plates, or more, agree on some plausible radius.
pub open spec fn agree_on_a_ring(
    candidates: Seq<PlateCandidate>,
    agreement: Seq<Vec<bool>>,
    support: nat,
) -> bool {
    exists|i: int|
        0 <= i < candidates.len() && plausible_radius(#[trigger] candidates[i]) && marks(
            agreement[i]@,
        ) >= support
}

/// A plate of an outpost is chosen exactly where two agree on a ring; three speak for it exactly
/// where three agree on one; and it is the nearest of a ring that most agree on.
pub proof fn law_rings_need_agreement(candidates: Seq<PlateCandidate>, agreement: Seq<Vec<bool>>)
    requires
        fits(candidates, agreement),
    ensures
        ring_choice(candidates, agreement) is Some <==> agree_on_a_ring(candidates, agreement, 2),
        ring_choice(candidates, agreement) is Some && (ring_choice(candidates, agreement)->0).1 >= 3
            <==> agree_on_a_ring(candidates, agreement, 3),
        ring_choice(candidates, agreement) matches Some(choice) ==> exists|i: int, k: int|
            #[trigger] is_ring_of(candidates, agreement, i, choice.1) && #[trigger] is_plate_of(
                candidates,
                agreement[i]@,
                k,
                choice.0,
            ),
{
    law_the_densest_ring_is_chosen(candidates, agreement);
    if ring_choice(candidates, agreement) is Some {
        let choice = ring_choice(candidates, agreement)->0;
        let (i, k) = choose|i: int, k: int|
            #[trigger] is_ring_of(candidates, agreement, i, choice.1) && #[trigger] is_plate_of(
                candidates,
                agreement[i]@,
                k,
                choice.0,
            );
        assert(is_ring_of(candidates, agreement, i, choice.1));
        assert(plausible_radius(candidates[i]));
    }
}

/// Marks are counted one by one.
pub proof fn law_marks_are_counted(first: Seq<bool>, second: Seq<bool>, mark: bool)
    ensures
        marks(first + second) == marks(first) + marks(second),
        marks(seq![mark]) == (if mark {
            1nat
        } else {
            0nat
        }),
        marks(Seq::<bool>::empty()) == 0,
    decreases second.len(),
{
    assert(seq![mark].drop_last() =~= Seq::<bool>::empty());
    reveal_with_fuel(marks, 2);
    if second.len() == 0 {
        assert(first + second =~= first);
    } else {
        assert((first + second).drop_last() =~= first + second.drop_last());
        assert((first + second).last() == second.last());
        law_marks_are_counted(first, second.drop_last(), mark);
    }
}

/// The plate of a vehicle: there is one where there is any candidate, it is the place of a
/// candidate, no candidate is nearer, and all candidates support it. The plate of an outpost: there
/// is one where two candidates agree on a plausible radius, and it is the nearest on the ring on
/// which most agree.
pub proof fn law_calls_of_select_plate_reference_with_support(
    reference: PlateReference,
    candidates: Vec<PlateCandidate>,
    agreement: Vec<Vec<bool>>,
    r: Option<([F32; 3], usize)>,
)
    requires
        call_ensures(
            select_plate_reference_with_support,
            (reference, &candidates, &agreement),
            r,
        ),
        reference is CenterNodeOrPlateRoot ==> fits(candidates@, agreement@),
    ensures
        reference is CenterNode ==> (r is Some <==> candidates@.len() > 0),
        reference is CenterNode && r is Some ==> (r->0).1 == candidates@.len() && exists|k: int|
            0 <= k < candidates@.len() && (#[trigger] candidates@[k]).world == (r->0).0 && forall|
                j: int,
            |
                0 <= j < candidates@.len() ==> candidates@[k].distance_squared.total_rank() <= (
                #[trigger] candidates@[j]).distance_squared.total_rank(),
        reference is CenterNodeOrPlateRoot ==> (r is Some <==> agree_on_a_ring(
            candidates@,
            agreement@,
            2,
        )),
        reference is CenterNodeOrPlateRoot && r is Some ==> exists|i: int, k: int|
            #[trigger] is_ring_of(candidates@, agreement@, i, (r->0).1 as nat)
                && #[trigger] is_plate_of(candidates@, agreement@[i]@, k, (r->0).0),
        r is Some ==> plate_choice(reference, candidates@, agreement@) == Some(
            ((r->0).0, (r->0).1 as nat),
        ),
{
    if reference is CenterNode {
        law_the_nearest_plate_is_named(candidates@, agreement@);
    } else {
        law_rings_need_agreement(candidates@, agreement@);
    }
}

/// The plate without its support is the plate with it.
pub proof fn law_calls_of_select_plate_reference(
    reference: PlateReference,
    candidates: Vec<PlateCandidate>,
    agreement: Vec<Vec<bool>>,
    with: Option<([F32; 3], usize)>,
    r: Option<[F32; 3]>,
)
    requires
        call_ensures(
            select_plate_reference_with_support,
            (reference, &candidates, &agreement),
            with,
        ),
        call_ensures(select_plate_reference, (reference, &candidates, &agreement), r),
    ensures
        r is Some <==> with is Some,
        r is Some ==> r->0 == (with->0).0,
{
}

/// The plate of an outpost lies on the ring on which most agree, and is the nearest there.
pub proof fn law_calls_of_select_outpost_plate_reference_with_support(
    candidates: Vec<PlateCandidate>,
    agreement: Vec<Vec<bool>>,
    r: Option<([F32; 3], usize)>,
)
    requires
        call_ensures(select_outpost_plate_reference_with_support, (&candidates, &agreement), r),
        fits(candidates@, agreement@),
    ensures
        r is Some <==> agree_on_a_ring(candidates@, agreement@, 2),
        r is Some ==> exists|i: int, k: int|
            #[trigger] is_ring_of(candidates@, agreement@, i, (r->0).1 as nat)
                && #[trigger] is_plate_of(candidates@, agreement@[i]@, k, (r->0).0),
{
    law_rings_need_agreement(candidates@, agreement@);
}

/// Whatever is a candidate for a vehicle is the centre of one of its plates, and each centre of its
/// plates that is in place is a candidate.
pub proof fn law_calls_of_plate_candidates(
    target: u64,
    reference: PlateReference,
    plates: Vec<PlateSighting>,
    r: Vec<PlateCandidate>,
    at: int,
)
    requires
        call_ensures(plate_candidates, (target, reference, &plates), r),
        0 <= at,
    ensures
        r@ == contributions(target, reference, plates@),
        reference is CenterNode && at < r@.len() ==> exists|i: int|
            0 <= i < plates@.len() && is_centered_plate_of(target, #[trigger] plates@[i])
                && plates@[i].center->Placed_0 == r@[at],
        at < plates@.len() && is_centered_plate_of(target, plates@[at]) ==> r@.contains(
            plates@[at].center->Placed_0,
        ),
{
    if reference is CenterNode && at < r@.len() {
        let i = lemma_candidate_is_a_plate(target, plates@, at);
    }
    if at < plates@.len() && is_centered_plate_of(target, plates@[at]) {
        lemma_contribution_counts(target, reference, plates@, at);
    }
}

/// A node is below another exactly where the other is listed above it; a name marks a centre
/// exactly where it ends in the mark.
pub proof fn law_calls_of_has_ancestor_and_names_a_center(
    ancestors: Vec<u64>,
    node: u64,
    below: bool,
    name: &str,
    center: bool,
)
    requires
        call_ensures(has_ancestor, (&ancestors, node), below),
        call_ensures(names_a_center, (name,), center),
    ensures
        below <==> exists|i: int| 0 <= i < ancestors@.len() && #[trigger] ancestors@[i] == node,
        center <==> name@.len() >= CENTER_SUFFIX@.len() && name@.subrange(
            name@.len() - CENTER_SUFFIX@.len(),
            name@.len() as int,
        ) == CENTER_SUFFIX@,
{
    let n = CENTER_SUFFIX@.len() as int;
    if name@.len() >= n {
        assert(CENTER_SUFFIX@.is_suffix_of(name@) == (CENTER_SUFFIX@ =~= name@.subrange(
            name@.len() - n,
            name@.len() as int,
        )));
    }
}

/// None before the candidate at `i` has the same radius with as much support.
pub open spec fn is_first_ring(
    candidates: Seq<PlateCandidate>,
    agreement: Seq<Vec<bool>>,
    i: int,
) -> bool {
    forall|j: int|
        0 <= j < i && plausible_radius(#[trigger] candidates[j]) ==> marks(agreement[j]@) < marks(
            agreement[i]@,
        ) || candidates[j].outpost_radius_m.rank() != candidates[i].outpost_radius_m.rank()
}

/// Every marked candidate before the one at `k` is further away.
pub open spec fn is_first_plate(
    candidates: Seq<PlateCandidate>,
    marked: Seq<bool>,
    k: int,
) -> bool {
    forall|j: int|
        0 <= j < k && #[trigger] marked[j] ==> candidates[k].distance_squared.total_rank()
            < candidates[j].distance_squared.total_rank()
}

/// Of rings that are equal in support and radius the first counts, and of plates that are equally
/// near on it the first is taken.
pub proof fn law_the_first_of_equals_is_taken(
    candidates: Seq<PlateCandidate>,
    agreement: Seq<Vec<bool>>,
)
    requires
        fits(candidates, agreement),
    ensures
        ring_choice(candidates, agreement) matches Some(choice) ==> exists|i: int, k: int|
            #[trigger] is_ring_of(candidates, agreement, i, choice.1) && is_first_ring(
                candidates,
                agreement,
                i,
            ) && #[trigger] is_plate_of(candidates, agreement[i]@, k, choice.0) && is_first_plate(
                candidates,
                agreement[i]@,
                k,
            ),
{
    if ring_choice(candidates, agreement) is Some {
        let i = ring_model(candidates, agreement)->0;
        let k = nearest(candidates, agreement[i]@)->0;
        let choice = ring_choice(candidates, agreement)->0;
        assert(is_ring_model(candidates, agreement, i));
        assert(is_nearest(candidates, agreement[i]@, k));
        assert(is_ring_of(candidates, agreement, i, choice.1));
        assert(is_plate_of(candidates, agreement[i]@, k, choice.0));
        assert forall|j: int| 0 <= j < i && plausible_radius(#[trigger] candidates[j]) implies marks(
            agreement[j]@,
        ) < marks(agreement[i]@) || candidates[j].outpost_radius_m.rank()
            != candidates[i].outpost_radius_m.rank() by {
            assert(stands_before(candidates, agreement, i, j));
        }
        assert forall|j: int| 0 <= j < k && #[trigger] agreement[i]@[j] implies
            candidates[k].distance_squared.total_rank()
            < candidates[j].distance_squared.total_rank() by {
            assert(comes_before(candidates, k, j));
        }
    }
}

} // verus!
