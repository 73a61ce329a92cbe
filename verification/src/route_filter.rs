use vstd::prelude::*;

verus! {

/// How the flat coordinate inputs of a route/shop distance query are read.
#[derive(PartialEq, Eq, Structural, Debug, Clone, Copy)]
pub enum RouteShape {
    /// The shop list is empty or has an odd length: the answer is empty.
    NoShops,
    /// The route has fewer than two vertices or an odd length: every shop
    /// is infinitely far away.
    NoRoute { shops: usize },
    /// Both inputs are well formed.
    Route { vertices: usize, shops: usize },
}

pub open spec fn spec_route_shape(route_len: nat, shop_len: nat) -> RouteShape {
    if shop_len < 2 || shop_len % 2 != 0 {
        RouteShape::NoShops
    } else if route_len < 4 || route_len % 2 != 0 {
        RouteShape::NoRoute { shops: (shop_len / 2) as usize }
    } else {
        RouteShape::Route { vertices: (route_len / 2) as usize, shops: (shop_len / 2) as usize }
    }
}

/// The shape keeps every input: a malformed shop list gives no answer; with
/// a well-formed shop list there is one answer per shop (two values per
/// shop), and a well-formed route is read whole (two values per vertex).
pub proof fn lemma_route_shape_reads_whole_inputs(route_len: nat, shop_len: nat)
    requires
        route_len <= usize::MAX,
        shop_len <= usize::MAX,
    ensures
        spec_route_shape(route_len, shop_len) is NoShops <==> (shop_len < 2 || shop_len % 2 == 1),
        spec_route_shape(route_len, shop_len) matches RouteShape::NoRoute { shops } ==> 2 * shops
            == shop_len && (route_len < 4 || route_len % 2 == 1),
        spec_route_shape(route_len, shop_len) matches RouteShape::Route { vertices, shops } ==> 2
            * vertices == route_len && 2 * shops == shop_len && vertices >= 2,
        shop_len >= 2 && shop_len % 2 == 0 && route_len >= 4 && route_len % 2 == 0
            ==> spec_route_shape(route_len, shop_len) is Route,
{
}

/// Classifies the lengths of the flat `[lon, lat, ...]` route and shop arrays.
pub fn route_shape(route_len: usize, shop_len: usize) -> (r: RouteShape)
    ensures
        r == spec_route_shape(route_len as nat, shop_len as nat),
        shop_len < 2 || shop_len % 2 == 1 ==> r == RouteShape::NoShops,
        shop_len >= 2 && shop_len % 2 == 0 && (route_len < 4 || route_len % 2 == 1) ==> (r matches RouteShape::NoRoute { shops } && 2 * shops == shop_len),
        shop_len >= 2 && shop_len % 2 == 0 && route_len >= 4 && route_len % 2 == 0 ==> (r matches RouteShape::Route { vertices, shops } && 2 * vertices == route_len && 2 * shops == shop_len),
{
    if shop_len < 2 || shop_len % 2 != 0 {
        return RouteShape::NoShops;
    }
    let m: usize = shop_len / 2;
    if route_len < 4 || route_len % 2 != 0 {
        return RouteShape::NoRoute { shops: m };
    }
    RouteShape::Route { vertices: route_len / 2, shops: m }
}


/// One iteration of the two-lane segment scan: `Pair(i)` handles the
/// segments that end at vertices `i` and `i + 1`, `Single(i)` the segment
/// that ends at vertex `i`. Segment `j` joins vertices `j - 1` and `j`.
#[derive(PartialEq, Eq, Structural, Debug, Clone, Copy)]
pub enum SegmentStep {
    Pair(usize),
    Single(usize),
}

/// Number of segments of a polyline with `n` vertices.
pub open spec fn segment_count(n: nat) -> nat {
    if n == 0 {
        0
    } else {
        (n - 1) as nat
    }
}

/// The steps of the two-lane scan over a polyline with `n` vertices: as many
/// pairs as fit, from the first segment on, then the odd segment left over.
pub open spec fn spec_segment_schedule(n: nat) -> Seq<SegmentStep> {
    let s = segment_count(n);
    let pairs = Seq::new(s / 2, |k: int| SegmentStep::Pair((2 * k + 1) as usize));
    if s % 2 == 1 {
        pairs.push(SegmentStep::Single(s as usize))
    } else {
        pairs
    }
}

/// The segments that one step handles, in the order it handles them.
pub open spec fn step_segments(st: SegmentStep) -> Seq<usize> {
    match st {
        SegmentStep::Pair(i) => seq![i, (i + 1) as usize],
        SegmentStep::Single(i) => seq![i],
    }
}

/// The segments that a sequence of steps handles, in order.
pub open spec fn visited_segments(steps: Seq<SegmentStep>) -> Seq<usize>
    decreases steps.len(),
{
    if steps.len() == 0 {
        seq![]
    } else {
        visited_segments(steps.drop_last()) + step_segments(steps.last())
    }
}

/// Every segment `1 ..= n - 1`, in order: what the one-lane scan visits.
pub open spec fn all_segments(n: nat) -> Seq<usize> {
    Seq::new(segment_count(n), |j: int| (j + 1) as usize)
}

proof fn lemma_pairs_visit_prefix(k: nat)
    requires
        2 * k < usize::MAX,
    ensures
        visited_segments(Seq::new(k, |q: int| SegmentStep::Pair((2 * q + 1) as usize)))
            =~= Seq::new(2 * k, |j: int| (j + 1) as usize),
    decreases k,
{
    let pairs = Seq::new(k, |q: int| SegmentStep::Pair((2 * q + 1) as usize));
    if k > 0 {
        let prev = Seq::new((k - 1) as nat, |q: int| SegmentStep::Pair((2 * q + 1) as usize));
        assert(pairs.drop_last() =~= prev);
        lemma_pairs_visit_prefix((k - 1) as nat);
    }
}

/// The two-lane scan visits every segment exactly once, in the same order as
/// the one-lane scan, whatever the number of vertices: so both fold the same
/// per-segment distances in the same order.
pub proof fn lemma_schedule_visits_every_segment_once(n: nat)
    requires
        n <= usize::MAX,
    ensures
        visited_segments(spec_segment_schedule(n)) =~= all_segments(n),
{
    let s = segment_count(n);
    let pairs = Seq::new(s / 2, |k: int| SegmentStep::Pair((2 * k + 1) as usize));
    lemma_pairs_visit_prefix(s / 2);
    if s % 2 == 1 {
        let sched = pairs.push(SegmentStep::Single(s as usize));
        assert(sched.drop_last() =~= pairs);
        assert(sched.last() == SegmentStep::Single(s as usize));
    }
}

/// The steps of the two-lane segment scan over a polyline with
/// `vertex_count` vertices.
pub fn segment_schedule(vertex_count: usize) -> (r: Vec<SegmentStep>)
    ensures
        r@ == spec_segment_schedule(vertex_count as nat),
        visited_segments(r@) == all_segments(vertex_count as nat),
        r@.len() == segment_count(vertex_count as nat) / 2 + segment_count(vertex_count as nat) % 2,
        forall|k: int| 0 <= k < r@.len() - 1 ==> (#[trigger] r@[k]) is Pair,
        forall|k: int|
            0 <= k < r@.len() ==> match #[trigger] r@[k] {
                SegmentStep::Pair(i) => 1 <= i && i + 1 < vertex_count,
                SegmentStep::Single(i) => 1 <= i < vertex_count,
            },
{
    let mut steps: Vec<SegmentStep> = Vec::new();
    let ghost s = segment_count(vertex_count as nat);
    let mut i: usize = 1;
    while i < vertex_count && i + 1 < vertex_count
        invariant
            i == 2 * steps@.len() + 1,
            i <= vertex_count || vertex_count == 0,
            s == segment_count(vertex_count as nat),
            steps@.len() <= s / 2,
            forall|k: int|
                0 <= k < steps@.len() ==> #[trigger] steps@[k] == SegmentStep::Pair(
                    (2 * k + 1) as usize,
                ),
        decreases vertex_count - i,
    {
        steps.push(SegmentStep::Pair(i));
        i = i + 2;
    }
    if i < vertex_count {
        steps.push(SegmentStep::Single(i));
    }
    assert(steps@ =~= spec_segment_schedule(vertex_count as nat));
    proof {
        lemma_schedule_visits_every_segment_once(vertex_count as nat);
    }
    steps
}

/// `m` is the least of the keys that are present.
pub open spec fn is_least_key(keys: Seq<Option<u64>>, m: u64) -> bool {
    &&& exists|i: int| 0 <= i < keys.len() && keys[i] == Some(m)
    &&& forall|i: int| 0 <= i < keys.len() && (#[trigger] keys[i]) is Some ==> m <= keys[i]->0
}

/// The least key present, `None` where no key is present.
///
/// A key stands for a finite, non-negative squared distance, ordered as the
/// distance is; an absent key stands for one that no comparison selects
/// (not a number, or infinite).
pub fn min_key(keys: &Vec<Option<u64>>) -> (r: Option<u64>)
    ensures
        r is None <==> forall|i: int| 0 <= i < keys@.len() ==> (#[trigger] keys@[i]) is None,
        r matches Some(m) ==> is_least_key(keys@, m),
        r matches Some(m) ==> (exists|i: int| 0 <= i < keys@.len() && keys@[i] == Some(m)),
        r matches Some(m) ==> (forall|i: int| 0 <= i < keys@.len() && (#[trigger] keys@[i]) is Some ==> m <= keys@[i]->0),
{
    let mut best: Option<u64> = None;
    let mut i: usize = 0;
    while i < keys.len()
        invariant
            i <= keys@.len(),
            best is None <==> forall|j: int| 0 <= j < i ==> (#[trigger] keys@[j]) is None,
            best matches Some(m) ==> {
                &&& exists|j: int| 0 <= j < i && keys@[j] == Some(m)
                &&& forall|j: int| 0 <= j < i && (#[trigger] keys@[j]) is Some ==> m <= keys@[j]->0
            },
        decreases keys@.len() - i,
    {
        if let Some(k) = keys[i] {
            match best {
                None => {
                    best = Some(k);
                },
                Some(b) => {
                    if k < b {
                        best = Some(k);
                    }
                },
            }
        }
        i = i + 1;
    }
    best
}

} // verus!
