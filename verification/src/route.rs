use vstd::prelude::*;

verus! {

/// Why a route request is answered with an error object.
#[derive(PartialEq, Eq, Structural, Debug, Clone, Copy)]
pub enum RouteError {
    /// The snap radius is not a finite positive number.
    InvalidMaxSnapMeters,
    /// An endpoint coordinate is not finite.
    InvalidCoords,
    /// A tile buffer is not a byte array.
    InvalidBufferElement,
    /// An endpoint found no node at all.
    NoNearbyNode,
    /// The start snapped farther than the snap radius.
    NoNearbyNodeFrom,
    /// The goal snapped farther than the snap radius.
    NoNearbyNodeTo,
    /// Neither the hierarchy query nor the plain fallback reached the goal.
    UnreachableInCorridor,
}

pub open spec fn spec_error_code(e: RouteError) -> Seq<char> {
    match e {
        RouteError::InvalidMaxSnapMeters => "invalid_max_snap_meters"@,
        RouteError::InvalidCoords => "invalid_coords"@,
        RouteError::InvalidBufferElement => "invalid_buffer_element"@,
        RouteError::NoNearbyNode => "no_nearby_node"@,
        RouteError::NoNearbyNodeFrom => "no_nearby_node_from"@,
        RouteError::NoNearbyNodeTo => "no_nearby_node_to"@,
        RouteError::UnreachableInCorridor => "unreachable_in_corridor"@,
    }
}

impl RouteError {
    /// The `error` string of the answer object.
    pub fn code(&self) -> (r: &'static str)
        ensures
            r@ == spec_error_code(*self),
            *self == RouteError::InvalidMaxSnapMeters ==> r@ == "invalid_max_snap_meters"@,
            *self == RouteError::InvalidCoords ==> r@ == "invalid_coords"@,
            *self == RouteError::InvalidBufferElement ==> r@ == "invalid_buffer_element"@,
            *self == RouteError::NoNearbyNode ==> r@ == "no_nearby_node"@,
            *self == RouteError::NoNearbyNodeFrom ==> r@ == "no_nearby_node_from"@,
            *self == RouteError::NoNearbyNodeTo ==> r@ == "no_nearby_node_to"@,
            *self == RouteError::UnreachableInCorridor ==> r@ == "unreachable_in_corridor"@,
    {
        match self {
            RouteError::InvalidMaxSnapMeters => "invalid_max_snap_meters",
            RouteError::InvalidCoords => "invalid_coords",
            RouteError::InvalidBufferElement => "invalid_buffer_element",
            RouteError::NoNearbyNode => "no_nearby_node",
            RouteError::NoNearbyNodeFrom => "no_nearby_node_from",
            RouteError::NoNearbyNodeTo => "no_nearby_node_to",
            RouteError::UnreachableInCorridor => "unreachable_in_corridor",
        }
    }
}


/// Which search produced the route.
#[derive(PartialEq, Eq, Structural, Debug, Clone, Copy)]
pub enum Algorithm {
    /// The contraction-hierarchy query, with its level constraint.
    ChWasm,
    /// The plain bidirectional Dijkstra fallback, without level constraint.
    CsrWasmDijkstra,
}

pub open spec fn spec_algorithm_label(a: Algorithm) -> Seq<char> {
    match a {
        Algorithm::ChWasm => "ch-wasm"@,
        Algorithm::CsrWasmDijkstra => "csr-wasm-dijkstra"@,
    }
}

impl Algorithm {
    /// The `algorithm` string of the answer object.
    pub fn label(&self) -> (r: &'static str)
        ensures
            r@ == spec_algorithm_label(*self),
            *self == Algorithm::ChWasm ==> r@ == "ch-wasm"@,
            *self == Algorithm::CsrWasmDijkstra ==> r@ == "csr-wasm-dijkstra"@,
    {
        match self {
            Algorithm::ChWasm => "ch-wasm",
            Algorithm::CsrWasmDijkstra => "csr-wasm-dijkstra",
        }
    }
}

/// Search limits of a query on the node graph.
#[derive(PartialEq, Eq, Structural, Debug, Clone, Copy)]
pub struct QueryLimits {
    pub settled_cap: u32,
    pub pops_cap: u32,
    pub time_budget_ms: u64,
    pub no_level_constraint: bool,
}

/// The limits of the fallback search: generous caps, a ten second budget,
/// and no level constraint.
pub open spec fn spec_fallback_limits() -> QueryLimits {
    QueryLimits {
        settled_cap: 300_000,
        pops_cap: 800_000,
        time_budget_ms: 10_000,
        no_level_constraint: true,
    }
}

/// The limits of the fallback search.
pub fn fallback_limits() -> (r: QueryLimits)
    ensures
        r == spec_fallback_limits(),
        r.settled_cap == 300_000,
        r.pops_cap == 800_000,
        r.time_budget_ms == 10_000,
        r.no_level_constraint,
{
    QueryLimits {
        settled_cap: 300_000,
        pops_cap: 800_000,
        time_budget_ms: 10_000,
        no_level_constraint: true,
    }
}

/// The options a query runs with.
#[derive(PartialEq, Eq, Structural, Debug, Clone, Copy)]
pub enum QueryPlan {
    /// The query's default options (the hierarchy query).
    Default,
    /// Explicit limits.
    Limits(QueryLimits),
}

/// How an endpoint snapped.
#[derive(PartialEq, Eq, Structural, Debug, Clone, Copy)]
pub enum SnapOutcome {
    /// No node could be picked.
    Missing,
    /// The nearest node lies farther than the snap radius.
    TooFar,
    /// The nearest node lies within the snap radius.
    Within,
}

/// Where a route request stands.
#[derive(PartialEq, Eq, Structural, Debug, Clone, Copy)]
pub enum RouteState {
    AwaitingInputs,
    AwaitingBuffers,
    AwaitingSnaps,
    AwaitingPrimary,
    AwaitingFallback,
    /// A route was found by this search; its path is expanded and returned.
    Done(Algorithm),
    /// The request is answered with this error.
    Failed(RouteError),
}

/// What the caller observed since the last step.
#[derive(PartialEq, Eq, Structural, Debug, Clone, Copy)]
pub enum RouteEvent {
    /// The snap radius is finite and positive; all four endpoint
    /// coordinates are finite.
    InputsChecked { max_snap_ok: bool, coords_ok: bool },
    /// Every tile buffer is a byte array.
    BuffersChecked { all_byte_arrays: bool },
    /// How the start and the goal snapped.
    Snapped { from: SnapOutcome, to: SnapOutcome },
    /// Whether the query found a finite distance.
    Queried { distance_finite: bool },
}

/// What the caller does next.
#[derive(PartialEq, Eq, Structural, Debug, Clone, Copy)]
pub enum RouteAction {
    /// Read the tile buffers.
    ReadBuffers,
    /// Build the node graph and snap both endpoints.
    BuildAndSnap,
    /// Release the node ids and run a query with these options.
    RunQuery(QueryPlan),
    /// Expand the found path and answer with it, naming this search.
    AnswerRoute(Algorithm),
    /// Answer with this error.
    AnswerError(RouteError),
    /// The event does not belong to this state: nothing to do.
    Nothing,
}

pub open spec fn is_terminal(s: RouteState) -> bool {
    s is Done || s is Failed
}

/// The event is the one that the state waits for.
pub open spec fn event_fits(s: RouteState, e: RouteEvent) -> bool {
    match s {
        RouteState::AwaitingInputs => e is InputsChecked,
        RouteState::AwaitingBuffers => e is BuffersChecked,
        RouteState::AwaitingSnaps => e is Snapped,
        RouteState::AwaitingPrimary => e is Queried,
        RouteState::AwaitingFallback => e is Queried,
        _ => false,
    }
}

/// The transition table of a route request.
pub open spec fn spec_route_step(s: RouteState, e: RouteEvent) -> (RouteState, RouteAction) {
    match (s, e) {
        (RouteState::AwaitingInputs, RouteEvent::InputsChecked { max_snap_ok, coords_ok }) => {
            if !max_snap_ok {
                (
                    RouteState::Failed(RouteError::InvalidMaxSnapMeters),
                    RouteAction::AnswerError(RouteError::InvalidMaxSnapMeters),
                )
            } else if !coords_ok {
                (
                    RouteState::Failed(RouteError::InvalidCoords),
                    RouteAction::AnswerError(RouteError::InvalidCoords),
                )
            } else {
                (RouteState::AwaitingBuffers, RouteAction::ReadBuffers)
            }
        },
        (RouteState::AwaitingBuffers, RouteEvent::BuffersChecked { all_byte_arrays }) => {
            if all_byte_arrays {
                (RouteState::AwaitingSnaps, RouteAction::BuildAndSnap)
            } else {
                (
                    RouteState::Failed(RouteError::InvalidBufferElement),
                    RouteAction::AnswerError(RouteError::InvalidBufferElement),
                )
            }
        },
        (RouteState::AwaitingSnaps, RouteEvent::Snapped { from, to }) => {
            if from is Missing || to is Missing {
                (
                    RouteState::Failed(RouteError::NoNearbyNode),
                    RouteAction::AnswerError(RouteError::NoNearbyNode),
                )
            } else if from is TooFar {
                (
                    RouteState::Failed(RouteError::NoNearbyNodeFrom),
                    RouteAction::AnswerError(RouteError::NoNearbyNodeFrom),
                )
            } else if to is TooFar {
                (
                    RouteState::Failed(RouteError::NoNearbyNodeTo),
                    RouteAction::AnswerError(RouteError::NoNearbyNodeTo),
                )
            } else {
                (RouteState::AwaitingPrimary, RouteAction::RunQuery(QueryPlan::Default))
            }
        },
        (RouteState::AwaitingPrimary, RouteEvent::Queried { distance_finite }) => {
            if distance_finite {
                (RouteState::Done(Algorithm::ChWasm), RouteAction::AnswerRoute(Algorithm::ChWasm))
            } else {
                (
                    RouteState::AwaitingFallback,
                    RouteAction::RunQuery(QueryPlan::Limits(spec_fallback_limits())),
                )
            }
        },
        (RouteState::AwaitingFallback, RouteEvent::Queried { distance_finite }) => {
            if distance_finite {
                (
                    RouteState::Done(Algorithm::CsrWasmDijkstra),
                    RouteAction::AnswerRoute(Algorithm::CsrWasmDijkstra),
                )
            } else {
                (
                    RouteState::Failed(RouteError::UnreachableInCorridor),
                    RouteAction::AnswerError(RouteError::UnreachableInCorridor),
                )
            }
        },
        _ => (s, RouteAction::Nothing),
    }
}

/// The decisions of a route request: from where it stands and what was
/// observed, to where it stands next and what to do.
///
/// Inputs are checked before the buffers, the buffers before any snap; a
/// missing snap is reported before a snap that is too far, the start before
/// the goal. A route found by the hierarchy query is answered at once;
/// otherwise the fallback search runs, once, and its miss is the answer
/// `unreachable_in_corridor`.
pub fn route_step(state: RouteState, event: RouteEvent) -> (r: (RouteState, RouteAction))
    ensures
        r == spec_route_step(state, event),
        state == RouteState::AwaitingInputs ==> (event matches RouteEvent::InputsChecked {
            max_snap_ok,
            coords_ok,
        } ==> {
            &&& !max_snap_ok ==> r == (
                RouteState::Failed(RouteError::InvalidMaxSnapMeters),
                RouteAction::AnswerError(RouteError::InvalidMaxSnapMeters),
            )
            &&& max_snap_ok && !coords_ok ==> r == (
                RouteState::Failed(RouteError::InvalidCoords),
                RouteAction::AnswerError(RouteError::InvalidCoords),
            )
            &&& max_snap_ok && coords_ok ==> r == (
                RouteState::AwaitingBuffers,
                RouteAction::ReadBuffers,
            )
        }),
        state == RouteState::AwaitingBuffers ==> (event matches RouteEvent::BuffersChecked {
            all_byte_arrays,
        } ==> r == (if all_byte_arrays {
            (RouteState::AwaitingSnaps, RouteAction::BuildAndSnap)
        } else {
            (
                RouteState::Failed(RouteError::InvalidBufferElement),
                RouteAction::AnswerError(RouteError::InvalidBufferElement),
            )
        })),
        state == RouteState::AwaitingSnaps ==> (event matches RouteEvent::Snapped { from, to } ==> {
            &&& (from == SnapOutcome::Missing || to == SnapOutcome::Missing) ==> r == (
                RouteState::Failed(RouteError::NoNearbyNode),
                RouteAction::AnswerError(RouteError::NoNearbyNode),
            )
            &&& from == SnapOutcome::TooFar && to != SnapOutcome::Missing ==> r == (
                RouteState::Failed(RouteError::NoNearbyNodeFrom),
                RouteAction::AnswerError(RouteError::NoNearbyNodeFrom),
            )
            &&& from == SnapOutcome::Within && to == SnapOutcome::TooFar ==> r == (
                RouteState::Failed(RouteError::NoNearbyNodeTo),
                RouteAction::AnswerError(RouteError::NoNearbyNodeTo),
            )
            &&& from == SnapOutcome::Within && to == SnapOutcome::Within ==> r == (
                RouteState::AwaitingPrimary,
                RouteAction::RunQuery(QueryPlan::Default),
            )
        }),
        state == RouteState::AwaitingPrimary ==> (event matches RouteEvent::Queried {
            distance_finite,
        } ==> r == (if distance_finite {
            (RouteState::Done(Algorithm::ChWasm), RouteAction::AnswerRoute(Algorithm::ChWasm))
        } else {
            (
                RouteState::AwaitingFallback,
                RouteAction::RunQuery(
                    QueryPlan::Limits(
                        QueryLimits {
                            settled_cap: 300_000,
                            pops_cap: 800_000,
                            time_budget_ms: 10_000,
                            no_level_constraint: true,
                        },
                    ),
                ),
            )
        })),
        state == RouteState::AwaitingFallback ==> (event matches RouteEvent::Queried {
            distance_finite,
        } ==> r == (if distance_finite {
            (
                RouteState::Done(Algorithm::CsrWasmDijkstra),
                RouteAction::AnswerRoute(Algorithm::CsrWasmDijkstra),
            )
        } else {
            (
                RouteState::Failed(RouteError::UnreachableInCorridor),
                RouteAction::AnswerError(RouteError::UnreachableInCorridor),
            )
        })),
        r.1 is AnswerRoute ==> (state == RouteState::AwaitingPrimary || state
            == RouteState::AwaitingFallback) && event == (RouteEvent::Queried {
            distance_finite: true,
        }),
        !event_fits(state, event) ==> r == (state, RouteAction::Nothing),
{
    match (state, event) {
        (RouteState::AwaitingInputs, RouteEvent::InputsChecked { max_snap_ok, coords_ok }) => {
            if !max_snap_ok {
                (
                    RouteState::Failed(RouteError::InvalidMaxSnapMeters),
                    RouteAction::AnswerError(RouteError::InvalidMaxSnapMeters),
                )
            } else if !coords_ok {
                (
                    RouteState::Failed(RouteError::InvalidCoords),
                    RouteAction::AnswerError(RouteError::InvalidCoords),
                )
            } else {
                (RouteState::AwaitingBuffers, RouteAction::ReadBuffers)
            }
        },
        (RouteState::AwaitingBuffers, RouteEvent::BuffersChecked { all_byte_arrays }) => {
            if all_byte_arrays {
                (RouteState::AwaitingSnaps, RouteAction::BuildAndSnap)
            } else {
                (
                    RouteState::Failed(RouteError::InvalidBufferElement),
                    RouteAction::AnswerError(RouteError::InvalidBufferElement),
                )
            }
        },
        (RouteState::AwaitingSnaps, RouteEvent::Snapped { from, to }) => {
            let from_missing = matches!(from, SnapOutcome::Missing);
            let to_missing = matches!(to, SnapOutcome::Missing);
            if from_missing || to_missing {
                (
                    RouteState::Failed(RouteError::NoNearbyNode),
                    RouteAction::AnswerError(RouteError::NoNearbyNode),
                )
            } else if matches!(from, SnapOutcome::TooFar) {
                (
                    RouteState::Failed(RouteError::NoNearbyNodeFrom),
                    RouteAction::AnswerError(RouteError::NoNearbyNodeFrom),
                )
            } else if matches!(to, SnapOutcome::TooFar) {
                (
                    RouteState::Failed(RouteError::NoNearbyNodeTo),
                    RouteAction::AnswerError(RouteError::NoNearbyNodeTo),
                )
            } else {
                (RouteState::AwaitingPrimary, RouteAction::RunQuery(QueryPlan::Default))
            }
        },
        (RouteState::AwaitingPrimary, RouteEvent::Queried { distance_finite }) => {
            if distance_finite {
                (RouteState::Done(Algorithm::ChWasm), RouteAction::AnswerRoute(Algorithm::ChWasm))
            } else {
                (
                    RouteState::AwaitingFallback,
                    RouteAction::RunQuery(QueryPlan::Limits(fallback_limits())),
                )
            }
        },
        (RouteState::AwaitingFallback, RouteEvent::Queried { distance_finite }) => {
            if distance_finite {
                (
                    RouteState::Done(Algorithm::CsrWasmDijkstra),
                    RouteAction::AnswerRoute(Algorithm::CsrWasmDijkstra),
                )
            } else {
                (
                    RouteState::Failed(RouteError::UnreachableInCorridor),
                    RouteAction::AnswerError(RouteError::UnreachableInCorridor),
                )
            }
        },
        _ => (state, RouteAction::Nothing),
    }
}

/// How far a request has come: each awaited observation moves it on.
pub open spec fn phase_rank(s: RouteState) -> nat {
    match s {
        RouteState::AwaitingInputs => 0,
        RouteState::AwaitingBuffers => 1,
        RouteState::AwaitingSnaps => 2,
        RouteState::AwaitingPrimary => 3,
        RouteState::AwaitingFallback => 4,
        RouteState::Done(_) => 5,
        RouteState::Failed(_) => 5,
    }
}

/// An answered request stays answered: whatever is observed afterwards
/// changes nothing and asks for nothing.
pub proof fn lemma_answered_request_stays_answered(s: RouteState, e: RouteEvent)
    requires
        is_terminal(s),
    ensures
        spec_route_step(s, e) == (s, RouteAction::Nothing),
{
}

/// Each awaited observation moves a pending request strictly forward and asks
/// for something to be done; so a request is answered after at most five
/// observations, and an answered request has an answer action.
pub proof fn lemma_awaited_event_moves_forward(s: RouteState, e: RouteEvent)
    requires
        event_fits(s, e),
    ensures
        phase_rank(spec_route_step(s, e).0) > phase_rank(s),
        spec_route_step(s, e).1 != RouteAction::Nothing,
        is_terminal(spec_route_step(s, e).0) <==> (spec_route_step(s, e).1 is AnswerRoute
            || spec_route_step(s, e).1 is AnswerError),
        spec_route_step(s, e).1 matches RouteAction::AnswerError(err) ==> spec_route_step(s, e).0
            == RouteState::Failed(err),
        spec_route_step(s, e).1 matches RouteAction::AnswerRoute(a) ==> spec_route_step(s, e).0
            == RouteState::Done(a),
{
}

/// The fallback search runs only when the hierarchy query found no finite
/// distance, and then with the fallback limits; the hierarchy query runs
/// only once both endpoints snapped within the radius.
pub proof fn lemma_queries_run_only_after_their_trigger(s: RouteState, e: RouteEvent)
    ensures
        spec_route_step(s, e).1 matches RouteAction::RunQuery(plan) ==> match plan {
            QueryPlan::Limits(l) => {
                &&& s == RouteState::AwaitingPrimary
                &&& e == (RouteEvent::Queried { distance_finite: false })
                &&& l == spec_fallback_limits()
            },
            QueryPlan::Default => {
                &&& s == RouteState::AwaitingSnaps
                &&& e == (RouteEvent::Snapped { from: SnapOutcome::Within, to: SnapOutcome::Within })
            },
        },
{
}

/// An invalid snap radius is answered `invalid_max_snap_meters`, whatever
/// the coordinates; invalid coordinates with a valid radius are answered
/// `invalid_coords`; only valid inputs go on to read the buffers.
pub proof fn lemma_inputs_are_checked_radius_first(max_snap_ok: bool, coords_ok: bool)
    ensures
        !max_snap_ok ==> spec_route_step(
            RouteState::AwaitingInputs,
            RouteEvent::InputsChecked { max_snap_ok, coords_ok },
        ) == (
            RouteState::Failed(RouteError::InvalidMaxSnapMeters),
            RouteAction::AnswerError(RouteError::InvalidMaxSnapMeters),
        ),
        max_snap_ok && !coords_ok ==> spec_route_step(
            RouteState::AwaitingInputs,
            RouteEvent::InputsChecked { max_snap_ok, coords_ok },
        ) == (
            RouteState::Failed(RouteError::InvalidCoords),
            RouteAction::AnswerError(RouteError::InvalidCoords),
        ),
        spec_route_step(
            RouteState::AwaitingInputs,
            RouteEvent::InputsChecked { max_snap_ok, coords_ok },
        ).0 == RouteState::AwaitingBuffers <==> max_snap_ok && coords_ok,
{
}

/// An endpoint that finds no node is answered `no_nearby_node`, whatever the
/// other endpoint did; the hierarchy query runs only when both snapped within
/// the radius.
pub proof fn lemma_missing_snap_is_no_nearby_node(from: SnapOutcome, to: SnapOutcome)
    ensures
        from == SnapOutcome::Missing || to == SnapOutcome::Missing ==> spec_route_step(
            RouteState::AwaitingSnaps,
            RouteEvent::Snapped { from, to },
        ) == (
            RouteState::Failed(RouteError::NoNearbyNode),
            RouteAction::AnswerError(RouteError::NoNearbyNode),
        ),
        spec_route_step(RouteState::AwaitingSnaps, RouteEvent::Snapped { from, to }).0
            == RouteState::AwaitingPrimary <==> from == SnapOutcome::Within && to
            == SnapOutcome::Within,
{
}

/// A route is answered only after a query found a finite distance: from the
/// hierarchy query, or from the fallback that follows its miss.
pub proof fn lemma_route_answered_only_after_a_finite_query(s: RouteState, e: RouteEvent)
    ensures
        spec_route_step(s, e).1 is AnswerRoute ==> (s == RouteState::AwaitingPrimary || s
            == RouteState::AwaitingFallback) && e == (RouteEvent::Queried {
            distance_finite: true,
        }),
        spec_route_step(s, e).0 is Done && !(s is Done) ==> (s == RouteState::AwaitingPrimary || s
            == RouteState::AwaitingFallback) && e == (RouteEvent::Queried {
            distance_finite: true,
        }),
{
}

/// The nodes of `path` whose coordinates are usable (`has_coords[node]`),
/// in path order.
pub open spec fn kept_points(path: Seq<u32>, has_coords: Seq<bool>) -> Seq<u32>
    decreases path.len(),
{
    if path.len() == 0 {
        seq![]
    } else {
        let rest = kept_points(path.drop_last(), has_coords);
        if has_coords[path.last() as int] {
            rest.push(path.last())
        } else {
            rest
        }
    }
}

/// The drawn points are exactly the path's nodes that have coordinates, in
/// path order, with no cap on their number.
pub proof fn lemma_kept_points_are_the_filter(path: Seq<u32>, has_coords: Seq<bool>)
    ensures
        kept_points(path, has_coords) == path.filter(|n: u32| has_coords[n as int]),
    decreases path.len(),
{
    reveal(Seq::filter);
    if path.len() > 0 {
        lemma_kept_points_are_the_filter(path.drop_last(), has_coords);
    }
}

/// When every node of the path has coordinates, every node is drawn.
pub proof fn lemma_all_drawn_when_all_have_coords(path: Seq<u32>, has_coords: Seq<bool>)
    requires
        forall|k: int| 0 <= k < path.len() ==> has_coords[#[trigger] path[k] as int],
    ensures
        kept_points(path, has_coords) == path,
        kept_points(path, has_coords).len() == path.len(),
    decreases path.len(),
{
    if path.len() > 0 {
        let front = path.drop_last();
        assert forall|k: int| 0 <= k < front.len() implies has_coords[#[trigger] front[k] as int] by {
            assert(front[k] == path[k]);
        }
        lemma_all_drawn_when_all_have_coords(front, has_coords);
        assert(has_coords[path[path.len() - 1] as int]);
        assert(front.push(path.last()) =~= path);
    }
}

/// The points of an expanded route path that are drawn: the path's nodes in
/// order, without those whose coordinates are missing. Its length is the
/// point count reported with the route.
pub fn route_points(path: &Vec<u32>, has_coords: &Vec<bool>) -> (r: Vec<u32>)
    requires
        forall|k: int| 0 <= k < path@.len() ==> (#[trigger] path@[k]) < has_coords@.len(),
    ensures
        r@ == kept_points(path@, has_coords@),
        r@ == path@.filter(|n: u32| has_coords@[n as int]),
        (forall|k: int| 0 <= k < path@.len() ==> has_coords@[#[trigger] path@[k] as int]) ==> r@
            == path@,
{
    proof {
        lemma_kept_points_are_the_filter(path@, has_coords@);
        if forall|k: int| 0 <= k < path@.len() ==> has_coords@[#[trigger] path@[k] as int] {
            lemma_all_drawn_when_all_have_coords(path@, has_coords@);
        }
    }
    let mut out: Vec<u32> = Vec::new();
    let mut k: usize = 0;
    while k < path.len()
        invariant
            k <= path@.len(),
            forall|j: int| 0 <= j < path@.len() ==> (#[trigger] path@[j]) < has_coords@.len(),
            out@ == kept_points(path@.take(k as int), has_coords@),
        decreases path@.len() - k,
    {
        let node = path[k];
        assert(path@.take(k + 1).drop_last() =~= path@.take(k as int));
        if has_coords[node as usize] {
            out.push(node);
        }
        k = k + 1;
    }
    assert(path@.take(path@.len() as int) =~= path@);
    out
}

} // verus!
