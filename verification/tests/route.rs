use router_core::route::{
    fallback_limits, route_points, route_step, Algorithm, QueryLimits, QueryPlan, RouteAction, RouteError,
    RouteEvent, RouteState, SnapOutcome,
};

fn inputs(max_snap_ok: bool, coords_ok: bool) -> RouteEvent {
    RouteEvent::InputsChecked { max_snap_ok, coords_ok }
}

#[test]
fn error_codes_are_the_answer_strings() {
    assert_eq!(RouteError::InvalidMaxSnapMeters.code(), "invalid_max_snap_meters");
    assert_eq!(RouteError::InvalidCoords.code(), "invalid_coords");
    assert_eq!(RouteError::InvalidBufferElement.code(), "invalid_buffer_element");
    assert_eq!(RouteError::NoNearbyNode.code(), "no_nearby_node");
    assert_eq!(RouteError::NoNearbyNodeFrom.code(), "no_nearby_node_from");
    assert_eq!(RouteError::NoNearbyNodeTo.code(), "no_nearby_node_to");
    assert_eq!(RouteError::UnreachableInCorridor.code(), "unreachable_in_corridor");
}

#[test]
fn algorithm_labels() {
    assert_eq!(Algorithm::ChWasm.label(), "ch-wasm");
    assert_eq!(Algorithm::CsrWasmDijkstra.label(), "csr-wasm-dijkstra");
}

#[test]
fn fallback_limits_values() {
    assert_eq!(
        fallback_limits(),
        QueryLimits {
            settled_cap: 300_000,
            pops_cap: 800_000,
            time_budget_ms: 10_000,
            no_level_constraint: true
        }
    );
}

#[test]
fn invalid_snap_radius_is_reported_before_coords() {
    let (s, a) = route_step(RouteState::AwaitingInputs, inputs(false, false));
    assert_eq!(s, RouteState::Failed(RouteError::InvalidMaxSnapMeters));
    assert_eq!(a, RouteAction::AnswerError(RouteError::InvalidMaxSnapMeters));
    let (s, a) = route_step(RouteState::AwaitingInputs, inputs(true, false));
    assert_eq!(s, RouteState::Failed(RouteError::InvalidCoords));
    assert_eq!(a, RouteAction::AnswerError(RouteError::InvalidCoords));
}

#[test]
fn bad_buffer_is_reported() {
    let (s, a) = route_step(
        RouteState::AwaitingBuffers,
        RouteEvent::BuffersChecked { all_byte_arrays: false },
    );
    assert_eq!(s, RouteState::Failed(RouteError::InvalidBufferElement));
    assert_eq!(a, RouteAction::AnswerError(RouteError::InvalidBufferElement));
}

#[test]
fn snap_failures_in_order() {
    let snapped = |from, to| route_step(RouteState::AwaitingSnaps, RouteEvent::Snapped { from, to });
    assert_eq!(
        snapped(SnapOutcome::TooFar, SnapOutcome::Missing).0,
        RouteState::Failed(RouteError::NoNearbyNode)
    );
    assert_eq!(
        snapped(SnapOutcome::TooFar, SnapOutcome::TooFar).0,
        RouteState::Failed(RouteError::NoNearbyNodeFrom)
    );
    assert_eq!(
        snapped(SnapOutcome::Within, SnapOutcome::TooFar).0,
        RouteState::Failed(RouteError::NoNearbyNodeTo)
    );
    assert_eq!(
        snapped(SnapOutcome::Within, SnapOutcome::Within),
        (RouteState::AwaitingPrimary, RouteAction::RunQuery(QueryPlan::Default))
    );
}

#[test]
fn hierarchy_hit_answers_without_fallback() {
    let mut s = RouteState::AwaitingInputs;
    let events = [
        inputs(true, true),
        RouteEvent::BuffersChecked { all_byte_arrays: true },
        RouteEvent::Snapped { from: SnapOutcome::Within, to: SnapOutcome::Within },
        RouteEvent::Queried { distance_finite: true },
    ];
    let mut actions = Vec::new();
    for e in events {
        let (n, a) = route_step(s, e);
        s = n;
        actions.push(a);
    }
    assert_eq!(s, RouteState::Done(Algorithm::ChWasm));
    assert_eq!(
        actions,
        vec![
            RouteAction::ReadBuffers,
            RouteAction::BuildAndSnap,
            RouteAction::RunQuery(QueryPlan::Default),
            RouteAction::AnswerRoute(Algorithm::ChWasm)
        ]
    );
}

#[test]
fn hierarchy_miss_runs_fallback_once() {
    let (s, a) = route_step(RouteState::AwaitingPrimary, RouteEvent::Queried { distance_finite: false });
    assert_eq!(s, RouteState::AwaitingFallback);
    assert_eq!(a, RouteAction::RunQuery(QueryPlan::Limits(fallback_limits())));
    let (s2, a2) = route_step(s, RouteEvent::Queried { distance_finite: true });
    assert_eq!(s2, RouteState::Done(Algorithm::CsrWasmDijkstra));
    assert_eq!(a2, RouteAction::AnswerRoute(Algorithm::CsrWasmDijkstra));
    let (s3, a3) = route_step(s, RouteEvent::Queried { distance_finite: false });
    assert_eq!(s3, RouteState::Failed(RouteError::UnreachableInCorridor));
    assert_eq!(a3, RouteAction::AnswerError(RouteError::UnreachableInCorridor));
}

#[test]
fn answered_request_ignores_later_events() {
    let done = RouteState::Done(Algorithm::ChWasm);
    assert_eq!(
        route_step(done, RouteEvent::Queried { distance_finite: false }),
        (done, RouteAction::Nothing)
    );
    let failed = RouteState::Failed(RouteError::InvalidCoords);
    assert_eq!(route_step(failed, inputs(true, true)), (failed, RouteAction::Nothing));
}

#[test]
fn out_of_turn_event_changes_nothing() {
    assert_eq!(
        route_step(RouteState::AwaitingInputs, RouteEvent::Queried { distance_finite: true }),
        (RouteState::AwaitingInputs, RouteAction::Nothing)
    );
}

#[test]
fn route_points_drop_nodes_without_coordinates() {
    let path = vec![0u32, 2, 1, 3, 2];
    let has = vec![true, false, true, true];
    assert_eq!(route_points(&path, &has), vec![0, 2, 3, 2]);
    assert_eq!(route_points(&vec![], &has), Vec::<u32>::new());
    assert_eq!(route_points(&vec![1, 1], &has), Vec::<u32>::new());
}
