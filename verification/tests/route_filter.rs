use router_core::route_filter::{min_key, route_shape, segment_schedule, RouteShape, SegmentStep};

/// The ordering key of a non-negative squared distance, as a caller builds it.
fn key_of(d2: f64) -> Option<u64> {
    if d2.is_finite() {
        Some(d2.to_bits())
    } else {
        None
    }
}

#[test]
fn empty_shops_returns_empty() {
    let route = vec![135.0, 34.0, 135.001, 34.0];
    let shops: Vec<f64> = vec![];
    assert_eq!(route_shape(route.len(), shops.len()), RouteShape::NoShops);
}

#[test]
fn empty_route_returns_inf_per_shop() {
    let route: Vec<f64> = vec![];
    let shops = vec![135.0, 34.0, 135.001, 34.0];
    assert_eq!(route_shape(route.len(), shops.len()), RouteShape::NoRoute { shops: 2 });
}

#[test]
fn odd_shop_list_returns_empty() {
    assert_eq!(route_shape(4, 3), RouteShape::NoShops);
    assert_eq!(route_shape(4, 1), RouteShape::NoShops);
}

#[test]
fn single_vertex_or_odd_route_is_no_route() {
    assert_eq!(route_shape(2, 6), RouteShape::NoRoute { shops: 3 });
    assert_eq!(route_shape(5, 6), RouteShape::NoRoute { shops: 3 });
}

#[test]
fn well_formed_inputs_count_vertices_and_shops() {
    assert_eq!(route_shape(6, 2), RouteShape::Route { vertices: 3, shops: 1 });
    assert_eq!(route_shape(4, 6), RouteShape::Route { vertices: 2, shops: 3 });
}

#[test]
fn schedule_of_tiny_polylines_is_empty() {
    assert!(segment_schedule(0).is_empty());
    assert!(segment_schedule(1).is_empty());
}

#[test]
fn schedule_with_odd_segment_count_ends_with_single() {
    // 4 vertices = 3 segments: one pair, then the last segment alone.
    assert_eq!(segment_schedule(4), vec![SegmentStep::Pair(1), SegmentStep::Single(3)]);
    assert_eq!(segment_schedule(2), vec![SegmentStep::Single(1)]);
}

#[test]
fn schedule_with_even_segment_count_is_all_pairs() {
    assert_eq!(
        segment_schedule(5),
        vec![SegmentStep::Pair(1), SegmentStep::Pair(3)]
    );
}

#[test]
fn schedule_visits_every_segment_once_in_order() {
    for n in 0..=17usize {
        let mut seen: Vec<usize> = Vec::new();
        for step in segment_schedule(n) {
            match step {
                SegmentStep::Pair(i) => {
                    seen.push(i);
                    seen.push(i + 1);
                }
                SegmentStep::Single(i) => seen.push(i),
            }
        }
        let expected: Vec<usize> = (1..n.max(1)).collect();
        assert_eq!(seen, expected, "n={}", n);
    }
}

#[test]
fn min_key_of_nothing_is_none() {
    assert_eq!(min_key(&vec![]), None);
    assert_eq!(min_key(&vec![None, None]), None);
}

#[test]
fn min_key_picks_the_least_present_key() {
    let keys = vec![Some(7u64), None, Some(3), Some(9), Some(3)];
    assert_eq!(min_key(&keys), Some(3));
}

#[test]
fn min_key_orders_squared_distances_like_the_distances() {
    let d2 = [12_321.0f64, 0.25, f64::NAN, 1.0e9, f64::INFINITY, 0.0];
    let keys: Vec<Option<u64>> = d2.iter().map(|d| key_of(*d)).collect();
    let m = min_key(&keys).map(f64::from_bits);
    assert_eq!(m, Some(0.0));
    let keys2: Vec<Option<u64>> = d2[..4].iter().map(|d| key_of(*d)).collect();
    assert_eq!(min_key(&keys2).map(f64::from_bits), Some(0.25));
}
