# router_core

Verified core of a cycling router: how route/shop distance inputs are read,
the two-lane segment scan and its coverage, the nearest-node pick of a snap,
and the decisions of a route request (validation order, hierarchy query,
fallback, error answers).

- `src/` — the Verus library (`route_filter`, `snap`, `route`).
- `app/` — ordinary Rust around it: the floating-point geometry
  (projection, segment and haversine distances), the route request driver
  and its JavaScript answer objects.
- `tests/` — tests of the library.
