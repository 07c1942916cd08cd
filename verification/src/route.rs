//! Per-session aggregation of a route-recording call: point count, feature
//! matches, and accumulated distance over the inbound point stream.

use vstd::prelude::*;

use crate::catalog::{has_feature_at, Catalog, Feature};
use crate::geo::Point;

verus! {

/// Aggregated result of one route-recording session.
#[derive(Clone, Copy, PartialEq, Eq, Structural, Debug)]
pub struct RouteSummary {
    pub point_count: i32,
    pub feature_count: i32,
    pub distance: i32,
    pub elapsed_time: i32,
}

/// The running state of one route-recording session. Each session owns its
/// recorder; no state is shared across sessions.
#[derive(Clone, Copy, Debug)]
pub struct RouteRecorder {
    pub point_count: i32,
    pub feature_count: i32,
    pub distance: i32,
    pub last_point: Option<Point>,
}

/// The state a route-recording session starts from.
pub open spec fn initial_recorder() -> RouteRecorder {
    RouteRecorder { point_count: 0, feature_count: 0, distance: 0, last_point: None }
}

/// One step of the aggregation: count the point, count it again as a
/// feature match when some cataloged feature sits exactly at it, and — from
/// the second point of the session on — add the distance from the previous
/// point. The counters and the distance wrap on two's-complement overflow.
pub open spec fn record_step(
    r: RouteRecorder,
    catalog: Seq<Feature>,
    point: Point,
    dist_from_prev: i32,
) -> RouteRecorder {
    RouteRecorder {
        point_count: vstd::wrapping::i32_specs::wrapping_add(r.point_count, 1),
        feature_count: if has_feature_at(catalog, point) {
            vstd::wrapping::i32_specs::wrapping_add(r.feature_count, 1)
        } else {
            r.feature_count
        },
        distance: if r.last_point is Some {
            vstd::wrapping::i32_specs::wrapping_add(r.distance, dist_from_prev)
        } else {
            r.distance
        },
        last_point: Some(point),
    }
}

/// The recorder state after a whole session: the points in arrival order,
/// with `dists[i]` the distance between `points[i - 1]` and `points[i]`
/// (`dists[0]` is never used).
pub open spec fn record_run(
    r: RouteRecorder,
    catalog: Seq<Feature>,
    points: Seq<Point>,
    dists: Seq<i32>,
) -> RouteRecorder
    decreases points.len(),
{
    if points.len() == 0 {
        r
    } else {
        record_run(
            record_step(r, catalog, points[0], dists[0]),
            catalog,
            points.skip(1),
            dists.skip(1),
        )
    }
}

/// The summary a session emits when its inbound stream ends.
pub open spec fn summary_of(r: RouteRecorder, elapsed_time: i32) -> RouteSummary {
    RouteSummary {
        point_count: r.point_count,
        feature_count: r.feature_count,
        distance: r.distance,
        elapsed_time,
    }
}

/// The point count of a finished session equals the number of inbound
/// points, whatever the catalog and the distances were — as long as the
/// session stays below the counter's capacity, where the count would wrap.
pub proof fn lemma_run_point_count(
    r: RouteRecorder,
    catalog: Seq<Feature>,
    points: Seq<Point>,
    dists: Seq<i32>,
)
    requires
        0 <= r.point_count,
        r.point_count + points.len() <= i32::MAX,
    ensures
        record_run(r, catalog, points, dists).point_count == r.point_count + points.len(),
    decreases points.len(),
{
    if points.len() > 0 {
        lemma_run_point_count(
            record_step(r, catalog, points[0], dists[0]),
            catalog,
            points.skip(1),
            dists.skip(1),
        );
    }
}

impl RouteRecorder {
    /// Starts a fresh session: no points seen, nothing accumulated.
    pub fn new() -> (r: RouteRecorder)
        ensures
            r == initial_recorder(),
    {
        RouteRecorder { point_count: 0, feature_count: 0, distance: 0, last_point: None }
    }

    /// Folds the next inbound point into the session, with
    /// `dist_from_prev` the distance from the previously seen point (its
    /// value is ignored for the first point of the session).
    pub fn on_point(&mut self, catalog: &Catalog, point: Point, dist_from_prev: i32)
        ensures
            *final(self) == record_step(*old(self), catalog@, point, dist_from_prev),
    {
        let matched = catalog.has_feature_at_point(&point);
        self.point_count = self.point_count.wrapping_add(1);
        if matched {
            self.feature_count = self.feature_count.wrapping_add(1);
        }
        if self.last_point.is_some() {
            self.distance = self.distance.wrapping_add(dist_from_prev);
        }
        self.last_point = Some(point);
    }

    /// Finalizes the session into the summary that is emitted once,
    /// stamped with the elapsed wall-clock time the caller measured.
    pub fn finish(&self, elapsed_time: i32) -> (r: RouteSummary)
        ensures
            r == summary_of(*self, elapsed_time),
    {
        RouteSummary {
            point_count: self.point_count,
            feature_count: self.feature_count,
            distance: self.distance,
            elapsed_time,
        }
    }
}

} // verus!
