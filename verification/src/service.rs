//! The service orchestrator: the behavioral core of the four call shapes —
//! exact lookup, range scan, route recording, and location-keyed chat. The
//! transport that delivers requests and drains response streams sits outside
//! this crate and hands plain values in and out.

use vstd::prelude::*;

use crate::catalog::{feature_matches, has_feature_at, scan_spec, Catalog, Feature};
use crate::geo::{Point, Rectangle};
use crate::hub::{notes_at, NoteHub, RouteNote};
use crate::route::{initial_recorder, record_run, summary_of, RouteRecorder, RouteSummary};

verus! {

/// Why a chat session ends in an error instead of a replay.
#[derive(Clone, Copy, PartialEq, Eq, Structural, Debug)]
pub enum NoteError {
    /// The inbound note carried no location, so there is no list to append
    /// it to: a terminal error for the session.
    MissingLocation,
}

/// The service state shared by all concurrent calls: the immutable feature
/// catalog and the mutable note hub. The catalog may be read without
/// synchronization; every hub access goes through `route_chat`, which the
/// caller must serialize (one exclusive borrow at a time).
pub struct RouteGuide {
    pub catalog: Catalog,
    pub hub: NoteHub,
}

impl RouteGuide {
    /// Builds the service around the feature records a provider supplied at
    /// startup; the hub starts empty.
    pub fn new(features: Vec<Feature>) -> (r: RouteGuide)
        ensures
            r.catalog@ == features@,
            r.hub@ == Map::<Point, Seq<RouteNote>>::empty(),
    {
        RouteGuide { catalog: Catalog::new(features), hub: NoteHub::new() }
    }

    /// The unary call: returns the first cataloged feature located exactly
    /// at `point`, or the empty sentinel (empty name, no location) when no
    /// feature matches — a defined not-found value, not an error.
    pub fn get_feature(&self, point: &Point) -> (r: Feature)
        ensures
            has_feature_at(self.catalog@, *point) ==> exists|i: int|
                0 <= i < self.catalog@.len() && feature_matches(self.catalog@[i], *point) && r
                    == self.catalog@[i] && (forall|j: int|
                    0 <= j < i ==> !feature_matches(self.catalog@[j], *point)),
            !has_feature_at(self.catalog@, *point) ==> r.name@ == Seq::<char>::empty()
                && r.location is None,
    {
        self.catalog.lookup_exact(point)
    }

    /// The server-streaming call: the features inside the normalized
    /// bounding box of `rect`, in catalog order. The caller emits each
    /// element as one message on the response stream and then closes it.
    pub fn list_features(&self, rect: &Rectangle) -> (r: Vec<Feature>)
        ensures
            r@ == scan_spec(self.catalog@, *rect),
    {
        self.catalog.scan_range(rect)
    }

    /// The client-streaming call over a fully received session: the points
    /// in arrival order, with `dists[i]` the distance between
    /// `points[i - 1]` and `points[i]` as the caller computed it
    /// (`dists[0]` is never used), and the elapsed wall-clock time the
    /// caller measured. Emits the one summary of the session. A caller
    /// whose inbound stream fails mid-session propagates that error
    /// instead and never calls this.
    pub fn record_route(&self, points: &Vec<Point>, dists: &Vec<i32>, elapsed_time: i32) -> (r:
        RouteSummary)
        requires
            dists@.len() == points@.len(),
        ensures
            r == summary_of(
                record_run(initial_recorder(), self.catalog@, points@, dists@),
                elapsed_time,
            ),
    {
        let mut rec = RouteRecorder::new();
        let mut i: usize = 0;
        proof {
            assert(points@.skip(0) =~= points@);
            assert(dists@.skip(0) =~= dists@);
        }
        while i < points.len()
            invariant
                i <= points.len(),
                dists@.len() == points@.len(),
                record_run(initial_recorder(), self.catalog@, points@, dists@) == record_run(
                    rec,
                    self.catalog@,
                    points@.skip(i as int),
                    dists@.skip(i as int),
                ),
            decreases points.len() - i,
        {
            proof {
                assert(points@.skip(i as int)[0] == points@[i as int]);
                assert(points@.skip(i as int).skip(1) =~= points@.skip(i as int + 1));
                assert(dists@.skip(i as int).skip(1) =~= dists@.skip(i as int + 1));
            }
            rec.on_point(&self.catalog, points[i], dists[i]);
            i += 1;
        }
        proof {
            assert(points@.skip(points@.len() as int) =~= Seq::<Point>::empty());
        }
        rec.finish(elapsed_time)
    }

    /// One inbound note of the bidirectional chat call. A note without a
    /// location ends the session with an error and leaves the hub
    /// untouched. Otherwise the note is appended to its location's list and
    /// the full updated list comes back: the caller emits each element, in
    /// order, as a separate outbound message before taking the next inbound
    /// note. The append and the replay are one step: the caller holds the
    /// service exclusively for the duration of the call.
    pub fn route_chat(&mut self, note: RouteNote) -> (r: Result<Vec<RouteNote>, NoteError>)
        ensures
            final(self).catalog@ == old(self).catalog@,
            match note.location {
                Some(loc) => {
                    &&& final(self).hub@ == old(self).hub@.insert(
                        loc,
                        notes_at(old(self).hub@, loc).push(note),
                    )
                    &&& (r matches Ok(replay) && replay@ == notes_at(old(self).hub@, loc).push(
                        note,
                    ))
                },
                None => {
                    &&& final(self).hub@ == old(self).hub@
                    &&& r == Result::<Vec<RouteNote>, NoteError>::Err(NoteError::MissingLocation)
                },
            },
    {
        match note.location {
            Some(location) => Ok(self.hub.record_and_replay(location, note)),
            None => Err(NoteError::MissingLocation),
        }
    }
}

} // verus!
