//! The immutable feature catalog: named features with optional locations,
//! loaded once and scanned read-only by every call.

use vstd::prelude::*;

use crate::geo::{in_range, in_range_spec, Point, Rectangle};

verus! {

/// A named geographic feature. An empty name together with an absent
/// location is the defined not-found sentinel, not an error.
#[derive(Debug)]
pub struct Feature {
    pub name: String,
    pub location: Option<Point>,
}

impl Clone for Feature {
    fn clone(&self) -> (r: Self)
        ensures
            r == *self,
    {
        Feature { name: self.name.clone(), location: self.location }
    }
}

/// Whether feature `f` sits exactly at point `p`.
pub open spec fn feature_matches(f: Feature, p: Point) -> bool {
    f.location == Some(p)
}

/// Whether some feature of `s` sits exactly at point `p`.
pub open spec fn has_feature_at(s: Seq<Feature>, p: Point) -> bool {
    exists|i: int| 0 <= i < s.len() && feature_matches(s[i], p)
}

/// Whether feature `f` has a location and that location lies inside the
/// normalized bounding box of `rect`.
pub open spec fn scan_matches(f: Feature, rect: Rectangle) -> bool {
    match f.location {
        Some(p) => in_range_spec(p, rect),
        None => false,
    }
}

/// The subsequence of `s`, in catalog order, whose features lie inside the
/// normalized bounding box of `rect`; features without a location are
/// skipped.
pub open spec fn scan_spec(s: Seq<Feature>, rect: Rectangle) -> Seq<Feature>
    decreases s.len(),
{
    if s.len() == 0 {
        Seq::empty()
    } else if scan_matches(s.last(), rect) {
        scan_spec(s.drop_last(), rect).push(s.last())
    } else {
        scan_spec(s.drop_last(), rect)
    }
}

/// The range scan yields matching features and nothing else: every feature
/// of the result lies inside the box, and every feature of the catalog that
/// lies inside the box is in the result.
pub proof fn lemma_scan_spec_exact(s: Seq<Feature>, rect: Rectangle)
    ensures
        forall|j: int|
            0 <= j < scan_spec(s, rect).len() ==> scan_matches(scan_spec(s, rect)[j], rect),
        forall|i: int| 0 <= i < s.len() && scan_matches(s[i], rect) ==> scan_spec(s, rect).contains(
            s[i],
        ),
    decreases s.len(),
{
    if s.len() > 0 {
        lemma_scan_spec_exact(s.drop_last(), rect);
        let prev = scan_spec(s.drop_last(), rect);
        assert forall|i: int| 0 <= i < s.len() && scan_matches(s[i], rect) implies scan_spec(
            s,
            rect,
        ).contains(s[i]) by {
            if i < s.len() - 1 {
                assert(s.drop_last()[i] == s[i]);
                assert(prev.contains(s[i]));
                let k = choose|k: int| 0 <= k < prev.len() && prev[k] == s[i];
                assert(scan_spec(s, rect)[k] == s[i]);
            } else {
                assert(scan_spec(s, rect).last() == s.last());
            }
        }
    }
}

/// The immutable catalog of features, shared read-only across all
/// concurrent calls for the lifetime of the process.
pub struct Catalog {
    features: Vec<Feature>,
}

impl View for Catalog {
    type V = Seq<Feature>;

    closed spec fn view(&self) -> Seq<Feature> {
        self.features@
    }
}

impl Catalog {
    /// Builds the catalog from the ordered feature records a provider
    /// supplied at startup.
    pub fn new(features: Vec<Feature>) -> (r: Catalog)
        ensures
            r@ == features@,
    {
        Catalog { features }
    }

    /// Returns the first feature located exactly at `point`, or the empty
    /// sentinel (empty name, no location) when no feature matches.
    pub fn lookup_exact(&self, point: &Point) -> (r: Feature)
        ensures
            has_feature_at(self@, *point) ==> exists|i: int|
                0 <= i < self@.len() && feature_matches(self@[i], *point) && r == self@[i]
                    && (forall|j: int| 0 <= j < i ==> !feature_matches(self@[j], *point)),
            !has_feature_at(self@, *point) ==> r.name@ == Seq::<char>::empty() && r.location
                is None,
    {
        let mut i: usize = 0;
        while i < self.features.len()
            invariant
                i <= self.features.len(),
                forall|j: int| 0 <= j < i ==> !feature_matches(self.features@[j], *point),
            decreases self.features.len() - i,
        {
            let f = &self.features[i];
            let matched = match f.location {
                Some(q) => q.latitude == point.latitude && q.longitude == point.longitude,
                None => false,
            };
            if matched {
                let r = f.clone();
                proof {
                    assert(feature_matches(self.features@[i as int], *point));
                }
                return r;
            }
            i += 1;
        }
        Feature { name: String::new(), location: None }
    }

    /// Whether any feature of the catalog is located exactly at `point`.
    pub fn has_feature_at_point(&self, point: &Point) -> (r: bool)
        ensures
            r == has_feature_at(self@, *point),
    {
        let mut i: usize = 0;
        while i < self.features.len()
            invariant
                i <= self.features.len(),
                forall|j: int| 0 <= j < i ==> !feature_matches(self.features@[j], *point),
            decreases self.features.len() - i,
        {
            let f = &self.features[i];
            let matched = match f.location {
                Some(q) => q.latitude == point.latitude && q.longitude == point.longitude,
                None => false,
            };
            if matched {
                proof {
                    assert(feature_matches(self.features@[i as int], *point));
                }
                return true;
            }
            i += 1;
        }
        false
    }

    /// Returns, in catalog order, every feature whose location lies inside
    /// the normalized bounding box of `rect`; features without a location
    /// are skipped.
    pub fn scan_range(&self, rect: &Rectangle) -> (r: Vec<Feature>)
        ensures
            r@ == scan_spec(self@, *rect),
    {
        let mut out: Vec<Feature> = Vec::new();
        let mut i: usize = 0;
        while i < self.features.len()
            invariant
                i <= self.features.len(),
                out@ == scan_spec(self.features@.subrange(0, i as int), *rect),
            decreases self.features.len() - i,
        {
            let f = &self.features[i];
            let matched = match f.location {
                Some(q) => in_range(&q, rect),
                None => false,
            };
            if matched {
                out.push(f.clone());
            }
            proof {
                let pre = self.features@.subrange(0, i as int);
                let ext = self.features@.subrange(0, i as int + 1);
                assert(ext.drop_last() =~= pre);
                assert(ext.last() == self.features@[i as int]);
            }
            i += 1;
        }
        proof {
            assert(self.features@.subrange(0, self.features@.len() as int) =~= self.features@);
        }
        out
    }
}

} // verus!
