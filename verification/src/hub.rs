//! The shared note hub: a mapping from location to the ordered list of notes
//! recorded there, with append-and-replay semantics per call.

use vstd::prelude::*;

use crate::geo::Point;

verus! {

/// A chat note: an optional location and a message payload.
#[derive(Debug)]
pub struct RouteNote {
    pub location: Option<Point>,
    pub message: String,
}

impl Clone for RouteNote {
    fn clone(&self) -> (r: Self)
        ensures
            r == *self,
    {
        RouteNote { location: self.location, message: self.message.clone() }
    }
}

struct HubEntry {
    key: Point,
    notes: Vec<RouteNote>,
}

/// The notes recorded at `loc` in the hub state `m`: the stored sequence, or
/// the empty sequence when nothing has been recorded there yet.
pub open spec fn notes_at(m: Map<Point, Seq<RouteNote>>, loc: Point) -> Seq<RouteNote> {
    if m.contains_key(loc) {
        m[loc]
    } else {
        Seq::empty()
    }
}

spec fn entries_map(s: Seq<HubEntry>) -> Map<Point, Seq<RouteNote>>
    decreases s.len(),
{
    if s.len() == 0 {
        Map::empty()
    } else {
        entries_map(s.drop_last()).insert(s.last().key, s.last().notes@)
    }
}

spec fn unique_keys(s: Seq<HubEntry>) -> bool {
    forall|i: int, j: int| 0 <= i < j < s.len() ==> s[i].key != s[j].key
}

proof fn lemma_absent_key(s: Seq<HubEntry>, p: Point)
    requires
        forall|i: int| 0 <= i < s.len() ==> s[i].key != p,
    ensures
        !entries_map(s).contains_key(p),
    decreases s.len(),
{
    if s.len() > 0 {
        lemma_absent_key(s.drop_last(), p);
    }
}

proof fn lemma_present_key(s: Seq<HubEntry>, i: int)
    requires
        unique_keys(s),
        0 <= i < s.len(),
    ensures
        entries_map(s).contains_key(s[i].key),
        entries_map(s)[s[i].key] == s[i].notes@,
    decreases s.len(),
{
    if i == s.len() - 1 {
    } else {
        assert(unique_keys(s.drop_last()));
        assert(s.drop_last()[i] == s[i]);
        lemma_present_key(s.drop_last(), i);
        assert(s.last().key != s[i].key);
    }
}

proof fn lemma_update_entry(s: Seq<HubEntry>, i: int, e: HubEntry)
    requires
        unique_keys(s),
        0 <= i < s.len(),
        e.key == s[i].key,
    ensures
        entries_map(s.update(i, e)) == entries_map(s).insert(e.key, e.notes@),
    decreases s.len(),
{
    let t = s.update(i, e);
    if i == s.len() - 1 {
        assert(t.drop_last() =~= s.drop_last());
        assert(t.last() == e);
        assert(entries_map(t) =~= entries_map(s).insert(e.key, e.notes@));
    } else {
        assert(t.drop_last() =~= s.drop_last().update(i, e));
        assert(t.last() == s.last());
        assert(unique_keys(s.drop_last()));
        assert(s.drop_last()[i] == s[i]);
        lemma_update_entry(s.drop_last(), i, e);
        assert(s.last().key != e.key);
        assert(entries_map(t) =~= entries_map(s).insert(e.key, e.notes@));
    }
}

/// The hub state after a run of appends at one location: each note of `ns`
/// is appended in turn, exactly the step `record_and_replay` makes.
pub open spec fn hub_after_appends(
    m: Map<Point, Seq<RouteNote>>,
    loc: Point,
    ns: Seq<RouteNote>,
) -> Map<Point, Seq<RouteNote>>
    decreases ns.len(),
{
    if ns.len() == 0 {
        m
    } else {
        hub_after_appends(m.insert(loc, notes_at(m, loc).push(ns[0])), loc, ns.skip(1))
    }
}

/// After any run of appends at one location, the list kept there is the
/// earlier list followed by the appended notes in append order — every
/// appended note present exactly once, none lost, the earlier notes kept at
/// their places (so a session that appended before this run still sees its
/// own note in any later replay) — and every other location is untouched.
pub proof fn lemma_appends_accumulate(m: Map<Point, Seq<RouteNote>>, loc: Point, ns: Seq<RouteNote>)
    ensures
        notes_at(hub_after_appends(m, loc, ns), loc) == notes_at(m, loc) + ns,
        forall|i: int|
            0 <= i < notes_at(m, loc).len() ==> notes_at(hub_after_appends(m, loc, ns), loc)[i]
                == notes_at(m, loc)[i],
        forall|p: Point|
            p != loc ==> notes_at(hub_after_appends(m, loc, ns), p) == notes_at(m, p),
    decreases ns.len(),
{
    if ns.len() == 0 {
        assert(notes_at(m, loc) + ns =~= notes_at(m, loc));
    } else {
        let m1 = m.insert(loc, notes_at(m, loc).push(ns[0]));
        lemma_appends_accumulate(m1, loc, ns.skip(1));
        assert(notes_at(m1, loc) == notes_at(m, loc).push(ns[0]));
        assert(notes_at(m, loc).push(ns[0]) + ns.skip(1) =~= notes_at(m, loc) + ns);
        assert forall|p: Point| p != loc implies notes_at(hub_after_appends(m, loc, ns), p)
            == notes_at(m, p) by {
            assert(notes_at(hub_after_appends(m1, loc, ns.skip(1)), p) == notes_at(m1, p));
            assert(notes_at(m1, p) == notes_at(m, p));
        }
    }
}

/// The shared hub of recorded notes, keyed by location. Its abstract state
/// is a map from each location to the notes recorded there, in insertion
/// order.
pub struct NoteHub {
    entries: Vec<HubEntry>,
}

impl View for NoteHub {
    type V = Map<Point, Seq<RouteNote>>;

    closed spec fn view(&self) -> Map<Point, Seq<RouteNote>> {
        entries_map(self.entries@)
    }
}

fn find_index(entries: &Vec<HubEntry>, location: Point) -> (r: Option<usize>)
    ensures
        match r {
            Some(i) => i < entries@.len() && entries@[i as int].key == location,
            None => forall|i: int| 0 <= i < entries@.len() ==> entries@[i].key != location,
        },
{
    let mut i: usize = 0;
    while i < entries.len()
        invariant
            i <= entries.len(),
            forall|j: int| 0 <= j < i ==> entries@[j].key != location,
        decreases entries.len() - i,
    {
        let k = &entries[i].key;
        if k.latitude == location.latitude && k.longitude == location.longitude {
            return Some(i);
        }
        i += 1;
    }
    None
}

fn clone_notes(notes: &Vec<RouteNote>) -> (r: Vec<RouteNote>)
    ensures
        r@ == notes@,
{
    let mut r: Vec<RouteNote> = Vec::new();
    let mut i: usize = 0;
    while i < notes.len()
        invariant
            i <= notes.len(),
            r@ == notes@.subrange(0, i as int),
        decreases notes.len() - i,
    {
        r.push(notes[i].clone());
        proof {
            assert(r@ =~= notes@.subrange(0, i as int + 1));
        }
        i += 1;
    }
    proof {
        assert(notes@.subrange(0, notes@.len() as int) =~= notes@);
    }
    r
}

impl NoteHub {
    #[verifier::type_invariant]
    spec fn wf(self) -> bool {
        unique_keys(self.entries@)
    }

    /// An empty hub: no notes recorded at any location.
    pub fn new() -> (r: NoteHub)
        ensures
            r@ == Map::<Point, Seq<RouteNote>>::empty(),
    {
        NoteHub { entries: Vec::new() }
    }

    /// Atomically appends `note` to the list kept for `location` (creating
    /// the list if absent) and returns the full updated list for that
    /// location, in insertion order. The caller must hold the hub
    /// exclusively for the duration of the call, which makes the
    /// append-then-replay a single step relative to other sessions.
    pub fn record_and_replay(&mut self, location: Point, note: RouteNote) -> (r: Vec<RouteNote>)
        ensures
            final(self)@ == old(self)@.insert(
                location,
                notes_at(old(self)@, location).push(note),
            ),
            r@ == notes_at(old(self)@, location).push(note),
    {
        proof {
            use_type_invariant(&*self);
        }
        let ghost s0 = self.entries@;
        let mut entries: Vec<HubEntry> = Vec::new();
        std::mem::swap(&mut entries, &mut self.entries);
        match find_index(&entries, location) {
            Some(i) => {
                let mut entry = entries.remove(i);
                entry.notes.push(note);
                let replay = clone_notes(&entry.notes);
                proof {
                    lemma_present_key(s0, i as int);
                }
                let ghost e = entry;
                entries.insert(i, entry);
                proof {
                    assert(entries@ =~= s0.update(i as int, e));
                    lemma_update_entry(s0, i as int, e);
                    assert(unique_keys(entries@));
                }
                self.entries = entries;
                replay
            },
            None => {
                let mut notes: Vec<RouteNote> = Vec::new();
                notes.push(note);
                let replay = clone_notes(&notes);
                proof {
                    lemma_absent_key(s0, location);
                }
                let ghost e = HubEntry { key: location, notes };
                entries.push(HubEntry { key: location, notes });
                proof {
                    assert(entries@.drop_last() =~= s0);
                    assert(entries@.last() == e);
                    assert(unique_keys(entries@));
                }
                self.entries = entries;
                replay
            },
        }
    }
}

} // verus!
