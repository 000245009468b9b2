//! Last known location of each reporting client, and the roster of clients
//! ever seen.

use dashmap::DashMap;
use vstd::prelude::*;

use crate::clock::unixtime_now;

verus! {

/// The last position one client reported. Coordinates are kept as the IEEE
/// 754 bit patterns of the reported numbers, which the store never reads;
/// all-zero bits are `0.0`.
#[derive(Debug, Clone, Copy, PartialEq, Eq, Structural)]
pub struct Location {
    /// Degrees, as `f64` bits.
    pub latitude: u64,
    /// Degrees, as `f64` bits.
    pub longitude: u64,
    /// Meters, as `f64` bits.
    pub accuracy: u64,
    /// Seconds since the unix epoch.
    pub time: u64,
}

/// What `get` answers for a client that never reported.
pub open spec fn zero_location() -> Location {
    Location { latitude: 0, longitude: 0, accuracy: 0, time: 0 }
}

/// What `get` answers for client `id`.
pub open spec fn location_of(records: Map<u64, Location>, id: u64) -> Location {
    if records.contains_key(id) {
        records[id]
    } else {
        zero_location()
    }
}

type LocationMap = DashMap<u64, Location>;

/// What the location map holds, keyed by client id.
pub uninterp spec fn location_entries(m: LocationMap) -> Map<u64, Location>;

/// Relies on `DashMap::new`: a new map is empty.
#[verifier::external_body]
fn location_map_new() -> (m: LocationMap)
    ensures
        location_entries(m).dom() == Set::<u64>::empty(),
{
    DashMap::new()
}

/// Relies on `DashMap::get`: the value stored under the key, if any.
#[verifier::external_body]
fn location_map_get(m: &LocationMap, id: u64) -> (r: Option<Location>)
    ensures
        r == (if location_entries(*m).contains_key(id) {
            Some(location_entries(*m)[id])
        } else {
            None::<Location>
        }),
{
    m.get(&id).map(|e| *e.value())
}

/// Relies on `DashMap::insert`: the key maps to the value afterwards, other
/// keys are untouched; tells whether the key was present before.
#[verifier::external_body]
fn location_map_insert(m: &mut LocationMap, id: u64, loc: Location) -> (existed: bool)
    ensures
        location_entries(*final(m)) == location_entries(*old(m)).insert(id, loc),
        existed == location_entries(*old(m)).contains_key(id),
{
    m.insert(id, loc).is_some()
}

/// Whether `id` stands in the roster.
pub open spec fn roster_has(roster: Seq<(u64, String)>, id: u64) -> bool {
    exists|i: int| 0 <= i < roster.len() && (#[trigger] roster[i]).0 == id
}

/// The roster names each client once, and exactly the clients with a record.
pub open spec fn locations_wf(records: Map<u64, Location>, roster: Seq<(u64, String)>) -> bool {
    &&& forall|i: int, j: int|
        0 <= i < j < roster.len() ==> (#[trigger] roster[i]).0 != (#[trigger] roster[j]).0
    &&& forall|id: u64| #[trigger] records.contains_key(id) <==> roster_has(roster, id)
}

/// The roster after client `id` (called `name`) reports.
pub open spec fn roster_next(
    records: Map<u64, Location>,
    roster: Seq<(u64, String)>,
    id: u64,
    name: String,
) -> Seq<(u64, String)> {
    if records.contains_key(id) {
        roster
    } else {
        roster.push((id, name))
    }
}

/// Last known locations of the reporting clients.
pub struct LocationStore {
    last: LocationMap,
    roster: Vec<(u64, String)>,
}

impl LocationStore {
    /// The record of each client that reported, by client id.
    pub closed spec fn records(&self) -> Map<u64, Location> {
        location_entries(self.last)
    }

    /// `(client id, display name)` of each client ever seen, first seen first.
    pub closed spec fn roster(&self) -> Seq<(u64, String)> {
        self.roster@
    }

    /// The store's invariant: see `locations_wf`.
    pub open spec fn wf(&self) -> bool {
        locations_wf(self.records(), self.roster())
    }

    /// A store with no record.
    pub fn new() -> (s: Self)
        ensures
            s.records() == Map::<u64, Location>::empty(),
            s.roster() == Seq::<(u64, String)>::empty(),
            s.wf(),
    {
        let s = LocationStore { last: location_map_new(), roster: Vec::new() };
        assert(s.records() =~= Map::<u64, Location>::empty());
        s
    }

    /// Replaces the record of client `id` by the given position observed at
    /// `now` (seconds since the epoch), and appends `(id, name)` to the roster
    /// if the client had no record.
    pub fn update_at(
        &mut self,
        id: u64,
        name: String,
        latitude: u64,
        longitude: u64,
        accuracy: u64,
        now: u64,
    )
        requires
            old(self).wf(),
        ensures
            final(self).records() == old(self).records().insert(
                id,
                Location { latitude, longitude, accuracy, time: now },
            ),
            final(self).roster() == roster_next(old(self).records(), old(self).roster(), id, name),
            final(self).wf(),
    {
        let ghost before = self.roster@;
        let existed = location_map_insert(
            &mut self.last,
            id,
            Location { latitude, longitude, accuracy, time: now },
        );
        if !existed {
            self.roster.push((id, name));
            assert forall|i: int| 0 <= i < before.len() implies (#[trigger] self.roster@[i]).0
                != id by {
                if self.roster@[i].0 == id {
                    assert(roster_has(before, id));
                }
            }
            assert(self.roster@[before.len() as int].0 == id);
        }
        assert forall|k: u64| #[trigger]
            self.records().contains_key(k) <==> roster_has(self.roster@, k) by {
            if roster_has(before, k) {
                let i = choose|i: int| 0 <= i < before.len() && (#[trigger] before[i]).0 == k;
                assert(self.roster@[i] == before[i]);
            }
            if k == id {
                if existed {
                    assert(roster_has(before, k));
                } else {
                    assert(self.roster@[before.len() as int].0 == k);
                }
            }
            if roster_has(self.roster@, k) && k != id {
                let i = choose|i: int| 0 <= i < self.roster@.len() && (#[trigger] self.roster@[i]).0 == k;
                assert(before[i] == self.roster@[i]);
            }
        }
    }

    /// Records a report of client `id` at the current wall-clock time, which
    /// it returns.
    pub fn update(&mut self, id: u64, name: String, latitude: u64, longitude: u64, accuracy: u64) -> (t: u64)
        requires
            old(self).wf(),
        ensures
            final(self).records() == old(self).records().insert(
                id,
                Location { latitude, longitude, accuracy, time: t },
            ),
            final(self).roster() == roster_next(old(self).records(), old(self).roster(), id, name),
            final(self).wf(),
    {
        let now = unixtime_now();
        self.update_at(id, name, latitude, longitude, accuracy, now);
        now
    }

    /// The record of client `id`, or the all-zero location if it never reported.
    pub fn get(&self, id: u64) -> (r: Location)
        ensures
            r == location_of(self.records(), id),
    {
        match location_map_get(&self.last, id) {
            Some(loc) => loc,
            None => Location { latitude: 0, longitude: 0, accuracy: 0, time: 0 },
        }
    }

    /// The roster, first seen first.
    pub fn list_known_clients(&self) -> (r: Vec<(u64, String)>)
        ensures
            r@ == self.roster(),
    {
        let mut out: Vec<(u64, String)> = Vec::new();
        let mut i: usize = 0;
        while i < self.roster.len()
            invariant
                i <= self.roster@.len(),
                out@ == self.roster@.subrange(0, i as int),
            decreases self.roster@.len() - i,
        {
            let id = self.roster[i].0;
            let name = self.roster[i].1.clone();
            out.push((id, name));
            i = i + 1;
        }
        assert(out@ =~= self.roster@);
        out
    }
}

/// `(id, _)` stands exactly once in the roster.
pub open spec fn roster_once(roster: Seq<(u64, String)>, id: u64) -> bool {
    exists|i: int|
        0 <= i < roster.len() && (#[trigger] roster[i]).0 == id && forall|j: int|
            0 <= j < roster.len() && (#[trigger] roster[j]).0 == id ==> j == i
}

/// A client that never reported reads as the all-zero location; after a
/// report of `(latitude, longitude, accuracy)` at `t` it reads as exactly
/// that report, whatever it read before.
pub proof fn lemma_get_reflects_update(
    records: Map<u64, Location>,
    id: u64,
    latitude: u64,
    longitude: u64,
    accuracy: u64,
    t: u64,
)
    ensures
        !records.contains_key(id) ==> location_of(records, id) == zero_location(),
        location_of(records.insert(id, Location { latitude, longitude, accuracy, time: t }), id)
            == (Location { latitude, longitude, accuracy, time: t }),
{
}

/// Two reports of a new client add it to the roster once, under the name
/// given with the first.
pub proof fn lemma_roster_idempotent(
    records: Map<u64, Location>,
    roster: Seq<(u64, String)>,
    id: u64,
    name1: String,
    name2: String,
    loc1: Location,
)
    requires
        locations_wf(records, roster),
        !records.contains_key(id),
    ensures
        ({
            let roster1 = roster_next(records, roster, id, name1);
            let roster2 = roster_next(records.insert(id, loc1), roster1, id, name2);
            &&& roster2 == roster.push((id, name1))
            &&& roster_once(roster2, id)
        }),
{
    let roster2 = roster.push((id, name1));
    let n = roster.len() as int;
    assert forall|j: int| 0 <= j < roster2.len() && (#[trigger] roster2[j]).0 == id implies j
        == n by {
        if j < n {
            assert(roster[j] == roster2[j]);
            assert(roster_has(roster, id));
        }
    }
    assert(roster2[n].0 == id);
}

} // verus!
