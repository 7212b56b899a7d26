//! The sector: a hex grid of explorable sub-sectors, the mission catalog,
//! and at most one running expedition with its travel state machine.

use crate::crew::CrewMember;
use crate::game_state::GameState;
use crate::ids::Id;
use crate::resources::Resources;
use crate::rng::SeededRng;
use crate::store::find_id;
use crate::store::Entity;
use crate::store::Storage;
use vstd::prelude::*;

verus! {

/// Absolute value over mathematical integers.
pub open spec fn iabs(x: int) -> int {
    if x < 0 {
        -x
    } else {
        x
    }
}

/// Offset grid coordinates of a sub-sector.
#[derive(Clone, Copy, Debug, PartialEq, Eq, Structural)]
pub struct Coordinates {
    pub x: i32,
    pub y: i32,
}

/// `floor(y / 2)`, the offset-to-axial row shift.
pub open spec fn spec_floor2(y: int) -> int {
    (y - y % 2) / 2
}

/// Floor division of a 32-bit value by two.
fn floor2(y: i32) -> (r: i64)
    ensures
        r == spec_floor2(y as int),
{
    let yy = y as i64;
    if yy >= 0 {
        let q = ((yy as u64) / 2) as i64;
        proof {
            vstd::arithmetic::div_mod::lemma_fundamental_div_mod(yy as int, 2);
        }
        q
    } else {
        let m = (-yy) as u64;
        let q = ((m + 1) / 2) as i64;
        proof {
            let mi = m as int;
            let qi = (mi + 1) / 2;
            vstd::arithmetic::div_mod::lemma_fundamental_div_mod(mi + 1, 2);
            vstd::arithmetic::div_mod::lemma_mod_bound(mi + 1, 2);
            if mi % 2 == 0 {
                vstd::arithmetic::div_mod::lemma_fundamental_div_mod_converse(
                    yy as int,
                    2,
                    -qi,
                    0,
                );
            } else {
                vstd::arithmetic::div_mod::lemma_fundamental_div_mod_converse(
                    yy as int,
                    2,
                    -qi,
                    1,
                );
            }
        }
        -q
    }
}

impl Coordinates {
    /// Axial column of the hex under odd-row offset layout.
    pub open spec fn spec_axial_q(self) -> int {
        self.x - spec_floor2(self.y as int)
    }

    /// Axial row of the hex.
    pub open spec fn spec_axial_r(self) -> int {
        self.y as int
    }

    /// Hex distance from the origin of an axial vector.
    pub open spec fn spec_hex_len(q: int, r: int) -> int {
        (iabs(q) + iabs(q + r) + iabs(r)) / 2
    }

    pub fn new(x: i32, y: i32) -> (r: Coordinates)
        ensures
            r == (Coordinates { x, y }),
    {
        Coordinates { x, y }
    }

    /// Hex distance between two sub-sectors, the expedition travel measure.
    pub fn hex_distance_to(self, other: Self) -> (r: i64)
        ensures
            r == Coordinates::spec_hex_len(
                self.spec_axial_q() - other.spec_axial_q(),
                self.spec_axial_r() - other.spec_axial_r(),
            ),
    {
        let q = (self.x as i64 - floor2(self.y)) - (other.x as i64 - floor2(other.y));
        let r = self.y as i64 - other.y as i64;
        Coordinates::hex_len(q, r)
    }

    /// Hex distance of this sub-sector from the origin.
    pub fn hex_length(self) -> (r: i64)
        ensures
            r == Coordinates::spec_hex_len(self.spec_axial_q(), self.spec_axial_r()),
    {
        let q = self.x as i64 - floor2(self.y);
        Coordinates::hex_len(q, self.y as i64)
    }

    /// Executable hex length of a small axial vector.
    fn hex_len(q: i64, r: i64) -> (res: i64)
        requires
            -0x2_0000_0000 <= q <= 0x2_0000_0000,
            -0x2_0000_0000 <= r <= 0x2_0000_0000,
        ensures
            res == Coordinates::spec_hex_len(q as int, r as int),
    {
        let aq: i64 = if q < 0 {
            -q
        } else {
            q
        };
        let aqr: i64 = if q + r < 0 {
            -(q + r)
        } else {
            q + r
        };
        let ar: i64 = if r < 0 {
            -r
        } else {
            r
        };
        let sum = (aq + aqr + ar) as u64;
        proof {
            vstd::arithmetic::div_mod::lemma_fundamental_div_mod(sum as int, 2);
        }
        (sum / 2) as i64
    }
}

/// The cosmetic kind of a sub-sector.
#[derive(Clone, Copy, Debug, PartialEq, Eq, Structural)]
pub enum SectorType {
    EmptySpace,
    SolarSystem,
    GasCloud,
    StellarRift,
}

pub struct SubSector {
    pub sector_type: SectorType,
    pub id: Id,
}

impl SubSector {
    pub fn new(sector_type: SectorType) -> (r: SubSector)
        ensures
            r.sector_type == sector_type,
            r.id@.len() == 21,
    {
        SubSector { id: Id::fresh(), sector_type }
    }
}

impl Entity for SubSector {
    open spec fn eid(&self) -> Seq<char> {
        self.id@
    }

    fn id(&self) -> (r: &Id)
        ensures
            r@ == self.eid(),
    {
        &self.id
    }
}

/// A mission's yield rule; a mining mission draws from `min..max`.
#[derive(Clone, Copy, Debug, PartialEq, Eq, Structural)]
pub enum MissionType {
    Mining(u16, u16),
}

pub struct Mission {
    pub id: Id,
    pub sub_sector_id: Id,
    pub mission_type: MissionType,
}

impl Mission {
    pub fn new(sub_sector_id: Id, mission_type: MissionType) -> (r: Mission)
        ensures
            r.id@.len() == 21,
            r.sub_sector_id == sub_sector_id,
            r.mission_type == mission_type,
    {
        Mission { id: Id::fresh(), sub_sector_id, mission_type }
    }
}

impl Entity for Mission {
    open spec fn eid(&self) -> Seq<char> {
        self.id@
    }

    fn id(&self) -> (r: &Id)
        ensures
            r@ == self.eid(),
    {
        &self.id
    }
}

impl Clone for Mission {
    fn clone(&self) -> (r: Self)
        ensures
            r == *self,
    {
        Mission {
            id: self.id.clone(),
            sub_sector_id: self.sub_sector_id.clone(),
            mission_type: self.mission_type,
        }
    }
}

/// The travel state of a running expedition.
#[derive(Clone, Copy, Debug, PartialEq, Eq, Structural)]
pub enum ActiveMissionState {
    AtDestination(u16),
    OutwardTrip(u16),
    ReturnTrip(u16),
    Returned,
}

/// A running expedition: the mission it serves, the resources gathered so
/// far, its travel distance and state, and the crew that is away.
pub struct ActiveMission {
    pub mission_id: Id,
    pub resources: Resources,
    pub distance: u16,
    pub state: ActiveMissionState,
    pub crew: Storage<CrewMember>,
}

impl ActiveMission {
    /// One tick of the expedition state machine: outward and return trips
    /// advance by one turn until the travel distance is covered, and at the
    /// destination each turn draws one yield from the generator into the
    /// resource bag. Nothing yet moves an expedition from the destination
    /// onto the return trip; it keeps gathering until an external trigger
    /// is added.
    pub open spec fn spec_tick(
        state: ActiveMissionState,
        res: Resources,
        distance: u16,
        mt: MissionType,
        rng: SeededRng,
    ) -> (ActiveMissionState, Resources, SeededRng) {
        match state {
            ActiveMissionState::AtDestination(t) => {
                let t2 = if t < u16::MAX {
                    (t + 1) as u16
                } else {
                    t
                };
                match mt {
                    MissionType::Mining(min, max) => {
                        if max > min {
                            let rng2 = rng.spec_step();
                            let gathered = min + SeededRng::spec_output(rng2.state) % ((max
                                - min) as u64);
                            (
                                ActiveMissionState::AtDestination(t2),
                                Resources::spec_store(
                                    res,
                                    Resources {
                                        energy: 0,
                                        living_space: 0,
                                        minerals: gathered as i64,
                                        food: 0,
                                        water: 0,
                                    },
                                ),
                                rng2,
                            )
                        } else {
                            (
                                ActiveMissionState::AtDestination(t2),
                                Resources::spec_store(
                                    res,
                                    Resources {
                                        energy: 0,
                                        living_space: 0,
                                        minerals: min as i64,
                                        food: 0,
                                        water: 0,
                                    },
                                ),
                                rng,
                            )
                        }
                    },
                }
            },
            ActiveMissionState::OutwardTrip(t) => {
                if t >= distance {
                    (ActiveMissionState::AtDestination(0), res, rng)
                } else {
                    (ActiveMissionState::OutwardTrip((t + 1) as u16), res, rng)
                }
            },
            ActiveMissionState::ReturnTrip(t) => {
                if t >= distance {
                    (ActiveMissionState::Returned, res, rng)
                } else {
                    (ActiveMissionState::ReturnTrip((t + 1) as u16), res, rng)
                }
            },
            ActiveMissionState::Returned => (state, res, rng),
        }
    }

    pub fn new(mission_id: &Id, resources: Resources, crew: Vec<CrewMember>) -> (r: ActiveMission)
        ensures
            r.mission_id == *mission_id,
            r.resources == resources,
            r.distance == 0,
            r.state == ActiveMissionState::OutwardTrip(0u16),
            r.crew@ == crew@,
    {
        ActiveMission {
            mission_id: mission_id.clone(),
            resources,
            distance: 0,
            state: ActiveMissionState::OutwardTrip(0),
            crew: Storage::from_entries(crew),
        }
    }

    pub fn finish_turn(&mut self, state: &mut GameState, mission: &Mission)
        ensures
            ({
                let (st, res, rng) = ActiveMission::spec_tick(
                    old(self).state,
                    old(self).resources,
                    old(self).distance,
                    mission.mission_type,
                    old(state).rng,
                );
                &&& *final(self) == (ActiveMission { state: st, resources: res, ..*old(self) })
                &&& *final(state) == (GameState { rng, ..*old(state) })
            }),
    {
        match self.state {
            ActiveMissionState::AtDestination(t) => {
                match mission.mission_type {
                    MissionType::Mining(min, max) => {
                        let gathered = state.rng.gen_range_u16(min, max);
                        self.resources.store(Resources::minerals(gathered as i64));
                    },
                }
                let t2 = if t < u16::MAX {
                    t + 1
                } else {
                    t
                };
                self.state = ActiveMissionState::AtDestination(t2);
            },
            ActiveMissionState::OutwardTrip(t) => {
                if t >= self.distance {
                    self.state = ActiveMissionState::AtDestination(0);
                } else {
                    self.state = ActiveMissionState::OutwardTrip(t + 1);
                }
            },
            ActiveMissionState::ReturnTrip(t) => {
                if t >= self.distance {
                    self.state = ActiveMissionState::Returned;
                } else {
                    self.state = ActiveMissionState::ReturnTrip(t + 1);
                }
            },
            ActiveMissionState::Returned => {},
        }
    }
}

/// Index of the first map entry at the given coordinates, or -1.
pub open spec fn map_find(m: Seq<(Coordinates, Id)>, c: Coordinates) -> int
    decreases m.len(),
{
    if m.len() == 0 {
        -1
    } else if m[0].0 == c {
        0
    } else {
        let r = map_find(m.drop_first(), c);
        if r == -1 {
            -1
        } else {
            r + 1
        }
    }
}

/// What `map_find` returns: -1 and no entry matches, or the first matching
/// index.
pub proof fn lemma_map_find_props(m: Seq<(Coordinates, Id)>, c: Coordinates)
    ensures
        map_find(m, c) >= -1,
        map_find(m, c) == -1 ==> forall|j: int| 0 <= j < m.len() ==> (#[trigger] m[j]).0 != c,
        map_find(m, c) >= 0 ==> {
            &&& map_find(m, c) < m.len()
            &&& m[map_find(m, c)].0 == c
            &&& forall|j: int| 0 <= j < map_find(m, c) ==> (#[trigger] m[j]).0 != c
        },
    decreases m.len(),
{
    if m.len() > 0 {
        let d = m.drop_first();
        lemma_map_find_props(d, c);
        assert(forall|j: int| 1 <= j < m.len() ==> (#[trigger] m[j]) == d[j - 1]);
    }
}

/// `map_find` finds exactly the first match known from a scan.
pub proof fn lemma_map_find_hit(m: Seq<(Coordinates, Id)>, c: Coordinates, i: int)
    requires
        0 <= i < m.len(),
        m[i].0 == c,
        forall|j: int| 0 <= j < i ==> (#[trigger] m[j]).0 != c,
    ensures
        map_find(m, c) == i,
    decreases m.len(),
{
    if i > 0 {
        assert(m[0].0 != c);
        lemma_map_find_hit(m.drop_first(), c, i - 1);
    }
}

/// The least and greatest x seen among map entries in row `y`, folded left
/// to right from `(0, 0)`.
pub open spec fn spec_bounds_at_y(m: Seq<(Coordinates, Id)>, y: i32) -> (i32, i32)
    decreases m.len(),
{
    if m.len() == 0 {
        (0, 0)
    } else {
        let (lo, hi) = spec_bounds_at_y(m.drop_last(), y);
        let c = m.last().0;
        if c.y == y {
            (
                if c.x < lo {
                    c.x
                } else {
                    lo
                },
                if c.x > hi {
                    c.x
                } else {
                    hi
                },
            )
        } else {
            (lo, hi)
        }
    }
}

/// The least and greatest y seen among map entries in column `x`.
pub open spec fn spec_bounds_at_x(m: Seq<(Coordinates, Id)>, x: i32) -> (i32, i32)
    decreases m.len(),
{
    if m.len() == 0 {
        (0, 0)
    } else {
        let (lo, hi) = spec_bounds_at_x(m.drop_last(), x);
        let c = m.last().0;
        if c.x == x {
            (
                if c.y < lo {
                    c.y
                } else {
                    lo
                },
                if c.y > hi {
                    c.y
                } else {
                    hi
                },
            )
        } else {
            (lo, hi)
        }
    }
}

/// The missions attached to the sub-sector mapped at the given coordinates,
/// in catalog order; empty when the coordinates are unmapped.
pub open spec fn spec_missions_at(
    map: Seq<(Coordinates, Id)>,
    missions: Seq<Mission>,
    c: Coordinates,
) -> Seq<Mission> {
    let i = map_find(map, c);
    if i == -1 {
        Seq::<Mission>::empty()
    } else {
        missions.filter(|m: Mission| m.sub_sector_id@ == map[i].1@)
    }
}

pub struct Sector {
    pub sub_sectors: Storage<SubSector>,
    pub sub_sectors_map: Vec<(Coordinates, Id)>,
    pub missions: Storage<Mission>,
    pub active_mission: Option<ActiveMission>,
}

impl Sector {
    /// The expedition tick at sector level: nothing happens without a
    /// running expedition or when its mission id is no longer in the
    /// catalog; otherwise the expedition state machine advances once.
    pub open spec fn spec_sector_tick(
        missions: Seq<Mission>,
        am_opt: Option<ActiveMission>,
        rng: SeededRng,
    ) -> (Option<ActiveMission>, SeededRng) {
        match am_opt {
            None => (am_opt, rng),
            Some(am) => {
                let i = find_id(missions, am.mission_id@);
                if i == -1 {
                    (am_opt, rng)
                } else {
                    let (st, res, rng2) = ActiveMission::spec_tick(
                        am.state,
                        am.resources,
                        am.distance,
                        missions[i].mission_type,
                        rng,
                    );
                    (Some(ActiveMission { state: st, resources: res, ..am }), rng2)
                }
            },
        }
    }

    pub fn new() -> (r: Sector)
        ensures
            r.sub_sectors@ == Seq::<SubSector>::empty(),
            r.sub_sectors_map@ == Seq::<(Coordinates, Id)>::empty(),
            r.missions@ == Seq::<Mission>::empty(),
            r.active_mission is None,
    {
        Sector {
            sub_sectors: Storage::new(),
            sub_sectors_map: Vec::new(),
            missions: Storage::new(),
            active_mission: None,
        }
    }

    /// Register a sub-sector at grid coordinates.
    pub fn add_subsector(&mut self, x: i32, y: i32, sub_sector: SubSector)
        ensures
            final(self).sub_sectors_map@.len() == old(self).sub_sectors_map@.len() + 1,
            final(self).sub_sectors_map@.subrange(0, old(self).sub_sectors_map@.len() as int)
                == old(self).sub_sectors_map@,
            final(self).sub_sectors_map@.last().0 == (Coordinates { x, y }),
            final(self).sub_sectors_map@.last().1@ == sub_sector.id@,
            final(self).sub_sectors@ == old(self).sub_sectors@.push(sub_sector),
            final(self).missions == old(self).missions,
            final(self).active_mission == old(self).active_mission,
    {
        self.sub_sectors_map.push((Coordinates::new(x, y), sub_sector.id.clone()));
        self.sub_sectors.append(sub_sector);
        proof {
            assert(self.sub_sectors_map@.subrange(0, old(self).sub_sectors_map@.len() as int)
                =~= old(self).sub_sectors_map@);
        }
    }

    #[verifier::loop_isolation(false)]
    pub fn finish_turn(&mut self, state: &mut GameState)
        ensures
            ({
                let (am, rng) = Sector::spec_sector_tick(
                    old(self).missions@,
                    old(self).active_mission,
                    old(state).rng,
                );
                &&& final(self).active_mission == am
                &&& final(self).sub_sectors == old(self).sub_sectors
                &&& final(self).sub_sectors_map == old(self).sub_sectors_map
                &&& final(self).missions == old(self).missions
                &&& *final(state) == (GameState { rng, ..*old(state) })
            }),
    {
        let mut taken: Option<ActiveMission> = None;
        core::mem::swap(&mut taken, &mut self.active_mission);
        match taken {
            Some(mut am) => {
                proof {
                    crate::store::lemma_find_id_props(self.missions@, am.mission_id@);
                }
                let found = self.missions.get(&am.mission_id);
                match found {
                    Some(mission) => {
                        let m = mission.clone();
                        am.finish_turn(state, &m);
                        self.active_mission = Some(am);
                    },
                    None => {
                        self.active_mission = Some(am);
                    },
                }
            },
            None => {},
        }
    }

    /// Extremes of x among mapped coordinates in row `y`.
    pub fn bounds_at_y(&self, y: i32) -> (r: (i32, i32))
        ensures
            r == spec_bounds_at_y(self.sub_sectors_map@, y),
    {
        let mut lo: i32 = 0;
        let mut hi: i32 = 0;
        let n = self.sub_sectors_map.len();
        let mut i: usize = 0;
        while i < n
            invariant
                0 <= i <= n,
                n == self.sub_sectors_map@.len(),
                (lo, hi) == spec_bounds_at_y(self.sub_sectors_map@.subrange(0, i as int), y),
            decreases n - i,
        {
            proof {
                let pre = self.sub_sectors_map@.subrange(0, i + 1);
                assert(pre.drop_last() =~= self.sub_sectors_map@.subrange(0, i as int));
                assert(pre.last() == self.sub_sectors_map@[i as int]);
            }
            let c = self.sub_sectors_map[i].0;
            if c.y == y {
                if c.x < lo {
                    lo = c.x;
                }
                if c.x > hi {
                    hi = c.x;
                }
            }
            i = i + 1;
        }
        proof {
            assert(self.sub_sectors_map@.subrange(0, n as int) =~= self.sub_sectors_map@);
        }
        (lo, hi)
    }

    /// Extremes of y among mapped coordinates in column `x`.
    pub fn bounds_at_x(&self, x: i32) -> (r: (i32, i32))
        ensures
            r == spec_bounds_at_x(self.sub_sectors_map@, x),
    {
        let mut lo: i32 = 0;
        let mut hi: i32 = 0;
        let n = self.sub_sectors_map.len();
        let mut i: usize = 0;
        while i < n
            invariant
                0 <= i <= n,
                n == self.sub_sectors_map@.len(),
                (lo, hi) == spec_bounds_at_x(self.sub_sectors_map@.subrange(0, i as int), x),
            decreases n - i,
        {
            proof {
                let pre = self.sub_sectors_map@.subrange(0, i + 1);
                assert(pre.drop_last() =~= self.sub_sectors_map@.subrange(0, i as int));
                assert(pre.last() == self.sub_sectors_map@[i as int]);
            }
            let c = self.sub_sectors_map[i].0;
            if c.x == x {
                if c.y < lo {
                    lo = c.y;
                }
                if c.y > hi {
                    hi = c.y;
                }
            }
            i = i + 1;
        }
        proof {
            assert(self.sub_sectors_map@.subrange(0, n as int) =~= self.sub_sectors_map@);
        }
        (lo, hi)
    }

    /// The missions available at the given coordinates, in catalog order.
    #[verifier::loop_isolation(false)]
    pub fn missions_at(&self, x: i32, y: i32) -> (r: Vec<Mission>)
        ensures
            r@ == spec_missions_at(self.sub_sectors_map@, self.missions@, Coordinates { x, y }),
    {
        let c = Coordinates::new(x, y);
        let ghost cm = c;
        let n = self.sub_sectors_map.len();
        let mut i: usize = 0;
        while i < n
            invariant
                0 <= i <= n,
                n == self.sub_sectors_map@.len(),
                c == cm,
                forall|j: int| 0 <= j < i ==> (#[trigger] self.sub_sectors_map@[j]).0 != cm,
            decreases n - i,
        {
            if self.sub_sectors_map[i].0 == c {
                proof {
                    lemma_map_find_hit(self.sub_sectors_map@, cm, i as int);
                }
                let sid = &self.sub_sectors_map[i].1;
                let ghost p = |m: Mission| m.sub_sector_id@ == self.sub_sectors_map@[i as int].1@;
                let mut out: Vec<Mission> = Vec::new();
                let mlen = self.missions.len();
                let mut k: usize = 0;
                proof {
                    reveal(Seq::filter);
                    assert(self.missions@.subrange(0, 0).filter(p) =~= Seq::<Mission>::empty());
                }
                while k < mlen
                    invariant
                        0 <= k <= mlen,
                        i < self.sub_sectors_map@.len(),
                        mlen == self.missions@.len(),
                        sid@ == self.sub_sectors_map@[i as int].1@,
                        out@ == self.missions@.subrange(0, k as int).filter(p),
                        p == (|m: Mission| m.sub_sector_id@ == self.sub_sectors_map@[i as int].1@),
                    decreases mlen - k,
                {
                    proof {
                        reveal(Seq::filter);
                        let pre = self.missions@.subrange(0, k + 1);
                        assert(pre.drop_last() =~= self.missions@.subrange(0, k as int));
                        assert(pre.last() == self.missions@[k as int]);
                    }
                    let m = self.missions.get_at(k);
                    if m.sub_sector_id.eq_id(sid) {
                        out.push(m.clone());
                    }
                    k = k + 1;
                }
                proof {
                    assert(self.missions@.subrange(0, mlen as int) =~= self.missions@);
                }
                return out;
            }
            i = i + 1;
        }
        proof {
            lemma_map_find_props(self.sub_sectors_map@, cm);
            if map_find(self.sub_sectors_map@, cm) >= 0 {
                assert(self.sub_sectors_map@[map_find(self.sub_sectors_map@, cm)].0 == cm);
            }
        }
        Vec::new()
    }

    /// All mapped coordinates with their sub-sector ids, in insertion order.
    pub fn sub_sectors_map(&self) -> (r: &Vec<(Coordinates, Id)>)
        ensures
            r@ == self.sub_sectors_map@,
    {
        &self.sub_sectors_map
    }

    /// Attach a new mission to the sub-sector mapped at the coordinates;
    /// without a sub-sector there, the catalog is left unchanged.
    #[verifier::loop_isolation(false)]
    pub fn add_mission(&mut self, x: i32, y: i32, mission_type: MissionType)
        ensures
            ({
                let i = map_find(old(self).sub_sectors_map@, Coordinates { x, y });
                if i == -1 {
                    final(self).missions@ == old(self).missions@
                } else {
                    &&& final(self).missions@.len() == old(self).missions@.len() + 1
                    &&& final(self).missions@.subrange(0, old(self).missions@.len() as int) == old(
                        self,
                    ).missions@
                    &&& final(self).missions@.last().sub_sector_id@ == old(
                        self,
                    ).sub_sectors_map@[i].1@
                    &&& final(self).missions@.last().mission_type == mission_type
                }
            }),
            final(self).sub_sectors == old(self).sub_sectors,
            final(self).sub_sectors_map == old(self).sub_sectors_map,
            final(self).active_mission == old(self).active_mission,
    {
        let c = Coordinates::new(x, y);
        let ghost cm = c;
        let n = self.sub_sectors_map.len();
        let mut i: usize = 0;
        while i < n
            invariant
                0 <= i <= n,
                c == cm,
                n == self.sub_sectors_map@.len(),
                *self == *old(self),
                forall|j: int| 0 <= j < i ==> (#[trigger] self.sub_sectors_map@[j]).0 != cm,
            decreases n - i,
        {
            if self.sub_sectors_map[i].0 == c {
                proof {
                    lemma_map_find_hit(self.sub_sectors_map@, cm, i as int);
                }
                let sid = self.sub_sectors_map[i].1.clone();
                let ghost before = self.missions@;
                let m = Mission::new(sid, mission_type);
                self.missions.append(m);
                proof {
                    assert(self.missions@.subrange(0, before.len() as int) =~= before);
                }
                return ;
            }
            i = i + 1;
        }
        proof {
            lemma_map_find_props(self.sub_sectors_map@, cm);
            if map_find(self.sub_sectors_map@, cm) >= 0 {
                assert(self.sub_sectors_map@[map_find(self.sub_sectors_map@, cm)].0 == cm);
            }
        }
    }

    pub fn set_active_mission(&mut self, active_mission: ActiveMission)
        ensures
            final(self).active_mission matches Some(am) && am == active_mission,
            final(self).sub_sectors == old(self).sub_sectors,
            final(self).sub_sectors_map == old(self).sub_sectors_map,
            final(self).missions == old(self).missions,
    {
        self.active_mission = Some(active_mission);
    }
}

} // verus!
