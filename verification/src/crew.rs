//! Crew members: needs flags, health, competence and mood.
//!
//! The three need flags are all raised at the start of each turn and cleared
//! during the support phase when the corresponding stockpile could be drawn
//! from. Health drops by one for every need still unmet when the next turn
//! runs, floored at zero; a member is alive while health is positive.

use crate::ids::Id;
use crate::resources::Resources;
use crate::stats::Stats;
use vstd::prelude::*;

verus! {

/// Ceiling of `n / d` for a positive divisor, over mathematical integers.
pub open spec fn ceil_div(n: int, d: int) -> int
    recommends
        d > 0,
{
    if n % d == 0 {
        n / d
    } else {
        n / d + 1
    }
}

/// Executable ceiling division; the divisor is positive and the dividend is
/// kept away from `i64::MIN` so negation cannot overflow.
pub fn ceil_div_i64(n: i64, d: i64) -> (r: i64)
    requires
        d > 0,
        n > i64::MIN,
    ensures
        r == ceil_div(n as int, d as int),
        n >= 0 ==> 0 <= r <= n,
        n < 0 ==> n <= r <= 0,
{
    if n >= 0 {
        let q = (n as u64) / (d as u64);
        let rem = (n as u64) % (d as u64);
        proof {
            vstd::arithmetic::div_mod::lemma_fundamental_div_mod(n as int, d as int);
            assert(q <= (d as int) * (q as int)) by (nonlinear_arith)
                requires
                    q >= 0,
                    d >= 1,
            ;
        }
        if rem == 0 {
            q as i64
        } else {
            (q + 1) as i64
        }
    } else {
        let m = (-n) as u64;
        let q = m / (d as u64);
        proof {
            let mi = (-n) as int;
            let di = d as int;
            let r = mi % di;
            let qi = mi / di;
            vstd::arithmetic::div_mod::lemma_fundamental_div_mod(mi, di);
            vstd::arithmetic::div_mod::lemma_mod_bound(mi, di);
            assert(qi <= di * qi) by (nonlinear_arith)
                requires
                    qi >= 0,
                    di >= 1,
            ;
            if r == 0 {
                assert(n as int == (-qi) * di + 0) by (nonlinear_arith)
                    requires
                        mi == di * qi + r,
                        r == 0,
                        n as int == -mi,
                ;
                vstd::arithmetic::div_mod::lemma_fundamental_div_mod_converse(
                    n as int,
                    di,
                    -qi,
                    0,
                );
            } else {
                assert(n as int == (-qi - 1) * di + (di - r)) by (nonlinear_arith)
                    requires
                        mi == di * qi + r,
                        n as int == -mi,
                ;
                vstd::arithmetic::div_mod::lemma_fundamental_div_mod_converse(
                    n as int,
                    di,
                    -qi - 1,
                    di - r,
                );
            }
        }
        -(q as i64)
    }
}

/// The members assigned to the module with the given id, as a filter
/// predicate.
pub open spec fn assigned_pred(mid: Seq<char>) -> spec_fn(CrewMember) -> bool {
    |c: CrewMember| c.spec_assigned_to(mid)
}

/// Members still alive, as a filter predicate.
pub open spec fn alive_pred() -> spec_fn(CrewMember) -> bool {
    |c: CrewMember| c.health > 0
}

/// Members whose health has run out, as a filter predicate.
pub open spec fn dead_pred() -> spec_fn(CrewMember) -> bool {
    |c: CrewMember| !(c.health > 0)
}

/// A passive effect a module can exert on its assigned crew.
pub enum StatusEffect {
    GainStat(Stats),
}

pub struct CrewMember {
    pub id: Id,
    pub stats: Stats,
    pub name: String,
    pub is_hungry: bool,
    pub is_thirsty: bool,
    pub is_tired: bool,
    pub health: i64,
    pub assigned_module: Option<Id>,
    pub assigned_mission: Option<Id>,
}

impl CrewMember {
    /// The mood score derived from the current need flags: a 0..100 comfort
    /// score rescaled to -100..100, so that unmet needs, especially thirst,
    /// weigh in sharply.
    pub open spec fn spec_mood(self) -> int {
        let base = 70 - (if self.is_hungry {
            30int
        } else {
            0int
        }) - (if self.is_thirsty {
            70int
        } else {
            0int
        }) - (if self.is_tired {
            30int
        } else {
            0int
        });
        let clamped = if base < 0 {
            0int
        } else if base > 100 {
            100int
        } else {
            base
        };
        2 * clamped - 100
    }

    /// The mood-scaled marginal bonus for a base fraction `num / den`:
    /// `ceil((num / den) * (1 + mood / 50))`.
    pub open spec fn spec_apply_mood(self, num: int, den: int) -> int {
        ceil_div(num * (50 + self.spec_mood()), den * 50)
    }

    /// The fixed per-turn upkeep of one crew member.
    pub open spec fn spec_upkeep() -> Resources {
        Resources { energy: 0, living_space: 1, minerals: 0, food: 1, water: 1 }
    }

    /// The needs-health step run once per turn: one point of health is lost
    /// for each need flag still raised from the previous turn (floored at
    /// zero), then every flag is raised again.
    pub open spec fn spec_age(self) -> CrewMember {
        let penalty = (if self.is_hungry {
            1int
        } else {
            0int
        }) + (if self.is_thirsty {
            1int
        } else {
            0int
        }) + (if self.is_tired {
            1int
        } else {
            0int
        });
        let h = if self.health - penalty < 0 {
            0int
        } else {
            self.health - penalty
        };
        CrewMember {
            is_hungry: true,
            is_thirsty: true,
            is_tired: true,
            health: h as i64,
            ..self
        }
    }

    pub fn new(name: String) -> (r: CrewMember)
        ensures
            r.id@.len() == 21,
            r.stats == Stats::spec_zero(),
            r.name@ == name@,
            !r.is_hungry,
            !r.is_thirsty,
            !r.is_tired,
            r.health == 5,
            r.assigned_module is None,
            r.assigned_mission is None,
    {
        CrewMember {
            id: Id::fresh(),
            stats: Stats::zero(),
            name,
            is_hungry: false,
            is_thirsty: false,
            is_tired: false,
            health: 5,
            assigned_module: None,
            assigned_mission: None,
        }
    }

    pub fn name(&self) -> (r: &String)
        ensures
            r@ == self.name@,
    {
        &self.name
    }

    pub fn stats(&self) -> (r: &Stats)
        ensures
            *r == self.stats,
    {
        &self.stats
    }

    /// Health on the 0..100 display scale.
    pub fn health(&self) -> (r: i64)
        ensures
            r == crate::resources::sat64(self.health * 20),
    {
        crate::resources::sat_mul(self.health, 20)
    }

    pub fn is_alive(&self) -> (r: bool)
        ensures
            r == (self.health > 0),
    {
        self.health > 0
    }

    pub fn upkeep(&self) -> (r: Resources)
        ensures
            r == CrewMember::spec_upkeep(),
    {
        Resources { energy: 0, living_space: 1, minerals: 0, food: 1, water: 1 }
    }

    pub fn mood(&self) -> (r: i64)
        ensures
            r == self.spec_mood(),
            -100 <= r <= 100,
    {
        let mut m: i64 = 70;
        if self.is_hungry {
            m = m - 30;
        }
        if self.is_thirsty {
            m = m - 70;
        }
        if self.is_tired {
            m = m - 30;
        }
        if m < 0 {
            m = 0;
        }
        if m > 100 {
            m = 100;
        }
        2 * m - 100
    }

    /// Scale a base bonus fraction `num / den` by the current mood.
    pub fn apply_mood(&self, num: i64, den: i64) -> (r: i64)
        requires
            0 < den <= 100,
            -10_000_000_000 < num < 10_000_000_000,
        ensures
            r == self.spec_apply_mood(num as int, den as int),
            -1_600_000_000_000 <= r <= 1_600_000_000_000,
    {
        let mood = self.mood();
        proof {
            assert(-1_600_000_000_000 < num * (50 + mood) < 1_600_000_000_000) by (nonlinear_arith)
                requires
                    -10_000_000_000 < num < 10_000_000_000,
                    -100 <= mood <= 100,
            ;
        }
        ceil_div_i64(num * (50 + mood), den * 50)
    }

    pub fn finish_turn(&mut self)
        ensures
            *final(self) == old(self).spec_age(),
            0 <= final(self).health <= old(self).health || final(self).health == 0,
    {
        let mut penalty: i64 = 0;
        if self.is_hungry {
            penalty = penalty + 1;
        }
        if self.is_thirsty {
            penalty = penalty + 1;
        }
        if self.is_tired {
            penalty = penalty + 1;
        }
        let h = crate::resources::sat_sub(self.health, penalty);
        self.health = if h < 0 {
            0
        } else {
            h
        };
        self.is_hungry = true;
        self.is_thirsty = true;
        self.is_tired = true;
    }

    pub fn eat(&mut self)
        ensures
            *final(self) == (CrewMember { is_hungry: false, ..*old(self) }),
    {
        self.is_hungry = false;
    }

    pub fn drink(&mut self)
        ensures
            *final(self) == (CrewMember { is_thirsty: false, ..*old(self) }),
    {
        self.is_thirsty = false;
    }

    pub fn rest(&mut self)
        ensures
            *final(self) == (CrewMember { is_tired: false, ..*old(self) }),
    {
        self.is_tired = false;
    }

    pub fn assigned_module(&self) -> (r: &Option<Id>)
        ensures
            *r == self.assigned_module,
    {
        &self.assigned_module
    }

    pub fn assign_to_module(&mut self, module_id: &Id)
        ensures
            *final(self) == (CrewMember { assigned_module: Some(*module_id), ..*old(self) }),
    {
        self.assigned_module = Some(module_id.clone());
    }

    pub fn assigned_mission(&self) -> (r: &Option<Id>)
        ensures
            *r == self.assigned_mission,
    {
        &self.assigned_mission
    }

    pub fn assign_to_mission(&mut self, mission_id: &Id)
        ensures
            *final(self) == (CrewMember { assigned_mission: Some(*mission_id), ..*old(self) }),
    {
        self.assigned_mission = Some(mission_id.clone());
    }

    /// Whether this member is assigned to the module with the given id.
    pub open spec fn spec_assigned_to(self, module_id: Seq<char>) -> bool {
        match self.assigned_module {
            Some(m) => m@ == module_id,
            None => false,
        }
    }

    /// Whether this member is assigned to the given module.
    pub fn is_assigned_to_module(&self, module: &crate::modules::Module) -> (r: bool)
        ensures
            r == self.spec_assigned_to(module.sid()),
    {
        match &self.assigned_module {
            Some(mid) => mid.eq_id(crate::store::Entity::id(module)),
            None => false,
        }
    }

    /// Clone an optional id, preserving the value exactly.
    fn clone_opt_id(o: &Option<Id>) -> (r: Option<Id>)
        ensures
            r == *o,
    {
        match o {
            Some(id) => Some(id.clone()),
            None => None,
        }
    }

    pub fn apply_status_effect(&mut self, e: &StatusEffect)
        ensures
            *final(self) == (CrewMember {
                stats: match *e {
                    StatusEffect::GainStat(s) => Stats::spec_add(old(self).stats, s),
                },
                ..*old(self)
            }),
    {
        match e {
            StatusEffect::GainStat(s) => {
                self.stats = self.stats.add(*s);
            },
        }
    }
}

impl crate::store::Entity for CrewMember {
    open spec fn eid(&self) -> Seq<char> {
        self.id@
    }

    fn id(&self) -> (r: &Id)
        ensures
            r@ == self.eid(),
    {
        &self.id
    }
}

impl Clone for CrewMember {
    fn clone(&self) -> (r: Self)
        ensures
            r == *self,
    {
        CrewMember {
            id: self.id.clone(),
            stats: self.stats,
            name: self.name.clone(),
            is_hungry: self.is_hungry,
            is_thirsty: self.is_thirsty,
            is_tired: self.is_tired,
            health: self.health,
            assigned_module: CrewMember::clone_opt_id(&self.assigned_module),
            assigned_mission: CrewMember::clone_opt_id(&self.assigned_mission),
        }
    }
}

} // verus!
