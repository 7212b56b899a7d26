//! The six-skill additive competence value type for crew members.

use vstd::prelude::*;

verus! {

/// Clamp a mathematical integer into the `i32` range.
pub open spec fn sat32(x: int) -> i32 {
    if x > i32::MAX {
        i32::MAX
    } else if x < i32::MIN {
        i32::MIN
    } else {
        x as i32
    }
}

/// `i32` addition that saturates at the ends of the range.
pub fn sat_add32(a: i32, b: i32) -> (r: i32)
    ensures
        r == sat32(a + b),
{
    match a.checked_add(b) {
        Some(v) => v,
        None => {
            if a >= 0 {
                i32::MAX
            } else {
                i32::MIN
            }
        },
    }
}

#[derive(Clone, Copy, Debug, PartialEq, Eq, Structural)]
pub struct Stats {
    pub biology: i32,
    pub chemistry: i32,
    pub engineering: i32,
    pub geology: i32,
    pub astrophysics: i32,
    pub military: i32,
}

impl Stats {
    /// Pointwise saturating sum.
    pub open spec fn spec_add(a: Stats, b: Stats) -> Stats {
        Stats {
            biology: sat32(a.biology + b.biology),
            chemistry: sat32(a.chemistry + b.chemistry),
            engineering: sat32(a.engineering + b.engineering),
            geology: sat32(a.geology + b.geology),
            astrophysics: sat32(a.astrophysics + b.astrophysics),
            military: sat32(a.military + b.military),
        }
    }

    /// The all-zero skill set.
    pub open spec fn spec_zero() -> Stats {
        Stats { biology: 0, chemistry: 0, engineering: 0, geology: 0, astrophysics: 0, military: 0 }
    }

    pub fn zero() -> (r: Stats)
        ensures
            r == (Stats {
                biology: 0,
                chemistry: 0,
                engineering: 0,
                geology: 0,
                astrophysics: 0,
                military: 0,
            }),
    {
        Stats { biology: 0, chemistry: 0, engineering: 0, geology: 0, astrophysics: 0, military: 0 }
    }

    pub fn biology(biology: i32) -> (r: Stats)
        ensures
            r == (Stats {
                biology,
                chemistry: 0,
                engineering: 0,
                geology: 0,
                astrophysics: 0,
                military: 0,
            }),
    {
        Stats { biology, chemistry: 0, engineering: 0, geology: 0, astrophysics: 0, military: 0 }
    }

    pub fn chemistry(chemistry: i32) -> (r: Stats)
        ensures
            r == (Stats {
                biology: 0,
                chemistry,
                engineering: 0,
                geology: 0,
                astrophysics: 0,
                military: 0,
            }),
    {
        Stats { biology: 0, chemistry, engineering: 0, geology: 0, astrophysics: 0, military: 0 }
    }

    pub fn engineering(engineering: i32) -> (r: Stats)
        ensures
            r == (Stats {
                biology: 0,
                chemistry: 0,
                engineering,
                geology: 0,
                astrophysics: 0,
                military: 0,
            }),
    {
        Stats { biology: 0, chemistry: 0, engineering, geology: 0, astrophysics: 0, military: 0 }
    }

    pub fn geology(geology: i32) -> (r: Stats)
        ensures
            r == (Stats {
                biology: 0,
                chemistry: 0,
                engineering: 0,
                geology,
                astrophysics: 0,
                military: 0,
            }),
    {
        Stats { biology: 0, chemistry: 0, engineering: 0, geology, astrophysics: 0, military: 0 }
    }

    pub fn astrophysics(astrophysics: i32) -> (r: Stats)
        ensures
            r == (Stats {
                biology: 0,
                chemistry: 0,
                engineering: 0,
                geology: 0,
                astrophysics,
                military: 0,
            }),
    {
        Stats { biology: 0, chemistry: 0, engineering: 0, geology: 0, astrophysics, military: 0 }
    }

    pub fn military(military: i32) -> (r: Stats)
        ensures
            r == (Stats {
                biology: 0,
                chemistry: 0,
                engineering: 0,
                geology: 0,
                astrophysics: 0,
                military,
            }),
    {
        Stats { biology: 0, chemistry: 0, engineering: 0, geology: 0, astrophysics: 0, military }
    }

    pub fn add(self, other: Stats) -> (r: Stats)
        ensures
            r == Stats::spec_add(self, other),
    {
        Stats {
            biology: sat_add32(self.biology, other.biology),
            chemistry: sat_add32(self.chemistry, other.chemistry),
            engineering: sat_add32(self.engineering, other.engineering),
            geology: sat_add32(self.geology, other.geology),
            astrophysics: sat_add32(self.astrophysics, other.astrophysics),
            military: sat_add32(self.military, other.military),
        }
    }

    pub fn add_assign(&mut self, other: Stats)
        ensures
            *final(self) == Stats::spec_add(*old(self), other),
    {
        *self = self.add(other);
    }
}

} // verus!
