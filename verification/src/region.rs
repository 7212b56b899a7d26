//! The legacy region grid: a fixed 3x3 map of cosmetic sectors kept for the
//! earlier overview screen. It carries no per-turn behaviour.

use vstd::prelude::*;

verus! {

#[derive(Clone, Copy, Debug, PartialEq, Eq, Structural)]
pub enum SectorType {
    EmptySpace,
    SolarSystem,
    GasCloud,
    StellarRift,
}

#[derive(Clone, Copy, Debug, PartialEq, Eq, Structural)]
pub struct Sector {
    pub sector_type: SectorType,
}

impl Sector {
    pub fn new(sector_type: SectorType) -> (r: Sector)
        ensures
            r.sector_type == sector_type,
    {
        Sector { sector_type }
    }
}

pub struct Region {
    pub sectors: Vec<((i32, i32), Sector)>,
}

impl Region {
    /// The fixed starter grid.
    pub fn new() -> (r: Region)
        ensures
            r.sectors@.len() == 9,
            r.sectors@[0] == (((-1i32, -1i32), Sector { sector_type: SectorType::StellarRift })),
            r.sectors@[1] == (((0i32, -1i32), Sector { sector_type: SectorType::SolarSystem })),
            r.sectors@[2] == (((1i32, -1i32), Sector { sector_type: SectorType::StellarRift })),
            r.sectors@[3] == (((-1i32, 0i32), Sector { sector_type: SectorType::EmptySpace })),
            r.sectors@[4] == (((0i32, 0i32), Sector { sector_type: SectorType::SolarSystem })),
            r.sectors@[5] == (((1i32, 0i32), Sector { sector_type: SectorType::EmptySpace })),
            r.sectors@[6] == (((-1i32, 1i32), Sector { sector_type: SectorType::StellarRift })),
            r.sectors@[7] == (((0i32, 1i32), Sector { sector_type: SectorType::SolarSystem })),
            r.sectors@[8] == (((1i32, 1i32), Sector { sector_type: SectorType::EmptySpace })),
    {
        let mut sectors: Vec<((i32, i32), Sector)> = Vec::new();
        sectors.push(((-1, -1), Sector::new(SectorType::StellarRift)));
        sectors.push(((0, -1), Sector::new(SectorType::SolarSystem)));
        sectors.push(((1, -1), Sector::new(SectorType::StellarRift)));
        sectors.push(((-1, 0), Sector::new(SectorType::EmptySpace)));
        sectors.push(((0, 0), Sector::new(SectorType::SolarSystem)));
        sectors.push(((1, 0), Sector::new(SectorType::EmptySpace)));
        sectors.push(((-1, 1), Sector::new(SectorType::StellarRift)));
        sectors.push(((0, 1), Sector::new(SectorType::SolarSystem)));
        sectors.push(((1, 1), Sector::new(SectorType::EmptySpace)));
        Region { sectors }
    }

    /// The region holds no per-turn state.
    pub fn finish_turn(&mut self)
        ensures
            *final(self) == *old(self),
    {
    }
}

} // verus!
