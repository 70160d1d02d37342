//! Records of the populated-systems dataset and the totals reported over it.

use vstd::prelude::*;

verus! {

/// The superpower a system is aligned with.
#[derive(Clone, Copy, Debug, PartialEq, Eq, Structural, PartialOrd, Ord, Hash)]
pub enum Allegiance {
    Independent,
    Federation,
    Empire,
    Alliance,
    PilotsFederation,
}

impl Default for Allegiance {
    fn default() -> (r: Allegiance)
        ensures
            r == Allegiance::Independent,
    {
        Allegiance::Independent
    }
}

/// The form of government of a system.
#[derive(Clone, Copy, Debug, PartialEq, Eq, Structural, PartialOrd, Ord, Hash)]
pub enum Government {
    Anarchy,
    Corporate,
    Confederacy,
    Democracy,
    Communism,
    Patronage,
    Dictatorship,
    Feudal,
    Cooperative,
    Theocracy,
    Prison,
    PrisonColony,
}

impl Default for Government {
    fn default() -> (r: Government)
        ensures
            r == Government::Anarchy,
    {
        Government::Anarchy
    }
}

/// The kind of a station.
#[derive(Clone, Copy, Debug, PartialEq, Eq, Structural, PartialOrd, Ord, Hash)]
pub enum StationType {
    FleetCarrier,
    MegaShip,
    OdysseySettlement,
    PlanetaryOutpost,
    PlanetaryPort,
    Outpost,
    CoriolisStarport,
    OcellusStarport,
    OrbisStarport,
    AsteroidBase,
}

/// A station of a system.
pub struct Station {
    pub id: u32,
    pub market_id: u64,
    pub ty: StationType,
    pub name: String,
    pub have_market: bool,
    pub have_shipyard: bool,
    pub have_outfitting: bool,
}

/// A populated system, with what the totals read of it.
pub struct PopulatedSystem {
    pub id: u64,
    pub name: String,
    pub allegiance: Allegiance,
    pub government: Government,
    pub population: u64,
    pub stations: Vec<Station>,
}

/// The totals reported over a dataset.
#[derive(Clone, Copy, Debug, PartialEq, Eq, Structural)]
pub struct DatasetSummary {
    pub systems: usize,
    pub people: u128,
    pub stations: u128,
    pub fleet_carriers: u128,
}

/// The people living in the systems.
pub open spec fn population_sum(systems: Seq<PopulatedSystem>) -> int
    decreases systems.len(),
{
    if systems.len() == 0 {
        0
    } else {
        population_sum(systems.drop_last()) + systems.last().population
    }
}

/// The stations of all systems.
pub open spec fn station_sum(systems: Seq<PopulatedSystem>) -> int
    decreases systems.len(),
{
    if systems.len() == 0 {
        0
    } else {
        station_sum(systems.drop_last()) + systems.last().stations@.len()
    }
}

/// Stations of kind `ty` among `stations`.
pub open spec fn count_of_type(stations: Seq<Station>, ty: StationType) -> int
    decreases stations.len(),
{
    if stations.len() == 0 {
        0
    } else {
        count_of_type(stations.drop_last(), ty) + if stations.last().ty == ty {
            1int
        } else {
            0int
        }
    }
}

/// Stations of kind `ty` in all systems.
pub open spec fn type_sum(systems: Seq<PopulatedSystem>, ty: StationType) -> int
    decreases systems.len(),
{
    if systems.len() == 0 {
        0
    } else {
        type_sum(systems.drop_last(), ty) + count_of_type(systems.last().stations@, ty)
    }
}

/// Stations of kind `ty` in a list of stations.
fn stations_of_type(stations: &Vec<Station>, ty: StationType) -> (r: usize)
    ensures
        r == count_of_type(stations@, ty),
        r <= stations@.len(),
{
    let mut n: usize = 0;
    let mut i: usize = 0;
    while i < stations.len()
        invariant
            i <= stations@.len(),
            n <= i,
            n == count_of_type(stations@.subrange(0, i as int), ty),
        decreases stations@.len() - i,
    {
        assert(stations@.subrange(0, i + 1).drop_last() =~= stations@.subrange(0, i as int));
        if stations[i].ty == ty {
            n = n + 1;
        }
        i = i + 1;
    }
    assert(stations@.subrange(0, stations@.len() as int) =~= stations@);
    n
}

/// Systems, people, stations and fleet carriers in the dataset.
pub fn summarize(systems: &Vec<PopulatedSystem>) -> (r: DatasetSummary)
    ensures
        r.systems == systems@.len(),
        r.people == population_sum(systems@),
        r.stations == station_sum(systems@),
        r.fleet_carriers == type_sum(systems@, StationType::FleetCarrier),
{
    let mut people: u128 = 0;
    let mut stations: u128 = 0;
    let mut carriers: u128 = 0;
    let mut i: usize = 0;
    while i < systems.len()
        invariant
            i <= systems@.len(),
            people == population_sum(systems@.subrange(0, i as int)),
            stations == station_sum(systems@.subrange(0, i as int)),
            carriers == type_sum(systems@.subrange(0, i as int), StationType::FleetCarrier),
            people <= i * 0xffff_ffff_ffff_ffff,
            stations <= i * 0xffff_ffff_ffff_ffff,
            carriers <= stations,
        decreases systems@.len() - i,
    {
        let s = &systems[i];
        assert(systems@.subrange(0, i + 1).drop_last() =~= systems@.subrange(0, i as int));
        let fleet = stations_of_type(&s.stations, StationType::FleetCarrier);
        assert(i + 1 <= usize::MAX + 1);
        assert((i + 1) * 0xffff_ffff_ffff_ffff <= 0x1_0000_0000_0000_0000 * 0xffff_ffff_ffff_ffff)
            by (nonlinear_arith)
            requires
                i + 1 <= 0x1_0000_0000_0000_0000,
        ;
        assert(i * 0xffff_ffff_ffff_ffff + 0xffff_ffff_ffff_ffff == (i + 1) * 0xffff_ffff_ffff_ffff)
            by (nonlinear_arith);
        people = people + s.population as u128;
        stations = stations + s.stations.len() as u128;
        carriers = carriers + fleet as u128;
        i = i + 1;
    }
    assert(systems@.subrange(0, systems@.len() as int) =~= systems@);
    DatasetSummary { systems: systems.len(), people, stations, fleet_carriers: carriers }
}

} // verus!
