use crate::text::str_eq;
use vstd::prelude::*;
use vstd::string::*;

verus! {

/// A circuit known to the simulator.
#[derive(Debug, Clone, Copy, PartialEq, Eq, Structural)]
pub enum TrackName {
    Barcelona,
    BrandsHatch,
    Cota,
    Donington,
    Hungaroring,
    Imola,
    Indianapolis,
    Kyalami,
    LagunaSeca,
    Misano,
    Monza,
    MountPanorama,
    Nurburgring,
    Nurburgring24h,
    OultonPark,
    PaulRicard,
    RedBullRing,
    Silverstone,
    Snetterton,
    Spa,
    Suzuka,
    Valencia,
    WatkinsGlen,
    Zandvoort,
    Zolder,
}

impl TrackName {
    /// The identifier under which the simulator reports the circuit.
    pub open spec fn identifier(self) -> Seq<char> {
        match self {
            TrackName::Barcelona => "barcelona"@,
            TrackName::BrandsHatch => "brands_hatch"@,
            TrackName::Cota => "cota"@,
            TrackName::Donington => "donington"@,
            TrackName::Hungaroring => "hungaroring"@,
            TrackName::Imola => "imola"@,
            TrackName::Indianapolis => "indianapolis"@,
            TrackName::Kyalami => "kyalami"@,
            TrackName::LagunaSeca => "laguna_seca"@,
            TrackName::Misano => "misano"@,
            TrackName::Monza => "monza"@,
            TrackName::MountPanorama => "mount_panorama"@,
            TrackName::Nurburgring => "nurburgring"@,
            TrackName::Nurburgring24h => "nurburgring_24h"@,
            TrackName::OultonPark => "oulton_park"@,
            TrackName::PaulRicard => "paul_ricard"@,
            TrackName::RedBullRing => "red_bull_ring"@,
            TrackName::Silverstone => "silverstone"@,
            TrackName::Snetterton => "snetterton"@,
            TrackName::Spa => "spa"@,
            TrackName::Suzuka => "suzuka"@,
            TrackName::Valencia => "valencia"@,
            TrackName::WatkinsGlen => "watkins_glen"@,
            TrackName::Zandvoort => "zandvoort"@,
            TrackName::Zolder => "zolder"@,
        }
    }

    /// The name of the circuit as shown to people.
    pub open spec fn label(self) -> Seq<char> {
        match self {
            TrackName::Barcelona => "Barcelona"@,
            TrackName::BrandsHatch => "Brands Hatch"@,
            TrackName::Cota => "Circuit of the Americas"@,
            TrackName::Donington => "Donington"@,
            TrackName::Hungaroring => "Hungaroring"@,
            TrackName::Imola => "Imola"@,
            TrackName::Indianapolis => "Indianapolis Motor Speedway"@,
            TrackName::Kyalami => "Kyalami"@,
            TrackName::LagunaSeca => "Laguna Seca"@,
            TrackName::Misano => "Misano"@,
            TrackName::Monza => "Monza"@,
            TrackName::MountPanorama => "Mount Panorama"@,
            TrackName::Nurburgring => "Nürburgring GP"@,
            TrackName::Nurburgring24h => "Nürburgring GP 24 hours"@,
            TrackName::OultonPark => "Oulton Park"@,
            TrackName::PaulRicard => "Paul Ricard"@,
            TrackName::RedBullRing => "RedBull Ring"@,
            TrackName::Silverstone => "Silverstone"@,
            TrackName::Snetterton => "Snetterton"@,
            TrackName::Spa => "Spa"@,
            TrackName::Suzuka => "Suzuka"@,
            TrackName::Valencia => "Valencia"@,
            TrackName::WatkinsGlen => "Watkins Glen"@,
            TrackName::Zandvoort => "Zandvoort"@,
            TrackName::Zolder => "Zolder"@,
        }
    }

    /// Looks a circuit up by the identifier that the simulator reports. The
    /// identifier is matched letter for letter, capitals included; an unknown
    /// one is refused.
    pub fn from_str(s: &str) -> (parsed: Result<TrackName, ()>)
        ensures
            match parsed {
                Ok(track) => track.identifier() == s@,
                Err(_) => forall|track: TrackName| track.identifier() != s@,
            },
            forall|track: TrackName|
                track.identifier() == s@ ==> parsed == Ok::<TrackName, ()>(track),
    {
        let parsed = if str_eq(s, "barcelona") {
            Ok(TrackName::Barcelona)
        } else if str_eq(s, "brands_hatch") {
            Ok(TrackName::BrandsHatch)
        } else if str_eq(s, "cota") {
            Ok(TrackName::Cota)
        } else if str_eq(s, "donington") {
            Ok(TrackName::Donington)
        } else if str_eq(s, "hungaroring") {
            Ok(TrackName::Hungaroring)
        } else if str_eq(s, "imola") {
            Ok(TrackName::Imola)
        } else if str_eq(s, "indianapolis") {
            Ok(TrackName::Indianapolis)
        } else if str_eq(s, "kyalami") {
            Ok(TrackName::Kyalami)
        } else if str_eq(s, "laguna_seca") {
            Ok(TrackName::LagunaSeca)
        } else if str_eq(s, "misano") {
            Ok(TrackName::Misano)
        } else if str_eq(s, "monza") {
            Ok(TrackName::Monza)
        } else if str_eq(s, "mount_panorama") {
            Ok(TrackName::MountPanorama)
        } else if str_eq(s, "nurburgring") {
            Ok(TrackName::Nurburgring)
        } else if str_eq(s, "nurburgring_24h") {
            Ok(TrackName::Nurburgring24h)
        } else if str_eq(s, "oulton_park") {
            Ok(TrackName::OultonPark)
        } else if str_eq(s, "paul_ricard") {
            Ok(TrackName::PaulRicard)
        } else if str_eq(s, "red_bull_ring") {
            Ok(TrackName::RedBullRing)
        } else if str_eq(s, "silverstone") {
            Ok(TrackName::Silverstone)
        } else if str_eq(s, "snetterton") {
            Ok(TrackName::Snetterton)
        } else if str_eq(s, "spa") {
            Ok(TrackName::Spa)
        } else if str_eq(s, "suzuka") {
            Ok(TrackName::Suzuka)
        } else if str_eq(s, "valencia") {
            Ok(TrackName::Valencia)
        } else if str_eq(s, "watkins_glen") {
            Ok(TrackName::WatkinsGlen)
        } else if str_eq(s, "zandvoort") {
            Ok(TrackName::Zandvoort)
        } else if str_eq(s, "zolder") {
            Ok(TrackName::Zolder)
        } else {
            Err(())
        };
        proof {
            assert forall|other: TrackName| other.identifier() == s@ implies parsed
                == Ok::<TrackName, ()>(other) by {
                match parsed {
                    Ok(one) => lemma_track_identifiers_distinct(one, other),
                    _ => {},
                }
            }
        }
        parsed
    }

    /// The name of the circuit as shown to people.
    pub fn as_str(&self) -> (label: &'static str)
        ensures
            label@ == self.label(),
    {
        match self {
            TrackName::Barcelona => "Barcelona",
            TrackName::BrandsHatch => "Brands Hatch",
            TrackName::Cota => "Circuit of the Americas",
            TrackName::Donington => "Donington",
            TrackName::Hungaroring => "Hungaroring",
            TrackName::Imola => "Imola",
            TrackName::Indianapolis => "Indianapolis Motor Speedway",
            TrackName::Kyalami => "Kyalami",
            TrackName::LagunaSeca => "Laguna Seca",
            TrackName::Misano => "Misano",
            TrackName::Monza => "Monza",
            TrackName::MountPanorama => "Mount Panorama",
            TrackName::Nurburgring => "Nürburgring GP",
            TrackName::Nurburgring24h => "Nürburgring GP 24 hours",
            TrackName::OultonPark => "Oulton Park",
            TrackName::PaulRicard => "Paul Ricard",
            TrackName::RedBullRing => "RedBull Ring",
            TrackName::Silverstone => "Silverstone",
            TrackName::Snetterton => "Snetterton",
            TrackName::Spa => "Spa",
            TrackName::Suzuka => "Suzuka",
            TrackName::Valencia => "Valencia",
            TrackName::WatkinsGlen => "Watkins Glen",
            TrackName::Zandvoort => "Zandvoort",
            TrackName::Zolder => "Zolder",
        }
    }

    /// The name of the circuit as shown to people, as an owned string.
    pub fn to_string(&self) -> (label: String)
        ensures
            label@ == self.label(),
    {
        String::from_str(self.as_str())
    }
}

/// No two circuits share an identifier, so an identifier names at most one
/// circuit.
pub proof fn lemma_track_identifiers_distinct(a: TrackName, b: TrackName)
    requires
        a.identifier() == b.identifier(),
    ensures
        a == b,
{
    reveal_strlit("barcelona");
    reveal_strlit("brands_hatch");
    reveal_strlit("cota");
    reveal_strlit("donington");
    reveal_strlit("hungaroring");
    reveal_strlit("imola");
    reveal_strlit("indianapolis");
    reveal_strlit("kyalami");
    reveal_strlit("laguna_seca");
    reveal_strlit("misano");
    reveal_strlit("monza");
    reveal_strlit("mount_panorama");
    reveal_strlit("nurburgring");
    reveal_strlit("nurburgring_24h");
    reveal_strlit("oulton_park");
    reveal_strlit("paul_ricard");
    reveal_strlit("red_bull_ring");
    reveal_strlit("silverstone");
    reveal_strlit("snetterton");
    reveal_strlit("spa");
    reveal_strlit("suzuka");
    reveal_strlit("valencia");
    reveal_strlit("watkins_glen");
    reveal_strlit("zandvoort");
    reveal_strlit("zolder");
    // Equal texts agree in length and at every place. Naming the places
    // brings in what each text holds there, and two different texts differ
    // in length or at one of them.
    let x = a.identifier();
    let y = b.identifier();
    assert(x.len() == y.len());
    assert(x[0] == y[0]);
    assert(x[1] == y[1]);
    assert(x[2] == y[2]);
    assert(x[3] == y[3]);
    assert(x[4] == y[4]);
    assert(x[5] == y[5]);
    assert(x[6] == y[6]);
    assert(x[7] == y[7]);
    assert(x[8] == y[8]);
    assert(x[9] == y[9]);
    assert(x[10] == y[10]);
    assert(x[11] == y[11]);
    assert(x[12] == y[12]);
    assert(x[13] == y[13]);
    assert(x[14] == y[14]);
}

} // verus!
