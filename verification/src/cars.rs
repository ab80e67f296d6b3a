use crate::text::str_eq;
use vstd::prelude::*;
use vstd::string::*;

verus! {

/// The competition class of a car.
#[derive(Debug, Clone, Copy, PartialEq, Eq, Structural)]
pub enum CarCategory {
    CUP,
    ST,
    CHL,
    TCX,
    GT3,
    GT4,
    GT2,
}

impl CarCategory {
    /// The code of the class, as the record store spells it.
    pub open spec fn code(self) -> Seq<char> {
        match self {
            CarCategory::CUP => "CUP"@,
            CarCategory::ST => "ST"@,
            CarCategory::CHL => "CHL"@,
            CarCategory::TCX => "TCX"@,
            CarCategory::GT3 => "GT3"@,
            CarCategory::GT4 => "GT4"@,
            CarCategory::GT2 => "GT2"@,
        }
    }

    /// The code of the class.
    pub fn as_str(&self) -> (code: &'static str)
        ensures
            code@ == self.code(),
    {
        match self {
            CarCategory::CUP => "CUP",
            CarCategory::ST => "ST",
            CarCategory::CHL => "CHL",
            CarCategory::TCX => "TCX",
            CarCategory::GT3 => "GT3",
            CarCategory::GT4 => "GT4",
            CarCategory::GT2 => "GT2",
        }
    }

    /// The code of the class, as an owned string.
    pub fn to_string(&self) -> (code: String)
        ensures
            code@ == self.code(),
    {
        String::from_str(self.as_str())
    }

    /// Reads a class from its code. The code is matched letter for letter;
    /// anything that is no class code is refused.
    pub fn from_str(s: &str) -> (parsed: Result<CarCategory, ()>)
        ensures
            match parsed {
                Ok(category) => category.code() == s@,
                Err(_) => forall|category: CarCategory| category.code() != s@,
            },
            forall|category: CarCategory|
                category.code() == s@ ==> parsed == Ok::<CarCategory, ()>(category),
    {
        let parsed = if str_eq(s, "CUP") {
            Ok(CarCategory::CUP)
        } else if str_eq(s, "ST") {
            Ok(CarCategory::ST)
        } else if str_eq(s, "CHL") {
            Ok(CarCategory::CHL)
        } else if str_eq(s, "TCX") {
            Ok(CarCategory::TCX)
        } else if str_eq(s, "GT3") {
            Ok(CarCategory::GT3)
        } else if str_eq(s, "GT4") {
            Ok(CarCategory::GT4)
        } else if str_eq(s, "GT2") {
            Ok(CarCategory::GT2)
        } else {
            Err(())
        };
        proof {
            assert forall|other: CarCategory| other.code() == s@ implies parsed
                == Ok::<CarCategory, ()>(other) by {
                match parsed {
                    Ok(one) => lemma_category_codes_distinct(one, other),
                    _ => {},
                }
            }
        }
        parsed
    }
}

/// No two classes share a code, so a code names at most one class.
pub proof fn lemma_category_codes_distinct(a: CarCategory, b: CarCategory)
    requires
        a.code() == b.code(),
    ensures
        a == b,
{
    reveal_strlit("CUP");
    reveal_strlit("ST");
    reveal_strlit("CHL");
    reveal_strlit("TCX");
    reveal_strlit("GT3");
    reveal_strlit("GT4");
    reveal_strlit("GT2");
    // Equal texts agree in length and at every place. Naming the places
    // brings in what each text holds there, and two different texts differ
    // in length or at one of them.
    let x = a.code();
    let y = b.code();
    assert(x.len() == y.len());
    assert(x[0] == y[0]);
    assert(x[1] == y[1]);
    assert(x[2] == y[2]);
}

/// A car model known to the simulator.
#[derive(Debug, Clone, Copy, PartialEq, Eq, Structural)]
pub enum CarName {
    Porsche991iiGt3Cup,
    Porsche992Gt3Cup,
    LamborghiniHuracanSt,
    LamborghiniHuracanStEvo2,
    Ferrari488ChallengeEvo,
    BmwM2CsRacing,
    AmrV12VantageGt3,
    AmrV8VantageGt3,
    AudiR8Lms,
    AudiR8LmsEvo,
    AudiR8LmsEvoIi,
    BentleyContinentalGt32016,
    BentleyContinentalGt32018,
    BmwM4Gt3,
    BmwM6Gt3,
    JaguarG3,
    Ferrari296Gt3,
    Ferrari488Gt3,
    Ferrari488Gt3Evo,
    FordMustangGt3,
    HondaNsxGt3,
    HondaNsxGt3Evo,
    LamborghiniHuracanGt3,
    LamborghiniHuracanGt3Evo,
    LamborghiniHuracanGt3Evo2,
    LexusRcFGt3,
    Mclaren650sGt3,
    Mclaren720sGt3,
    Mclaren720sGt3Evo,
    MercedesAmgGt3,
    MercedesAmgGt3Evo,
    NissanGtRGt32017,
    NissanGtRGt32018,
    Porsche991Gt3R,
    Porsche991iiGt3R,
    Porsche992Gt3R,
    LamborghiniGallardoRex,
    AlpineA110Gt4,
    AmrV8VantageGt4,
    AudiR8Gt4,
    BmwM4Gt4,
    ChevroletCamaroGt4r,
    GinettaG55Gt4,
    KtmXbowGt4,
    MaseratiMcGt4,
    Mclaren570sGt4,
    MercedesAmgGt4,
    Porsche718CaymanGt4Mr,
    AudiR8LmsGt2,
    KtmXbowGt2,
    MaseratiMc20Gt2,
    MercedesAmgGt2,
    Porsche935,
    Porsche991Gt2RsMr,
}

impl CarName {
    /// The identifier under which the simulator reports the model.
    pub open spec fn identifier(self) -> Seq<char> {
        match self {
            CarName::Porsche991iiGt3Cup => "porsche_991ii_gt3_cup"@,
            CarName::Porsche992Gt3Cup => "porsche_992_gt3_cup"@,
            CarName::LamborghiniHuracanSt => "lamborghini_huracan_st"@,
            CarName::LamborghiniHuracanStEvo2 => "lamborghini_huracan_st_evo2"@,
            CarName::Ferrari488ChallengeEvo => "ferrari_488_challenge_evo"@,
            CarName::BmwM2CsRacing => "bmw_m2_cs_racing"@,
            CarName::AmrV12VantageGt3 => "amr_v12_vantage_gt3"@,
            CarName::AmrV8VantageGt3 => "amr_v8_vantage_gt3"@,
            CarName::AudiR8Lms => "audi_r8_lms"@,
            CarName::AudiR8LmsEvo => "audi_r8_lms_evo"@,
            CarName::AudiR8LmsEvoIi => "audi_r8_lms_evo_ii"@,
            CarName::BentleyContinentalGt32016 => "bentley_continental_gt3_2016"@,
            CarName::BentleyContinentalGt32018 => "bentley_continental_gt3_2018"@,
            CarName::BmwM4Gt3 => "bmw_m4_gt3"@,
            CarName::BmwM6Gt3 => "bmw_m6_gt3"@,
            CarName::JaguarG3 => "jaguar_g3"@,
            CarName::Ferrari296Gt3 => "ferrari_296_gt3"@,
            CarName::Ferrari488Gt3 => "ferrari_488_gt3"@,
            CarName::Ferrari488Gt3Evo => "ferrari_488_gt3_evo"@,
            CarName::FordMustangGt3 => "ford_mustang_gt3"@,
            CarName::HondaNsxGt3 => "honda_nsx_gt3"@,
            CarName::HondaNsxGt3Evo => "honda_nsx_gt3_evo"@,
            CarName::LamborghiniHuracanGt3 => "lamborghini_huracan_gt3"@,
            CarName::LamborghiniHuracanGt3Evo => "lamborghini_huracan_gt3_evo"@,
            CarName::LamborghiniHuracanGt3Evo2 => "lamborghini_huracan_gt3_evo2"@,
            CarName::LexusRcFGt3 => "lexus_rc_f_gt3"@,
            CarName::Mclaren650sGt3 => "mclaren_650s_gt3"@,
            CarName::Mclaren720sGt3 => "mclaren_720s_gt3"@,
            CarName::Mclaren720sGt3Evo => "mclaren_720s_gt3_evo"@,
            CarName::MercedesAmgGt3 => "mercedes_amg_gt3"@,
            CarName::MercedesAmgGt3Evo => "mercedes_amg_gt3_evo"@,
            CarName::NissanGtRGt32017 => "nissan_gt_r_gt3_2017"@,
            CarName::NissanGtRGt32018 => "nissan_gt_r_gt3_2018"@,
            CarName::Porsche991Gt3R => "porsche_991_gt3_r"@,
            CarName::Porsche991iiGt3R => "porsche_991ii_gt3_r"@,
            CarName::Porsche992Gt3R => "porsche_992_gt3_r"@,
            CarName::LamborghiniGallardoRex => "lamborghini_gallardo_rex"@,
            CarName::AlpineA110Gt4 => "alpine_a110_gt4"@,
            CarName::AmrV8VantageGt4 => "amr_v8_vantage_gt4"@,
            CarName::AudiR8Gt4 => "audi_r8_gt4"@,
            CarName::BmwM4Gt4 => "bmw_m4_gt4"@,
            CarName::ChevroletCamaroGt4r => "chevrolet_camaro_gt4r"@,
            CarName::GinettaG55Gt4 => "ginetta_g55_gt4"@,
            CarName::KtmXbowGt4 => "ktm_xbow_gt4"@,
            CarName::MaseratiMcGt4 => "maserati_mc_gt4"@,
            CarName::Mclaren570sGt4 => "mclaren_570s_gt4"@,
            CarName::MercedesAmgGt4 => "mercedes_amg_gt4"@,
            CarName::Porsche718CaymanGt4Mr => "porsche_718_cayman_gt4_mr"@,
            CarName::AudiR8LmsGt2 => "audi_r8_lms_gt2"@,
            CarName::KtmXbowGt2 => "ktm_xbow_gt2"@,
            CarName::MaseratiMc20Gt2 => "maserati_mc20_gt2"@,
            CarName::MercedesAmgGt2 => "mercedes_amg_gt2"@,
            CarName::Porsche935 => "porsche_935"@,
            CarName::Porsche991Gt2RsMr => "porsche_991_gt2_rs_mr"@,
        }
    }

    /// The name of the model as shown to people.
    pub open spec fn label(self) -> Seq<char> {
        match self {
            CarName::Porsche991iiGt3Cup => "Porsche 991 II GT3 Cup"@,
            CarName::Porsche992Gt3Cup => "Porsche 992 GT3 Cup"@,
            CarName::LamborghiniHuracanSt => "Lamborghini Huracan ST"@,
            CarName::LamborghiniHuracanStEvo2 => "Lamborghini Huracan ST Evo2"@,
            CarName::Ferrari488ChallengeEvo => "Ferrari 488 Challenge Evo"@,
            CarName::BmwM2CsRacing => "BMW M2 CS Racing"@,
            CarName::AmrV12VantageGt3 => "AMR V12 Vantage GT3"@,
            CarName::AmrV8VantageGt3 => "AMR V8 Vantage GT3"@,
            CarName::AudiR8Lms => "Audi R8 LMS"@,
            CarName::AudiR8LmsEvo => "Audi R8 LMS Evo"@,
            CarName::AudiR8LmsEvoIi => "Audi R8 LMS Evo II"@,
            CarName::BentleyContinentalGt32016 => "Bentley Continental GT3 2016"@,
            CarName::BentleyContinentalGt32018 => "Bentley Continental GT3 2018"@,
            CarName::BmwM4Gt3 => "BMW M4 GT3"@,
            CarName::BmwM6Gt3 => "BMW M6 GT3"@,
            CarName::JaguarG3 => "Jaguar G3"@,
            CarName::Ferrari296Gt3 => "Ferrari 296 GT3"@,
            CarName::Ferrari488Gt3 => "Ferrari 488 GT3"@,
            CarName::Ferrari488Gt3Evo => "Ferrari 488 GT3 Evo"@,
            CarName::FordMustangGt3 => "Ford Mustang GT3"@,
            CarName::HondaNsxGt3 => "Honda NSX GT3"@,
            CarName::HondaNsxGt3Evo => "Honda NSX GT3 Evo"@,
            CarName::LamborghiniHuracanGt3 => "Lamborghini Huracan GT3"@,
            CarName::LamborghiniHuracanGt3Evo => "Lamborghini Huracan GT3 Evo"@,
            CarName::LamborghiniHuracanGt3Evo2 => "Lamborghini Huracan GT3 Evo2"@,
            CarName::LexusRcFGt3 => "Lexus RC F GT3"@,
            CarName::Mclaren650sGt3 => "McLaren 650S GT3"@,
            CarName::Mclaren720sGt3 => "McLaren 720S GT3"@,
            CarName::Mclaren720sGt3Evo => "McLaren 720S GT3 Evo"@,
            CarName::MercedesAmgGt3 => "Mercedes AMG GT3"@,
            CarName::MercedesAmgGt3Evo => "Mercedes AMG GT3 Evo"@,
            CarName::NissanGtRGt32017 => "Nissan GT-R GT3 2017"@,
            CarName::NissanGtRGt32018 => "Nissan GT-R GT3 2018"@,
            CarName::Porsche991Gt3R => "Porsche 991 GT3 R"@,
            CarName::Porsche991iiGt3R => "Porsche 991 II GT3 R"@,
            CarName::Porsche992Gt3R => "Porsche 992 GT3 R"@,
            CarName::LamborghiniGallardoRex => "Lamborghini Gallardo R-EX"@,
            CarName::AlpineA110Gt4 => "Alpine A110 GT4"@,
            CarName::AmrV8VantageGt4 => "AMR V8 Vantage GT4"@,
            CarName::AudiR8Gt4 => "Audi R8 GT4"@,
            CarName::BmwM4Gt4 => "BMW M4 GT4"@,
            CarName::ChevroletCamaroGt4r => "Chevrolet Camaro GT4R"@,
            CarName::GinettaG55Gt4 => "Ginetta G55 GT4"@,
            CarName::KtmXbowGt4 => "KTM X-Bow GT4"@,
            CarName::MaseratiMcGt4 => "Maserati MC GT4"@,
            CarName::Mclaren570sGt4 => "McLaren 570S GT4"@,
            CarName::MercedesAmgGt4 => "Mercedes AMG GT4"@,
            CarName::Porsche718CaymanGt4Mr => "Porsche 718 Cayman GT4 MR"@,
            CarName::AudiR8LmsGt2 => "Audi R8 LMS GT2"@,
            CarName::KtmXbowGt2 => "KTM X-Bow GT2"@,
            CarName::MaseratiMc20Gt2 => "Maserati MC20 GT2"@,
            CarName::MercedesAmgGt2 => "Mercedes AMG GT2"@,
            CarName::Porsche935 => "Porsche 935"@,
            CarName::Porsche991Gt2RsMr => "Porsche 991 GT2 RS MR"@,
        }
    }

    /// The competition class that the model races in.
    pub open spec fn category(self) -> CarCategory {
        match self {
            CarName::Porsche991iiGt3Cup
            | CarName::Porsche992Gt3Cup => CarCategory::CUP,
            CarName::LamborghiniHuracanSt
            | CarName::LamborghiniHuracanStEvo2 => CarCategory::ST,
            CarName::Ferrari488ChallengeEvo => CarCategory::CHL,
            CarName::BmwM2CsRacing => CarCategory::TCX,
            CarName::AmrV12VantageGt3
            | CarName::AmrV8VantageGt3
            | CarName::AudiR8Lms
            | CarName::AudiR8LmsEvo
            | CarName::AudiR8LmsEvoIi
            | CarName::BentleyContinentalGt32016
            | CarName::BentleyContinentalGt32018
            | CarName::BmwM4Gt3
            | CarName::BmwM6Gt3
            | CarName::JaguarG3
            | CarName::Ferrari296Gt3
            | CarName::Ferrari488Gt3
            | CarName::Ferrari488Gt3Evo
            | CarName::FordMustangGt3
            | CarName::HondaNsxGt3
            | CarName::HondaNsxGt3Evo
            | CarName::LamborghiniHuracanGt3
            | CarName::LamborghiniHuracanGt3Evo
            | CarName::LamborghiniHuracanGt3Evo2
            | CarName::LexusRcFGt3
            | CarName::Mclaren650sGt3
            | CarName::Mclaren720sGt3
            | CarName::Mclaren720sGt3Evo
            | CarName::MercedesAmgGt3
            | CarName::MercedesAmgGt3Evo
            | CarName::NissanGtRGt32017
            | CarName::NissanGtRGt32018
            | CarName::Porsche991Gt3R
            | CarName::Porsche991iiGt3R
            | CarName::Porsche992Gt3R
            | CarName::LamborghiniGallardoRex => CarCategory::GT3,
            CarName::AlpineA110Gt4
            | CarName::AmrV8VantageGt4
            | CarName::AudiR8Gt4
            | CarName::BmwM4Gt4
            | CarName::ChevroletCamaroGt4r
            | CarName::GinettaG55Gt4
            | CarName::KtmXbowGt4
            | CarName::MaseratiMcGt4
            | CarName::Mclaren570sGt4
            | CarName::MercedesAmgGt4
            | CarName::Porsche718CaymanGt4Mr => CarCategory::GT4,
            CarName::AudiR8LmsGt2
            | CarName::KtmXbowGt2
            | CarName::MaseratiMc20Gt2
            | CarName::MercedesAmgGt2
            | CarName::Porsche935
            | CarName::Porsche991Gt2RsMr => CarCategory::GT2,
        }
    }

    /// The competition class that the model races in.
    pub fn get_car_category(&self) -> (category: CarCategory)
        ensures
            category == self.category(),
    {
        match self {
            CarName::Porsche991iiGt3Cup
            | CarName::Porsche992Gt3Cup => CarCategory::CUP,
            CarName::LamborghiniHuracanSt
            | CarName::LamborghiniHuracanStEvo2 => CarCategory::ST,
            CarName::Ferrari488ChallengeEvo => CarCategory::CHL,
            CarName::BmwM2CsRacing => CarCategory::TCX,
            CarName::AmrV12VantageGt3
            | CarName::AmrV8VantageGt3
            | CarName::AudiR8Lms
            | CarName::AudiR8LmsEvo
            | CarName::AudiR8LmsEvoIi
            | CarName::BentleyContinentalGt32016
            | CarName::BentleyContinentalGt32018
            | CarName::BmwM4Gt3
            | CarName::BmwM6Gt3
            | CarName::JaguarG3
            | CarName::Ferrari296Gt3
            | CarName::Ferrari488Gt3
            | CarName::Ferrari488Gt3Evo
            | CarName::FordMustangGt3
            | CarName::HondaNsxGt3
            | CarName::HondaNsxGt3Evo
            | CarName::LamborghiniHuracanGt3
            | CarName::LamborghiniHuracanGt3Evo
            | CarName::LamborghiniHuracanGt3Evo2
            | CarName::LexusRcFGt3
            | CarName::Mclaren650sGt3
            | CarName::Mclaren720sGt3
            | CarName::Mclaren720sGt3Evo
            | CarName::MercedesAmgGt3
            | CarName::MercedesAmgGt3Evo
            | CarName::NissanGtRGt32017
            | CarName::NissanGtRGt32018
            | CarName::Porsche991Gt3R
            | CarName::Porsche991iiGt3R
            | CarName::Porsche992Gt3R
            | CarName::LamborghiniGallardoRex => CarCategory::GT3,
            CarName::AlpineA110Gt4
            | CarName::AmrV8VantageGt4
            | CarName::AudiR8Gt4
            | CarName::BmwM4Gt4
            | CarName::ChevroletCamaroGt4r
            | CarName::GinettaG55Gt4
            | CarName::KtmXbowGt4
            | CarName::MaseratiMcGt4
            | CarName::Mclaren570sGt4
            | CarName::MercedesAmgGt4
            | CarName::Porsche718CaymanGt4Mr => CarCategory::GT4,
            CarName::AudiR8LmsGt2
            | CarName::KtmXbowGt2
            | CarName::MaseratiMc20Gt2
            | CarName::MercedesAmgGt2
            | CarName::Porsche935
            | CarName::Porsche991Gt2RsMr => CarCategory::GT2,
        }
    }

    /// Looks a model up by the identifier that the simulator reports. The
    /// identifier is matched letter for letter; an unknown one gives `None`.
    pub fn from_str(car_model: &str) -> (found: Option<CarName>)
        ensures
            match found {
                Some(name) => name.identifier() == car_model@,
                None => forall|name: CarName| name.identifier() != car_model@,
            },
            forall|name: CarName| name.identifier() == car_model@ ==> found == Some(name),
    {
        let found = if str_eq(car_model, "porsche_991ii_gt3_cup") {
            Some(CarName::Porsche991iiGt3Cup)
        } else if str_eq(car_model, "porsche_992_gt3_cup") {
            Some(CarName::Porsche992Gt3Cup)
        } else if str_eq(car_model, "lamborghini_huracan_st") {
            Some(CarName::LamborghiniHuracanSt)
        } else if str_eq(car_model, "lamborghini_huracan_st_evo2") {
            Some(CarName::LamborghiniHuracanStEvo2)
        } else if str_eq(car_model, "ferrari_488_challenge_evo") {
            Some(CarName::Ferrari488ChallengeEvo)
        } else if str_eq(car_model, "bmw_m2_cs_racing") {
            Some(CarName::BmwM2CsRacing)
        } else if str_eq(car_model, "amr_v12_vantage_gt3") {
            Some(CarName::AmrV12VantageGt3)
        } else if str_eq(car_model, "amr_v8_vantage_gt3") {
            Some(CarName::AmrV8VantageGt3)
        } else if str_eq(car_model, "audi_r8_lms") {
            Some(CarName::AudiR8Lms)
        } else if str_eq(car_model, "audi_r8_lms_evo") {
            Some(CarName::AudiR8LmsEvo)
        } else if str_eq(car_model, "audi_r8_lms_evo_ii") {
            Some(CarName::AudiR8LmsEvoIi)
        } else if str_eq(car_model, "bentley_continental_gt3_2016") {
            Some(CarName::BentleyContinentalGt32016)
        } else if str_eq(car_model, "bentley_continental_gt3_2018") {
            Some(CarName::BentleyContinentalGt32018)
        } else if str_eq(car_model, "bmw_m4_gt3") {
            Some(CarName::BmwM4Gt3)
        } else if str_eq(car_model, "bmw_m6_gt3") {
            Some(CarName::BmwM6Gt3)
        } else if str_eq(car_model, "jaguar_g3") {
            Some(CarName::JaguarG3)
        } else if str_eq(car_model, "ferrari_296_gt3") {
            Some(CarName::Ferrari296Gt3)
        } else if str_eq(car_model, "ferrari_488_gt3") {
            Some(CarName::Ferrari488Gt3)
        } else if str_eq(car_model, "ferrari_488_gt3_evo") {
            Some(CarName::Ferrari488Gt3Evo)
        } else if str_eq(car_model, "ford_mustang_gt3") {
            Some(CarName::FordMustangGt3)
        } else if str_eq(car_model, "honda_nsx_gt3") {
            Some(CarName::HondaNsxGt3)
        } else if str_eq(car_model, "honda_nsx_gt3_evo") {
            Some(CarName::HondaNsxGt3Evo)
        } else if str_eq(car_model, "lamborghini_huracan_gt3") {
            Some(CarName::LamborghiniHuracanGt3)
        } else if str_eq(car_model, "lamborghini_huracan_gt3_evo") {
            Some(CarName::LamborghiniHuracanGt3Evo)
        } else if str_eq(car_model, "lamborghini_huracan_gt3_evo2") {
            Some(CarName::LamborghiniHuracanGt3Evo2)
        } else if str_eq(car_model, "lexus_rc_f_gt3") {
            Some(CarName::LexusRcFGt3)
        } else if str_eq(car_model, "mclaren_650s_gt3") {
            Some(CarName::Mclaren650sGt3)
        } else if str_eq(car_model, "mclaren_720s_gt3") {
            Some(CarName::Mclaren720sGt3)
        } else if str_eq(car_model, "mclaren_720s_gt3_evo") {
            Some(CarName::Mclaren720sGt3Evo)
        } else if str_eq(car_model, "mercedes_amg_gt3") {
            Some(CarName::MercedesAmgGt3)
        } else if str_eq(car_model, "mercedes_amg_gt3_evo") {
            Some(CarName::MercedesAmgGt3Evo)
        } else if str_eq(car_model, "nissan_gt_r_gt3_2017") {
            Some(CarName::NissanGtRGt32017)
        } else if str_eq(car_model, "nissan_gt_r_gt3_2018") {
            Some(CarName::NissanGtRGt32018)
        } else if str_eq(car_model, "porsche_991_gt3_r") {
            Some(CarName::Porsche991Gt3R)
        } else if str_eq(car_model, "porsche_991ii_gt3_r") {
            Some(CarName::Porsche991iiGt3R)
        } else if str_eq(car_model, "porsche_992_gt3_r") {
            Some(CarName::Porsche992Gt3R)
        } else if str_eq(car_model, "lamborghini_gallardo_rex") {
            Some(CarName::LamborghiniGallardoRex)
        } else if str_eq(car_model, "alpine_a110_gt4") {
            Some(CarName::AlpineA110Gt4)
        } else if str_eq(car_model, "amr_v8_vantage_gt4") {
            Some(CarName::AmrV8VantageGt4)
        } else if str_eq(car_model, "audi_r8_gt4") {
            Some(CarName::AudiR8Gt4)
        } else if str_eq(car_model, "bmw_m4_gt4") {
            Some(CarName::BmwM4Gt4)
        } else if str_eq(car_model, "chevrolet_camaro_gt4r") {
            Some(CarName::ChevroletCamaroGt4r)
        } else if str_eq(car_model, "ginetta_g55_gt4") {
            Some(CarName::GinettaG55Gt4)
        } else if str_eq(car_model, "ktm_xbow_gt4") {
            Some(CarName::KtmXbowGt4)
        } else if str_eq(car_model, "maserati_mc_gt4") {
            Some(CarName::MaseratiMcGt4)
        } else if str_eq(car_model, "mclaren_570s_gt4") {
            Some(CarName::Mclaren570sGt4)
        } else if str_eq(car_model, "mercedes_amg_gt4") {
            Some(CarName::MercedesAmgGt4)
        } else if str_eq(car_model, "porsche_718_cayman_gt4_mr") {
            Some(CarName::Porsche718CaymanGt4Mr)
        } else if str_eq(car_model, "audi_r8_lms_gt2") {
            Some(CarName::AudiR8LmsGt2)
        } else if str_eq(car_model, "ktm_xbow_gt2") {
            Some(CarName::KtmXbowGt2)
        } else if str_eq(car_model, "maserati_mc20_gt2") {
            Some(CarName::MaseratiMc20Gt2)
        } else if str_eq(car_model, "mercedes_amg_gt2") {
            Some(CarName::MercedesAmgGt2)
        } else if str_eq(car_model, "porsche_935") {
            Some(CarName::Porsche935)
        } else if str_eq(car_model, "porsche_991_gt2_rs_mr") {
            Some(CarName::Porsche991Gt2RsMr)
        } else {
            None
        };
        proof {
            assert forall|other: CarName| other.identifier() == car_model@ implies found
                == Some(other) by {
                match found {
                    Some(one) => lemma_car_identifiers_distinct(one, other),
                    _ => {},
                }
            }
        }
        found
    }

    /// The name of the model as shown to people.
    pub fn as_str(&self) -> (label: &'static str)
        ensures
            label@ == self.label(),
    {
        match self {
            CarName::Porsche991iiGt3Cup => "Porsche 991 II GT3 Cup",
            CarName::Porsche992Gt3Cup => "Porsche 992 GT3 Cup",
            CarName::LamborghiniHuracanSt => "Lamborghini Huracan ST",
            CarName::LamborghiniHuracanStEvo2 => "Lamborghini Huracan ST Evo2",
            CarName::Ferrari488ChallengeEvo => "Ferrari 488 Challenge Evo",
            CarName::BmwM2CsRacing => "BMW M2 CS Racing",
            CarName::AmrV12VantageGt3 => "AMR V12 Vantage GT3",
            CarName::AmrV8VantageGt3 => "AMR V8 Vantage GT3",
            CarName::AudiR8Lms => "Audi R8 LMS",
            CarName::AudiR8LmsEvo => "Audi R8 LMS Evo",
            CarName::AudiR8LmsEvoIi => "Audi R8 LMS Evo II",
            CarName::BentleyContinentalGt32016 => "Bentley Continental GT3 2016",
            CarName::BentleyContinentalGt32018 => "Bentley Continental GT3 2018",
            CarName::BmwM4Gt3 => "BMW M4 GT3",
            CarName::BmwM6Gt3 => "BMW M6 GT3",
            CarName::JaguarG3 => "Jaguar G3",
            CarName::Ferrari296Gt3 => "Ferrari 296 GT3",
            CarName::Ferrari488Gt3 => "Ferrari 488 GT3",
            CarName::Ferrari488Gt3Evo => "Ferrari 488 GT3 Evo",
            CarName::FordMustangGt3 => "Ford Mustang GT3",
            CarName::HondaNsxGt3 => "Honda NSX GT3",
            CarName::HondaNsxGt3Evo => "Honda NSX GT3 Evo",
            CarName::LamborghiniHuracanGt3 => "Lamborghini Huracan GT3",
            CarName::LamborghiniHuracanGt3Evo => "Lamborghini Huracan GT3 Evo",
            CarName::LamborghiniHuracanGt3Evo2 => "Lamborghini Huracan GT3 Evo2",
            CarName::LexusRcFGt3 => "Lexus RC F GT3",
            CarName::Mclaren650sGt3 => "McLaren 650S GT3",
            CarName::Mclaren720sGt3 => "McLaren 720S GT3",
            CarName::Mclaren720sGt3Evo => "McLaren 720S GT3 Evo",
            CarName::MercedesAmgGt3 => "Mercedes AMG GT3",
            CarName::MercedesAmgGt3Evo => "Mercedes AMG GT3 Evo",
            CarName::NissanGtRGt32017 => "Nissan GT-R GT3 2017",
            CarName::NissanGtRGt32018 => "Nissan GT-R GT3 2018",
            CarName::Porsche991Gt3R => "Porsche 991 GT3 R",
            CarName::Porsche991iiGt3R => "Porsche 991 II GT3 R",
            CarName::Porsche992Gt3R => "Porsche 992 GT3 R",
            CarName::LamborghiniGallardoRex => "Lamborghini Gallardo R-EX",
            CarName::AlpineA110Gt4 => "Alpine A110 GT4",
            CarName::AmrV8VantageGt4 => "AMR V8 Vantage GT4",
            CarName::AudiR8Gt4 => "Audi R8 GT4",
            CarName::BmwM4Gt4 => "BMW M4 GT4",
            CarName::ChevroletCamaroGt4r => "Chevrolet Camaro GT4R",
            CarName::GinettaG55Gt4 => "Ginetta G55 GT4",
            CarName::KtmXbowGt4 => "KTM X-Bow GT4",
            CarName::MaseratiMcGt4 => "Maserati MC GT4",
            CarName::Mclaren570sGt4 => "McLaren 570S GT4",
            CarName::MercedesAmgGt4 => "Mercedes AMG GT4",
            CarName::Porsche718CaymanGt4Mr => "Porsche 718 Cayman GT4 MR",
            CarName::AudiR8LmsGt2 => "Audi R8 LMS GT2",
            CarName::KtmXbowGt2 => "KTM X-Bow GT2",
            CarName::MaseratiMc20Gt2 => "Maserati MC20 GT2",
            CarName::MercedesAmgGt2 => "Mercedes AMG GT2",
            CarName::Porsche935 => "Porsche 935",
            CarName::Porsche991Gt2RsMr => "Porsche 991 GT2 RS MR",
        }
    }

    /// The name of the model as shown to people, as an owned string.
    pub fn to_string(&self) -> (label: String)
        ensures
            label@ == self.label(),
    {
        String::from_str(self.as_str())
    }
}

/// No two models share an identifier, so an identifier names at most one
/// model.
pub proof fn lemma_car_identifiers_distinct(a: CarName, b: CarName)
    requires
        a.identifier() == b.identifier(),
    ensures
        a == b,
{
    reveal_strlit("porsche_991ii_gt3_cup");
    reveal_strlit("porsche_992_gt3_cup");
    reveal_strlit("lamborghini_huracan_st");
    reveal_strlit("lamborghini_huracan_st_evo2");
    reveal_strlit("ferrari_488_challenge_evo");
    reveal_strlit("bmw_m2_cs_racing");
    reveal_strlit("amr_v12_vantage_gt3");
    reveal_strlit("amr_v8_vantage_gt3");
    reveal_strlit("audi_r8_lms");
    reveal_strlit("audi_r8_lms_evo");
    reveal_strlit("audi_r8_lms_evo_ii");
    reveal_strlit("bentley_continental_gt3_2016");
    reveal_strlit("bentley_continental_gt3_2018");
    reveal_strlit("bmw_m4_gt3");
    reveal_strlit("bmw_m6_gt3");
    reveal_strlit("jaguar_g3");
    reveal_strlit("ferrari_296_gt3");
    reveal_strlit("ferrari_488_gt3");
    reveal_strlit("ferrari_488_gt3_evo");
    reveal_strlit("ford_mustang_gt3");
    reveal_strlit("honda_nsx_gt3");
    reveal_strlit("honda_nsx_gt3_evo");
    reveal_strlit("lamborghini_huracan_gt3");
    reveal_strlit("lamborghini_huracan_gt3_evo");
    reveal_strlit("lamborghini_huracan_gt3_evo2");
    reveal_strlit("lexus_rc_f_gt3");
    reveal_strlit("mclaren_650s_gt3");
    reveal_strlit("mclaren_720s_gt3");
    reveal_strlit("mclaren_720s_gt3_evo");
    reveal_strlit("mercedes_amg_gt3");
    reveal_strlit("mercedes_amg_gt3_evo");
    reveal_strlit("nissan_gt_r_gt3_2017");
    reveal_strlit("nissan_gt_r_gt3_2018");
    reveal_strlit("porsche_991_gt3_r");
    reveal_strlit("porsche_991ii_gt3_r");
    reveal_strlit("porsche_992_gt3_r");
    reveal_strlit("lamborghini_gallardo_rex");
    reveal_strlit("alpine_a110_gt4");
    reveal_strlit("amr_v8_vantage_gt4");
    reveal_strlit("audi_r8_gt4");
    reveal_strlit("bmw_m4_gt4");
    reveal_strlit("chevrolet_camaro_gt4r");
    reveal_strlit("ginetta_g55_gt4");
    reveal_strlit("ktm_xbow_gt4");
    reveal_strlit("maserati_mc_gt4");
    reveal_strlit("mclaren_570s_gt4");
    reveal_strlit("mercedes_amg_gt4");
    reveal_strlit("porsche_718_cayman_gt4_mr");
    reveal_strlit("audi_r8_lms_gt2");
    reveal_strlit("ktm_xbow_gt2");
    reveal_strlit("maserati_mc20_gt2");
    reveal_strlit("mercedes_amg_gt2");
    reveal_strlit("porsche_935");
    reveal_strlit("porsche_991_gt2_rs_mr");
    // Equal texts agree in length and at every place. Naming the places
    // brings in what each text holds there, and two different texts differ
    // in length or at one of them.
    let x = a.identifier();
    let y = b.identifier();
    assert(x.len() == y.len());
    assert(x[0] == y[0]);
    assert(x[1] == y[1]);
    assert(x[2] == y[2]);
    assert(x[3] == y[3]);
    assert(x[4] == y[4]);
    assert(x[5] == y[5]);
    assert(x[6] == y[6]);
    assert(x[7] == y[7]);
    assert(x[8] == y[8]);
    assert(x[9] == y[9]);
    assert(x[10] == y[10]);
    assert(x[11] == y[11]);
    assert(x[12] == y[12]);
    assert(x[13] == y[13]);
    assert(x[14] == y[14]);
    assert(x[15] == y[15]);
    assert(x[16] == y[16]);
    assert(x[17] == y[17]);
    assert(x[18] == y[18]);
    assert(x[19] == y[19]);
    assert(x[20] == y[20]);
    assert(x[21] == y[21]);
    assert(x[22] == y[22]);
    assert(x[23] == y[23]);
    assert(x[24] == y[24]);
    assert(x[25] == y[25]);
    assert(x[26] == y[26]);
    assert(x[27] == y[27]);
}

/// A car as a session knows it: the model and the class it races in.
#[derive(Debug, Clone, Copy, PartialEq, Eq, Structural)]
pub struct Car {
    pub name: CarName,
    pub category: CarCategory,
}

impl Car {
    /// A car carries the class of its model.
    pub open spec fn wf(self) -> bool {
        self.category == self.name.category()
    }

    /// Looks a car up by the identifier that the simulator reports, and
    /// classifies it. An unknown identifier gives `None`.
    pub fn from_str(car_model: &str) -> (found: Option<Car>)
        ensures
            match found {
                Some(car) => car.name.identifier() == car_model@ && car.wf(),
                None => forall|name: CarName| name.identifier() != car_model@,
            },
            forall|name: CarName|
                name.identifier() == car_model@ ==> found == Some(
                    Car { name, category: name.category() },
                ),
    {
        match CarName::from_str(car_model) {
            Some(name) => {
                let category = name.get_car_category();
                Some(Car { name, category })
            },
            None => None,
        }
    }
}

} // verus!
