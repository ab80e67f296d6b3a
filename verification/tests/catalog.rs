use acc_best_laps::cars::{Car, CarCategory, CarName};
use acc_best_laps::track::TrackName;

const ALL_CATEGORIES: [CarCategory; 7] = [
    CarCategory::CUP,
    CarCategory::ST,
    CarCategory::CHL,
    CarCategory::TCX,
    CarCategory::GT3,
    CarCategory::GT4,
    CarCategory::GT2,
];

const ALL_TRACKS: [(&str, TrackName, &str); 25] = [
    ("barcelona", TrackName::Barcelona, "Barcelona"),
    ("brands_hatch", TrackName::BrandsHatch, "Brands Hatch"),
    ("cota", TrackName::Cota, "Circuit of the Americas"),
    ("donington", TrackName::Donington, "Donington"),
    ("hungaroring", TrackName::Hungaroring, "Hungaroring"),
    ("imola", TrackName::Imola, "Imola"),
    ("indianapolis", TrackName::Indianapolis, "Indianapolis Motor Speedway"),
    ("kyalami", TrackName::Kyalami, "Kyalami"),
    ("laguna_seca", TrackName::LagunaSeca, "Laguna Seca"),
    ("misano", TrackName::Misano, "Misano"),
    ("monza", TrackName::Monza, "Monza"),
    ("mount_panorama", TrackName::MountPanorama, "Mount Panorama"),
    ("nurburgring", TrackName::Nurburgring, "Nürburgring GP"),
    ("nurburgring_24h", TrackName::Nurburgring24h, "Nürburgring GP 24 hours"),
    ("oulton_park", TrackName::OultonPark, "Oulton Park"),
    ("paul_ricard", TrackName::PaulRicard, "Paul Ricard"),
    ("red_bull_ring", TrackName::RedBullRing, "RedBull Ring"),
    ("silverstone", TrackName::Silverstone, "Silverstone"),
    ("snetterton", TrackName::Snetterton, "Snetterton"),
    ("spa", TrackName::Spa, "Spa"),
    ("suzuka", TrackName::Suzuka, "Suzuka"),
    ("valencia", TrackName::Valencia, "Valencia"),
    ("watkins_glen", TrackName::WatkinsGlen, "Watkins Glen"),
    ("zandvoort", TrackName::Zandvoort, "Zandvoort"),
    ("zolder", TrackName::Zolder, "Zolder"),
];

const SOME_CARS: [(&str, CarName, &str, CarCategory); 12] = [
    ("porsche_991ii_gt3_cup", CarName::Porsche991iiGt3Cup, "Porsche 991 II GT3 Cup", CarCategory::CUP),
    ("porsche_992_gt3_cup", CarName::Porsche992Gt3Cup, "Porsche 992 GT3 Cup", CarCategory::CUP),
    ("lamborghini_huracan_st_evo2", CarName::LamborghiniHuracanStEvo2, "Lamborghini Huracan ST Evo2", CarCategory::ST),
    ("ferrari_488_challenge_evo", CarName::Ferrari488ChallengeEvo, "Ferrari 488 Challenge Evo", CarCategory::CHL),
    ("bmw_m2_cs_racing", CarName::BmwM2CsRacing, "BMW M2 CS Racing", CarCategory::TCX),
    ("bmw_m4_gt3", CarName::BmwM4Gt3, "BMW M4 GT3", CarCategory::GT3),
    ("jaguar_g3", CarName::JaguarG3, "Jaguar G3", CarCategory::GT3),
    ("lamborghini_gallardo_rex", CarName::LamborghiniGallardoRex, "Lamborghini Gallardo R-EX", CarCategory::GT3),
    ("bmw_m4_gt4", CarName::BmwM4Gt4, "BMW M4 GT4", CarCategory::GT4),
    ("porsche_718_cayman_gt4_mr", CarName::Porsche718CaymanGt4Mr, "Porsche 718 Cayman GT4 MR", CarCategory::GT4),
    ("porsche_935", CarName::Porsche935, "Porsche 935", CarCategory::GT2),
    ("porsche_991_gt2_rs_mr", CarName::Porsche991Gt2RsMr, "Porsche 991 GT2 RS MR", CarCategory::GT2),
];

#[test]
fn category_codes_round_trip() {
    for category in ALL_CATEGORIES {
        let code = category.to_string();
        assert_eq!(CarCategory::from_str(&code), Ok(category));
        assert_eq!(category.as_str(), code);
    }
    assert_eq!(CarCategory::GT3.to_string(), "GT3");
    assert_eq!(CarCategory::CUP.to_string(), "CUP");
    assert_eq!(CarCategory::ST.to_string(), "ST");
    assert_eq!(CarCategory::CHL.to_string(), "CHL");
    assert_eq!(CarCategory::TCX.to_string(), "TCX");
    assert_eq!(CarCategory::GT4.to_string(), "GT4");
    assert_eq!(CarCategory::GT2.to_string(), "GT2");
}

#[test]
fn category_codes_are_distinct() {
    for (i, a) in ALL_CATEGORIES.iter().enumerate() {
        for (j, b) in ALL_CATEGORIES.iter().enumerate() {
            assert_eq!(a.to_string() == b.to_string(), i == j);
        }
    }
}

#[test]
fn unknown_category_code_is_refused() {
    assert_eq!(CarCategory::from_str("GT5"), Err(()));
    assert_eq!(CarCategory::from_str(""), Err(()));
    assert_eq!(CarCategory::from_str("gt3"), Err(()));
    assert_eq!(CarCategory::from_str("GT3 "), Err(()));
}

#[test]
fn bmw_m4_is_a_gt3_car() {
    let car = Car::from_str("bmw_m4_gt3").expect("known model");
    assert_eq!(car.name, CarName::BmwM4Gt3);
    assert_eq!(car.category, CarCategory::GT3);
    assert_eq!(car.name.to_string(), "BMW M4 GT3");
}

#[test]
fn cars_are_found_named_and_classified() {
    for (id, name, label, category) in SOME_CARS {
        assert_eq!(CarName::from_str(id), Some(name));
        assert_eq!(name.to_string(), label);
        assert_eq!(name.as_str(), label);
        assert_eq!(name.get_car_category(), category);
        assert_eq!(Car::from_str(id), Some(Car { name, category }));
    }
}

#[test]
fn car_lookup_is_case_sensitive() {
    assert_eq!(CarName::from_str("BMW_M4_GT3"), None);
    assert_eq!(CarName::from_str("Bmw_m4_gt3"), None);
    assert_eq!(Car::from_str("BMW M4 GT3"), None);
}

#[test]
fn unknown_car_is_not_found() {
    assert_eq!(CarName::from_str(""), None);
    assert_eq!(CarName::from_str("bmw_m4_gt5"), None);
    assert_eq!(CarName::from_str("bmw_m4_gt3 "), None);
    assert_eq!(CarName::from_str("bmw_m4_gt"), None);
    assert_eq!(Car::from_str("trabant_601"), None);
}

#[test]
fn every_class_has_its_cars() {
    let ids = [
        "porsche_991ii_gt3_cup", "porsche_992_gt3_cup", "lamborghini_huracan_st",
        "lamborghini_huracan_st_evo2", "ferrari_488_challenge_evo", "bmw_m2_cs_racing",
        "amr_v12_vantage_gt3", "amr_v8_vantage_gt3", "audi_r8_lms", "audi_r8_lms_evo",
        "audi_r8_lms_evo_ii", "bentley_continental_gt3_2016", "bentley_continental_gt3_2018",
        "bmw_m4_gt3", "bmw_m6_gt3", "jaguar_g3", "ferrari_296_gt3", "ferrari_488_gt3",
        "ferrari_488_gt3_evo", "ford_mustang_gt3", "honda_nsx_gt3", "honda_nsx_gt3_evo",
        "lamborghini_huracan_gt3", "lamborghini_huracan_gt3_evo", "lamborghini_huracan_gt3_evo2",
        "lexus_rc_f_gt3", "mclaren_650s_gt3", "mclaren_720s_gt3", "mclaren_720s_gt3_evo",
        "mercedes_amg_gt3", "mercedes_amg_gt3_evo", "nissan_gt_r_gt3_2017", "nissan_gt_r_gt3_2018",
        "porsche_991_gt3_r", "porsche_991ii_gt3_r", "porsche_992_gt3_r", "lamborghini_gallardo_rex",
        "alpine_a110_gt4", "amr_v8_vantage_gt4", "audi_r8_gt4", "bmw_m4_gt4",
        "chevrolet_camaro_gt4r", "ginetta_g55_gt4", "ktm_xbow_gt4", "maserati_mc_gt4",
        "mclaren_570s_gt4", "mercedes_amg_gt4", "porsche_718_cayman_gt4_mr", "audi_r8_lms_gt2",
        "ktm_xbow_gt2", "maserati_mc20_gt2", "mercedes_amg_gt2", "porsche_935",
        "porsche_991_gt2_rs_mr",
    ];
    let mut counts = [0usize; 7];
    let mut seen: Vec<CarName> = Vec::new();
    for id in ids {
        let car = Car::from_str(id).expect("known model");
        assert_eq!(car.category, car.name.get_car_category());
        assert!(!seen.contains(&car.name), "{id} names a model twice");
        seen.push(car.name);
        let at = ALL_CATEGORIES.iter().position(|c| *c == car.category).expect("a class");
        counts[at] += 1;
    }
    assert_eq!(seen.len(), 54);
    assert_eq!(counts, [2, 2, 1, 1, 31, 11, 6]);
}

#[test]
fn tracks_are_found_and_named() {
    for (id, track, label) in ALL_TRACKS {
        assert_eq!(TrackName::from_str(id), Ok(track));
        assert_eq!(track.to_string(), label);
        assert_eq!(track.as_str(), label);
    }
}

#[test]
fn track_identifiers_are_distinct() {
    for (i, (a, _, _)) in ALL_TRACKS.iter().enumerate() {
        for (j, (b, _, _)) in ALL_TRACKS.iter().enumerate() {
            assert_eq!(a == b, i == j);
            assert_eq!(TrackName::from_str(a) == TrackName::from_str(b), i == j);
        }
    }
}

#[test]
fn track_lookup_is_case_sensitive() {
    assert_eq!(TrackName::from_str("Spa"), Err(()));
    assert_eq!(TrackName::from_str("SPA"), Err(()));
    assert_eq!(TrackName::from_str("Brands_Hatch"), Err(()));
    assert_eq!(TrackName::from_str("spa"), Ok(TrackName::Spa));
}

#[test]
fn unknown_track_is_refused() {
    assert_eq!(TrackName::from_str(""), Err(()));
    assert_eq!(TrackName::from_str("nordschleife"), Err(()));
    assert_eq!(TrackName::from_str("Nürburgring GP"), Err(()));
    assert_eq!(TrackName::from_str("spa "), Err(()));
}
