use acc_best_laps::records::{
    format_lap_time, format_millis, BestLap, BestLapData, BestLapWithDriver, BestLaps, LapTime,
    MyLapAndBestLap,
};

fn record(lap_time_ms: i64) -> BestLapData {
    BestLapData { driver_id: 1, track_id: 2, created_at: 1_700_000_000_000_000, lap_time_ms, car_id: 3 }
}

fn line(id: i64, driver_id: i64, lap_time_ms: i64, name: &str) -> BestLapWithDriver {
    BestLapWithDriver {
        id,
        driver_id,
        track_id: 2,
        created_at: 1_700_000_000_000_000 + id,
        lap_time_ms,
        driver_name: name.to_string(),
        car_id: 3,
    }
}

#[test]
fn a_lap_time_is_written_as_minutes_seconds_millis() {
    assert_eq!(format_lap_time(Some(record(125_678))), "2:05:678");
}

#[test]
fn a_missing_lap_is_written_as_none() {
    assert_eq!(format_lap_time::<BestLapData>(None), "None");
    assert_eq!(format_lap_time::<BestLapWithDriver>(None), "None");
}

#[test]
fn seconds_and_millis_keep_their_width() {
    assert_eq!(format_lap_time(Some(record(0))), "0:00:000");
    assert_eq!(format_lap_time(Some(record(1))), "0:00:001");
    assert_eq!(format_lap_time(Some(record(999))), "0:00:999");
    assert_eq!(format_lap_time(Some(record(1_000))), "0:01:000");
    assert_eq!(format_lap_time(Some(record(9_010))), "0:09:010");
    assert_eq!(format_lap_time(Some(record(59_999))), "0:59:999");
    assert_eq!(format_lap_time(Some(record(60_000))), "1:00:000");
    assert_eq!(format_lap_time(Some(record(110_000))), "1:50:000");
    assert_eq!(format_lap_time(Some(record(115_200))), "1:55:200");
    assert_eq!(format_lap_time(Some(record(130_000))), "2:10:000");
}

#[test]
fn minutes_are_not_folded_into_hours() {
    assert_eq!(format_lap_time(Some(record(3_600_000))), "60:00:000");
    assert_eq!(format_lap_time(Some(record(2_147_483_646))), "35791:23:646");
    assert_eq!(format_lap_time(Some(record(i64::MAX))), "153722867280912:55:807");
}

#[test]
fn a_negative_time_is_read_as_unsigned() {
    assert_eq!(format_lap_time(Some(record(-1))), "307445734561825:51:615");
    assert_eq!(format_lap_time(Some(record(-125_678))), "307445734561823:45:938");
}

#[test]
fn durations_are_written_directly() {
    assert_eq!(format_millis(125_678), "2:05:678");
    assert_eq!(format_millis(0), "0:00:000");
    assert_eq!(format_millis(u64::MAX), "307445734561825:51:615");
}

#[test]
fn every_kind_of_record_tells_its_lap_time() {
    assert_eq!(record(125_678).lap_time_ms(), 125_678);
    let stored = BestLap { id: 9, driver_id: 1, track_id: 2, created_at: 5, lap_time_ms: 99_001, car_id: 3 };
    assert_eq!(stored.lap_time_ms(), 99_001);
    assert_eq!(line(4, 1, 101_500, "Ada").lap_time_ms(), 101_500);
    assert_eq!(format_lap_time(Some(stored)), "1:39:001");
    assert_eq!(format_lap_time(Some(line(4, 1, 101_500, "Ada"))), "1:41:500");
}

#[test]
fn copies_of_records_are_equal() {
    let lap = line(4, 1, 101_500, "Ada");
    assert_eq!(lap.clone(), lap);
    let slots = MyLapAndBestLap { mine: Some(line(4, 1, 101_500, "Ada")), overall: None };
    assert_eq!(slots.clone(), slots);
    let laps = BestLaps {
        car: MyLapAndBestLap { mine: None, overall: Some(line(5, 2, 100_000, "Bo")) },
        category: slots,
    };
    assert_eq!(laps.clone(), laps);
}

#[test]
fn reference_laps_are_read_off_the_boards() {
    let car = vec![line(7, 2, 100_000, "Bo"), line(4, 1, 101_500, "Ada"), line(8, 3, 103_000, "Cy")];
    let category = vec![
        line(12, 3, 99_000, "Cy"),
        line(7, 2, 100_000, "Bo"),
        line(11, 1, 100_700, "Ada"),
        line(4, 1, 101_500, "Ada"),
    ];
    let laps = BestLaps::from_records(&car, &category, 1);
    assert_eq!(laps.car.overall, Some(line(7, 2, 100_000, "Bo")));
    assert_eq!(laps.car.mine, Some(line(4, 1, 101_500, "Ada")));
    assert_eq!(laps.category.overall, Some(line(12, 3, 99_000, "Cy")));
    assert_eq!(laps.category.mine, Some(line(11, 1, 100_700, "Ada")));
}

#[test]
fn the_first_line_of_a_driver_is_taken() {
    let board = vec![line(1, 5, 90_000, "Eve"), line(2, 5, 90_000, "Eve"), line(3, 5, 95_000, "Eve")];
    let slots = MyLapAndBestLap::from_records(&board, 5);
    assert_eq!(slots.mine, Some(line(1, 5, 90_000, "Eve")));
    assert_eq!(slots.overall, Some(line(1, 5, 90_000, "Eve")));
    let last = MyLapAndBestLap::from_records(&vec![line(1, 5, 90_000, "Eve"), line(2, 6, 95_000, "Fay")], 6);
    assert_eq!(last.mine, Some(line(2, 6, 95_000, "Fay")));
    assert_eq!(last.overall, Some(line(1, 5, 90_000, "Eve")));
}

#[test]
fn a_driver_without_laps_has_no_own_best() {
    let car = vec![line(7, 2, 100_000, "Bo")];
    let laps = BestLaps::from_records(&car, &car, 1);
    assert_eq!(laps.car.mine, None);
    assert_eq!(laps.category.mine, None);
    assert_eq!(laps.car.overall, Some(line(7, 2, 100_000, "Bo")));
    assert_eq!(laps.category.overall, Some(line(7, 2, 100_000, "Bo")));
}

#[test]
fn empty_boards_leave_every_slot_empty() {
    let laps = BestLaps::from_records(&Vec::new(), &Vec::new(), 1);
    assert_eq!(laps.car, MyLapAndBestLap { mine: None, overall: None });
    assert_eq!(laps.category, MyLapAndBestLap { mine: None, overall: None });
}
