use acc_best_laps::board::{
    is_leading, last_lap_status, log_laps, scope_status, session_headline, welcome_line,
    LineColour, Scope, StatusLine, BOARD_LINES,
};
use acc_best_laps::cars::{Car, CarCategory, CarName};
use acc_best_laps::engine::LastLap;
use acc_best_laps::records::{BestLapWithDriver, BestLaps, MyLapAndBestLap};
use acc_best_laps::text::try_pad_string;
use acc_best_laps::track::TrackName;

fn line(id: i64, driver_id: i64, lap_time_ms: i64) -> BestLapWithDriver {
    BestLapWithDriver {
        id,
        driver_id,
        track_id: 20,
        created_at: 1_766_000_000_000_000,
        lap_time_ms,
        driver_name: format!("driver {driver_id}"),
        car_id: 14,
    }
}

fn slots(mine: Option<BestLapWithDriver>, overall: Option<BestLapWithDriver>) -> MyLapAndBestLap {
    MyLapAndBestLap { mine, overall }
}

fn status(colour: LineColour, text: &str) -> StatusLine {
    StatusLine { colour, text: text.to_string() }
}

fn last(millis: i32, text: &str) -> Option<LastLap> {
    Some(LastLap { millis, text: text.to_string() })
}

#[test]
fn the_leader_is_shown_in_green() {
    let leading = slots(Some(line(4, 1, 105_000)), Some(line(4, 1, 105_000)));
    assert!(is_leading(&leading));
    assert_eq!(
        scope_status(Scope::Car, &leading),
        status(LineColour::Green, "You are fastest in this car: 1:45:000")
    );
    assert_eq!(
        scope_status(Scope::Category, &leading),
        status(LineColour::Green, "You are fastest in this category 1:45:000")
    );
}

#[test]
fn the_leader_is_told_by_the_record_not_by_the_time() {
    let tied = slots(Some(line(4, 1, 105_000)), Some(line(9, 2, 105_000)));
    assert!(!is_leading(&tied));
    assert_eq!(
        scope_status(Scope::Car, &tied),
        status(LineColour::Blue, "Car PB: 1:45:000 Best: 1:45:000 Diff: 0ms")
    );
    assert!(!is_leading(&slots(Some(line(4, 1, 105_000)), None)));
    assert!(!is_leading(&slots(None, Some(line(4, 1, 105_000)))));
    assert!(!is_leading(&slots(None, None)));
}

#[test]
fn a_chaser_is_shown_in_blue_with_the_gap() {
    let chasing = slots(Some(line(4, 1, 110_000)), Some(line(9, 2, 108_000)));
    assert_eq!(
        scope_status(Scope::Car, &chasing),
        status(LineColour::Blue, "Car PB: 1:50:000 Best: 1:48:000 Diff: 2000ms")
    );
    assert_eq!(
        scope_status(Scope::Category, &chasing),
        status(LineColour::Blue, "Category PB: 1:50:000 Best: 1:48:000 Diff: 2000ms")
    );
}

#[test]
fn a_gap_can_be_negative() {
    let ahead = slots(Some(line(4, 1, 107_250)), Some(line(9, 2, 108_000)));
    assert_eq!(
        scope_status(Scope::Car, &ahead),
        status(LineColour::Blue, "Car PB: 1:47:250 Best: 1:48:000 Diff: -750ms")
    );
}

#[test]
fn a_missing_best_of_all_counts_as_zero() {
    let alone = slots(Some(line(4, 1, 110_000)), None);
    assert_eq!(
        scope_status(Scope::Car, &alone),
        status(LineColour::Blue, "Car PB: 1:50:000 Best: None Diff: 110000ms")
    );
    assert_eq!(
        scope_status(Scope::Category, &alone),
        status(LineColour::Blue, "Category PB: 1:50:000 Best: None Diff: 110000ms")
    );
}

#[test]
fn a_driver_without_a_lap_is_shown_the_best_in_red() {
    let watching = slots(None, Some(line(9, 2, 108_000)));
    assert_eq!(
        scope_status(Scope::Car, &watching),
        status(LineColour::Red, "No PB in this car. Best: 1:48:000")
    );
    assert_eq!(
        scope_status(Scope::Category, &watching),
        status(LineColour::Red, "No PB in this category. Best: 1:48:000")
    );
}

#[test]
fn an_empty_board_is_shown_in_magenta() {
    assert_eq!(
        scope_status(Scope::Car, &slots(None, None)),
        status(LineColour::Magenta, "There are no lap times in this car")
    );
    assert_eq!(
        scope_status(Scope::Category, &slots(None, None)),
        status(LineColour::Magenta, "No lap times in this category")
    );
}

#[test]
fn the_last_lap_is_set_against_both_bests() {
    let laps = BestLaps {
        car: slots(None, Some(line(9, 2, 108_000))),
        category: slots(None, Some(line(8, 3, 107_000))),
    };
    assert_eq!(
        last_lap_status(&laps, &last(111_234, "1:51:234")),
        status(LineColour::White, "Last: 1:51:234 Car diff: 3234ms Category diff 4234ms")
    );
    assert_eq!(
        last_lap_status(&laps, &last(107_234, "1:47:234")),
        status(LineColour::White, "Last: 1:47:234 Car diff: -766ms Category diff 234ms")
    );
}

#[test]
fn the_last_lap_has_no_gap_to_a_missing_best() {
    let empty = BestLaps { car: slots(None, None), category: slots(None, None) };
    assert_eq!(
        last_lap_status(&empty, &last(111_234, "1:51:234")),
        status(LineColour::White, "Last: 1:51:234 Car diff: ∞ms Category diff ∞ms")
    );
    let half = BestLaps { car: slots(None, None), category: slots(None, Some(line(8, 3, 107_000))) };
    assert_eq!(
        last_lap_status(&half, &last(111_234, "1:51:234")),
        status(LineColour::White, "Last: 1:51:234 Car diff: ∞ms Category diff 4234ms")
    );
}

#[test]
fn the_last_lap_is_shown_as_the_simulator_writes_it() {
    let empty = BestLaps { car: slots(None, None), category: slots(None, None) };
    assert_eq!(
        last_lap_status(&empty, &last(111_234, "01:51.234")).text,
        "Last: 01:51.234 Car diff: ∞ms Category diff ∞ms"
    );
}

#[test]
fn without_a_last_lap_the_driver_is_sent_off() {
    let empty = BestLaps { car: slots(None, None), category: slots(None, None) };
    assert_eq!(
        last_lap_status(&empty, &None),
        status(LineColour::White, "Stop staring at me & start driving")
    );
}

#[test]
fn the_board_has_a_line_for_car_class_and_last_lap() {
    let laps = BestLaps {
        car: slots(Some(line(4, 1, 105_000)), Some(line(4, 1, 105_000))),
        category: slots(Some(line(4, 1, 105_000)), Some(line(8, 3, 104_500))),
    };
    let board = log_laps(&laps, &last(105_900, "1:45:900"), true);
    assert_eq!(board.rewind, BOARD_LINES);
    assert_eq!(board.rewind, 3);
    assert_eq!(board.car, status(LineColour::Green, "You are fastest in this car: 1:45:000"));
    assert_eq!(
        board.category,
        status(LineColour::Blue, "Category PB: 1:45:000 Best: 1:44:500 Diff: 500ms")
    );
    assert_eq!(
        board.last_lap,
        status(LineColour::White, "Last: 1:45:900 Car diff: 900ms Category diff 1400ms")
    );
    let first = log_laps(&laps, &None, false);
    assert_eq!(first.rewind, 0);
    assert_eq!(first.car, board.car);
    assert_eq!(first.category, board.category);
    assert_eq!(first.last_lap, status(LineColour::White, "Stop staring at me & start driving"));
}

#[test]
fn board_lines_fill_the_width_of_the_board() {
    let laps = BestLaps {
        car: slots(Some(line(4, 1, 110_000)), Some(line(9, 2, 108_000))),
        category: slots(None, None),
    };
    let board = log_laps(&laps, &last(111_234, "1:51:234"), true);
    for line in [board.car, board.category, board.last_lap] {
        let text = line.text.clone();
        let padded = try_pad_string(line.text).expect("fits the board");
        assert_eq!(padded.len(), 80);
        assert_eq!(padded.trim_end(), text);
    }
}

#[test]
fn the_headline_names_car_class_and_circuit() {
    let car = Car { name: CarName::BmwM4Gt3, category: CarCategory::GT3 };
    assert_eq!(session_headline(car, TrackName::Spa), "BMW M4 GT3 (GT3) on Spa");
    let cup = Car { name: CarName::Porsche992Gt3Cup, category: CarCategory::CUP };
    assert_eq!(
        session_headline(cup, TrackName::Nurburgring24h),
        "Porsche 992 GT3 Cup (CUP) on Nürburgring GP 24 hours"
    );
}

#[test]
fn the_greeting_names_the_driver() {
    assert_eq!(welcome_line("A"), "Welcome A, start a session to begin...");
    assert_eq!(welcome_line(""), "Welcome , start a session to begin...");
}
