use crate::cars::Car;
use crate::engine::{last_lap_of, LastLap, LastLapView};
use crate::records::{
    entry_of, format_lap_time, lemma_lap_time_text_is_ascii, optional_lap_time_text,
    BestLapWithDriver, BestLaps, LapEntry, MyLapAndBestLap, Reference, Slots,
};
use crate::text::{
    can_pad, difference_string, lemma_ascii_can_pad, lemma_signed_decimal_is_ascii,
    signed_decimal,
};
use crate::track::TrackName;
use vstd::prelude::*;
use vstd::string::*;
use vstd::utf8::is_ascii_chars;

verus! {

/// The colour in which a line of the timing board is shown.
#[derive(Debug, Clone, Copy, PartialEq, Eq, Structural)]
pub enum LineColour {
    Green,
    Blue,
    Red,
    Magenta,
    White,
}

/// One line of the timing board, not yet brought to the board's width.
#[derive(Debug, PartialEq, Eq)]
pub struct StatusLine {
    pub colour: LineColour,
    pub text: String,
}

/// What a line of the timing board says.
pub struct LineView {
    pub colour: LineColour,
    pub text: Seq<char>,
}

impl View for StatusLine {
    type V = LineView;

    open spec fn view(&self) -> LineView {
        LineView { colour: self.colour, text: self.text@ }
    }
}

/// The two scopes that the board reports on.
#[derive(Debug, Clone, Copy, PartialEq, Eq, Structural)]
pub enum Scope {
    Car,
    Category,
}

/// The lap time of a reference lap, if there is one.
pub open spec fn time_of(slot: Option<LapEntry>) -> Option<i64> {
    match slot {
        Some(lap) => Some(lap.lap_time_ms),
        None => None,
    }
}

/// Whether the driver's own best is the best of all: both laps are there and
/// are the same stored record.
pub open spec fn leads(slots: Slots) -> bool {
    slots.mine is Some && slots.overall is Some && slots.mine->0.id == slots.overall->0.id
}

/// Tells whether the driver's own best is the best of all.
pub fn is_leading(slots: &MyLapAndBestLap) -> (leading: bool)
    ensures
        leading == leads(slots@),
{
    match &slots.mine {
        Some(mine) => match &slots.overall {
            Some(overall) => mine.id == overall.id,
            None => false,
        },
        None => false,
    }
}

/// The gap of the driver's own best to the best of all, in milliseconds. A
/// missing best of all counts as zero.
pub open spec fn gap_to_leader(slots: Slots) -> int {
    slots.mine->0.lap_time_ms - match slots.overall {
        Some(lap) => lap.lap_time_ms,
        None => 0,
    }
}

/// The line that reports on one scope: in green that the driver leads it; in
/// blue the driver's best, the best of all and the gap between them; in red
/// the best of all where the driver has no lap; in magenta that nobody has
/// one.
pub open spec fn scope_line(scope: Scope, slots: Slots) -> LineView {
    if leads(slots) {
        LineView {
            colour: LineColour::Green,
            text: match scope {
                Scope::Car => "You are fastest in this car: "@,
                Scope::Category => "You are fastest in this category "@,
            } + optional_lap_time_text(time_of(slots.mine)),
        }
    } else if slots.mine is Some {
        LineView {
            colour: LineColour::Blue,
            text: match scope {
                Scope::Car => "Car PB: "@,
                Scope::Category => "Category PB: "@,
            } + optional_lap_time_text(time_of(slots.mine)) + " Best: "@ + optional_lap_time_text(
                time_of(slots.overall),
            ) + " Diff: "@ + signed_decimal(gap_to_leader(slots)) + "ms"@,
        }
    } else if slots.overall is Some {
        LineView {
            colour: LineColour::Red,
            text: match scope {
                Scope::Car => "No PB in this car. Best: "@,
                Scope::Category => "No PB in this category. Best: "@,
            } + optional_lap_time_text(time_of(slots.overall)),
        }
    } else {
        LineView {
            colour: LineColour::Magenta,
            text: match scope {
                Scope::Car => "There are no lap times in this car"@,
                Scope::Category => "No lap times in this category"@,
            },
        }
    }
}

/// The line on a scope is made of ASCII characters only, so it can always
/// be brought to the width of the board.
pub proof fn lemma_scope_line_fits(scope: Scope, slots: Slots)
    ensures
        is_ascii_chars(scope_line(scope, slots).text),
        can_pad(scope_line(scope, slots).text),
{
    reveal_strlit("You are fastest in this car: ");
    reveal_strlit("You are fastest in this category ");
    reveal_strlit("Car PB: ");
    reveal_strlit("Category PB: ");
    reveal_strlit(" Best: ");
    reveal_strlit(" Diff: ");
    reveal_strlit("ms");
    reveal_strlit("No PB in this car. Best: ");
    reveal_strlit("No PB in this category. Best: ");
    reveal_strlit("There are no lap times in this car");
    reveal_strlit("No lap times in this category");
    lemma_lap_time_text_is_ascii(time_of(slots.mine));
    lemma_lap_time_text_is_ascii(time_of(slots.overall));
    if slots.mine is Some {
        lemma_signed_decimal_is_ascii(gap_to_leader(slots));
    }
    lemma_ascii_can_pad(scope_line(scope, slots).text);
}

fn lap_text(slot: &Option<BestLapWithDriver>) -> (text: String)
    ensures
        text@ == optional_lap_time_text(time_of(entry_of(*slot))),
{
    match slot {
        Some(lap) => format_lap_time(Some(lap.clone())),
        None => format_lap_time::<BestLapWithDriver>(None),
    }
}

/// Writes the line that reports on one scope.
pub fn scope_status(scope: Scope, slots: &MyLapAndBestLap) -> (line: StatusLine)
    ensures
        line@ == scope_line(scope, slots@),
        can_pad(line.text@),
{
    proof {
        lemma_scope_line_fits(scope, slots@);
    }
    if is_leading(slots) {
        let mut text = String::from_str(
            match scope {
                Scope::Car => "You are fastest in this car: ",
                Scope::Category => "You are fastest in this category ",
            },
        );
        text.append(lap_text(&slots.mine).as_str());
        StatusLine { colour: LineColour::Green, text }
    } else if slots.mine.is_some() {
        let mut text = String::from_str(
            match scope {
                Scope::Car => "Car PB: ",
                Scope::Category => "Category PB: ",
            },
        );
        text.append(lap_text(&slots.mine).as_str());
        text.append(" Best: ");
        text.append(lap_text(&slots.overall).as_str());
        text.append(" Diff: ");
        let mine_ms = match &slots.mine {
            Some(lap) => lap.lap_time_ms,
            None => 0,
        };
        let overall_ms = match &slots.overall {
            Some(lap) => lap.lap_time_ms,
            None => 0,
        };
        text.append(difference_string(mine_ms, overall_ms).as_str());
        text.append("ms");
        StatusLine { colour: LineColour::Blue, text }
    } else if slots.overall.is_some() {
        let mut text = String::from_str(
            match scope {
                Scope::Car => "No PB in this car. Best: ",
                Scope::Category => "No PB in this category. Best: ",
            },
        );
        text.append(lap_text(&slots.overall).as_str());
        StatusLine { colour: LineColour::Red, text }
    } else {
        StatusLine {
            colour: LineColour::Magenta,
            text: String::from_str(
                match scope {
                    Scope::Car => "There are no lap times in this car",
                    Scope::Category => "No lap times in this category",
                },
            ),
        }
    }
}

/// The gap of the last lap to a best of all, in milliseconds; the sign of
/// infinity where there is no best of all.
pub open spec fn last_lap_gap(millis: i32, overall: Option<LapEntry>) -> Seq<char> {
    match overall {
        Some(lap) => signed_decimal(millis - lap.lap_time_ms),
        None => "∞"@,
    }
}

fn last_lap_gap_text(millis: i32, overall: &Option<BestLapWithDriver>) -> (text: String)
    ensures
        text@ == last_lap_gap(millis, entry_of(*overall)),
{
    match overall {
        Some(lap) => difference_string(millis as i64, lap.lap_time_ms),
        None => String::from_str("∞"),
    }
}

/// The line that reports on the lap completed last: its time as the
/// simulator writes it and its gaps to the bests of all in the car and in
/// the class; or a call to get going where no lap has been completed.
pub open spec fn last_lap_line(reference: Reference, last_lap: Option<LastLapView>) -> LineView {
    LineView {
        colour: LineColour::White,
        text: match last_lap {
            Some(lap) => "Last: "@ + lap.text + " Car diff: "@ + last_lap_gap(
                lap.millis,
                reference.car.overall,
            ) + "ms Category diff "@ + last_lap_gap(lap.millis, reference.category.overall)
                + "ms"@,
            None => "Stop staring at me & start driving"@,
        },
    }
}

/// Writes the line that reports on the lap completed last.
pub fn last_lap_status(laps: &BestLaps, last_lap: &Option<LastLap>) -> (line: StatusLine)
    ensures
        line@ == last_lap_line(laps@, last_lap_of(*last_lap)),
{
    match last_lap {
        Some(lap) => {
            let mut text = String::from_str("Last: ");
            text.append(lap.text.as_str());
            text.append(" Car diff: ");
            text.append(last_lap_gap_text(lap.millis, &laps.car.overall).as_str());
            text.append("ms Category diff ");
            text.append(last_lap_gap_text(lap.millis, &laps.category.overall).as_str());
            text.append("ms");
            StatusLine { colour: LineColour::White, text }
        },
        None => StatusLine {
            colour: LineColour::White,
            text: String::from_str("Stop staring at me & start driving"),
        },
    }
}

/// The number of lines that one drawing of the timing board takes.
pub const BOARD_LINES: u16 = 3;

/// The timing board: one line on the car, one on its class and one on the
/// lap completed last.
#[derive(Debug, PartialEq, Eq)]
pub struct TimingBoard {
    /// How many lines the cursor goes up before the board is drawn: the
    /// height of the board when it is drawn over an earlier one.
    pub rewind: u16,
    pub car: StatusLine,
    pub category: StatusLine,
    pub last_lap: StatusLine,
}

/// What the timing board says.
pub struct BoardView {
    pub rewind: u16,
    pub car: LineView,
    pub category: LineView,
    pub last_lap: LineView,
}

impl View for TimingBoard {
    type V = BoardView;

    open spec fn view(&self) -> BoardView {
        BoardView {
            rewind: self.rewind,
            car: self.car@,
            category: self.category@,
            last_lap: self.last_lap@,
        }
    }
}

/// The timing board for the given reference laps and last lap.
pub open spec fn board_of(
    reference: Reference,
    last_lap: Option<LastLapView>,
    redraw: bool,
) -> BoardView {
    BoardView {
        rewind: if redraw {
            BOARD_LINES
        } else {
            0
        },
        car: scope_line(Scope::Car, reference.car),
        category: scope_line(Scope::Category, reference.category),
        last_lap: last_lap_line(reference, last_lap),
    }
}

/// Lays out the timing board. `redraw` says that an earlier drawing of the
/// board is on the screen and is to be drawn over.
pub fn log_laps(laps: &BestLaps, last_lap: &Option<LastLap>, redraw: bool) -> (board: TimingBoard)
    ensures
        board@ == board_of(laps@, last_lap_of(*last_lap), redraw),
        can_pad(board.car.text@),
        can_pad(board.category.text@),
{
    TimingBoard {
        rewind: if redraw {
            BOARD_LINES
        } else {
            0
        },
        car: scope_status(Scope::Car, &laps.car),
        category: scope_status(Scope::Category, &laps.category),
        last_lap: last_lap_status(laps, last_lap),
    }
}

/// The headline of a session: the car, its class and the circuit.
pub open spec fn session_title(car: Car, track: TrackName) -> Seq<char> {
    car.name.label() + " ("@ + car.category.code() + ") on "@ + track.label()
}

/// Writes the headline of a session.
pub fn session_headline(car: Car, track: TrackName) -> (title: String)
    ensures
        title@ == session_title(car, track),
{
    let mut title = car.name.to_string();
    title.append(" (");
    title.append(car.category.as_str());
    title.append(") on ");
    title.append(track.as_str());
    title
}

/// The greeting shown while no session is running.
pub open spec fn welcome_text(driver_name: Seq<char>) -> Seq<char> {
    "Welcome "@ + driver_name + ", start a session to begin..."@
}

/// Writes the greeting shown while no session is running.
pub fn welcome_line(driver_name: &str) -> (line: String)
    ensures
        line@ == welcome_text(driver_name@),
{
    let mut line = String::from_str("Welcome ");
    line.append(driver_name);
    line.append(", start a session to begin...");
    line
}

} // verus!
