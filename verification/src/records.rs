use crate::text::{
    decimal, decimal_string, lemma_decimal_is_ascii, lemma_zero_padded_is_ascii, pad_lap_segment,
    zero_padded,
};
use vstd::prelude::*;
use vstd::string::*;
use vstd::utf8::is_ascii_chars;

verus! {

/// Anything that carries a lap time in milliseconds.
pub trait LapTime {
    /// The lap time, in milliseconds.
    spec fn lap_time(&self) -> i64;

    /// Reads the lap time, in milliseconds.
    fn lap_time_ms(&self) -> (ms: i64)
        ensures
            ms == self.lap_time(),
    ;
}

/// A lap time written as `minutes:seconds:milliseconds`, the seconds with two
/// digits and the milliseconds with three.
pub open spec fn lap_time_text(millis: u64) -> Seq<char> {
    let secs = millis / 1000;
    decimal((secs / 60) as nat) + seq![':'] + zero_padded((secs % 60) as nat, 2) + seq![':']
        + zero_padded((millis % 1000) as nat, 3)
}

/// What the timing board shows for a lap time that may be missing: `None`
/// for a missing one. A negative time is read as the unsigned number with
/// the same 64 bits.
pub open spec fn optional_lap_time_text(millis: Option<i64>) -> Seq<char> {
    match millis {
        Some(ms) => lap_time_text(ms as u64),
        None => "None"@,
    }
}

/// All characters of a lap time, written out or missing, are ASCII.
pub proof fn lemma_lap_time_text_is_ascii(millis: Option<i64>)
    ensures
        is_ascii_chars(optional_lap_time_text(millis)),
{
    match millis {
        Some(ms) => {
            let secs = (ms as u64) / 1000;
            lemma_decimal_is_ascii((secs / 60) as nat);
            lemma_zero_padded_is_ascii((secs % 60) as nat, 2);
            lemma_zero_padded_is_ascii(((ms as u64) % 1000) as nat, 3);
        },
        None => {
            reveal_strlit("None");
        },
    }
}

/// Writes a duration of `millis` milliseconds as `m:ss:mmm`.
pub fn format_millis(millis: u64) -> (text: String)
    ensures
        text@ == lap_time_text(millis),
{
    let secs = millis / 1000;
    let mut text = decimal_string(secs / 60);
    proof {
        reveal_strlit(":");
    }
    text.append(":");
    text.append(pad_lap_segment(secs % 60, 2).as_str());
    text.append(":");
    text.append(pad_lap_segment(millis % 1000, 3).as_str());
    assert(text@ =~= lap_time_text(millis));
    text
}

/// Writes a lap time as `m:ss:mmm`, or `None` where there is no lap. A
/// negative time is read as the unsigned number with the same 64 bits.
pub fn format_lap_time<T: LapTime>(lap_time: Option<T>) -> (text: String)
    ensures
        text@ == optional_lap_time_text(
            match lap_time {
                Some(t) => Some(t.lap_time()),
                None => None,
            },
        ),
{
    match lap_time {
        Some(t) => format_millis(t.lap_time_ms() as u64),
        None => String::from_str("None"),
    }
}

/// A new best lap on its way to the record store.
#[derive(Debug, Clone, Copy, PartialEq, Eq, Structural)]
pub struct BestLapData {
    pub driver_id: i64,
    pub track_id: i64,
    /// When the lap was set, in microseconds since the Unix epoch.
    pub created_at: i64,
    pub lap_time_ms: i64,
    pub car_id: i64,
}

impl LapTime for BestLapData {
    open spec fn lap_time(&self) -> i64 {
        self.lap_time_ms
    }

    fn lap_time_ms(&self) -> (ms: i64) {
        self.lap_time_ms
    }
}

/// A best lap as the record store holds it.
#[derive(Debug, Clone, Copy, PartialEq, Eq, Structural)]
pub struct BestLap {
    pub id: i64,
    pub driver_id: i64,
    pub track_id: i64,
    /// When the lap was set, in microseconds since the Unix epoch.
    pub created_at: i64,
    pub lap_time_ms: i64,
    pub car_id: i64,
}

impl LapTime for BestLap {
    open spec fn lap_time(&self) -> i64 {
        self.lap_time_ms
    }

    fn lap_time_ms(&self) -> (ms: i64) {
        self.lap_time_ms
    }
}

/// A stored best lap together with the name of the driver who set it: one
/// line of a leaderboard.
#[derive(Debug, PartialEq, Eq)]
pub struct BestLapWithDriver {
    pub id: i64,
    pub driver_id: i64,
    pub track_id: i64,
    /// When the lap was set, in microseconds since the Unix epoch.
    pub created_at: i64,
    pub lap_time_ms: i64,
    pub driver_name: String,
    pub car_id: i64,
}

/// What a leaderboard line says: the line with the driver's name as a
/// sequence of characters.
pub struct LapEntry {
    pub id: i64,
    pub driver_id: i64,
    pub track_id: i64,
    pub created_at: i64,
    pub lap_time_ms: i64,
    pub driver_name: Seq<char>,
    pub car_id: i64,
}

impl View for BestLapWithDriver {
    type V = LapEntry;

    open spec fn view(&self) -> LapEntry {
        LapEntry {
            id: self.id,
            driver_id: self.driver_id,
            track_id: self.track_id,
            created_at: self.created_at,
            lap_time_ms: self.lap_time_ms,
            driver_name: self.driver_name@,
            car_id: self.car_id,
        }
    }
}

impl Clone for BestLapWithDriver {
    fn clone(&self) -> (copy: Self)
        ensures
            copy == *self,
    {
        BestLapWithDriver {
            id: self.id,
            driver_id: self.driver_id,
            track_id: self.track_id,
            created_at: self.created_at,
            lap_time_ms: self.lap_time_ms,
            driver_name: self.driver_name.clone(),
            car_id: self.car_id,
        }
    }
}

impl LapTime for BestLapWithDriver {
    open spec fn lap_time(&self) -> i64 {
        self.lap_time_ms
    }

    fn lap_time_ms(&self) -> (ms: i64) {
        self.lap_time_ms
    }
}

/// The two reference laps of one scope (a car or a class) on one circuit:
/// the session driver's own best and the best of all drivers.
#[derive(Debug, PartialEq, Eq)]
pub struct MyLapAndBestLap {
    pub mine: Option<BestLapWithDriver>,
    pub overall: Option<BestLapWithDriver>,
}

/// What a pair of reference laps says.
pub struct Slots {
    pub mine: Option<LapEntry>,
    pub overall: Option<LapEntry>,
}

/// What an optional leaderboard line says.
pub open spec fn entry_of(lap: Option<BestLapWithDriver>) -> Option<LapEntry> {
    match lap {
        Some(l) => Some(l@),
        None => None,
    }
}

impl View for MyLapAndBestLap {
    type V = Slots;

    open spec fn view(&self) -> Slots {
        Slots { mine: entry_of(self.mine), overall: entry_of(self.overall) }
    }
}

impl Clone for MyLapAndBestLap {
    fn clone(&self) -> (copy: Self)
        ensures
            copy == *self,
    {
        MyLapAndBestLap { mine: clone_lap(&self.mine), overall: clone_lap(&self.overall) }
    }
}

fn clone_lap(lap: &Option<BestLapWithDriver>) -> (copy: Option<BestLapWithDriver>)
    ensures
        copy == *lap,
{
    match lap {
        Some(l) => Some(l.clone()),
        None => None,
    }
}

/// The reference laps of a session: four slots, for the car and for its
/// class, each with the driver's own best and the best of all drivers.
#[derive(Debug, PartialEq, Eq)]
pub struct BestLaps {
    pub car: MyLapAndBestLap,
    pub category: MyLapAndBestLap,
}

/// What the reference laps of a session say.
pub struct Reference {
    pub car: Slots,
    pub category: Slots,
}

impl View for BestLaps {
    type V = Reference;

    open spec fn view(&self) -> Reference {
        Reference { car: self.car@, category: self.category@ }
    }
}

impl Clone for BestLaps {
    fn clone(&self) -> (copy: Self)
        ensures
            copy == *self,
    {
        BestLaps { car: self.car.clone(), category: self.category.clone() }
    }
}

/// What the lines of a leaderboard say, line by line.
pub open spec fn entries(records: Seq<BestLapWithDriver>) -> Seq<LapEntry> {
    records.map_values(|r: BestLapWithDriver| r@)
}

/// The first line of a leaderboard that belongs to the driver `driver_id`.
pub open spec fn first_of_driver(board: Seq<LapEntry>, driver_id: i64) -> Option<LapEntry>
    decreases board.len(),
{
    if board.len() == 0 {
        None
    } else if board[0].driver_id == driver_id {
        Some(board[0])
    } else {
        first_of_driver(board.drop_first(), driver_id)
    }
}

/// The first line of a leaderboard.
pub open spec fn leader(board: Seq<LapEntry>) -> Option<LapEntry> {
    if board.len() == 0 {
        None
    } else {
        Some(board[0])
    }
}

/// The reference laps that one leaderboard gives the driver `driver_id`.
pub open spec fn slots_of(board: Seq<LapEntry>, driver_id: i64) -> Slots {
    Slots { mine: first_of_driver(board, driver_id), overall: leader(board) }
}

/// The reference laps that the leaderboards of the car and of its class give
/// the driver `driver_id`.
pub open spec fn reference_of(
    car_board: Seq<LapEntry>,
    category_board: Seq<LapEntry>,
    driver_id: i64,
) -> Reference {
    Reference {
        car: slots_of(car_board, driver_id),
        category: slots_of(category_board, driver_id),
    }
}

impl MyLapAndBestLap {
    /// Reads the two reference laps off a leaderboard: the first line is the
    /// best of all drivers, the first line of the driver `driver_id` is that
    /// driver's own best.
    pub fn from_records(records: &Vec<BestLapWithDriver>, driver_id: i64) -> (slots: Self)
        ensures
            slots@ == slots_of(entries(records@), driver_id),
    {
        let ghost board = entries(records@);
        let overall = if records.len() > 0 {
            Some(records[0].clone())
        } else {
            None
        };
        let mut mine: Option<BestLapWithDriver> = None;
        let mut i: usize = 0;
        assert(board.skip(0) =~= board);
        while i < records.len() && mine.is_none()
            invariant
                i <= records.len(),
                board == entries(records@),
                mine is None ==> first_of_driver(board, driver_id) == first_of_driver(
                    board.skip(i as int),
                    driver_id,
                ),
                mine is Some ==> entry_of(mine) == first_of_driver(board, driver_id),
            decreases records.len() - i + (if mine is None { 1int } else { 0int }),
        {
            assert(board.skip(i as int)[0] == records@[i as int]@);
            if records[i].driver_id == driver_id {
                mine = Some(records[i].clone());
            } else {
                assert(board.skip(i as int).drop_first() =~= board.skip(i as int + 1));
                i += 1;
            }
        }
        MyLapAndBestLap { mine, overall }
    }
}

impl BestLaps {
    /// Builds the reference laps of a session from the leaderboards of its
    /// car and of the car's class. Nothing of an earlier reference is kept.
    pub fn from_records(
        car_records: &Vec<BestLapWithDriver>,
        category_records: &Vec<BestLapWithDriver>,
        driver_id: i64,
    ) -> (laps: Self)
        ensures
            laps@ == reference_of(entries(car_records@), entries(category_records@), driver_id),
    {
        BestLaps {
            car: MyLapAndBestLap::from_records(car_records, driver_id),
            category: MyLapAndBestLap::from_records(category_records, driver_id),
        }
    }
}

} // verus!
