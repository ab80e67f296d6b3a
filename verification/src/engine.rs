use crate::board::{board_of, log_laps, TimingBoard};
use crate::cars::{Car, CarCategory};
use crate::records::{
    entries, entry_of, format_millis, lap_time_text, reference_of, BestLapData,
    BestLapWithDriver, BestLaps, LapEntry, Reference,
};
use crate::text::{pad_lap_segment, zero_padded};
use crate::track::TrackName;
use vstd::prelude::*;
use vstd::string::*;

verus! {

/// Whether a lap time reported by the simulator stands for a real lap. The
/// simulator reports the largest 32-bit number while there is no lap yet.
pub open spec fn is_valid_time(millis: i32) -> bool {
    millis < i32::MAX
}

/// Tells a real lap time from the simulator's "no lap yet" marker.
pub fn has_valid_time(millis: i32) -> (valid: bool)
    ensures
        valid == is_valid_time(millis),
{
    millis < i32::MAX
}

/// Whether a lap of `time_ms` milliseconds beats a reference lap: it is
/// strictly faster, or there is no reference lap to beat. A lap that ties
/// the reference does not beat it.
pub open spec fn beats(time_ms: i64, slot: Option<LapEntry>) -> bool {
    match slot {
        Some(lap) => time_ms < lap.lap_time_ms,
        None => true,
    }
}

/// Tells whether a lap of `time_ms` milliseconds beats a reference lap.
pub fn beats_lap(time_ms: i64, slot: &Option<BestLapWithDriver>) -> (faster: bool)
    ensures
        faster == beats(time_ms, entry_of(*slot)),
{
    match slot {
        Some(lap) => time_ms < lap.lap_time_ms,
        None => true,
    }
}

/// How much a new personal best is worth, highest first.
#[derive(Debug, Clone, Copy, PartialEq, Eq, Structural)]
pub enum OutcomeTier {
    /// Faster than every lap in the car's class.
    CategoryOverallBest,
    /// Faster than every lap in the same car.
    CarOverallBest,
    /// Faster than the driver's own laps in the car's class.
    CategoryPersonalBest,
    /// Faster than the driver's own laps in the same car.
    CarPersonalBest,
}

/// The tier of a new personal best of `time_ms` milliseconds, judged against
/// the reference laps as they stood before the lap: the highest tier whose
/// reference lap it beats.
pub open spec fn tier_of(reference: Reference, time_ms: i64) -> OutcomeTier {
    if beats(time_ms, reference.category.overall) {
        OutcomeTier::CategoryOverallBest
    } else if beats(time_ms, reference.car.overall) {
        OutcomeTier::CarOverallBest
    } else if beats(time_ms, reference.category.mine) {
        OutcomeTier::CategoryPersonalBest
    } else {
        OutcomeTier::CarPersonalBest
    }
}

/// Ranks a new personal best against the reference laps as they stood before
/// the lap.
pub fn classify(laps: &BestLaps, time_ms: i64) -> (tier: OutcomeTier)
    ensures
        tier == tier_of(laps@, time_ms),
{
    if beats_lap(time_ms, &laps.category.overall) {
        OutcomeTier::CategoryOverallBest
    } else if beats_lap(time_ms, &laps.car.overall) {
        OutcomeTier::CarOverallBest
    } else if beats_lap(time_ms, &laps.category.mine) {
        OutcomeTier::CategoryPersonalBest
    } else {
        OutcomeTier::CarPersonalBest
    }
}

/// A lap that beats the best of the whole class is announced as such,
/// whatever else it beats.
pub proof fn lemma_category_best_comes_first(reference: Reference, time_ms: i64)
    requires
        beats(time_ms, reference.category.overall),
    ensures
        tier_of(reference, time_ms) == OutcomeTier::CategoryOverallBest,
{
}

/// The words that open the announcement of a new best of the given tier.
pub open spec fn prefix_text(tier: OutcomeTier, category: CarCategory) -> Seq<char> {
    match tier {
        OutcomeTier::CategoryOverallBest => category.code() + " fastest"@,
        OutcomeTier::CarOverallBest => "Car fastest"@,
        OutcomeTier::CategoryPersonalBest => category.code() + " PB"@,
        OutcomeTier::CarPersonalBest => "Car PB"@,
    }
}

/// Writes the words that open the announcement of a new best.
pub fn message_prefix(tier: OutcomeTier, category: CarCategory) -> (prefix: String)
    ensures
        prefix@ == prefix_text(tier, category),
{
    match tier {
        OutcomeTier::CategoryOverallBest => {
            let mut prefix = category.to_string();
            prefix.append(" fastest");
            prefix
        },
        OutcomeTier::CarOverallBest => String::from_str("Car fastest"),
        OutcomeTier::CategoryPersonalBest => {
            let mut prefix = category.to_string();
            prefix.append(" PB");
            prefix
        },
        OutcomeTier::CarPersonalBest => String::from_str("Car PB"),
    }
}

/// The gain of a lap of `time_ms` milliseconds over an earlier best of
/// `previous_ms`, in milliseconds, as an unsigned 64-bit number. It is the
/// plain difference wherever the lap is not the slower one; the difference of
/// a slower lap is negative and is read as the unsigned number with the same
/// 64 bits.
pub open spec fn gain_ms(previous_ms: i64, time_ms: i64) -> u64 {
    (previous_ms - time_ms) as u64
}

/// The part of an announcement that says by how much the driver improved:
/// the gain in milliseconds with at least three digits, or nothing where
/// there was no earlier best.
pub open spec fn improvement_text(previous: Option<LapEntry>, time_ms: i64) -> Seq<char> {
    match previous {
        Some(lap) => " (-"@ + zero_padded(gain_ms(lap.lap_time_ms, time_ms) as nat, 3) + "ms)"@,
        None => Seq::empty(),
    }
}

/// Writes the part of an announcement that says by how much the driver
/// improved on an earlier best.
pub fn improvement_clause(previous: &Option<BestLapWithDriver>, time_ms: i64) -> (clause: String)
    ensures
        clause@ == improvement_text(entry_of(*previous), time_ms),
{
    match previous {
        Some(lap) => {
            let gain = (lap.lap_time_ms as i128 - time_ms as i128) as u64;
            let mut clause = String::from_str(" (-");
            clause.append(pad_lap_segment(gain, 3).as_str());
            clause.append("ms)");
            clause
        },
        None => String::new(),
    }
}

/// The text that announces a new best lap.
pub open spec fn notification_text(
    tier: OutcomeTier,
    car: Car,
    track: TrackName,
    time_ms: i64,
    previous: Option<LapEntry>,
) -> Seq<char> {
    prefix_text(tier, car.category) + " "@ + lap_time_text(time_ms as u64) + improvement_text(
        previous,
        time_ms,
    ) + " in "@ + car.name.label() + " on "@ + track.label()
}

/// Writes the text that announces a new best lap of `time_ms` milliseconds:
/// the tier, the lap time, the gain over the driver's earlier best in the
/// same car if there was one, the car and the circuit.
pub fn format_notification(
    tier: OutcomeTier,
    car: Car,
    track: TrackName,
    time_ms: i64,
    previous: &Option<BestLapWithDriver>,
) -> (message: String)
    ensures
        message@ == notification_text(tier, car, track, time_ms, entry_of(*previous)),
{
    let mut message = message_prefix(tier, car.category);
    message.append(" ");
    message.append(format_millis(time_ms as u64).as_str());
    message.append(improvement_clause(previous, time_ms).as_str());
    message.append(" in ");
    message.append(car.name.as_str());
    message.append(" on ");
    message.append(track.as_str());
    message
}

/// The name under which a driver's announcements are posted.
pub open spec fn username_text(driver_name: Seq<char>) -> Seq<char> {
    driver_name + "'s ACC Bot"@
}

/// Writes the name under which a driver's announcements are posted.
pub fn bot_username(driver_name: &str) -> (username: String)
    ensures
        username@ == username_text(driver_name@),
{
    let mut username = String::from_str(driver_name);
    username.append("'s ACC Bot");
    username
}

/// The simulator's reading of the lap that was completed last.
#[derive(Debug, PartialEq, Eq)]
pub struct LastLap {
    /// The lap time in milliseconds.
    pub millis: i32,
    /// The lap time as the simulator writes it.
    pub text: String,
}

/// What a reading of the last lap says.
pub struct LastLapView {
    pub millis: i32,
    pub text: Seq<char>,
}

impl View for LastLap {
    type V = LastLapView;

    open spec fn view(&self) -> LastLapView {
        LastLapView { millis: self.millis, text: self.text@ }
    }
}

/// What an optional reading of the last lap says.
pub open spec fn last_lap_of(last_lap: Option<LastLap>) -> Option<LastLapView> {
    match last_lap {
        Some(lap) => Some(lap@),
        None => None,
    }
}

impl LastLap {
    /// Takes the simulator's reading of the last lap, which is no lap at all
    /// while the time is the "no lap yet" marker.
    pub fn from_reading(millis: i32, text: String) -> (last_lap: Option<LastLap>)
        ensures
            last_lap_of(last_lap) == (if is_valid_time(millis) {
                Some(LastLapView { millis, text: text@ })
            } else {
                None
            }),
    {
        if has_valid_time(millis) {
            Some(LastLap { millis, text })
        } else {
            None
        }
    }
}

/// One sample of the simulator's timing, as the engine takes it.
#[derive(Debug, PartialEq, Eq)]
pub struct LapCompletionEvent {
    /// The number of laps completed so far in the session.
    pub completed_laps: i32,
    /// The best lap of the session so far in milliseconds, or the "no lap
    /// yet" marker.
    pub best_lap_ms: i32,
    /// The lap completed last, for the timing board.
    pub last_lap: Option<LastLap>,
    /// When the sample was taken, in microseconds since the Unix epoch.
    pub timestamp: i64,
}

/// What a timing sample says.
pub struct EventView {
    pub completed_laps: i32,
    pub best_lap_ms: i32,
    pub last_lap: Option<LastLapView>,
    pub timestamp: i64,
}

impl View for LapCompletionEvent {
    type V = EventView;

    open spec fn view(&self) -> EventView {
        EventView {
            completed_laps: self.completed_laps,
            best_lap_ms: self.best_lap_ms,
            last_lap: last_lap_of(self.last_lap),
            timestamp: self.timestamp,
        }
    }
}

/// The time now in microseconds since the Unix epoch: chrono's `Utc::now`
/// reads the system clock, and `DateTime::timestamp_micros` counts the
/// microseconds. Nothing is claimed of the value, which is the clock's.
/// `Utc::now` does not come back where the clock stands before the year
/// 1970.
#[verifier::external_body]
fn now_micros() -> (micros: i64) {
    chrono::Utc::now().timestamp_micros()
}

impl LapCompletionEvent {
    /// Makes a timing sample of the simulator's readings and stamps it with
    /// the time now. The reading of the last lap is taken as by
    /// `LastLap::from_reading`.
    pub fn observe(
        completed_laps: i32,
        best_lap_ms: i32,
        last_lap_ms: i32,
        last_lap_text: String,
    ) -> (event: LapCompletionEvent)
        ensures
            event@ == (EventView {
                completed_laps,
                best_lap_ms,
                last_lap: if is_valid_time(last_lap_ms) {
                    Some(LastLapView { millis: last_lap_ms, text: last_lap_text@ })
                } else {
                    None
                },
                timestamp: event.timestamp,
            }),
    {
        LapCompletionEvent {
            completed_laps,
            best_lap_ms,
            last_lap: LastLap::from_reading(last_lap_ms, last_lap_text),
            timestamp: now_micros(),
        }
    }
}

/// Who drives what where: the identities that a session works under.
#[derive(Debug, PartialEq, Eq)]
pub struct SessionContext {
    pub driver_id: i64,
    pub driver_name: String,
    pub track_id: i64,
    pub car_id: i64,
    pub car: Car,
    pub track: TrackName,
}

/// What the identities of a session say.
pub struct ContextView {
    pub driver_id: i64,
    pub driver_name: Seq<char>,
    pub track_id: i64,
    pub car_id: i64,
    pub car: Car,
    pub track: TrackName,
}

impl View for SessionContext {
    type V = ContextView;

    open spec fn view(&self) -> ContextView {
        ContextView {
            driver_id: self.driver_id,
            driver_name: self.driver_name@,
            track_id: self.track_id,
            car_id: self.car_id,
            car: self.car,
            track: self.track,
        }
    }
}

/// A new personal best, ready to be stored and announced.
#[derive(Debug, PartialEq, Eq)]
pub struct Announcement {
    /// The record to store.
    pub record: BestLapData,
    /// How much the lap is worth.
    pub tier: OutcomeTier,
    /// The text to post.
    pub message: String,
    /// The name to post it under.
    pub username: String,
}

/// What an announcement says.
pub struct AnnouncementView {
    pub record: BestLapData,
    pub tier: OutcomeTier,
    pub message: Seq<char>,
    pub username: Seq<char>,
}

impl View for Announcement {
    type V = AnnouncementView;

    open spec fn view(&self) -> AnnouncementView {
        AnnouncementView {
            record: self.record,
            tier: self.tier,
            message: self.message@,
            username: self.username@,
        }
    }
}

/// What the engine decided on one timing sample.
#[derive(Debug, PartialEq, Eq)]
pub struct Evaluation {
    /// Whether the reference laps are to be read again from the record store
    /// and the timing board drawn again.
    pub refresh: bool,
    /// The new personal best to store and announce, if the sample brought
    /// one.
    pub new_best: Option<Announcement>,
}

/// What a decision of the engine says.
pub struct EvaluationView {
    pub refresh: bool,
    pub new_best: Option<AnnouncementView>,
}

impl View for Evaluation {
    type V = EvaluationView;

    open spec fn view(&self) -> EvaluationView {
        EvaluationView {
            refresh: self.refresh,
            new_best: match self.new_best {
                Some(a) => Some(a@),
                None => None,
            },
        }
    }
}

/// The state of the engine between two samples: the number of the last lap
/// it has evaluated and the reference laps it compares against. Between two
/// calls the engine is idle; `evaluate` is its one transition, and it comes
/// back to idle with the call.
#[derive(Debug, PartialEq, Eq)]
pub struct Session {
    pub lap_number: i32,
    pub best_laps: BestLaps,
}

/// What the state of the engine says.
pub struct SessionView {
    pub lap_number: i32,
    pub reference: Reference,
}

impl View for Session {
    type V = SessionView;

    open spec fn view(&self) -> SessionView {
        SessionView { lap_number: self.lap_number, reference: self.best_laps@ }
    }
}

/// Whether a sample brings a lap that the engine has not evaluated yet.
pub open spec fn completes_lap(session: SessionView, event: EventView) -> bool {
    event.completed_laps > session.lap_number
}

/// Whether the best lap of a sample is a new personal best in the car: it is
/// a real lap time, and it beats the driver's own best in the car.
pub open spec fn sets_new_best(reference: Reference, event: EventView) -> bool {
    is_valid_time(event.best_lap_ms) && beats(event.best_lap_ms as i64, reference.car.mine)
}

/// The record that stores the best lap of a sample.
pub open spec fn record_of(context: ContextView, event: EventView) -> BestLapData {
    BestLapData {
        driver_id: context.driver_id,
        track_id: context.track_id,
        created_at: event.timestamp,
        lap_time_ms: event.best_lap_ms as i64,
        car_id: context.car_id,
    }
}

/// The announcement of the best lap of a sample, judged against the
/// reference laps as they stood before the lap.
pub open spec fn announcement_of(
    reference: Reference,
    context: ContextView,
    event: EventView,
) -> AnnouncementView {
    let time_ms = event.best_lap_ms as i64;
    let tier = tier_of(reference, time_ms);
    AnnouncementView {
        record: record_of(context, event),
        tier,
        message: notification_text(tier, context.car, context.track, time_ms, reference.car.mine),
        username: username_text(context.driver_name),
    }
}

/// What the engine decides on a sample, given the state it is in.
pub open spec fn decision_of(
    session: SessionView,
    context: ContextView,
    event: EventView,
) -> EvaluationView {
    if completes_lap(session, event) {
        EvaluationView {
            refresh: true,
            new_best: if sets_new_best(session.reference, event) {
                Some(announcement_of(session.reference, context, event))
            } else {
                None
            },
        }
    } else {
        EvaluationView { refresh: false, new_best: None }
    }
}

/// The state of the engine after a sample: the lap counter follows the
/// sample when it brings a new lap; the reference laps stay as they are
/// until they are read again from the record store.
pub open spec fn state_after(session: SessionView, event: EventView) -> SessionView {
    if completes_lap(session, event) {
        SessionView { lap_number: event.completed_laps, reference: session.reference }
    } else {
        session
    }
}

/// A new personal best that beats the best of the whole class is announced
/// as such, whatever the other reference laps are.
pub proof fn lemma_category_best_is_announced_as_such(
    session: SessionView,
    context: ContextView,
    event: EventView,
)
    requires
        completes_lap(session, event),
        sets_new_best(session.reference, event),
        beats(event.best_lap_ms as i64, session.reference.category.overall),
    ensures
        decision_of(session, context, event).new_best matches Some(best) && best.tier
            == OutcomeTier::CategoryOverallBest,
{
}

/// A sample without a real lap time is never compared and never announced;
/// whether it asks for a refresh depends on the lap counter alone.
pub proof fn lemma_no_lap_time_no_new_best(
    session: SessionView,
    context: ContextView,
    event: EventView,
)
    requires
        !is_valid_time(event.best_lap_ms),
    ensures
        decision_of(session, context, event).new_best is None,
        decision_of(session, context, event).refresh == completes_lap(session, event),
{
}

/// Where nobody has a lap in the car's class yet, the first real lap that a
/// driver completes is a new best of the highest tier.
pub proof fn lemma_first_lap_of_a_class(
    session: SessionView,
    context: ContextView,
    event: EventView,
)
    requires
        completes_lap(session, event),
        is_valid_time(event.best_lap_ms),
        session.reference.car.mine is None,
        session.reference.category.overall is None,
    ensures
        decision_of(session, context, event).refresh,
        decision_of(session, context, event).new_best matches Some(best) && best.tier
            == OutcomeTier::CategoryOverallBest && best.record.lap_time_ms == event.best_lap_ms,
{
}

/// A lap is evaluated once: the sample that brought it, seen again, changes
/// nothing and asks for nothing.
pub proof fn lemma_a_lap_is_evaluated_once(
    session: SessionView,
    context: ContextView,
    event: EventView,
)
    ensures
        decision_of(state_after(session, event), context, event) == (EvaluationView {
            refresh: false,
            new_best: None,
        }),
        state_after(state_after(session, event), event) == state_after(session, event),
{
}

/// The leaderboards of a car and of its class on one circuit, as read from
/// the record store: fastest lap first.
#[derive(Debug, PartialEq, Eq)]
pub struct Leaderboards {
    pub car: Vec<BestLapWithDriver>,
    pub category: Vec<BestLapWithDriver>,
}

impl Session {
    /// The state at the start of a session: no lap evaluated yet.
    pub fn new(best_laps: BestLaps) -> (session: Session)
        ensures
            session.lap_number == 0,
            session.best_laps == best_laps,
    {
        Session { lap_number: 0, best_laps }
    }

    /// Takes one timing sample. A sample whose lap counter has not gone past
    /// the last evaluated lap changes nothing and asks for nothing. One that
    /// brings a new lap asks for a refresh, and for the lap to be stored and
    /// announced when it is a new personal best in the car.
    pub fn evaluate(&mut self, context: &SessionContext, event: &LapCompletionEvent) -> (evaluation:
        Evaluation)
        ensures
            evaluation@ == decision_of(old(self)@, context@, event@),
            final(self)@ == state_after(old(self)@, event@),
            final(self).best_laps == old(self).best_laps,
    {
        if event.completed_laps > self.lap_number {
            self.lap_number = event.completed_laps;
            let time_ms = event.best_lap_ms as i64;
            let new_best = if has_valid_time(event.best_lap_ms) && beats_lap(
                time_ms,
                &self.best_laps.car.mine,
            ) {
                let tier = classify(&self.best_laps, time_ms);
                Some(
                    Announcement {
                        record: BestLapData {
                            driver_id: context.driver_id,
                            track_id: context.track_id,
                            created_at: event.timestamp,
                            lap_time_ms: time_ms,
                            car_id: context.car_id,
                        },
                        tier,
                        message: format_notification(
                            tier,
                            context.car,
                            context.track,
                            time_ms,
                            &self.best_laps.car.mine,
                        ),
                        username: bot_username(context.driver_name.as_str()),
                    },
                )
            } else {
                None
            };
            Evaluation { refresh: true, new_best }
        } else {
            Evaluation { refresh: false, new_best: None }
        }
    }

    /// Takes the outcome of reading the leaderboards again. Where the record
    /// store answered, the reference laps are built anew from the answer and
    /// the timing board is laid out to be drawn over the earlier one; where
    /// it failed, the state stays as it was and the failure is handed back.
    pub fn refresh<E>(
        &mut self,
        driver_id: i64,
        fetched: Result<Leaderboards, E>,
        last_lap: &Option<LastLap>,
    ) -> (outcome: Result<TimingBoard, E>)
        ensures
            match fetched {
                Ok(boards) => {
                    &&& final(self)@ == (SessionView {
                        lap_number: old(self).lap_number,
                        reference: reference_of(
                            entries(boards.car@),
                            entries(boards.category@),
                            driver_id,
                        ),
                    })
                    &&& outcome matches Ok(board) && board@ == board_of(
                        final(self)@.reference,
                        last_lap_of(*last_lap),
                        true,
                    )
                },
                Err(e) => outcome == Err::<TimingBoard, E>(e) && *final(self) == *old(self),
            },
    {
        match fetched {
            Ok(boards) => {
                let (best_laps, board) = refresh_laps(&boards, driver_id, last_lap, false);
                self.best_laps = best_laps;
                Ok(board)
            },
            Err(e) => Err(e),
        }
    }
}

/// Reads the reference laps of the driver `driver_id` off freshly read
/// leaderboards and lays out the timing board for them. `is_init` says that
/// this is the first drawing of the board in the session.
pub fn refresh_laps(
    boards: &Leaderboards,
    driver_id: i64,
    last_lap: &Option<LastLap>,
    is_init: bool,
) -> (out: (BestLaps, TimingBoard))
    ensures
        out.0@ == reference_of(entries(boards.car@), entries(boards.category@), driver_id),
        out.1@ == board_of(out.0@, last_lap_of(*last_lap), !is_init),
{
    let best_laps = BestLaps::from_records(&boards.car, &boards.category, driver_id);
    let board = log_laps(&best_laps, last_lap, !is_init);
    (best_laps, board)
}

} // verus!
