use crate::cars::CarCategory;
use crate::engine::{
    completes_lap, decision_of, is_valid_time, sets_new_best, state_after, ContextView, EventView,
    SessionView,
};
use crate::records::{first_of_driver, leader, reference_of, BestLapData, LapEntry, Reference};
use vstd::prelude::*;

verus! {

/// Whether a leaderboard runs from the fastest lap to the slowest.
pub open spec fn ascending(board: Seq<LapEntry>) -> bool {
    forall|i: int, j: int|
        0 <= i <= j < board.len() ==> board[i].lap_time_ms <= board[j].lap_time_ms
}

/// What `first_of_driver` finds is a line of the board that belongs to the
/// driver, with no line of that driver before it; it finds nothing only
/// where the driver has no line.
pub proof fn lemma_first_of_driver(board: Seq<LapEntry>, driver_id: i64)
    ensures
        match first_of_driver(board, driver_id) {
            Some(lap) => exists|i: int|
                0 <= i < board.len() && board[i] == lap && lap.driver_id == driver_id && forall|
                    j: int,
                | 0 <= j < i ==> board[j].driver_id != driver_id,
            None => forall|i: int| 0 <= i < board.len() ==> board[i].driver_id != driver_id,
        },
    decreases board.len(),
{
    if board.len() == 0 {
    } else if board[0].driver_id == driver_id {
        assert(board[0] == first_of_driver(board, driver_id)->0);
    } else {
        let rest = board.drop_first();
        lemma_first_of_driver(rest, driver_id);
        match first_of_driver(rest, driver_id) {
            Some(lap) => {
                let i = choose|i: int|
                    0 <= i < rest.len() && rest[i] == lap && lap.driver_id == driver_id && forall|
                        j: int,
                    | 0 <= j < i ==> rest[j].driver_id != driver_id;
                assert(board[i + 1] == lap);
                assert forall|j: int| 0 <= j < i + 1 implies board[j].driver_id != driver_id by {
                    if j > 0 {
                        assert(rest[j - 1] == board[j]);
                    }
                }
            },
            None => {
                assert forall|i: int| 0 <= i < board.len() implies board[i].driver_id
                    != driver_id by {
                    if i > 0 {
                        assert(rest[i - 1] == board[i]);
                    }
                }
            },
        }
    }
}

/// On a board that runs from the fastest lap to the slowest, the first line
/// is the fastest lap of all, and the first line of a driver is that
/// driver's fastest: no line of the board, or of the driver, is faster.
pub proof fn lemma_reference_laps_are_fastest(board: Seq<LapEntry>, driver_id: i64)
    requires
        ascending(board),
    ensures
        leader(board) is None <==> board.len() == 0,
        leader(board) matches Some(best) ==> forall|i: int|
            0 <= i < board.len() ==> best.lap_time_ms <= board[i].lap_time_ms,
        first_of_driver(board, driver_id) is None <==> forall|i: int|
            0 <= i < board.len() ==> board[i].driver_id != driver_id,
        first_of_driver(board, driver_id) matches Some(mine) ==> forall|i: int|
            0 <= i < board.len() && board[i].driver_id == driver_id ==> mine.lap_time_ms
                <= board[i].lap_time_ms,
{
    lemma_first_of_driver(board, driver_id);
}

/// A leaderboard with one more lap put in its place: behind every lap that
/// is not slower, so that laps of equal time stay in the order in which they
/// came.
pub open spec fn insert_ranked(board: Seq<LapEntry>, lap: LapEntry) -> Seq<LapEntry>
    decreases board.len(),
{
    if board.len() == 0 {
        seq![lap]
    } else if board.last().lap_time_ms <= lap.lap_time_ms {
        board.push(lap)
    } else {
        insert_ranked(board.drop_last(), lap).push(board.last())
    }
}

/// The laps of `rows` as a leaderboard: fastest first, laps of equal time in
/// the order of `rows`.
pub open spec fn ranked(rows: Seq<LapEntry>) -> Seq<LapEntry>
    decreases rows.len(),
{
    if rows.len() == 0 {
        Seq::empty()
    } else {
        insert_ranked(ranked(rows.drop_last()), rows.last())
    }
}

/// Putting a lap in its place adds that lap and nothing else, and keeps a
/// board in order.
pub proof fn lemma_insert_ranked(board: Seq<LapEntry>, lap: LapEntry)
    ensures
        insert_ranked(board, lap).len() == board.len() + 1,
        forall|x: LapEntry|
            #![trigger insert_ranked(board, lap).contains(x)]
            #![trigger board.contains(x)]
            insert_ranked(board, lap).contains(x) <==> (board.contains(x) || x == lap),
        ascending(board) ==> ascending(insert_ranked(board, lap)),
    decreases board.len(),
{
    let out = insert_ranked(board, lap);
    if board.len() == 0 {
        assert(out[0] == lap);
    } else if board.last().lap_time_ms <= lap.lap_time_ms {
        assert(out[board.len() as int] == lap);
        assert forall|x: LapEntry| board.contains(x) implies out.contains(x) by {
            let i = choose|i: int| 0 <= i < board.len() && board[i] == x;
            assert(out[i] == x);
        }
    } else {
        let front = board.drop_last();
        let inner = insert_ranked(front, lap);
        lemma_insert_ranked(front, lap);
        assert(out[inner.len() as int] == board.last());
        assert forall|x: LapEntry| out.contains(x) implies (board.contains(x) || x == lap) by {
            let i = choose|i: int| 0 <= i < out.len() && out[i] == x;
            if i < inner.len() {
                assert(inner[i] == x);
                assert(inner.contains(x));
                if x != lap {
                    let k = choose|k: int| 0 <= k < front.len() && front[k] == x;
                    assert(board[k] == x);
                }
            } else {
                assert(board[board.len() - 1] == x);
            }
        }
        assert forall|x: LapEntry| (board.contains(x) || x == lap) implies out.contains(x) by {
            if x == lap {
                assert(inner.contains(lap));
                let k = choose|k: int| 0 <= k < inner.len() && inner[k] == lap;
                assert(out[k] == x);
            } else {
                let i = choose|i: int| 0 <= i < board.len() && board[i] == x;
                if i < front.len() {
                    assert(front[i] == x);
                    assert(front.contains(x));
                    assert(inner.contains(x));
                    let k = choose|k: int| 0 <= k < inner.len() && inner[k] == x;
                    assert(out[k] == x);
                }
            }
        }
        if ascending(board) {
            assert forall|i: int, j: int| 0 <= i <= j < front.len() implies front[i].lap_time_ms
                <= front[j].lap_time_ms by {
                assert(front[i] == board[i] && front[j] == board[j]);
            }
            assert forall|i: int, j: int| 0 <= i <= j < out.len() implies out[i].lap_time_ms
                <= out[j].lap_time_ms by {
                if j < inner.len() {
                    assert(out[i] == inner[i] && out[j] == inner[j]);
                } else if i < inner.len() {
                    assert(out[i] == inner[i]);
                    assert(inner.contains(inner[i]));
                    if inner[i] != lap {
                        let k = choose|k: int| 0 <= k < front.len() && front[k] == inner[i];
                        assert(board[k] == inner[i]);
                    }
                }
            }
        }
    }
}

/// A leaderboard holds the laps it was made of and no others, fastest first.
pub proof fn lemma_ranked(rows: Seq<LapEntry>)
    ensures
        ranked(rows).len() == rows.len(),
        forall|x: LapEntry|
            #![trigger ranked(rows).contains(x)]
            #![trigger rows.contains(x)]
            ranked(rows).contains(x) <==> rows.contains(x),
        ascending(ranked(rows)),
    decreases rows.len(),
{
    if rows.len() > 0 {
        let front = rows.drop_last();
        lemma_ranked(front);
        lemma_insert_ranked(ranked(front), rows.last());
        assert forall|x: LapEntry| rows.contains(x) implies ranked(rows).contains(x) by {
            let i = choose|i: int| 0 <= i < rows.len() && rows[i] == x;
            if i < front.len() {
                assert(front[i] == x);
                assert(front.contains(x));
            }
        }
        assert forall|x: LapEntry| ranked(rows).contains(x) implies rows.contains(x) by {
            if x == rows.last() {
                assert(rows[rows.len() - 1] == x);
            } else {
                assert(front.contains(x));
                let k = choose|k: int| 0 <= k < front.len() && front[k] == x;
                assert(rows[k] == x);
            }
        }
    }
}

/// What a best lap is stored under: a driver, a circuit and a car.
pub struct LapKey {
    pub driver_id: i64,
    pub track_id: i64,
    pub car_id: i64,
}

/// The key that a stored lap stands under.
pub open spec fn key_of(row: LapEntry) -> LapKey {
    LapKey { driver_id: row.driver_id, track_id: row.track_id, car_id: row.car_id }
}

/// The key that a new best is recorded under.
pub open spec fn record_key(record: BestLapData) -> LapKey {
    LapKey { driver_id: record.driver_id, track_id: record.track_id, car_id: record.car_id }
}

/// The key of a session: its driver, circuit and car.
pub open spec fn session_key(context: ContextView) -> LapKey {
    LapKey { driver_id: context.driver_id, track_id: context.track_id, car_id: context.car_id }
}

/// The record store as the engine relies on it: the stored laps in the order
/// in which they were first stored, and the class of each car.
pub struct Store {
    pub rows: Seq<LapEntry>,
    pub classes: Map<i64, CarCategory>,
}

/// The laps that stand on the leaderboard of a car on a circuit.
pub open spec fn on_car_board(track_id: i64, car_id: i64) -> spec_fn(LapEntry) -> bool {
    |row: LapEntry| row.track_id == track_id && row.car_id == car_id
}

/// The laps that stand on the leaderboard of a class on a circuit.
pub open spec fn on_category_board(
    classes: Map<i64, CarCategory>,
    track_id: i64,
    category: CarCategory,
) -> spec_fn(LapEntry) -> bool {
    |row: LapEntry|
        row.track_id == track_id && classes.dom().contains(row.car_id) && classes[row.car_id]
            == category
}

impl Store {
    /// The store holds at most one lap under each key.
    pub open spec fn wf(self) -> bool {
        forall|i: int, j: int|
            0 <= i < j < self.rows.len() ==> key_of(#[trigger] self.rows[i]) != key_of(
                #[trigger] self.rows[j],
            )
    }

    /// Whether the lap under `key` is stored at place `i`.
    pub open spec fn holds_at(self, i: int, key: LapKey) -> bool {
        0 <= i < self.rows.len() && key_of(self.rows[i]) == key
    }

    /// The lap stored under `key`, if there is one.
    pub open spec fn stored_lap(self, key: LapKey) -> Option<LapEntry> {
        if exists|i: int| self.holds_at(i, key) {
            Some(self.rows[choose|i: int| self.holds_at(i, key)])
        } else {
            None
        }
    }

    /// The store after a new best has been recorded. The lap that the store
    /// holds under the record's key takes the record's time and date; where
    /// there is none, the record is stored as a new lap, behind all others,
    /// under the next free number.
    pub open spec fn record_new_best(self, record: BestLapData, driver_name: Seq<char>) -> Store {
        let key = record_key(record);
        if exists|i: int| self.holds_at(i, key) {
            let i = choose|i: int| self.holds_at(i, key);
            Store {
                rows: self.rows.update(
                    i,
                    LapEntry {
                        created_at: record.created_at,
                        lap_time_ms: record.lap_time_ms,
                        ..self.rows[i]
                    },
                ),
                classes: self.classes,
            }
        } else {
            Store {
                rows: self.rows.push(
                    LapEntry {
                        id: self.rows.len() as i64,
                        driver_id: record.driver_id,
                        track_id: record.track_id,
                        created_at: record.created_at,
                        lap_time_ms: record.lap_time_ms,
                        driver_name,
                        car_id: record.car_id,
                    },
                ),
                classes: self.classes,
            }
        }
    }

    /// The leaderboard of a car on a circuit.
    pub open spec fn car_board(self, track_id: i64, car_id: i64) -> Seq<LapEntry> {
        ranked(self.rows.filter(on_car_board(track_id, car_id)))
    }

    /// The leaderboard of a class on a circuit, over all cars of the class.
    pub open spec fn category_board(self, track_id: i64, category: CarCategory) -> Seq<LapEntry> {
        ranked(self.rows.filter(on_category_board(self.classes, track_id, category)))
    }

    /// The reference laps that a session gets when it reads the leaderboards
    /// of its car and class.
    pub open spec fn reference_for(self, context: ContextView) -> Reference {
        reference_of(
            self.car_board(context.track_id, context.car_id),
            self.category_board(context.track_id, context.car.category),
            context.driver_id,
        )
    }
}

/// In a store with one lap per key, the lap found at any place under a key
/// is the stored lap of that key.
pub proof fn lemma_stored_lap_is_unique(store: Store, i: int, key: LapKey)
    requires
        store.wf(),
        store.holds_at(i, key),
    ensures
        store.stored_lap(key) == Some(store.rows[i]),
        forall|j: int| store.holds_at(j, key) ==> j == i,
{
    assert forall|j: int| store.holds_at(j, key) implies j == i by {
        if j < i {
            assert(key_of(store.rows[j]) != key_of(store.rows[i]));
        } else if i < j {
            assert(key_of(store.rows[i]) != key_of(store.rows[j]));
        }
    }
}

/// Recording a new best keeps the store at one lap per key: the lap under
/// the record's key now has the record's time and date, the lap under every
/// other key is as it was, and at most one lap has been added.
pub proof fn lemma_record_new_best(store: Store, record: BestLapData, driver_name: Seq<char>)
    requires
        store.wf(),
    ensures
        store.record_new_best(record, driver_name).wf(),
        store.record_new_best(record, driver_name).stored_lap(record_key(record)) matches Some(
            lap,
        ) && lap.lap_time_ms == record.lap_time_ms && lap.created_at == record.created_at,
        forall|key: LapKey|
            key != record_key(record) ==> #[trigger] store.record_new_best(
                record,
                driver_name,
            ).stored_lap(key) == store.stored_lap(key),
        store.record_new_best(record, driver_name).rows.len() == store.rows.len() + (
        if store.stored_lap(record_key(record)) is Some {
            0int
        } else {
            1int
        }),
{
    let after = store.record_new_best(record, driver_name);
    let key = record_key(record);
    let at = if exists|i: int| store.holds_at(i, key) {
        choose|i: int| store.holds_at(i, key)
    } else {
        store.rows.len() as int
    };
    assert(after.holds_at(at, key));
    assert forall|a: int, b: int| 0 <= a < b < after.rows.len() implies key_of(
        #[trigger] after.rows[a],
    ) != key_of(#[trigger] after.rows[b]) by {
        if b < store.rows.len() {
            assert(key_of(store.rows[a]) != key_of(store.rows[b]));
        } else {
            assert(!store.holds_at(a, key));
        }
    }
    lemma_stored_lap_is_unique(after, at, key);
    assert forall|other: LapKey| other != key implies #[trigger] after.stored_lap(other)
        == store.stored_lap(other) by {
        if exists|k: int| store.holds_at(k, other) {
            let k = choose|k: int| store.holds_at(k, other);
            assert(after.holds_at(k, other));
            lemma_stored_lap_is_unique(after, k, other);
        } else if exists|k: int| after.holds_at(k, other) {
            let k = choose|k: int| after.holds_at(k, other);
            assert(store.holds_at(k, other));
        }
    }
}

/// The driver's own best on the leaderboard of a car is the lap that the
/// store holds for that driver in that car on that circuit.
pub proof fn lemma_my_car_best_is_the_stored_lap(store: Store, key: LapKey)
    requires
        store.wf(),
    ensures
        first_of_driver(store.car_board(key.track_id, key.car_id), key.driver_id)
            == store.stored_lap(key),
{
    broadcast use {
        Seq::lemma_filter_pred,
        Seq::lemma_filter_contains,
        Seq::lemma_filter_contains_rev,
    };

    let listed = on_car_board(key.track_id, key.car_id);
    let chosen = store.rows.filter(listed);
    let board = store.car_board(key.track_id, key.car_id);
    lemma_ranked(chosen);
    lemma_first_of_driver(board, key.driver_id);
    match first_of_driver(board, key.driver_id) {
        Some(lap) => {
            assert(board.contains(lap));
            assert(chosen.contains(lap));
            let k = choose|k: int| 0 <= k < chosen.len() && chosen[k] == lap;
            assert(listed(chosen[k]));
            assert(store.rows.contains(lap));
            let j = choose|j: int| 0 <= j < store.rows.len() && store.rows[j] == lap;
            assert(store.holds_at(j, key));
            lemma_stored_lap_is_unique(store, j, key);
        },
        None => {
            if exists|j: int| store.holds_at(j, key) {
                let j = choose|j: int| store.holds_at(j, key);
                assert(listed(store.rows[j]));
                assert(chosen.contains(store.rows[j]));
                assert(board.contains(store.rows[j]));
            }
        },
    }
}

/// Of the laps of `rows` that are `listed`, the leaderboard puts the fastest
/// first, and a driver's fastest before that driver's others.
proof fn lemma_board_of_the_listed(
    rows: Seq<LapEntry>,
    listed: spec_fn(LapEntry) -> bool,
    driver_id: i64,
)
    ensures
        match leader(ranked(rows.filter(listed))) {
            Some(best) => {
                &&& rows.contains(best)
                &&& listed(best)
                &&& forall|i: int|
                    0 <= i < rows.len() && listed(#[trigger] rows[i]) ==> best.lap_time_ms
                        <= rows[i].lap_time_ms
            },
            None => forall|i: int| 0 <= i < rows.len() ==> !listed(#[trigger] rows[i]),
        },
        match first_of_driver(ranked(rows.filter(listed)), driver_id) {
            Some(mine) => {
                &&& rows.contains(mine)
                &&& listed(mine)
                &&& mine.driver_id == driver_id
                &&& forall|i: int|
                    0 <= i < rows.len() && listed(#[trigger] rows[i]) && rows[i].driver_id
                        == driver_id ==> mine.lap_time_ms <= rows[i].lap_time_ms
            },
            None => forall|i: int|
                0 <= i < rows.len() && listed(#[trigger] rows[i]) ==> rows[i].driver_id
                    != driver_id,
        },
{
    broadcast use {
        Seq::lemma_filter_pred,
        Seq::lemma_filter_contains,
        Seq::lemma_filter_contains_rev,
    };

    let chosen = rows.filter(listed);
    let board = ranked(chosen);
    lemma_ranked(chosen);
    lemma_reference_laps_are_fastest(board, driver_id);
    lemma_first_of_driver(board, driver_id);
    assert forall|i: int| 0 <= i < rows.len() && listed(#[trigger] rows[i]) implies exists|
        j: int,
    |
        0 <= j < board.len() && board[j] == rows[i] by {
        assert(chosen.contains(rows[i]));
        assert(board.contains(rows[i]));
    }
    assert forall|j: int| 0 <= j < board.len() implies rows.contains(#[trigger] board[j])
        && listed(board[j]) by {
        assert(board.contains(board[j]));
        assert(chosen.contains(board[j]));
        let k = choose|k: int| 0 <= k < chosen.len() && chosen[k] == board[j];
        assert(listed(chosen[k]));
    }
    match leader(board) {
        Some(best) => {
            assert(board[0] == best);
            assert forall|i: int|
                0 <= i < rows.len() && listed(#[trigger] rows[i]) implies best.lap_time_ms
                <= rows[i].lap_time_ms by {
                let j = choose|j: int| 0 <= j < board.len() && board[j] == rows[i];
                assert(board[0].lap_time_ms <= board[j].lap_time_ms);
            }
        },
        None => {
            assert forall|i: int| 0 <= i < rows.len() implies !listed(#[trigger] rows[i]) by {
                if listed(rows[i]) {
                    let j = choose|j: int| 0 <= j < board.len() && board[j] == rows[i];
                }
            }
        },
    }
    match first_of_driver(board, driver_id) {
        Some(mine) => {
            let p = choose|p: int| 0 <= p < board.len() && board[p] == mine;
            assert(rows.contains(board[p]) && listed(board[p]));
            assert forall|i: int|
                0 <= i < rows.len() && listed(#[trigger] rows[i]) && rows[i].driver_id
                    == driver_id implies mine.lap_time_ms <= rows[i].lap_time_ms by {
                let j = choose|j: int| 0 <= j < board.len() && board[j] == rows[i];
                assert(board[j].driver_id == driver_id);
            }
        },
        None => {
            assert forall|i: int|
                0 <= i < rows.len() && listed(#[trigger] rows[i]) implies rows[i].driver_id
                != driver_id by {
                let j = choose|j: int| 0 <= j < board.len() && board[j] == rows[i];
                assert(board[j].driver_id != driver_id);
            }
        },
    }
}

/// The reference laps of a car are the fastest laps that the store holds
/// for that car on that circuit: the best of all is the fastest of all
/// drivers, the driver's own best is the fastest of that driver, and a slot
/// is empty only where the store holds no such lap.
pub proof fn lemma_car_reference_is_the_fastest_stored(
    store: Store,
    track_id: i64,
    car_id: i64,
    driver_id: i64,
)
    ensures
        match leader(store.car_board(track_id, car_id)) {
            Some(best) => {
                &&& store.rows.contains(best)
                &&& on_car_board(track_id, car_id)(best)
                &&& forall|i: int|
                    0 <= i < store.rows.len() && on_car_board(track_id, car_id)(
                        #[trigger] store.rows[i],
                    ) ==> best.lap_time_ms <= store.rows[i].lap_time_ms
            },
            None => forall|i: int|
                0 <= i < store.rows.len() ==> !on_car_board(track_id, car_id)(
                    #[trigger] store.rows[i],
                ),
        },
        match first_of_driver(store.car_board(track_id, car_id), driver_id) {
            Some(mine) => {
                &&& store.rows.contains(mine)
                &&& on_car_board(track_id, car_id)(mine)
                &&& mine.driver_id == driver_id
                &&& forall|i: int|
                    0 <= i < store.rows.len() && on_car_board(track_id, car_id)(
                        #[trigger] store.rows[i],
                    ) && store.rows[i].driver_id == driver_id ==> mine.lap_time_ms
                        <= store.rows[i].lap_time_ms
            },
            None => forall|i: int|
                0 <= i < store.rows.len() && on_car_board(track_id, car_id)(
                    #[trigger] store.rows[i],
                ) ==> store.rows[i].driver_id != driver_id,
        },
{
    lemma_board_of_the_listed(store.rows, on_car_board(track_id, car_id), driver_id);
}

/// The reference laps of a class are the fastest laps that the store holds
/// for the cars of that class on that circuit: the best of all is the
/// fastest of all drivers, the driver's own best is the fastest of that
/// driver, and a slot is empty only where the store holds no such lap.
pub proof fn lemma_category_reference_is_the_fastest_stored(
    store: Store,
    track_id: i64,
    category: CarCategory,
    driver_id: i64,
)
    ensures
        match leader(store.category_board(track_id, category)) {
            Some(best) => {
                &&& store.rows.contains(best)
                &&& on_category_board(store.classes, track_id, category)(best)
                &&& forall|i: int|
                    0 <= i < store.rows.len() && on_category_board(
                        store.classes,
                        track_id,
                        category,
                    )(#[trigger] store.rows[i]) ==> best.lap_time_ms <= store.rows[i].lap_time_ms
            },
            None => forall|i: int|
                0 <= i < store.rows.len() ==> !on_category_board(store.classes, track_id, category)(
                    #[trigger] store.rows[i],
                ),
        },
        match first_of_driver(store.category_board(track_id, category), driver_id) {
            Some(mine) => {
                &&& store.rows.contains(mine)
                &&& on_category_board(store.classes, track_id, category)(mine)
                &&& mine.driver_id == driver_id
                &&& forall|i: int|
                    0 <= i < store.rows.len() && on_category_board(
                        store.classes,
                        track_id,
                        category,
                    )(#[trigger] store.rows[i]) && store.rows[i].driver_id == driver_id
                        ==> mine.lap_time_ms <= store.rows[i].lap_time_ms
            },
            None => forall|i: int|
                0 <= i < store.rows.len() && on_category_board(store.classes, track_id, category)(
                    #[trigger] store.rows[i],
                ) ==> store.rows[i].driver_id != driver_id,
        },
{
    lemma_board_of_the_listed(
        store.rows,
        on_category_board(store.classes, track_id, category),
        driver_id,
    );
}

/// A session at work against a record store that no other session writes
/// to.
pub struct Run {
    pub session: SessionView,
    pub store: Store,
}

impl Run {
    /// The session has read its reference laps from the store as it is, and
    /// the store is in order.
    pub open spec fn in_step(self, context: ContextView) -> bool {
        self.store.wf() && self.session.reference == self.store.reference_for(context)
    }
}

/// The run after one timing sample: the engine decides, the new best that it
/// asks for is recorded, and where it asks for a refresh the reference laps
/// are read again from the store.
#[verifier::opaque]
pub open spec fn after_event(run: Run, context: ContextView, event: EventView) -> Run {
    let decision = decision_of(run.session, context, event);
    let session = state_after(run.session, event);
    let store = match decision.new_best {
        Some(best) => run.store.record_new_best(best.record, context.driver_name),
        None => run.store,
    };
    Run {
        session: if decision.refresh {
            SessionView {
                lap_number: session.lap_number,
                reference: store.reference_for(context),
            }
        } else {
            session
        },
        store,
    }
}

/// The run after a series of timing samples, taken in order.
pub open spec fn after_events(run: Run, context: ContextView, events: Seq<EventView>) -> Run
    decreases events.len(),
{
    if events.len() == 0 {
        run
    } else {
        after_event(after_events(run, context, events.drop_last()), context, events.last())
    }
}

/// Whether every sample of the series brings a new lap: the lap counter
/// goes up from sample to sample, starting above `lap_number`.
pub open spec fn each_completes_a_lap(lap_number: i32, events: Seq<EventView>) -> bool {
    forall|i: int|
        0 <= i < events.len() ==> (#[trigger] events[i]).completed_laps > (if i == 0 {
            lap_number
        } else {
            events[i - 1].completed_laps
        })
}

/// The lap time of the driver's own best in the car, as the session has it.
pub open spec fn my_car_best_ms(run: Run) -> Option<i64> {
    match run.session.reference.car.mine {
        Some(lap) => Some(lap.lap_time_ms),
        None => None,
    }
}

/// One sample that brings a new lap moves the driver's own best in the car
/// to the sample's time when that is a real lap time and strictly faster,
/// and leaves it and the store alone otherwise. The run stays in step with
/// its store.
pub proof fn lemma_one_lap(run: Run, context: ContextView, event: EventView)
    requires
        run.in_step(context),
        completes_lap(run.session, event),
    ensures
        after_event(run, context, event).in_step(context),
        after_event(run, context, event).session.lap_number == event.completed_laps,
        my_car_best_ms(after_event(run, context, event)) == (if sets_new_best(
            run.session.reference,
            event,
        ) {
            Some(event.best_lap_ms as i64)
        } else {
            my_car_best_ms(run)
        }),
        !sets_new_best(run.session.reference, event) ==> after_event(run, context, event).store
            == run.store,
{
    reveal(after_event);
    let after = after_event(run, context, event);
    lemma_my_car_best_is_the_stored_lap(run.store, session_key(context));
    if sets_new_best(run.session.reference, event) {
        let record = decision_of(run.session, context, event).new_best->0.record;
        assert(record_key(record) == session_key(context));
        lemma_record_new_best(run.store, record, context.driver_name);
    }
    lemma_my_car_best_is_the_stored_lap(after.store, session_key(context));
}

/// Whether `best` is the fastest real lap time among an earlier best and the
/// times of a series of samples: it is the earlier best or the time of one
/// of the samples, and neither the earlier best nor any real lap time of the
/// series is faster. With no earlier best and no real lap time there is
/// none.
pub open spec fn is_fastest_so_far(
    best: Option<i64>,
    earlier_best: Option<i64>,
    events: Seq<EventView>,
) -> bool {
    match best {
        Some(time) => {
            &&& earlier_best == Some(time) || exists|i: int|
                0 <= i < events.len() && is_valid_time(#[trigger] events[i].best_lap_ms)
                    && events[i].best_lap_ms == time
            &&& earlier_best matches Some(earlier) ==> time <= earlier
            &&& forall|i: int|
                0 <= i < events.len() && is_valid_time(#[trigger] events[i].best_lap_ms) ==> time
                    <= events[i].best_lap_ms
        },
        None => {
            &&& earlier_best is None
            &&& forall|i: int|
                0 <= i < events.len() ==> !is_valid_time(#[trigger] events[i].best_lap_ms)
        },
    }
}

proof fn lemma_fastest_one_more(
    before: Option<i64>,
    after: Option<i64>,
    earlier_best: Option<i64>,
    events: Seq<EventView>,
)
    requires
        events.len() > 0,
        is_fastest_so_far(before, earlier_best, events.drop_last()),
        after == (if is_valid_time(events.last().best_lap_ms) && (before matches Some(time)
            ==> events.last().best_lap_ms < time) {
            Some(events.last().best_lap_ms as i64)
        } else {
            before
        }),
    ensures
        is_fastest_so_far(after, earlier_best, events),
{
    let earlier = events.drop_last();
    let n = events.len() - 1;
    assert(events[n] == events.last());
    assert forall|i: int| 0 <= i < n implies earlier[i] == events[i] by {}
    match after {
        Some(time) => {
            if !(is_valid_time(events[n].best_lap_ms) && events[n].best_lap_ms == time) {
                if earlier_best != Some(time) {
                    let i = choose|i: int|
                        0 <= i < earlier.len() && is_valid_time(#[trigger] earlier[i].best_lap_ms)
                            && earlier[i].best_lap_ms == time;
                    assert(is_valid_time(events[i].best_lap_ms) && events[i].best_lap_ms == time);
                }
            }
            assert forall|i: int|
                0 <= i < events.len() && is_valid_time(
                    #[trigger] events[i].best_lap_ms,
                ) implies time <= events[i].best_lap_ms by {
                if i < n {
                    assert(is_valid_time(earlier[i].best_lap_ms));
                }
            }
        },
        None => {
            assert forall|i: int| 0 <= i < events.len() implies !is_valid_time(
                #[trigger] events[i].best_lap_ms,
            ) by {
                if i < n {
                    assert(!is_valid_time(earlier[i].best_lap_ms));
                }
            }
        },
    }
}

proof fn lemma_each_completes_a_lap_earlier(lap_number: i32, events: Seq<EventView>)
    requires
        events.len() > 0,
        each_completes_a_lap(lap_number, events),
    ensures
        each_completes_a_lap(lap_number, events.drop_last()),
        events.last().completed_laps > (if events.len() == 1 {
            lap_number
        } else {
            events.drop_last().last().completed_laps
        }),
{
    let earlier = events.drop_last();
    assert forall|i: int| 0 <= i < earlier.len() implies (#[trigger] earlier[i]).completed_laps > (
    if i == 0 {
        lap_number
    } else {
        earlier[i - 1].completed_laps
    }) by {
        assert(earlier[i] == events[i]);
        if i > 0 {
            assert(earlier[i - 1] == events[i - 1]);
        }
    }
    assert(events.last() == events[events.len() - 1]);
    if earlier.len() > 0 {
        assert(earlier.last() == events[events.len() - 2]);
    }
}

proof fn lemma_laps_counted(run: Run, context: ContextView, events: Seq<EventView>)
    requires
        each_completes_a_lap(run.session.lap_number, events),
    ensures
        after_events(run, context, events).session.lap_number == (if events.len() == 0 {
            run.session.lap_number
        } else {
            events.last().completed_laps
        }),
    decreases events.len(),
{
    reveal(after_event);
    if events.len() > 0 {
        lemma_each_completes_a_lap_earlier(run.session.lap_number, events);
        lemma_laps_counted(run, context, events.drop_last());
    }
}

/// Over any series of laps of one driver in one car on one circuit, with no
/// other session writing to the store, the driver's own best in the car is
/// at every point the fastest real lap time so far. A lap that only ties it
/// does not take its place.
pub proof fn lemma_my_car_best_is_the_fastest_lap(
    run: Run,
    context: ContextView,
    events: Seq<EventView>,
)
    requires
        run.in_step(context),
        each_completes_a_lap(run.session.lap_number, events),
    ensures
        after_events(run, context, events).in_step(context),
        is_fastest_so_far(
            my_car_best_ms(after_events(run, context, events)),
            my_car_best_ms(run),
            events,
        ),
    decreases events.len(),
{
    if events.len() > 0 {
        let earlier = events.drop_last();
        let before = after_events(run, context, earlier);
        lemma_each_completes_a_lap_earlier(run.session.lap_number, events);
        lemma_my_car_best_is_the_fastest_lap(run, context, earlier);
        lemma_laps_counted(run, context, earlier);
        lemma_one_lap(before, context, events.last());
        lemma_fastest_one_more(
            my_car_best_ms(before),
            my_car_best_ms(after_events(run, context, events)),
            my_car_best_ms(run),
            events,
        );
    }
}

/// A lap that only ties the driver's own best in the car is no new best:
/// nothing is announced, and the store and the driver's best stay as they
/// are.
pub proof fn lemma_a_tie_changes_nothing(run: Run, context: ContextView, event: EventView)
    requires
        run.in_step(context),
        my_car_best_ms(run) == Some(event.best_lap_ms as i64),
    ensures
        decision_of(run.session, context, event).new_best is None,
        after_event(run, context, event).store == run.store,
        after_event(run, context, event).session.reference.car.mine
            == run.session.reference.car.mine,
{
    reveal(after_event);
    if completes_lap(run.session, event) {
        lemma_one_lap(run, context, event);
    }
}

/// Handing in the same lap twice stores it once and announces it at most
/// once: after the first sample the store holds exactly one lap of the
/// driver in the car on the circuit, and the second sample, with the same
/// time, announces nothing and leaves the store as it is.
pub proof fn lemma_same_lap_twice(
    run: Run,
    context: ContextView,
    first: EventView,
    second: EventView,
)
    requires
        run.in_step(context),
        completes_lap(run.session, first),
        is_valid_time(first.best_lap_ms),
        second.best_lap_ms == first.best_lap_ms,
    ensures
        ({
            let once = after_event(run, context, first);
            let twice = after_event(once, context, second);
            &&& decision_of(once.session, context, second).new_best is None
            &&& twice.store == once.store
            &&& exists|i: int|
                once.store.holds_at(i, session_key(context)) && forall|j: int|
                    once.store.holds_at(j, session_key(context)) ==> j == i
        }),
{
    reveal(after_event);
    let once = after_event(run, context, first);
    let key = session_key(context);
    lemma_one_lap(run, context, first);
    lemma_my_car_best_is_the_stored_lap(once.store, key);
    assert(my_car_best_ms(once) is Some);
    assert(my_car_best_ms(once)->0 <= first.best_lap_ms);
    if completes_lap(once.session, second) {
        lemma_one_lap(once, context, second);
    }
    let i = choose|i: int| once.store.holds_at(i, key);
    lemma_stored_lap_is_unique(once.store, i, key);
}

} // verus!
