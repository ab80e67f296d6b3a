//! Best-lap tracking for a racing simulator.
//!
//! The library takes the timing samples of a session one by one, compares
//! each newly completed lap with the reference laps of the driver and of the
//! field, and says what is to be stored, announced and shown. It talks to no
//! simulator, record store, chat service or terminal itself: a host program
//! hands it plain values and carries out what it decides.
//!
//! - [`cars`] and [`track`]: the catalog of car models, classes and circuits.
//! - [`records`]: best-lap records, leaderboards and the reference laps read
//!   off them; lap times as text.
//! - [`engine`]: the decision on each sample, and the text of announcements.
//! - [`board`]: the lines of the timing board.
//! - [`store`]: what the engine relies on from the record store, and what
//!   follows for a session that writes to it alone.
//! - [`text`]: numerals and fixed-width lines.

pub mod board;
pub mod cars;
pub mod engine;
pub mod records;
pub mod store;
pub mod text;
pub mod track;
