//! Time accounting for named activities, of which at most one is active at a
//! time.
//!
//! An [`activity::Activity`] is a timer with a name: it logs the seconds of
//! its closed intervals and, while active, has one open interval. A
//! [`manager::TaskManager`] applies the operations to a whole collection:
//! a start activates the named activity and stops every other one, a stop
//! halts them all, and a report sums the time up. The manager holds no
//! activities: the caller loads the collection, hands it over, and saves what
//! comes back.
//!
//! Every contract speaks of plain values: an activity is seen as its
//! [`activity::ActivityModel`], a collection as a sequence of these. Each
//! operation that depends on the time exists twice. The one whose name ends
//! in `_at` takes the reading of the clock as an argument and says exactly
//! what it returns; the other reads the clock itself and says that its result
//! is that of the first for some reading.
//!
//! What is taken on trust is the reading of the clock
//! ([`utils::sys_now_secs`]), the date and the stamp that `chrono` computes
//! for a reading (named in [`clock`]), `String::push`, and `PathBuf` with its
//! `clone`.

pub mod activity;
pub mod clock;
pub mod config;
pub mod manager;
pub mod requests;
pub mod text;
pub mod utils;
