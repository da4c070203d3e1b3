//! Chase: file following.
//!
//! Chase a file through thick and thin:
//!
//!   * Provide line numbers with each line yielded
//!   * Ability to exit the watch loop programmatically
//!   * Deals with file rotations automatically
//!   * Configurable (which line to start on, delays and retries)
//!
//! The crate keeps the whole follow protocol as an explicit state machine:
//! [`engine::Engine`] decides, from its state and the latest observation,
//! what the next state is and which operation the surrounding driver should
//! perform next. Every decision the machine takes is verified; a driver
//! performs the file reads, sleeps and hand-offs the machine asks for.

pub mod control;
pub mod data;
pub mod engine;
pub mod errors;
pub mod laws;
pub mod model;
pub mod retry;
pub mod text;

pub use control::Control;
pub use data::{Chaser, Line, Pos, DEFAULT_NOT_ROTATED_WAIT_MILLIS, DEFAULT_ROTATION_CHECK_WAIT_MILLIS};
pub use data::FileId;
pub use engine::{Action, Engine, Event};
pub use errors::{ChaseError, ErrorModel};
pub use retry::RetryBudget;
pub use text::{thread_namer, trim_trailing_newlines};
