//! Backend logic of a live-reloading single-file markdown viewer.
//!
//! The library covers the three decision-heavy parts of the viewer:
//! resolving a user-supplied path against an ambiguous working directory,
//! classifying raw filesystem events, and debouncing bursts of events so
//! that at most one change notification is emitted per window.

pub mod path;
pub mod resolver;
pub mod watch;

pub use path::FilePath;
pub use path::PathView;
pub use resolver::PathError;
pub use resolver::ANCESTOR_SEARCH_LEVELS;
pub use resolver::resolve_candidate;
pub use resolver::resolve_from_answers;
pub use resolver::resolve_relative_path;
pub use resolver::resolve_startup_path;
pub use resolver::require_existing;
pub use resolver::validate_existence;
pub use watch::DebounceClock;
pub use watch::EventClass;
pub use watch::RawEvent;
pub use watch::DEBOUNCE_WINDOW_MS;
pub use watch::classify_event;
pub use watch::run_session;
