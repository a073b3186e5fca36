//! A small note ledger: records (number, text, done flag) kept in an
//! embedded SQLite database, with a verified numbering and update layer.
//!
//! The store itself lives in [`store`]; the identifier-allocation rule and
//! its laws live in [`numbering`]; the query-time filter policy for
//! listings lives in [`listing`]; resolving where the database file lives
//! is [`paths`].

pub mod errors;
pub mod listing;
pub mod numbering;
pub mod paths;
pub mod store;

pub use errors::NoteError;
pub use listing::filter_notes;
pub use numbering::allocate_number;
pub use paths::resolve_location;
pub use store::{Handle, Note, Notes};
