//! Lookup tables between a windowing system's textual configuration dumps
//! and a consumer program.
//!
//! Two independent components, each built from one line-oriented text
//! snapshot:
//! - [`KeyTable`]: bidirectional lookups between (modifier, key code) pairs
//!   and symbolic key identities, plus conversions between key symbols and
//!   printable characters.
//! - [`Xrdb`]: a two-tier (universal + per-program) string-keyed resource
//!   store with override semantics.
//!
//! Neither component performs any I/O: a caller hands each constructor the
//! raw text that an external query tool produced.

pub mod amap;
pub mod keysym;
pub mod keytable;
pub mod text;
pub mod xrdb;

pub use keysym::KeySym;
pub use keysym::Modifier;
pub use keytable::Error;
pub use keytable::Key;
pub use keytable::KeyCode;
pub use keytable::KeyTable;
pub use xrdb::Xrdb;
pub use xrdb::XrdbError;
