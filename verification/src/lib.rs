//! Decoders for the Jechsoft Victoria swim-meet data formats.
//!
//! The library turns loosely formatted text fields (dates written as
//! `YYYYMMDD`, durations in fixed-width layouts, enumerations encoded as
//! magic tokens, composite codes such as `"MJS"` or `"K95"`) into a closed
//! domain model, with a typed error for every way an input can be rejected.
//! Document handling (XML tokenization, file and network access) is left to
//! callers; the library consumes field values as plain strings and returns
//! typed records.


pub mod medley;
pub mod meet_setup;
pub mod text;
pub mod uni_p;
