//! Bindings to Tizen native libraries that are opened at run time.
//!
//! This crate holds the rules of the bindings as plain values: which shared
//! object each binding lives in, the file names tried (in order) to open that
//! object, the C symbol each binding resolves, and what each binding reports
//! when its library or symbol cannot be found.  The foreign calls themselves
//! are made by the companion crate under `app/`.
pub mod library;

pub mod api;

pub mod dispatch;

pub mod codes;

pub mod mock_log;
