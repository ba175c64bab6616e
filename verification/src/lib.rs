//! Maps a uniform vocabulary of package operations to the
//! command lines of Homebrew, and holds the rules by which those commands are
//! previewed, confirmed, run and judged.
//!
//! The library decides; it never starts a process. An operation becomes a
//! plan of [`exec::Step`]s, and a [`run::Run`] hands its host one
//! [`run::Action`] at a time and takes back what happened.

use vstd::prelude::*;

pub mod error;
pub mod exec;
pub mod filter;
pub mod judge;
pub mod laws;
pub mod linuxbrew;
pub mod pattern;
pub mod run;
pub mod text;
