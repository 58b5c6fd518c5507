//! Control logic of a now-playing display: capture of an authorization code,
//! its exchange for a credential, polling of the current track, and the byte
//! protocol of the character display that shows it.
use vstd::prelude::*;

pub mod auth;
pub mod bounded;
pub mod display;
pub mod sync;
pub mod token;
pub mod track;
