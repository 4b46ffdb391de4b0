//! Update and launch orchestration for a self-updating game launcher.
use vstd::prelude::*;

pub mod cli;
pub mod download;
pub mod error;
pub mod process;
pub mod launcher;
pub mod profile;
pub mod storage;
pub mod text;
pub mod version;
