//! Task orchestration for a desktop front end that runs image scripts.
//!
//! The front end lets its user pick input images and a script, starts the
//! script as a process of its own and shows the image that the script
//! leaves behind. Nothing of that may block the render loop, so every pick
//! and every run is a background task, and the render loop only polls.
//! This crate is the part that decides:
//!
//! - [`watcher`] and [`listing`]: when a script directory is listed again,
//!   and what its listing is;
//! - [`handle`]: the one-shot channel between a background task and the
//!   render loop, which hands out a result at most once;
//! - [`slot`]: the named holders of one image each, with at most one task
//!   at work for each of them;
//! - [`script_option`], [`script_execution`] and [`picker`]: the command
//!   line of a run, and what the end of a run or of a pick means;
//! - [`driver`] and [`transfer`]: the state of the render loop of the
//!   script runner and of the two-image style transfer, with what a frame
//!   and a click do to it.
//!
//! Windows, threads, processes and files stay with the caller: it performs
//! what these modules ask for and hands back what came of it.

pub mod driver;
pub mod error;
pub mod feed;
pub mod handle;
pub mod image_mode;
pub mod listing;
pub mod picker;
pub mod picture;
pub mod script_execution;
pub mod script_option;
pub mod slot;
pub mod text;
pub mod transfer;
pub mod watcher;
