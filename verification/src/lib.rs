//! Core of a terminal job multiplexer: the rules by which jobs are parsed,
//! started, supervised and selected, the per-tick scheduling decisions, and
//! the layout arithmetic and cell changes that the interface is drawn from.
//!
//! Everything that touches the operating system (pseudo-terminals, signals,
//! the event stream, the clock) is left to the embedding program, which feeds
//! plain values into the functions defined here and carries out what they
//! decide.
//!
//! - [`command`], [`error`], [`job`]: a job's command line, its process and
//!   what can go wrong when it starts.
//! - [`app`], [`popup`], [`scheduler`], [`action`], [`event`]: the registry
//!   of jobs, the handling of events and the event loop's decisions.
//! - [`animation`], [`overlay`], [`island`], [`layout`], [`geometry`]: ticks
//!   and areas.
//! - [`input`]: the text field of the popups.
//! - [`paint`], [`vterm`]: what is written to the cells of the screen.
//! - [`text`]: searching in texts.

pub mod action;
pub mod animation;
pub mod app;
pub mod command;
pub mod error;
pub mod event;
pub mod geometry;
pub mod input;
pub mod island;
pub mod job;
pub mod layout;
pub mod overlay;
pub mod paint;
pub mod popup;
pub mod scheduler;
pub mod text;
pub mod vterm;
