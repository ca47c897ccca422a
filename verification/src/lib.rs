//! Timelines for a chat program that talks to several providers.
//!
//! The library keeps, for each account that is logged in, the cursors of its
//! provider and the timeline of the conversation that is on screen: events in
//! reading order, gathered into runs of one sender. It decides what is asked
//! of a provider and what an answer does to the timeline; the asking itself,
//! the storage and the drawing are left to the program around it.
//!
//! - [`aggregator`] folds batches of raw events into a timeline, and
//!   [`theorems`] says what holds of that for every batch.
//! - [`state`] is the sync engine and the history pager of one client, and
//!   [`guarantees`] says what holds of them whatever a provider answers.
//! - [`registry`] holds the clients, [`cache`] the list of conversations, and
//!   [`session`] the keys under which sessions are stored.
//! - [`clients`] has the data that is shown and what the two adapters keep of
//!   their own; [`message`] lays out a bubble.

pub mod aggregator;
pub mod cache;
pub mod clients;
pub mod error;
pub mod guarantees;
pub mod message;
pub mod registry;
pub mod session;
pub mod state;
pub mod text;
pub mod theorems;
