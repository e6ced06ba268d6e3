//! Scaffolding of a personal journal: the rules for creating a journal
//! workspace and for adding dated entries to it, stated and proved apart
//! from the file system they are carried out on.
//!
//! An operation is a small machine (`init::Initializer`,
//! `entry::Appender`): it names one `action::Action` at a time, the caller
//! carries it out and hands back an `action::Event`. `disk` carries the
//! operations out on a model of the disk and proves what they promise.

pub mod action;
pub mod config;
pub mod date;
pub mod disk;
pub mod entry;
pub mod error;
pub mod init;
pub mod numeral;
pub mod path;
pub mod template;
