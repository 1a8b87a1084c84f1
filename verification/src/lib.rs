//! A fixture manager and tag lookup for a small relational schema: images,
//! tags, and the associations that join them many-to-many.
//!
//! The library performs no input or output. Each operation is a *run*: a
//! value that names the next [`statement::Statement`] and takes the
//! [`statement::Reply`] to it, until it ends with a result or an error.
//! Whoever owns a connection executes the statements.
//!
//! - [`reset`]: empty the three tables, children before parents.
//! - [`seed`]: insert the fixture of two images, two tags and two
//!   associations.
//! - [`lookup`]: resolve the tags of one image.
//! - [`listing`]: the three in a row, and [`report`] for the lines to print.
//! - [`connection`]: the configured target and the error of a failed attempt.
//!
//! [`store::MemoryStore`] is a datastore in memory that executes the
//! statements itself; [`fixture`] holds the operations on it, and [`laws`]
//! what is proved of them. [`relation`] is the join of the three tables on
//! rows in memory, and [`model`] and [`error`] are the rows and the errors.

pub mod connection;
pub mod error;
pub mod fixture;
pub mod laws;
pub mod listing;
pub mod lookup;
pub mod model;
pub mod relation;
pub mod report;
pub mod reset;
pub mod seed;
pub mod statement;
pub mod store;
