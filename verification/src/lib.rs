//! Aggregation of the outcomes of independently run diagnostic programs into
//! one text report.
//!
//! Several programs are started at once and awaited in the order in which
//! they were declared. This library holds everything about that which is not
//! the operating system's: how a program is described and launched
//! ([`command`]), what the completion of a run comes to ([`outcome`],
//! [`progress`]), how outcomes are combined without losing any of them
//! ([`twin`]), the two ways of reducing them to a report ([`policy`],
//! [`flagged`]), and the reports themselves ([`report`]). Starting the
//! processes and waiting for them is the caller's part.

pub mod command;
pub mod flagged;
pub mod outcome;
pub mod policy;
pub mod progress;
pub mod report;
pub mod text;
pub mod twin;
