//! Two small tools, verified.
//!
//! `processor` takes the text out of a markup document and strips the markup
//! that got caught inside `|...|` placeholders. `mt` holds the decisions of a
//! command-line tool that starts and stops a containerised development
//! environment: which commands to run, in which order, and what their
//! outcomes mean.

pub mod text;
pub mod processor;
pub mod mt;
