//! Command front end for a cerke board served over a chat transport: it
//! tokenizes incoming command messages, parses board coordinates, checks
//! argument arity, keeps one shared board and one append-only command log,
//! forwards validated requests to the rule engine, turns every failure into
//! exactly one user-facing report, and asks for renders only on success.

pub mod command;
pub mod coords;
pub mod dispatch;
pub mod engine;
pub mod logbuf;
pub mod report;
pub mod tokenize;
