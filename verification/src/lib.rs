//! A verified command interpreter for a small virtual filesystem shell.
//!
//! The library models a terminal session: a raw input line is tokenized,
//! dispatched to a command handler (`ls`, `cd`, `pwd`, `cat`/`dog`, `help`,
//! `theme`, `exit`), and the handler reads or updates the session state
//! (current path, theme, history) against an immutable filesystem catalog.
//! Every handler's behaviour is pinned by a contract over sequence views.

pub mod catalog;
pub mod dispatch;
pub mod laws;
pub mod navigator;
pub mod outcome;
pub mod session;
pub mod site;
pub mod text;
pub mod theme;
