//! Classification and dispatch of file-system entries: a pattern table tags
//! each entry by its name and extension, and each tagged entry is routed to
//! one action (store its tags, run a templated command, copy, move or
//! delete it).

pub mod text;
pub mod paths;
pub mod patterns;
pub mod datatype;
pub mod config;
pub mod context;
pub mod classify;
pub mod template;
pub mod dispatch;
pub mod walk;
