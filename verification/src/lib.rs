//! Core pieces of a graph-shaped query engine: the value model, the query
//! representation with its lookup tables, the hints handed to adapters, and
//! the step machine that replays a recorded trace of adapter interactions.
pub mod candidates;
pub mod checks;
pub mod context;
pub mod convert;
pub mod dynamic_hints;
pub mod hints;
pub mod indexed;
pub mod input;
pub mod ir;
pub mod replay;
pub mod replay_calls;
pub mod replay_contexts;
pub mod static_hints;
pub mod trace;
pub mod transparent;
pub mod value;
pub mod vertex_info;
