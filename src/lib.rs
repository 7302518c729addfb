//! Supervision of a locally run backend server and the lifecycle of the
//! desktop shell around it: the decisions are made here, over plain values,
//! and the host application performs them.

pub mod backend;
pub mod bootstrap;
pub mod lifecycle;
