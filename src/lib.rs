//! Change proposals ("patches") carried as annotated tags in a store that
//! several peers share: their encoding, their discovery across peers, their
//! state derived from commit ancestry, and the steps that publish one.
use vstd::prelude::*;

pub mod codec;
pub mod discovery;
pub mod graph;
pub mod options;
pub mod project;
pub mod publish;
pub mod store;
pub mod types;
