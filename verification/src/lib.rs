//! Interaction-encoding protocol for a durable workflow engine.
//!
//! A pending action against the engine (start a workflow, signal a running
//! workflow, or query a running workflow) is described by a
//! [`descriptor::TemporalInteraction`] value.  The codec turns such a
//! descriptor into a single flat `key:value` token suitable for embedding in
//! a chat-message component identifier, and later turns the token back into
//! a descriptor.

use vstd::prelude::*;

pub mod codec;
pub mod descriptor;
pub mod json;
pub mod keys;
pub mod responses;
pub mod toolbox;

verus! {

} // verus!
