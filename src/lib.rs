//! Host-side bridge between a mesh-network daemon and the application code
//! that takes part in the mesh as a node: wire-field decoding, element
//! registration and message dispatch, single-slot event channels, outbound
//! message framing and the provisioning hand-shake.
use vstd::prelude::*;

pub mod agent;
pub mod application;
pub mod bridge;
pub mod codec;
pub mod element;
pub mod node;
pub mod provision;

verus! {

} // verus!
