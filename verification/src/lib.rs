//! Schema metadata resolver for machine-readable API bindings, reconstructed
//! from generated HTML reference documentation, together with the binding
//! types that the downstream generator emits.

pub mod apipe;
pub mod html;
pub mod text;
pub mod types;
