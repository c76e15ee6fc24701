//! The light-client verification core: its error taxonomy, the capability
//! contracts it is polymorphic over, and the single-step and bisection
//! verifiers.

pub mod error;
pub mod types;
pub mod verify;
