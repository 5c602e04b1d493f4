//! A single-writer state container: one state value, a reducer that replaces
//! it on each dispatched action, a chain of middleware that may rewrite or veto
//! actions, and subscribers notified after each completed dispatch.
//!
//! The callables themselves live with the host. A dispatch is driven step by
//! step: the store says which callable to invoke next, the host invokes it and
//! hands the outcome back, and the store decides the following step.

pub mod laws;
pub mod state_cell;
pub mod store;

pub use state_cell::StateCell;
pub use store::{DispatchError, GodotRedux, Step, StoreModel};

