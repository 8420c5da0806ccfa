//! State and decisions of a single-window mobile display backend.
//!
//! The native runtime drives an application through callbacks: launch, one
//! draw per display refresh, and touches. This library holds what those
//! callbacks decide: the display state, the per-window payload with its
//! lazily built context and event handler, the registry through which a
//! callback finds the payload again, the hand-off slot for the startup
//! arguments, and the outcome rules of the bundle asset loader.
//!
//! Scale factors are never computed with here: they are carried as the bit
//! pattern of their IEEE-754 encoding and handed back unchanged.

pub mod display;
pub mod payload;
pub mod launch;
pub mod asset;
pub mod registry;
