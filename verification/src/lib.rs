//! Frame-strip sprite animation and keyboard steering intents for a small
//! top-down vehicle simulation.
//!
//! Everything here works on integers and plain enums, so that the rules of the
//! animation cycle and of the key bindings are stated once and proved: the
//! frame index never leaves the strip, the source rectangle of every frame lies
//! inside the strip, and each key changes only the axis it is bound to.

pub mod controls;
pub mod sprite;
