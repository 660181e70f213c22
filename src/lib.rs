//! Validator-set rotation: a queue of pending membership changes and the
//! rule that applies them at a session boundary without letting the roster
//! fall under a minimum size.

pub mod rotation;
pub mod pallet;
pub mod weights;
