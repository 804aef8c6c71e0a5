//! Per-key exclusive locks.
//!
//! Operations on one key run one after another; operations on different
//! keys run side by side. The `registry` maps each key to the one handle of
//! that key, made when the key is first asked for. A `section` is one pass
//! under such a lock: requested from the registry, entered once the lock is
//! acquired, and left when the operation is over, however it ended. The
//! `protocol` states what follows for any number of sections: no two for one
//! key hold the lock together, sections for other keys block nobody, and a
//! lock that was left can be entered again.
//!
//! The registry changes only through an exclusive borrow. To share it among
//! tasks, keep it behind a mutex and hold that only for the one call that
//! asks for a handle; waiting for the handle's lock happens outside.
//!
//! A handle, once made, stays: the registry never forgets a key, and so
//! grows with the number of distinct keys it has seen.

pub mod clock;
pub mod handle;
pub mod protocol;
pub mod registry;
pub mod section;
pub mod service;
