//! A runtime heterogeneous container: a store that holds at most one value of
//! each distinct concrete type, keyed by the type's runtime identity.
//!
//! The container erases the concrete type of each inserted value and retains a
//! 64-bit type identity as the map key; retrieval recovers the concrete type
//! from the erased value, guarded by an identity check. A deferred-allocation
//! wrapper over each store variant avoids allocating the backing map until the
//! first insertion.

pub mod erased;
pub mod extensions;
pub mod hasher;
pub mod laws;
pub mod model;
pub mod store;

pub use erased::CloneableAny;
pub use erased::CloneableAnySync;
pub use extensions::CloneableExtensions;
pub use extensions::CloneableExtensionsSync;
pub use extensions::Extensions;
pub use extensions::ExtensionsSync;
pub use hasher::IdHasher;
pub use store::AnyMap;
pub use store::AnyMapSync;
pub use store::CloneableAnyMap;
pub use store::CloneableAnyMapSync;
