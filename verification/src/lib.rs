//! Safe, verified building blocks for type-erased wake handles.
//!
//! A *wake-capable value* is anything that can notify a suspended task that
//! it may resume.  This crate packs such a value into an opaque raw form,
//! binds the four dispatch operations (clone, wake by value, wake by
//! reference, destroy) to it, and hands the pair out as an erased handle
//! that a scheduler can drive without ever seeing the packed value.
//!
//! Waking is a side effect on something that outlives the waker.  To make
//! the effect provable, every notification target lives in an explicit
//! [`World`]: a table that records, per target, how many strong owners it
//! has, whether it is still alive, how often it was woken by reference and
//! by value, and how often its teardown ran.  Each operation takes the
//! world as an argument and its contract says exactly how the table
//! changes, so the crate's laws - the codec round trip, clone independence,
//! pointer identity, teardown counting, shared-handle delegation and the
//! no-op behaviour of empty optionals - are proved rather than promised.
//!
//! The erasure codec follows the caller-defined pointer-representation
//! design: each wake-capable type chooses its own pointer-like raw form
//! through [`ViaRawPointer`], with proved round-trip and non-null laws.
//! The alternative pack-or-box codec, which copies small values into a
//! pointer's bit pattern and heap-allocates the rest, is a bit-level
//! micro-optimisation that a safe library has no business performing, so
//! it is deliberately not used.

pub mod handle;
pub mod handles;
pub mod sample;
pub mod shape;
pub mod traits;
pub mod world;
pub mod wrappers;

pub use handle::IntoWaker;
pub use handle::Waker;
pub use handles::Probe;
pub use handles::Strong;
pub use handles::Weak;
pub use sample::CustomWaker;
pub use shape::DeriveError;
pub use shape::FieldMember;
pub use shape::ForwardPlan;
pub use shape::StructFields;
pub use shape::TypeShape;
pub use shape::WakeTrait;
pub use traits::Managed;
pub use traits::NonNullRaw;
pub use traits::ViaRawPointer;
pub use traits::Wake;
pub use traits::WakeRef;
pub use world::Target;
pub use world::World;
