//! A guarded adapter around a sequence producer.
//!
//! [`Fuze`] wraps a producer of values and tracks its exhaustion: the
//! first time the producer signals that no value is left, the adapter
//! releases (drops) it. Any later request for a value is a contract
//! violation that verification rejects, never a silently wrong answer.

pub mod adapter;
pub mod fused;
pub mod producer;

pub use adapter::drain;
pub use adapter::Fuze;
pub use adapter::IteratorExt;
pub use fused::Fused;
pub use producer::DoubleEndedProducer;
pub use producer::Producer;
pub use producer::VecProducer;
