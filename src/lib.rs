//! Shared building blocks for test-data factories.
//!
//! - [`sentinel`]: the protocol by which a field's type names its "unset" value.
//! - [`resolve`]: the capability every entity factory offers (`create`), and the
//!   per-field resolution step that fills an unset foreign key by creating the
//!   referenced row through the child's factory.

pub mod sentinel;
pub mod resolve;

pub use resolve::{FactoryCreate, FactoryError, FactoryResult};

pub use sentinel::Sentinel;

