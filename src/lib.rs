//! Authors domain of a hexagonal service: validated value objects, the
//! author entity and its requests, the repository port with an in-memory
//! store, the decisions of a relational storage adapter, and the mapping of
//! domain outcomes onto transport outcomes.

pub mod config;
pub mod email;
pub mod http;
pub mod memory;
pub mod model;
pub mod repository;
pub mod storage;
pub mod text;
