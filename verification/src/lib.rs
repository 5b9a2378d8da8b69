//! A statically checked protocol layer between application code and a GPU
//! device API: declarative resource-binding schemas, vertex/instance buffer
//! layout composition, pipeline configuration, and an ordered
//! command-recording session.

pub mod bind;
pub mod buffer;
pub mod context;
pub mod gpu;
pub mod mesh;
pub mod pipeline;
pub mod post;
pub mod schema;
pub mod session;
pub mod texture;
pub mod vertex;
