//! Owned triangle meshes and point clouds, their flat engine layout, and the
//! decisions of a voxelization call: validation, marshaling, ingestion of the
//! engine's results and the pairing of every allocation with its release.
pub mod grid;
pub mod layout;
pub mod lifecycle;
pub mod model;
