//! Request and record types of the API's resources, with their defaults.
pub mod collections;
pub mod datasets;
pub mod embedders;
pub mod embedded_datasets;
pub mod search;
