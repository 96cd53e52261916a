//! Request parameters, defaults and request validation of the HTTP API.
pub mod pagination;
pub mod collection_transforms;
pub mod dataset_transforms;
pub mod visualization_transforms;
pub mod embedded_datasets;
pub mod marketplace;
pub mod sessions;
pub mod visualizations;
pub mod transforms;
pub mod embedders;
pub mod ui;
