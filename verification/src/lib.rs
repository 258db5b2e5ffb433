//! Avatar resolution gateway: style classification, request normalisation,
//! the provider fallback chain and rasterisation of vector avatars.

pub mod text;
pub mod style;
pub mod size;
pub mod provider;
pub mod raster;
pub mod resolver;
pub mod gateway;
pub mod endpoint;
