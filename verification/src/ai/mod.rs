//! AI providers: the model catalog, token accounting, the provider service
//! and the built-in providers.

pub mod model_catalog;
pub mod token_usage;
pub mod providers;
pub mod provider_service;
