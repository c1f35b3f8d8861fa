//! A verified client core for a restaurant-ordering API.
//!
//! The crate covers the logic of the client: endpoint templates and their
//! validation, extraction and caching of the rotating access credential,
//! normalization of the store directory, reduction of raw menu payloads into a
//! fixed three-bowl price summary, and the bounded-concurrency batch schedule
//! that fans menu fetches out over a location list. All network and file I/O
//! is left to the surrounding application, which feeds its outcomes back into
//! the verified functions here.

mod constants;

pub mod api_interfaces;
pub mod api_key;
pub mod batch;
pub mod client;
pub mod error;
pub mod locations;
pub mod menu;
pub mod summary;
pub mod text;

pub use api_key::ApiKey;
pub use constants::API_KEY_HEADER;
pub use constants::DEFAULT_API_KEY_SOURCE_URL;
pub use constants::DEFAULT_MENU_SERVICE_URL_FORMAT;
pub use constants::DEFAULT_MENU_SERVICE_URL_REPLACE_TOKEN;
pub use constants::DEFAULT_RESTAURANT_SERVICE_URL;
