//! Identification headers and response decoding helpers for a media-server
//! client: the headers every request carries, resolved from explicit settings
//! and the surroundings of the process, and the 0/1 integer encoding of
//! booleans used in the server's JSON.

pub mod boolean;
pub mod header_map;
pub mod headers;
pub mod identifier;

pub use boolean::{bool_from_int, option_bool_from_int, InvalidBool, EXPECTED_BOOL};
pub use header_map::is_header_value_text;
pub use headers::{
    base_headers, can_build_headers, configured_client_identifier, headers_with_client_identifier,
    Environment, Identification, CLIENT_IDENTIFIER_VARIABLE, DEFAULT_PRODUCT, DEFAULT_PROVIDES,
    DEFAULT_VERSION, SYNC_VERSION, X_PLEX_CLIENT_IDENTIFIER, X_PLEX_DEVICE, X_PLEX_DEVICE_NAME,
    X_PLEX_PLATFORM, X_PLEX_PLATFORM_VERSION, X_PLEX_PRODUCT, X_PLEX_PROVIDES,
    X_PLEX_SYNC_VERSION, X_PLEX_VERSION,
};
