//! The identification headers that every request to the server carries.
//!
//! Each header takes its configured value when one is given (a non-empty
//! text), and otherwise falls back to what the process and machine report:
//! the package's name and version, the operating system's name and release,
//! the host name, an identifier from the environment, or a freshly drawn
//! random identifier.
use vstd::prelude::*;

use reqwest::header::HeaderMap;

use crate::header_map::{
    header_entries, header_key, insert_header, is_header_name, is_header_value,
    is_header_value_text, is_value_char, new_header_map,
};
use crate::identifier::{
    is_hyphen_position, is_lower_hex_digit, is_random_identifier, random_identifier,
};

verus! {

/// Names what the client provides.
pub const X_PLEX_PROVIDES: &'static str = "X-Plex-Provides";

/// Names the client product.
pub const X_PLEX_PRODUCT: &'static str = "X-Plex-Product";

/// Names the client version.
pub const X_PLEX_VERSION: &'static str = "X-Plex-Version";

/// Names the sync protocol version.
pub const X_PLEX_SYNC_VERSION: &'static str = "X-Plex-Sync-Version";

/// Names the platform the client runs on.
pub const X_PLEX_PLATFORM: &'static str = "X-Plex-Platform";

/// Names the version of that platform.
pub const X_PLEX_PLATFORM_VERSION: &'static str = "X-Plex-Platform-Version";

/// Names the identifier that tells this client apart from others.
pub const X_PLEX_CLIENT_IDENTIFIER: &'static str = "X-Plex-Client-Identifier";

/// Names the device.
pub const X_PLEX_DEVICE: &'static str = "X-Plex-Device";

/// Names the device's own name.
pub const X_PLEX_DEVICE_NAME: &'static str = "X-Plex-Device-Name";

/// The sync protocol version, the same on every request.
pub const SYNC_VERSION: &'static str = "2";

/// What the client provides when nothing else is configured.
pub const DEFAULT_PROVIDES: &'static str = "controller";

/// The product name when neither a configured one nor the package's is known.
pub const DEFAULT_PRODUCT: &'static str = "plex-api";

/// The version when neither a configured one nor the package's is known.
pub const DEFAULT_VERSION: &'static str = "unknown";

/// The environment variable that may hold the client identifier.
pub const CLIENT_IDENTIFIER_VARIABLE: &'static str = "X_PLEX_CLIENT_IDENTIFIER";

/// The values a caller sets to identify its client. An empty text leaves the
/// value unconfigured, so that its header falls back to what the process and
/// machine report.
pub struct Identification {
    pub provides: String,
    pub platform: String,
    pub platform_version: String,
    pub product: String,
    pub version: String,
    pub device: String,
    pub device_name: String,
    pub client_identifier: String,
}

/// What the process and machine report, read once before headers are built.
pub struct Environment {
    /// The package name fixed at build time, if any.
    pub package_name: Option<String>,
    /// The package version fixed at build time, if any.
    pub package_version: Option<String>,
    /// The operating system's name.
    pub sysname: String,
    /// The operating system's release.
    pub release: String,
    /// The machine's host name.
    pub nodename: String,
    /// The client identifier held by the environment variable, if it is set.
    pub client_identifier: Option<String>,
}

impl Identification {
    /// Settings with every value unconfigured.
    pub fn new() -> (r: Identification)
        ensures
            r.provides@.len() == 0,
            r.platform@.len() == 0,
            r.platform_version@.len() == 0,
            r.product@.len() == 0,
            r.version@.len() == 0,
            r.device@.len() == 0,
            r.device_name@.len() == 0,
            r.client_identifier@.len() == 0,
    {
        Identification {
            provides: String::new(),
            platform: String::new(),
            platform_version: String::new(),
            product: String::new(),
            version: String::new(),
            device: String::new(),
            device_name: String::new(),
            client_identifier: String::new(),
        }
    }
}

/// The configured text, or `fallback` where nothing is configured.
pub open spec fn or_else(configured: Seq<char>, fallback: Seq<char>) -> Seq<char> {
    if configured.len() == 0 {
        fallback
    } else {
        configured
    }
}

/// The text held by `value`, or `fallback` where there is none.
pub open spec fn option_or(value: Option<String>, fallback: Seq<char>) -> Seq<char> {
    match value {
        Some(s) => s@,
        None => fallback,
    }
}

/// What the client provides: configured, else "controller".
pub open spec fn provides_value(id: Identification) -> Seq<char> {
    or_else(id.provides@, DEFAULT_PROVIDES@)
}

/// The product: configured, else the package's name, else "plex-api".
pub open spec fn product_value(id: Identification, env: Environment) -> Seq<char> {
    or_else(id.product@, option_or(env.package_name, DEFAULT_PRODUCT@))
}

/// The version: configured, else the package's version, else "unknown".
pub open spec fn version_value(id: Identification, env: Environment) -> Seq<char> {
    or_else(id.version@, option_or(env.package_version, DEFAULT_VERSION@))
}

/// The platform: configured, else the operating system's name.
pub open spec fn platform_value(id: Identification, env: Environment) -> Seq<char> {
    or_else(id.platform@, env.sysname@)
}

/// The platform version: configured, else the operating system's release.
pub open spec fn platform_version_value(id: Identification, env: Environment) -> Seq<char> {
    or_else(id.platform_version@, env.release@)
}

/// The device: configured, else the platform as resolved.
pub open spec fn device_value(id: Identification, env: Environment) -> Seq<char> {
    or_else(id.device@, platform_value(id, env))
}

/// The device name: configured, else the host name.
pub open spec fn device_name_value(id: Identification, env: Environment) -> Seq<char> {
    or_else(id.device_name@, env.nodename@)
}

/// The client identifier that the settings or the environment supply, if
/// any: a configured one first, then the environment variable's.
pub open spec fn client_identifier_source(id: Identification, env: Environment) -> Option<
    Seq<char>,
> {
    if id.client_identifier@.len() > 0 {
        Some(id.client_identifier@)
    } else {
        match env.client_identifier {
            Some(s) => Some(s@),
            None => None,
        }
    }
}

/// The header set for these settings, with `client_identifier` as the
/// client identifier: each header's key in lower case, with its value.
pub open spec fn header_set(id: Identification, env: Environment, client_identifier: Seq<char>) -> Map<
    Seq<char>,
    Seq<char>,
> {
    map![
        header_key(X_PLEX_PROVIDES@) => provides_value(id),
        header_key(X_PLEX_PRODUCT@) => product_value(id, env),
        header_key(X_PLEX_VERSION@) => version_value(id, env),
        header_key(X_PLEX_SYNC_VERSION@) => SYNC_VERSION@,
        header_key(X_PLEX_PLATFORM@) => platform_value(id, env),
        header_key(X_PLEX_PLATFORM_VERSION@) => platform_version_value(id, env),
        header_key(X_PLEX_CLIENT_IDENTIFIER@) => client_identifier,
        header_key(X_PLEX_DEVICE@) => device_value(id, env),
        header_key(X_PLEX_DEVICE_NAME@) => device_name_value(id, env),
    ]
}

/// The names of the headers that every request carries.
pub open spec fn required_header_names() -> Seq<Seq<char>> {
    seq![
        X_PLEX_PROVIDES@,
        X_PLEX_PRODUCT@,
        X_PLEX_VERSION@,
        X_PLEX_SYNC_VERSION@,
        X_PLEX_PLATFORM@,
        X_PLEX_PLATFORM_VERSION@,
        X_PLEX_CLIENT_IDENTIFIER@,
        X_PLEX_DEVICE@,
        X_PLEX_DEVICE_NAME@,
    ]
}

/// Whether every value that the settings and the environment resolve to can
/// stand in a header. A value that is not used (a fallback behind a
/// configured value) is not asked about.
pub open spec fn header_values_valid(id: Identification, env: Environment) -> bool {
    &&& is_header_value(provides_value(id))
    &&& is_header_value(product_value(id, env))
    &&& is_header_value(version_value(id, env))
    &&& is_header_value(platform_value(id, env))
    &&& is_header_value(platform_version_value(id, env))
    &&& is_header_value(device_value(id, env))
    &&& is_header_value(device_name_value(id, env))
    &&& (client_identifier_source(id, env) matches Some(c) ==> is_header_value(c))
}

/// The header names are well formed, and their keys tell them apart: by
/// length, or for two pairs of equal length by one character.
proof fn lemma_header_names()
    ensures
        forall|i: int|
            0 <= i < required_header_names().len() ==> is_header_name(
                #[trigger] required_header_names()[i],
            ),
        header_key(X_PLEX_PROVIDES@).len() == 15,
        header_key(X_PLEX_PRODUCT@).len() == 14,
        header_key(X_PLEX_VERSION@).len() == 14,
        header_key(X_PLEX_SYNC_VERSION@).len() == 19,
        header_key(X_PLEX_PLATFORM@).len() == 15,
        header_key(X_PLEX_PLATFORM_VERSION@).len() == 23,
        header_key(X_PLEX_CLIENT_IDENTIFIER@).len() == 24,
        header_key(X_PLEX_DEVICE@).len() == 13,
        header_key(X_PLEX_DEVICE_NAME@).len() == 18,
        header_key(X_PLEX_PROVIDES@)[8] != header_key(X_PLEX_PLATFORM@)[8],
        header_key(X_PLEX_PRODUCT@)[7] != header_key(X_PLEX_VERSION@)[7],
{
    reveal_strlit("X-Plex-Provides");
    reveal_strlit("X-Plex-Product");
    reveal_strlit("X-Plex-Version");
    reveal_strlit("X-Plex-Sync-Version");
    reveal_strlit("X-Plex-Platform");
    reveal_strlit("X-Plex-Platform-Version");
    reveal_strlit("X-Plex-Client-Identifier");
    reveal_strlit("X-Plex-Device");
    reveal_strlit("X-Plex-Device-Name");
    assert(header_key(X_PLEX_PROVIDES@)[8] == 'r');
    assert(header_key(X_PLEX_PLATFORM@)[8] == 'l');
    assert(header_key(X_PLEX_PRODUCT@)[7] == 'p');
    assert(header_key(X_PLEX_VERSION@)[7] == 'v');
}

/// The configured text, or `fallback` where it is empty.
fn resolve(configured: &String, fallback: &str) -> (r: String)
    ensures
        r@ == or_else(configured@, fallback@),
{
    if configured.as_str().is_empty() {
        fallback.to_owned()
    } else {
        configured.clone()
    }
}

/// The text that `value` holds, or `fallback` where it holds none.
fn resolve_option(value: &Option<String>, fallback: &str) -> (r: String)
    ensures
        r@ == option_or(*value, fallback@),
{
    match value {
        Some(s) => s.clone(),
        None => fallback.to_owned(),
    }
}

/// The client identifier that the settings or the environment supply: the
/// configured one if it is not empty, else the environment variable's as it
/// stands, else none.
pub fn configured_client_identifier(id: &Identification, env: &Environment) -> (r: Option<String>)
    ensures
        r is None <==> client_identifier_source(*id, *env) is None,
        r matches Some(s) ==> client_identifier_source(*id, *env) == Some(s@),
{
    if !id.client_identifier.as_str().is_empty() {
        Some(id.client_identifier.clone())
    } else {
        match &env.client_identifier {
            Some(s) => Some(s.clone()),
            None => None,
        }
    }
}

/// Tells whether every value that the settings and the environment resolve to
/// can stand in a header, so that headers can be built from them.
pub fn can_build_headers(id: &Identification, env: &Environment) -> (r: bool)
    ensures
        r == header_values_valid(*id, *env),
{
    let provides = resolve(&id.provides, DEFAULT_PROVIDES);
    let packaged_product = resolve_option(&env.package_name, DEFAULT_PRODUCT);
    let product = resolve(&id.product, packaged_product.as_str());
    let packaged_version = resolve_option(&env.package_version, DEFAULT_VERSION);
    let version = resolve(&id.version, packaged_version.as_str());
    let platform = resolve(&id.platform, env.sysname.as_str());
    let platform_version = resolve(&id.platform_version, env.release.as_str());
    let device = resolve(&id.device, platform.as_str());
    let device_name = resolve(&id.device_name, env.nodename.as_str());
    let client_ok = match configured_client_identifier(id, env) {
        Some(c) => is_header_value_text(c.as_str()),
        None => true,
    };
    is_header_value_text(provides.as_str()) && is_header_value_text(product.as_str())
        && is_header_value_text(version.as_str()) && is_header_value_text(platform.as_str())
        && is_header_value_text(platform_version.as_str()) && is_header_value_text(device.as_str())
        && is_header_value_text(device_name.as_str()) && client_ok
}

/// Builds the identification headers with `client_identifier` as the client
/// identifier, every other value resolved from the settings and the
/// environment.
pub fn headers_with_client_identifier(
    id: &Identification,
    env: &Environment,
    client_identifier: &str,
) -> (r: HeaderMap)
    requires
        header_values_valid(*id, *env),
        is_header_value(client_identifier@),
    ensures
        header_entries(r) == header_set(*id, *env, client_identifier@),
{
    proof {
        lemma_header_names();
        reveal_strlit("2");
    }
    let ghost names = required_header_names();
    assert(is_header_name(names[0]) && is_header_name(names[1]) && is_header_name(names[2]));
    assert(is_header_name(names[3]) && is_header_name(names[4]) && is_header_name(names[5]));
    assert(is_header_name(names[6]) && is_header_name(names[7]) && is_header_name(names[8]));
    assert(is_header_value(SYNC_VERSION@));

    let mut headers = new_header_map();
    let provides = resolve(&id.provides, DEFAULT_PROVIDES);
    insert_header(&mut headers, X_PLEX_PROVIDES, provides.as_str());

    let packaged_product = resolve_option(&env.package_name, DEFAULT_PRODUCT);
    let product = resolve(&id.product, packaged_product.as_str());
    insert_header(&mut headers, X_PLEX_PRODUCT, product.as_str());

    let packaged_version = resolve_option(&env.package_version, DEFAULT_VERSION);
    let version = resolve(&id.version, packaged_version.as_str());
    insert_header(&mut headers, X_PLEX_VERSION, version.as_str());
    insert_header(&mut headers, X_PLEX_SYNC_VERSION, SYNC_VERSION);

    let platform = resolve(&id.platform, env.sysname.as_str());
    insert_header(&mut headers, X_PLEX_PLATFORM, platform.as_str());

    let platform_version = resolve(&id.platform_version, env.release.as_str());
    insert_header(&mut headers, X_PLEX_PLATFORM_VERSION, platform_version.as_str());
    insert_header(&mut headers, X_PLEX_CLIENT_IDENTIFIER, client_identifier);

    let device = resolve(&id.device, platform.as_str());
    insert_header(&mut headers, X_PLEX_DEVICE, device.as_str());

    let device_name = resolve(&id.device_name, env.nodename.as_str());
    insert_header(&mut headers, X_PLEX_DEVICE_NAME, device_name.as_str());

    assert(header_entries(headers) =~= header_set(*id, *env, client_identifier@));
    headers
}

/// Builds the identification headers. The client identifier is the one that
/// the settings or the environment supply; where neither does, a random one
/// is drawn for this call alone and handed back too, so that the caller can
/// warn that the client will not be recognised across runs.
pub fn base_headers(id: &Identification, env: &Environment) -> (r: (HeaderMap, Option<String>))
    requires
        header_values_valid(*id, *env),
    ensures
        client_identifier_source(*id, *env) matches Some(c) ==> r.1 is None && header_entries(r.0)
            == header_set(*id, *env, c),
        client_identifier_source(*id, *env) is None ==> r.1 is Some && is_random_identifier(
            r.1->Some_0@,
        ) && header_entries(r.0) == header_set(*id, *env, r.1->Some_0@),
{
    match configured_client_identifier(id, env) {
        Some(c) => (headers_with_client_identifier(id, env, c.as_str()), None),
        None => {
            let generated = random_identifier();
            assert(is_header_value(generated@)) by {
                assert forall|i: int| 0 <= i < generated@.len() implies is_value_char(
                    #[trigger] generated@[i],
                ) by {
                    assert(is_hyphen_position(i) || is_lower_hex_digit(generated@[i]));
                }
            }
            let headers = headers_with_client_identifier(id, env, generated.as_str());
            (headers, Some(generated))
        },
    }
}

/// Whatever the settings, the header set holds each of the required headers,
/// and nothing else.
pub proof fn lemma_required_headers_present(
    id: Identification,
    env: Environment,
    client_identifier: Seq<char>,
)
    ensures
        forall|i: int|
            0 <= i < required_header_names().len() ==> header_set(
                id,
                env,
                client_identifier,
            ).dom().contains(header_key(#[trigger] required_header_names()[i])),
        header_set(id, env, client_identifier).dom().len() == required_header_names().len(),
{
    lemma_header_names();
    let names = required_header_names();
    assert forall|i: int| 0 <= i < names.len() implies header_set(
        id,
        env,
        client_identifier,
    ).dom().contains(header_key(#[trigger] names[i])) by {
        assert(0 <= i < 9);
    }
}

/// A configured value is the value of its header, exactly. The sync version
/// is always "2", and the client identifier header holds the identifier
/// that the set was built with, which is the configured one where there is
/// one.
pub proof fn lemma_configured_values_kept(
    id: Identification,
    env: Environment,
    client_identifier: Seq<char>,
)
    ensures
        id.provides@.len() > 0 ==> header_set(id, env, client_identifier)[header_key(
            X_PLEX_PROVIDES@,
        )] == id.provides@,
        id.product@.len() > 0 ==> header_set(id, env, client_identifier)[header_key(
            X_PLEX_PRODUCT@,
        )] == id.product@,
        id.version@.len() > 0 ==> header_set(id, env, client_identifier)[header_key(
            X_PLEX_VERSION@,
        )] == id.version@,
        id.platform@.len() > 0 ==> header_set(id, env, client_identifier)[header_key(
            X_PLEX_PLATFORM@,
        )] == id.platform@,
        id.platform_version@.len() > 0 ==> header_set(id, env, client_identifier)[header_key(
            X_PLEX_PLATFORM_VERSION@,
        )] == id.platform_version@,
        id.device@.len() > 0 ==> header_set(id, env, client_identifier)[header_key(
            X_PLEX_DEVICE@,
        )] == id.device@,
        id.device_name@.len() > 0 ==> header_set(id, env, client_identifier)[header_key(
            X_PLEX_DEVICE_NAME@,
        )] == id.device_name@,
        header_set(id, env, client_identifier)[header_key(X_PLEX_SYNC_VERSION@)] == SYNC_VERSION@,
        header_set(id, env, client_identifier)[header_key(X_PLEX_CLIENT_IDENTIFIER@)]
            == client_identifier,
        id.client_identifier@.len() > 0 ==> client_identifier_source(id, env) == Some(
            id.client_identifier@,
        ),
{
    lemma_header_names();
}

/// Where no device is configured, the device header repeats the platform
/// header, whether that was configured or reported by the system.
pub proof fn lemma_device_follows_platform(
    id: Identification,
    env: Environment,
    client_identifier: Seq<char>,
)
    requires
        id.device@.len() == 0,
    ensures
        header_set(id, env, client_identifier)[header_key(X_PLEX_DEVICE@)] == header_set(
            id,
            env,
            client_identifier,
        )[header_key(X_PLEX_PLATFORM@)],
{
    lemma_header_names();
}

} // verus!
