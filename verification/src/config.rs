//! Where the backend lives: host and port, entry path, working directory and
//! environment, and what the control surface tells a client about them.
//!
//! The values come from the process environment and from the installation,
//! which the caller reads. This module holds the defaults, the parsing and the
//! composition.

use vstd::prelude::*;
use crate::text::{
    parse_digits,
    push_decimal,
    spec_decimal,
    spec_parse_digits,
    spec_strip_plus,
    to_chars,
};

verus! {

/// The port on which the backend listens unless the environment names
/// another.
pub const DEFAULT_PORT: u16 = 3000;

/// The host on which the backend listens unless the environment names
/// another.
pub open spec fn spec_default_host() -> Seq<char> {
    "127.0.0.1"@
}

/// What `text` means as a port: a decimal number of at most 65535, written
/// with digits only but for one plus sign that may stand before them.
pub open spec fn spec_parse_port(text: Seq<char>) -> Option<u16> {
    match spec_parse_digits(spec_strip_plus(text), 0xFFFF) {
        Some(n) => Some(n as u16),
        None => None,
    }
}

/// The port that the setting `configured` stands for.
pub open spec fn spec_backend_port(configured: Option<Seq<char>>) -> u16 {
    match configured {
        Some(text) => match spec_parse_port(text) {
            Some(port) => port,
            None => DEFAULT_PORT,
        },
        None => DEFAULT_PORT,
    }
}

/// The address of the backend for clients: scheme, host, colon, port.
pub open spec fn spec_base_url(host: Seq<char>, port: u16) -> Seq<char> {
    "http://"@ + host + ":"@ + spec_decimal(port as nat)
}

/// The path `relative` below the directory `dir`: the directory, a slash
/// unless the directory is empty or ends in one, and `relative`.
pub open spec fn spec_below(dir: Seq<char>, relative: Seq<char>) -> Seq<char> {
    if dir.len() == 0 || dir.last() == '/' {
        dir + relative
    } else {
        dir + "/"@ + relative
    }
}

/// The entry path of the backend below `bundle_dir`.
pub open spec fn spec_backend_entry(bundle_dir: Seq<char>) -> Seq<char> {
    spec_below(bundle_dir, "dist/index.js"@)
}

/// The value that a list of environment settings gives `key`: that of the
/// last entry with this key.
pub open spec fn spec_environment_value(
    settings: Seq<(Seq<char>, Seq<char>)>,
    key: Seq<char>,
) -> Option<Seq<char>>
    decreases settings.len(),
{
    if settings.len() == 0 {
        None
    } else if settings.last().0 == key {
        Some(settings.last().1)
    } else {
        spec_environment_value(settings.drop_last(), key)
    }
}

/// Whether this is a packaged build: one whose source tree is not on this
/// machine.
pub fn is_release_build(manifest_dir_exists: bool) -> (release: bool)
    ensures
        release == !manifest_dir_exists,
{
    !manifest_dir_exists
}

/// The host of the backend: the setting, or the default where there is none.
pub fn backend_host(configured: Option<String>) -> (host: String)
    ensures
        host@ == match configured {
            Some(text) => text@,
            None => spec_default_host(),
        },
{
    match configured {
        Some(text) => text,
        None => String::from_str("127.0.0.1"),
    }
}

/// What `text` means as a port, if it is one.
pub fn parse_port(text: &str) -> (port: Option<u16>)
    ensures
        port == spec_parse_port(text@),
{
    let chars = to_chars(text);
    let start: usize = if chars.len() > 0 && chars[0] == '+' {
        1
    } else {
        0
    };
    proof {
        assert(spec_strip_plus(chars@) =~= chars@.subrange(start as int, chars.len() as int));
    }
    match parse_digits(&chars, start, chars.len(), 0xFFFF) {
        Some(n) => Some(n as u16),
        None => None,
    }
}

/// The port of the backend: the setting where it is a port, else the default.
pub fn backend_port(configured: Option<&str>) -> (port: u16)
    ensures
        port == spec_backend_port(
            match configured {
                Some(text) => Some(text@),
                None => None,
            },
        ),
{
    match configured {
        Some(text) => match parse_port(text) {
            Some(port) => port,
            None => DEFAULT_PORT,
        },
        None => DEFAULT_PORT,
    }
}

/// The address of the backend for clients.
pub fn backend_base_url(host: &str, port: u16) -> (url: String)
    ensures
        url@ == spec_base_url(host@, port),
{
    let mut url = String::from_str("http://");
    url.append(host);
    url.append(":");
    push_decimal(&mut url, port as u64);
    url
}

/// The token that clients present: the setting, unless it is empty.
pub fn backend_auth_token(configured: Option<String>) -> (token: Option<String>)
    ensures
        token == match configured {
            Some(text) => if text@.len() == 0 {
                None
            } else {
                Some(text)
            },
            None => None,
        },
{
    match configured {
        Some(text) => if text.as_str().is_empty() {
            None
        } else {
            Some(text)
        },
        None => None,
    }
}

/// What a client needs to reach the backend.
#[derive(Debug)]
pub struct BackendConfig {
    /// The address of the backend.
    pub base_url: String,
    /// The token to present, if one is set.
    pub auth_token: Option<String>,
}

/// The configuration query of the control surface, over the three settings
/// of the environment: host, port and token.
pub fn get_backend_config(
    host: Option<String>,
    port: Option<&str>,
    token: Option<String>,
) -> (config: BackendConfig)
    ensures
        config.base_url@ == spec_base_url(
            match host {
                Some(text) => text@,
                None => spec_default_host(),
            },
            spec_backend_port(
                match port {
                    Some(text) => Some(text@),
                    None => None,
                },
            ),
        ),
        config.auth_token == match token {
            Some(text) => if text@.len() == 0 {
                None
            } else {
                Some(text)
            },
            None => None,
        },
{
    let host = backend_host(host);
    let port = backend_port(port);
    BackendConfig {
        base_url: backend_base_url(host.as_str(), port),
        auth_token: backend_auth_token(token),
    }
}

/// Everything a spawn attempt needs to know of the backend. It is put
/// together anew for each attempt.
#[derive(Debug)]
pub struct BackendEndpoint {
    /// The host to probe.
    pub host: String,
    /// The port to probe and to inspect.
    pub port: u16,
    /// The path of the backend's entry file, which is also the signature by
    /// which a listener is recognised.
    pub entry_path: String,
    /// The directory in which the child runs.
    pub working_directory: String,
    /// The environment settings for the child, in order. Where a key occurs
    /// twice, the later entry wins.
    pub environment_overrides: Vec<(String, String)>,
}

/// The path `relative` below the directory `dir`, where `relative` does not
/// begin with a slash.
pub fn below(dir: &str, relative: &str) -> (path: String)
    ensures
        path@ == spec_below(dir@, relative@),
{
    let chars = to_chars(dir);
    let mut path = String::from_str(dir);
    if chars.len() > 0 && chars[chars.len() - 1] != '/' {
        path.append("/");
    }
    path.append(relative);
    path
}

/// The entry path of the backend below `bundle_dir`.
pub fn backend_entry(bundle_dir: &str) -> (entry: String)
    ensures
        entry@ == spec_backend_entry(bundle_dir@),
{
    below(bundle_dir, "dist/index.js")
}

/// The endpoint of the backend that is installed in `bundle_dir` and works in
/// `data_dir`. The child is told both directories, then the user's settings,
/// which may override them.
pub fn backend_endpoint(
    bundle_dir: &str,
    data_dir: &str,
    host: String,
    port: u16,
    user_env: Vec<(String, String)>,
) -> (endpoint: BackendEndpoint)
    ensures
        endpoint.host == host,
        endpoint.port == port,
        endpoint.entry_path@ == spec_backend_entry(bundle_dir@),
        endpoint.working_directory@ == data_dir@,
        endpoint.environment_overrides.deep_view() == seq![
            ("NANOCLAW_BUNDLE_DIR"@, bundle_dir@),
            ("NANOCLAW_DATA_DIR"@, data_dir@),
        ] + user_env.deep_view(),
{
    let mut overrides: Vec<(String, String)> = Vec::new();
    overrides.push((String::from_str("NANOCLAW_BUNDLE_DIR"), String::from_str(bundle_dir)));
    overrides.push((String::from_str("NANOCLAW_DATA_DIR"), String::from_str(data_dir)));
    let ghost fixed = overrides.deep_view();
    let ghost given = user_env.deep_view();
    assert(fixed =~= seq![
        ("NANOCLAW_BUNDLE_DIR"@, bundle_dir@),
        ("NANOCLAW_DATA_DIR"@, data_dir@),
    ]);
    let mut user_env = user_env;
    overrides.append(&mut user_env);
    assert(overrides.deep_view() =~= fixed + given);
    BackendEndpoint {
        host,
        port,
        entry_path: backend_entry(bundle_dir),
        working_directory: String::from_str(data_dir),
        environment_overrides: overrides,
    }
}

/// The value that `settings` give `key`, where a later entry wins over an
/// earlier one with the same key.
pub fn environment_value(settings: &Vec<(String, String)>, key: &str) -> (value: Option<String>)
    ensures
        match spec_environment_value(settings.deep_view(), key@) {
            Some(text) => value matches Some(found) && found@ == text,
            None => value is None,
        },
{
    let wanted = String::from_str(key);
    let mut i: usize = settings.len();
    proof {
        assert(settings.deep_view().take(i as int) =~= settings.deep_view());
    }
    while i > 0
        invariant
            i <= settings.len(),
            wanted@ == key@,
            spec_environment_value(settings.deep_view(), key@) == spec_environment_value(
                settings.deep_view().take(i as int),
                key@,
            ),
        decreases i,
    {
        let ghost prefix = settings.deep_view().take(i as int);
        proof {
            assert(prefix.last() == settings.deep_view()[i - 1]);
            assert(prefix.drop_last() =~= settings.deep_view().take(i - 1));
        }
        if settings[i - 1].0 == wanted {
            return Some(settings[i - 1].1.clone());
        }
        i -= 1;
    }
    None
}

} // verus!
