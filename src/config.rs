//! Client configuration: base URL, credentials, API version and debug flag.

use crate::authority::{named_port, port_named_in};
use vstd::prelude::*;
use vstd::string::*;

verus! {

/// Version of this client, sent to the service inside the client identifier.
pub const VERSION: &'static str = "0.1.0";

/// Host reported when the configured URL has none.
pub const DEFAULT_HOST: &'static str = "api.sendwithus.com";

/// What the library reads from a parsed absolute URL.
pub struct UrlParts {
    pub text: Seq<char>,
    pub scheme: Seq<char>,
    pub path: Seq<char>,
    pub host: Option<Seq<char>>,
    pub port: Option<u16>,
    pub cannot_be_a_base: bool,
}

/// The parts of `s` when it parses as an absolute URL, `None` when it does not.
pub uninterp spec fn parsed_url(s: Seq<char>) -> Option<UrlParts>;

/// A parsed absolute URL, held as the plain values the client needs. It is
/// only made by parsing or as the service's own URL.
#[derive(Debug, PartialEq)]
pub struct ApiUrl {
    /// The URL's serialization.
    text: String,
    /// The scheme, such as `https`.
    scheme: String,
    /// The path, such as `/`.
    path: String,
    /// The host, if the URL has one.
    host: Option<String>,
    /// The port, if the URL names one that is not the scheme's default.
    port: Option<u16>,
    /// True for URLs such as `mailto:` ones whose path cannot take segments.
    cannot_be_a_base: bool,
    /// The port that the input text named, as written.
    named: Option<u16>,
}

/// The parts of a parsed URL as the parser hands them over.
struct RawUrl {
    text: String,
    scheme: String,
    path: String,
    host: Option<String>,
    port: Option<u16>,
    cannot_be_a_base: bool,
}

impl View for RawUrl {
    type V = UrlParts;

    closed spec fn view(&self) -> UrlParts {
        UrlParts {
            text: self.text@,
            scheme: self.scheme@,
            path: self.path@,
            host: opt_view(self.host),
            port: self.port,
            cannot_be_a_base: self.cannot_be_a_base,
        }
    }
}

/// The text of an optional string.
pub open spec fn opt_view(o: Option<String>) -> Option<Seq<char>> {
    match o {
        Some(s) => Some(s@),
        None => None,
    }
}

impl View for ApiUrl {
    type V = UrlParts;

    closed spec fn view(&self) -> UrlParts {
        self.parts()
    }
}

impl Clone for ApiUrl {
    fn clone(&self) -> (r: ApiUrl)
        ensures
            r@ == self@,
            r.named_port_spec() == self.named_port_spec(),
    {
        proof {
            use_type_invariant(self);
        }
        let host = match &self.host {
            Some(h) => Some(h.clone()),
            None => None,
        };
        ApiUrl {
            text: self.text.clone(),
            scheme: self.scheme.clone(),
            path: self.path.clone(),
            host,
            port: self.port,
            cannot_be_a_base: self.cannot_be_a_base,
            named: self.named,
        }
    }
}

impl ApiUrl {
    spec fn parts(&self) -> UrlParts {
        UrlParts {
            text: self.text@,
            scheme: self.scheme@,
            path: self.path@,
            host: opt_view(self.host),
            port: self.port,
            cannot_be_a_base: self.cannot_be_a_base,
        }
    }
}

/// The service's own base URL.
pub open spec fn default_url() -> UrlParts {
    UrlParts {
        text: "https://api.sendwithus.com/"@,
        scheme: "https"@,
        path: "/"@,
        host: Some("api.sendwithus.com"@),
        port: None,
        cannot_be_a_base: false,
    }
}

/// The URL that a configuration holding `prev` holds after it was given `s`:
/// the parsed URL, or `prev` unchanged when `s` does not parse.
pub open spec fn url_from_input(prev: UrlParts, s: Seq<char>) -> UrlParts {
    match parsed_url(s) {
        Some(u) => u,
        None => prev,
    }
}

/// The host a configuration reports for `u`.
pub open spec fn host_of(u: UrlParts) -> Seq<char> {
    match u.host {
        Some(h) => h,
        None => "api.sendwithus.com"@,
    }
}

/// The port a configuration reports for `u`, whose input named the port
/// `named`: that port as written; else the parsed port; else 443 for https
/// and 80 for any other scheme.
pub open spec fn port_of(u: UrlParts, named: Option<u16>) -> u16 {
    match named {
        Some(p) => p,
        None => match u.port {
            Some(p) => p,
            None => if u.scheme == "https"@ {
                443
            } else {
                80
            },
        },
    }
}

/// A URL that does not parse leaves the configured URL as it was; so a
/// configuration built from the defaults keeps the service's scheme, host and
/// port: `https`, `api.sendwithus.com` and 443.
pub proof fn lemma_invalid_url_keeps_defaults(prev: UrlParts, s: Seq<char>)
    requires
        parsed_url(s) is None,
    ensures
        url_from_input(prev, s) == prev,
        prev == default_url() ==> url_from_input(prev, s).scheme == "https"@,
        prev == default_url() ==> host_of(url_from_input(prev, s)) == "api.sendwithus.com"@,
        prev == default_url() ==> port_of(url_from_input(prev, s), None) == 443,
{
}

/// For a URL that parses, a port the input names is reported as written;
/// with no port named or parsed, 443 for https and 80 for any other scheme.
pub proof fn lemma_port_of_parsed_url(prev: UrlParts, s: Seq<char>)
    requires
        parsed_url(s) is Some,
    ensures
        named_port(s) matches Some(p) ==> port_of(url_from_input(prev, s), named_port(s)) == p,
        named_port(s) is None && parsed_url(s)->0.port is None && parsed_url(s)->0.scheme
            == "https"@ ==> port_of(url_from_input(prev, s), named_port(s)) == 443,
        named_port(s) is None && parsed_url(s)->0.port is None && parsed_url(s)->0.scheme
            != "https"@ ==> port_of(url_from_input(prev, s), named_port(s)) == 80,
{
}

/// Relies on url::Url::parse, and on `as_str`, `scheme`, `path`, `host_str`,
/// `port` and `cannot_be_a_base` of the URL it returns, to read `s` into plain
/// parts.
#[verifier::external_body]
fn parse_url(s: &str) -> (r: Option<RawUrl>)
    ensures
        match r {
            Some(u) => parsed_url(s@) == Some(u@),
            None => parsed_url(s@) is None,
        },
{
    url::Url::parse(s).ok().map(|u| RawUrl {
        text: u.as_str().to_string(),
        scheme: u.scheme().to_string(),
        path: u.path().to_string(),
        host: u.host_str().map(|h| h.to_string()),
        port: u.port(),
        cannot_be_a_base: u.cannot_be_a_base(),
    })
}

impl ApiUrl {
    /// Every `ApiUrl` is a URL that parsed, or the service's own one.
    #[verifier::type_invariant]
    spec fn is_parsed(self) -> bool {
        (self.parts() == default_url() && self.named is None) || exists|s: Seq<char>|
            parsed_url(s) == Some(self.parts()) && self.named == named_port(s)
    }

    /// The port that the input of this URL named, as written.
    pub closed spec fn named_port_spec(&self) -> Option<u16> {
        self.named
    }

    /// Parses `s` as an absolute URL, recording the port it names.
    pub fn parse(s: &str) -> (r: Option<ApiUrl>)
        ensures
            match r {
                Some(u) => parsed_url(s@) == Some(u@) && u.named_port_spec() == named_port(s@),
                None => parsed_url(s@) is None,
            },
    {
        match parse_url(s) {
            Some(raw) => {
                let named = port_named_in(s);
                Some(
                    ApiUrl {
                        text: raw.text,
                        scheme: raw.scheme,
                        path: raw.path,
                        host: raw.host,
                        port: raw.port,
                        cannot_be_a_base: raw.cannot_be_a_base,
                        named,
                    },
                )
            },
            None => None,
        }
    }

    /// The port that the input of this URL named, as written.
    pub fn named_port(&self) -> (r: Option<u16>)
        ensures
            r == self.named_port_spec(),
    {
        self.named
    }

    /// The URL's serialization.
    pub fn text(&self) -> (r: &str)
        ensures
            r@ == self@.text,
    {
        self.text.as_str()
    }

    /// The URL's path.
    pub fn path(&self) -> (r: &str)
        ensures
            r@ == self@.path,
    {
        self.path.as_str()
    }

    /// The port the URL names, if it is not the scheme's default.
    pub fn port(&self) -> (r: Option<u16>)
        ensures
            r == self@.port,
    {
        self.port
    }

    /// Whether the URL's path cannot take segments.
    pub fn cannot_be_a_base(&self) -> (r: bool)
        ensures
            r == self@.cannot_be_a_base,
    {
        self.cannot_be_a_base
    }

    /// The service's own base URL, `https://api.sendwithus.com/`.
    pub fn service_default() -> (r: ApiUrl)
        ensures
            r@ == default_url(),
            r.named_port_spec() is None,
    {
        ApiUrl {
            text: String::from_str("https://api.sendwithus.com/"),
            scheme: String::from_str("https"),
            path: String::from_str("/"),
            host: Some(String::from_str(DEFAULT_HOST)),
            port: None,
            cannot_be_a_base: false,
            named: None,
        }
    }
}

/// Configuration for the API client.
#[derive(Debug, Clone)]
pub struct Config {
    /// Base URL of the service.
    pub url: ApiUrl,
    /// API key used for authentication.
    pub api_key: String,
    /// API version to use (default: "1").
    pub api_version: String,
    /// Whether requests and responses are echoed for troubleshooting.
    pub debug: bool,
    /// Client identifier sent with API requests.
    pub client_stub: String,
}

impl Config {
    /// The configuration holds a URL that parsed, or the service's own one.
    pub open spec fn has_valid_url(&self) -> bool {
        self.url@ == default_url() || exists|s: Seq<char>| parsed_url(s) == Some(self.url@)
    }

    /// A configuration with the service's URL, API version "1" and debug off.
    pub fn new(api_key: &str) -> (r: Config)
        ensures
            r.url@ == default_url(),
            r.url.named_port_spec() is None,
            r.api_key@ == api_key@,
            r.api_version@ == "1"@,
            !r.debug,
            r.client_stub@ == "rust-"@ + VERSION@,
            r.has_valid_url(),
    {
        let mut stub = String::from_str("rust-");
        stub.append(VERSION);
        Config {
            url: ApiUrl::service_default(),
            api_key: String::from_str(api_key),
            api_version: String::from_str("1"),
            debug: false,
            client_stub: stub,
        }
    }

    /// Sets the base URL; an input that does not parse as an absolute URL
    /// leaves the current URL in place.
    pub fn with_url(self, url: &str) -> (r: Config)
        ensures
            r.url@ == url_from_input(self.url@, url@),
            r.api_key == self.api_key,
            r.api_version == self.api_version,
            r.debug == self.debug,
            r.client_stub == self.client_stub,
            r.has_valid_url(),
            parsed_url(url@) is Some ==> r.url.named_port_spec() == named_port(url@),
            parsed_url(url@) is None ==> r.url.named_port_spec() == self.url.named_port_spec(),
    {
        let mut c = self;
        match ApiUrl::parse(url) {
            Some(u) => {
                c.url = u;
            },
            None => {},
        }
        proof {
            use_type_invariant(&c.url);
        }
        c
    }

    /// Sets the API version.
    pub fn with_api_version(self, version: &str) -> (r: Config)
        ensures
            r.api_version@ == version@,
            r.url == self.url,
            r.api_key == self.api_key,
            r.debug == self.debug,
            r.client_stub == self.client_stub,
    {
        let mut c = self;
        c.api_version = String::from_str(version);
        c
    }

    /// Turns debug output on or off.
    pub fn with_debug(self, debug: bool) -> (r: Config)
        ensures
            r.debug == debug,
            r.url == self.url,
            r.api_key == self.api_key,
            r.api_version == self.api_version,
            r.client_stub == self.client_stub,
    {
        let mut c = self;
        c.debug = debug;
        c
    }

    /// The scheme of the configured URL.
    pub fn protocol(&self) -> (r: &str)
        ensures
            r@ == self.url@.scheme,
    {
        self.url.scheme.as_str()
    }

    /// The host of the configured URL, or the service's host if it has none.
    pub fn host(&self) -> (r: &str)
        ensures
            r@ == host_of(self.url@),
    {
        match &self.url.host {
            Some(h) => h.as_str(),
            None => DEFAULT_HOST,
        }
    }

    /// The port of the configured URL: the one its input named, as written;
    /// else the scheme's default, 443 for https and 80 for any other scheme.
    pub fn port(&self) -> (r: u16)
        ensures
            r == port_of(self.url@, self.url.named_port_spec()),
    {
        match self.url.named {
            Some(p) => p,
            None => match self.url.port {
                Some(p) => p,
                None => {
                    if self.url.scheme == String::from_str("https") {
                        443
                    } else {
                        80
                    }
                },
            },
        }
    }
}

} // verus!
