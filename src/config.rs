use vstd::prelude::*;

verus! {

#[verifier::external_type_specification]
#[verifier::external_body]
pub struct ExUrl(url::Url);

#[verifier::external_type_specification]
#[verifier::external_body]
pub struct ExParseError(url::ParseError);

/// Whether the URL parser accepts a text.
pub uninterp spec fn url_accepts(s: Seq<char>) -> bool;

/// Relies on url::Url::parse: it accepts or refuses a text according to the
/// text alone.
#[verifier::external_body]
fn parse_url(s: &str) -> (r: Result<url::Url, url::ParseError>)
    ensures
        r is Ok == url_accepts(s@),
{
    url::Url::parse(s)
}

/// Seconds between two registry polls unless configured otherwise.
pub const DEFAULT_POLL_INTERVAL: u64 = 5;

/// The third-party relay used unless configured otherwise.
pub fn default_cloudflare_url() -> (r: String)
    ensures
        r@ == "https://relay-next.cloudflare.mediaoverquic.com"@,
{
    String::from_str("https://relay-next.cloudflare.mediaoverquic.com")
}

/// Where the bridge connects, read once at startup.
pub struct Config {
    /// URL of the home relay.
    pub relay_url: String,
    /// URL of the third-party relay.
    pub cloudflare_url: String,
    /// URL of the stream registry.
    pub registry_url: String,
    /// Token for joining the home relay, passed as a query parameter.
    pub relay_token: Option<String>,
    /// Seconds between two registry polls.
    pub poll_interval: u64,
}

/// An endpoint that cannot be connected to; startup ends on it.
#[derive(Clone, Copy, Debug, PartialEq, Eq, Structural)]
pub enum ConfigError {
    /// The home relay URL, with its token, is not a URL.
    InvalidRelayUrl,
    /// The third-party relay URL is not a URL.
    InvalidCloudflareUrl,
}

/// The text of the home relay endpoint: the URL, followed by the token as a
/// `jwt` query parameter when there is one.
pub open spec fn relay_endpoint_text(c: Config) -> Seq<char> {
    match c.relay_token {
        Some(t) => c.relay_url@ + "/?jwt="@ + t@,
        None => c.relay_url@,
    }
}

/// The endpoint from what the URL parser returned: the URL when it accepted
/// the text, `on_error` when it did not.
pub fn endpoint_from(parsed: Result<url::Url, url::ParseError>, on_error: ConfigError) -> (r: Result<
    url::Url,
    ConfigError,
>)
    ensures
        r is Ok == parsed is Ok,
        parsed is Ok ==> r == Ok::<url::Url, ConfigError>(parsed->Ok_0),
        r is Err ==> r == Err::<url::Url, ConfigError>(on_error),
{
    match parsed {
        Ok(u) => Ok(u),
        Err(_) => Err(on_error),
    }
}

impl Config {
    /// A configuration with the default third-party relay and poll interval.
    pub fn new(relay_url: String, registry_url: String, relay_token: Option<String>) -> (r: Config)
        ensures
            r.relay_url == relay_url,
            r.registry_url == registry_url,
            r.relay_token == relay_token,
            r.cloudflare_url@ == "https://relay-next.cloudflare.mediaoverquic.com"@,
            r.poll_interval == DEFAULT_POLL_INTERVAL,
    {
        Config {
            relay_url,
            cloudflare_url: default_cloudflare_url(),
            registry_url,
            relay_token,
            poll_interval: DEFAULT_POLL_INTERVAL,
        }
    }

    /// The text of the home relay endpoint.
    pub fn relay_endpoint_text(&self) -> (r: String)
        ensures
            r@ == relay_endpoint_text(*self),
    {
        let mut r = self.relay_url.clone();
        match &self.relay_token {
            Some(t) => {
                r.append("/?jwt=");
                r.append(t.as_str());
            },
            None => {},
        }
        r
    }

    /// The home relay endpoint.
    pub fn relay_endpoint(&self) -> (r: Result<url::Url, ConfigError>)
        ensures
            r is Ok == url_accepts(relay_endpoint_text(*self)),
            r is Err ==> r == Err::<url::Url, ConfigError>(ConfigError::InvalidRelayUrl),
    {
        let text = self.relay_endpoint_text();
        endpoint_from(parse_url(text.as_str()), ConfigError::InvalidRelayUrl)
    }

    /// The third-party relay endpoint.
    pub fn cloudflare_endpoint(&self) -> (r: Result<url::Url, ConfigError>)
        ensures
            r is Ok == url_accepts(self.cloudflare_url@),
            r is Err ==> r == Err::<url::Url, ConfigError>(ConfigError::InvalidCloudflareUrl),
    {
        endpoint_from(parse_url(self.cloudflare_url.as_str()), ConfigError::InvalidCloudflareUrl)
    }
}

} // verus!
