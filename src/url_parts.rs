//! What the endpoint template reads of a parsed URL, held as plain values.
use vstd::prelude::*;
use crate::address::IpAddress;
use crate::address::host_text;

verus! {

/// Declares `url::Url`, which is only read through the wrappers below.
#[verifier::external_type_specification]
#[verifier::external_body]
pub struct ExUrl(url::Url);

/// The host of a URL: a domain name to resolve, or an address already.
#[derive(Debug, PartialEq)]
pub enum UrlHost {
    Domain(String),
    Ip(IpAddress),
}

/// A URL split around its host. `before_host` is the serialization up to the
/// host (scheme, `//` and any user info), `after_host` the rest (port, path,
/// query and fragment).
#[derive(Debug)]
pub struct UrlParts {
    pub before_host: String,
    pub host: Option<UrlHost>,
    pub after_host: String,
    pub cannot_be_a_base: bool,
}

/// The text of a host as it stands in a URL.
pub open spec fn url_host_text(host: Option<UrlHost>) -> Seq<char> {
    match host {
        None => Seq::empty(),
        Some(UrlHost::Domain(d)) => d@,
        Some(UrlHost::Ip(ip)) => host_text(ip),
    }
}

/// The parts of a parsed URL, as the url crate reports them; they depend on
/// the URL alone.
pub uninterp spec fn parts_of_url(u: url::Url) -> UrlParts;

impl UrlParts {
    /// The whole URL as text.
    pub open spec fn serialization(self) -> Seq<char> {
        self.before_host@ + url_host_text(self.host) + self.after_host@
    }

    /// The URL as text with `host` in place of its host.
    pub open spec fn with_host(self, host: Seq<char>) -> Seq<char> {
        self.before_host@ + host + self.after_host@
    }

    /// Reads the parts of a parsed URL.
    pub fn of(url: &url::Url) -> (r: UrlParts)
        ensures
            r == parts_of_url(*url),
    {
        UrlParts {
            before_host: text_before_host(url),
            host: host_of(url),
            after_host: text_after_host(url),
            cannot_be_a_base: cannot_be_a_base(url),
        }
    }
}

/// Relies on `url::Url::host`: the host, told apart by kind, with the domain
/// as it is serialized.
#[verifier::external_body]
fn host_of(url: &url::Url) -> (r: Option<UrlHost>)
    ensures
        r == parts_of_url(*url).host,
{
    match url.host() {
        None => None,
        Some(url::Host::Domain(d)) => Some(UrlHost::Domain(d.to_string())),
        Some(url::Host::Ipv4(a)) => Some(UrlHost::Ip(IpAddress::V4(a.into()))),
        Some(url::Host::Ipv6(a)) => Some(UrlHost::Ip(IpAddress::V6(a.into()))),
    }
}

/// Relies on slicing a `url::Url` up to `Position::BeforeHost`.
#[verifier::external_body]
fn text_before_host(url: &url::Url) -> (r: String)
    ensures
        r == parts_of_url(*url).before_host,
{
    url[..url::Position::BeforeHost].to_string()
}

/// Relies on slicing a `url::Url` from `Position::AfterHost`.
#[verifier::external_body]
fn text_after_host(url: &url::Url) -> (r: String)
    ensures
        r == parts_of_url(*url).after_host,
{
    url[url::Position::AfterHost..].to_string()
}

/// Relies on `url::Url::cannot_be_a_base`.
#[verifier::external_body]
fn cannot_be_a_base(url: &url::Url) -> (r: bool)
    ensures
        r == parts_of_url(*url).cannot_be_a_base,
{
    url.cannot_be_a_base()
}

} // verus!
