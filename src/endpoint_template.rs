//! The endpoint template: a validated base URL plus transport options, from
//! which one endpoint descriptor is built per resolved address.
use vstd::prelude::*;
use std::time::Duration;
use crate::address::IpAddress;
use crate::address::host_text;
use crate::url_parts::{UrlHost, UrlParts, parts_of_url};

verus! {

/// Declares `http::Uri`, carried unchanged as the origin option.
#[verifier::external_type_specification]
#[verifier::external_body]
pub struct ExUri(http::Uri);

/// Declares `http::HeaderValue`, carried unchanged as the user agent option.
#[verifier::external_type_specification]
#[verifier::external_body]
pub struct ExHeaderValue(http::HeaderValue);

/// Why a URL cannot serve as an endpoint template.
#[derive(Clone, Copy, Debug, PartialEq, Eq, Structural)]
pub enum Error {
    /// The URL has no host.
    HostMissing,
    /// The host is an IP address already: there is nothing to resolve.
    AlreadyIpAddress,
    /// The URL cannot be turned into a transport URI.
    Inconvertible,
}

/// Whether a text parses as an `http::Uri`.
pub uninterp spec fn is_uri(s: Seq<char>) -> bool;

/// Relies on `http::Uri::from_str`: whether the text parses as a URI, which
/// depends on the text alone.
#[verifier::external_body]
fn parses_as_uri(s: &str) -> (r: bool)
    ensures
        r == is_uri(s@),
{
    s.parse::<http::Uri>().is_ok()
}

/// Transport options that are copied into every endpoint descriptor. `None`
/// leaves the transport's own default in place.
#[derive(Debug)]
pub struct EndpointOptions {
    pub origin: Option<http::Uri>,
    pub user_agent: Option<http::HeaderValue>,
    pub concurrency_limit: Option<usize>,
    pub rate_limit: Option<(u64, Duration)>,
    pub timeout: Option<Duration>,
    pub buffer_size: Option<usize>,
    pub init_stream_window_size: Option<u32>,
    pub init_connection_window_size: Option<u32>,
    pub tcp_keepalive: Option<Duration>,
    pub tcp_nodelay: Option<bool>,
    pub http2_keep_alive_interval: Option<Duration>,
    pub http2_keep_alive_timeout: Option<Duration>,
    pub http2_keep_alive_while_idle: Option<bool>,
    pub connect_timeout: Option<Duration>,
    pub http2_adaptive_window: Option<bool>,
}

/// `b` is a clone of `a` (for an optional value).
pub open spec fn option_cloned<T: Clone>(a: Option<T>, b: Option<T>) -> bool {
    &&& (a is None <==> b is None)
    &&& a is Some ==> cloned(a->0, b->0)
}

/// `b` carries the same options as `a`: equal plain values, clones of the rest.
pub open spec fn options_cloned(a: EndpointOptions, b: EndpointOptions) -> bool {
    &&& option_cloned(a.origin, b.origin)
    &&& option_cloned(a.user_agent, b.user_agent)
    &&& b.concurrency_limit == a.concurrency_limit
    &&& b.rate_limit == a.rate_limit
    &&& b.timeout == a.timeout
    &&& b.buffer_size == a.buffer_size
    &&& b.init_stream_window_size == a.init_stream_window_size
    &&& b.init_connection_window_size == a.init_connection_window_size
    &&& b.tcp_keepalive == a.tcp_keepalive
    &&& b.tcp_nodelay == a.tcp_nodelay
    &&& b.http2_keep_alive_interval == a.http2_keep_alive_interval
    &&& b.http2_keep_alive_timeout == a.http2_keep_alive_timeout
    &&& b.http2_keep_alive_while_idle == a.http2_keep_alive_while_idle
    &&& b.connect_timeout == a.connect_timeout
    &&& b.http2_adaptive_window == a.http2_adaptive_window
}

impl EndpointOptions {
    /// No option set.
    pub open spec fn unset_spec() -> EndpointOptions {
        EndpointOptions {
            origin: None,
            user_agent: None,
            concurrency_limit: None,
            rate_limit: None,
            timeout: None,
            buffer_size: None,
            init_stream_window_size: None,
            init_connection_window_size: None,
            tcp_keepalive: None,
            tcp_nodelay: None,
            http2_keep_alive_interval: None,
            http2_keep_alive_timeout: None,
            http2_keep_alive_while_idle: None,
            connect_timeout: None,
            http2_adaptive_window: None,
        }
    }

    /// No option set.
    pub fn unset() -> (r: EndpointOptions)
        ensures
            r == EndpointOptions::unset_spec(),
    {
        EndpointOptions {
            origin: None,
            user_agent: None,
            concurrency_limit: None,
            rate_limit: None,
            timeout: None,
            buffer_size: None,
            init_stream_window_size: None,
            init_connection_window_size: None,
            tcp_keepalive: None,
            tcp_nodelay: None,
            http2_keep_alive_interval: None,
            http2_keep_alive_timeout: None,
            http2_keep_alive_while_idle: None,
            connect_timeout: None,
            http2_adaptive_window: None,
        }
    }
}

impl Clone for EndpointOptions {
    fn clone(&self) -> (r: Self)
        ensures
            options_cloned(*self, r),
    {
        EndpointOptions {
            origin: self.origin.clone(),
            user_agent: self.user_agent.clone(),
            concurrency_limit: self.concurrency_limit,
            rate_limit: self.rate_limit,
            timeout: self.timeout,
            buffer_size: self.buffer_size,
            init_stream_window_size: self.init_stream_window_size,
            init_connection_window_size: self.init_connection_window_size,
            tcp_keepalive: self.tcp_keepalive,
            tcp_nodelay: self.tcp_nodelay,
            http2_keep_alive_interval: self.http2_keep_alive_interval,
            http2_keep_alive_timeout: self.http2_keep_alive_timeout,
            http2_keep_alive_while_idle: self.http2_keep_alive_while_idle,
            connect_timeout: self.connect_timeout,
            http2_adaptive_window: self.http2_adaptive_window,
        }
    }
}

/// Everything the downstream pool needs to open a connection to one address:
/// the template's URL with the address as host, and the template's options.
#[derive(Debug)]
pub struct EndpointDescriptor {
    pub address: IpAddress,
    pub uri: String,
    pub options: EndpointOptions,
}

/// The construction error for a URL, or `None` when it makes a template.
pub open spec fn template_error(parts: UrlParts) -> Option<Error> {
    match parts.host {
        None => Some(Error::HostMissing),
        Some(UrlHost::Ip(_)) => Some(Error::AlreadyIpAddress),
        Some(UrlHost::Domain(_)) => if parts.cannot_be_a_base || !is_uri(parts.serialization()) {
            Some(Error::Inconvertible)
        } else {
            None
        },
    }
}

/// A validated base URL whose host is a domain, and the options to apply to
/// each endpoint built from it. Never changed once built, only replaced.
#[derive(Debug)]
pub struct EndpointTemplate {
    url: UrlParts,
    options: EndpointOptions,
}

impl EndpointTemplate {
    #[verifier::type_invariant]
    spec fn wf(self) -> bool {
        template_error(self.url) is None
    }

    /// The base URL.
    pub closed spec fn parts(self) -> UrlParts {
        self.url
    }

    /// The options applied to each endpoint.
    pub closed spec fn options(self) -> EndpointOptions {
        self.options
    }

    /// The URI of the endpoint for `ip`: the base URL with `ip` as its host.
    pub open spec fn uri_for(self, ip: IpAddress) -> Seq<char> {
        self.parts().with_host(host_text(ip))
    }

    /// `d` is the descriptor that this template builds for `ip`.
    pub open spec fn describes(self, ip: IpAddress, d: EndpointDescriptor) -> bool {
        &&& d.address == ip
        &&& d.uri@ == self.uri_for(ip)
        &&& options_cloned(self.options(), d.options)
    }

    /// Checks a URL and makes a template of it with no option set; fails as
    /// `from_parts` does on the URL's parts.
    pub fn new(url: url::Url) -> (r: Result<EndpointTemplate, Error>)
        ensures
            template_error(parts_of_url(url)) matches Some(e) ==> r == Err::<
                EndpointTemplate,
                Error,
            >(e),
            template_error(parts_of_url(url)) is None ==> (r matches Ok(t) && t.parts()
                == parts_of_url(url) && t.options() == EndpointOptions::unset_spec()),
    {
        EndpointTemplate::from_parts(UrlParts::of(&url))
    }

    /// Checks the parts of a URL and makes a template of them with no option
    /// set. Fails with `HostMissing` when there is no host, with
    /// `AlreadyIpAddress` when the host is an address, and with
    /// `Inconvertible` when the URL is cannot-be-a-base or does not parse as
    /// a transport URI.
    pub fn from_parts(parts: UrlParts) -> (r: Result<EndpointTemplate, Error>)
        ensures
            template_error(parts) matches Some(e) ==> r == Err::<EndpointTemplate, Error>(e),
            template_error(parts) is None ==> (r matches Ok(t) && t.parts() == parts
                && t.options() == EndpointOptions::unset_spec()),
    {
        let check: Result<(), Error> = match &parts.host {
            None => Err(Error::HostMissing),
            Some(UrlHost::Ip(_)) => Err(Error::AlreadyIpAddress),
            Some(UrlHost::Domain(domain)) => {
                if parts.cannot_be_a_base {
                    Err(Error::Inconvertible)
                } else {
                    let mut text = parts.before_host.clone();
                    text.append(domain.as_str());
                    text.append(parts.after_host.as_str());
                    if parses_as_uri(text.as_str()) {
                        Ok(())
                    } else {
                        Err(Error::Inconvertible)
                    }
                }
            },
        };
        match check {
            Err(e) => Err(e),
            Ok(()) => Ok(EndpointTemplate { url: parts, options: EndpointOptions::unset() }),
        }
    }

    /// The origin sent with each request.
    pub fn origin(self, origin: http::Uri) -> (r: EndpointTemplate)
        ensures
            r.parts() == self.parts(),
            r.options() == (EndpointOptions { origin: Some(origin), ..self.options() }),
    {
        proof {
            use_type_invariant(&self);
        }
        let mut options = self.options;
        options.origin = Some(origin);
        EndpointTemplate { url: self.url, options }
    }

    /// The user agent sent with each request.
    pub fn user_agent(self, user_agent: http::HeaderValue) -> (r: EndpointTemplate)
        ensures
            r.parts() == self.parts(),
            r.options() == (EndpointOptions { user_agent: Some(user_agent), ..self.options() }),
    {
        proof {
            use_type_invariant(&self);
        }
        let mut options = self.options;
        options.user_agent = Some(user_agent);
        EndpointTemplate { url: self.url, options }
    }

    /// The timeout of each request.
    pub fn timeout(self, dur: Duration) -> (r: EndpointTemplate)
        ensures
            r.parts() == self.parts(),
            r.options() == (EndpointOptions { timeout: Some(dur), ..self.options() }),
    {
        proof {
            use_type_invariant(&self);
        }
        let mut options = self.options;
        options.timeout = Some(dur);
        EndpointTemplate { url: self.url, options }
    }

    /// The timeout for opening a connection.
    pub fn connect_timeout(self, dur: Duration) -> (r: EndpointTemplate)
        ensures
            r.parts() == self.parts(),
            r.options() == (EndpointOptions { connect_timeout: Some(dur), ..self.options() }),
    {
        proof {
            use_type_invariant(&self);
        }
        let mut options = self.options;
        options.connect_timeout = Some(dur);
        EndpointTemplate { url: self.url, options }
    }

    /// The TCP keep-alive interval; `None` turns keep-alive off.
    pub fn tcp_keepalive(self, tcp_keepalive: Option<Duration>) -> (r: EndpointTemplate)
        ensures
            r.parts() == self.parts(),
            r.options() == (EndpointOptions { tcp_keepalive: tcp_keepalive, ..self.options() }),
    {
        proof {
            use_type_invariant(&self);
        }
        let mut options = self.options;
        options.tcp_keepalive = tcp_keepalive;
        EndpointTemplate { url: self.url, options }
    }

    /// The most requests in flight on one endpoint.
    pub fn concurrency_limit(self, limit: usize) -> (r: EndpointTemplate)
        ensures
            r.parts() == self.parts(),
            r.options() == (EndpointOptions { concurrency_limit: Some(limit), ..self.options() }),
    {
        proof {
            use_type_invariant(&self);
        }
        let mut options = self.options;
        options.concurrency_limit = Some(limit);
        EndpointTemplate { url: self.url, options }
    }

    /// At most `limit` requests per `duration` on one endpoint.
    pub fn rate_limit(self, limit: u64, duration: Duration) -> (r: EndpointTemplate)
        ensures
            r.parts() == self.parts(),
            r.options() == (EndpointOptions { rate_limit: Some((limit, duration)), ..self.options() }),
    {
        proof {
            use_type_invariant(&self);
        }
        let mut options = self.options;
        options.rate_limit = Some((limit, duration));
        EndpointTemplate { url: self.url, options }
    }

    /// The initial HTTP/2 stream window size.
    pub fn initial_stream_window_size(self, sz: Option<u32>) -> (r: EndpointTemplate)
        ensures
            r.parts() == self.parts(),
            r.options() == (EndpointOptions { init_stream_window_size: sz, ..self.options() }),
    {
        proof {
            use_type_invariant(&self);
        }
        let mut options = self.options;
        options.init_stream_window_size = sz;
        EndpointTemplate { url: self.url, options }
    }

    /// The initial HTTP/2 connection window size.
    pub fn initial_connection_window_size(self, sz: Option<u32>) -> (r: EndpointTemplate)
        ensures
            r.parts() == self.parts(),
            r.options() == (EndpointOptions { init_connection_window_size: sz, ..self.options() }),
    {
        proof {
            use_type_invariant(&self);
        }
        let mut options = self.options;
        options.init_connection_window_size = sz;
        EndpointTemplate { url: self.url, options }
    }

    /// The request buffer size.
    pub fn buffer_size(self, sz: Option<usize>) -> (r: EndpointTemplate)
        ensures
            r.parts() == self.parts(),
            r.options() == (EndpointOptions { buffer_size: sz, ..self.options() }),
    {
        proof {
            use_type_invariant(&self);
        }
        let mut options = self.options;
        options.buffer_size = sz;
        EndpointTemplate { url: self.url, options }
    }

    /// Whether to set TCP_NODELAY.
    pub fn tcp_nodelay(self, enabled: bool) -> (r: EndpointTemplate)
        ensures
            r.parts() == self.parts(),
            r.options() == (EndpointOptions { tcp_nodelay: Some(enabled), ..self.options() }),
    {
        proof {
            use_type_invariant(&self);
        }
        let mut options = self.options;
        options.tcp_nodelay = Some(enabled);
        EndpointTemplate { url: self.url, options }
    }

    /// The interval of HTTP/2 keep-alive pings.
    pub fn http2_keep_alive_interval(self, interval: Duration) -> (r: EndpointTemplate)
        ensures
            r.parts() == self.parts(),
            r.options() == (EndpointOptions { http2_keep_alive_interval: Some(interval), ..self.options() }),
    {
        proof {
            use_type_invariant(&self);
        }
        let mut options = self.options;
        options.http2_keep_alive_interval = Some(interval);
        EndpointTemplate { url: self.url, options }
    }

    /// How long to wait for a keep-alive ping to be answered.
    pub fn keep_alive_timeout(self, duration: Duration) -> (r: EndpointTemplate)
        ensures
            r.parts() == self.parts(),
            r.options() == (EndpointOptions { http2_keep_alive_timeout: Some(duration), ..self.options() }),
    {
        proof {
            use_type_invariant(&self);
        }
        let mut options = self.options;
        options.http2_keep_alive_timeout = Some(duration);
        EndpointTemplate { url: self.url, options }
    }

    /// Whether to send keep-alive pings on an idle connection.
    pub fn keep_alive_while_idle(self, enabled: bool) -> (r: EndpointTemplate)
        ensures
            r.parts() == self.parts(),
            r.options() == (EndpointOptions { http2_keep_alive_while_idle: Some(enabled), ..self.options() }),
    {
        proof {
            use_type_invariant(&self);
        }
        let mut options = self.options;
        options.http2_keep_alive_while_idle = Some(enabled);
        EndpointTemplate { url: self.url, options }
    }

    /// Whether to use HTTP/2 adaptive flow control.
    pub fn http2_adaptive_window(self, enabled: bool) -> (r: EndpointTemplate)
        ensures
            r.parts() == self.parts(),
            r.options() == (EndpointOptions { http2_adaptive_window: Some(enabled), ..self.options() }),
    {
        proof {
            use_type_invariant(&self);
        }
        let mut options = self.options;
        options.http2_adaptive_window = Some(enabled);
        EndpointTemplate { url: self.url, options }
    }

    /// The domain to resolve: the host of the base URL.
    pub fn domain(&self) -> (r: &str)
        ensures
            (self.parts().host matches Some(UrlHost::Domain(d)) && r@ == d@),
    {
        proof {
            use_type_invariant(self);
        }
        match &self.url.host {
            Some(UrlHost::Domain(d)) => d.as_str(),
            _ => "",
        }
    }

    /// The descriptor for `ip`: the base URL with `ip` as its host, and every
    /// option of this template. Depends on the template and `ip` alone.
    pub fn build(&self, ip: IpAddress) -> (r: EndpointDescriptor)
        ensures
            self.describes(ip, r),
    {
        let host = ip.host_text();
        let mut uri = self.url.before_host.clone();
        uri.append(host.as_str());
        uri.append(self.url.after_host.as_str());
        EndpointDescriptor { address: ip, uri, options: self.options.clone() }
    }
}

} // verus!
