use std::str::FromStr;
use std::time::Duration;

use http::Uri;
use tonic_dynamic_channel::{
    EndpointTemplate, EndpointTemplateError, IpAddress, UrlHost, UrlParts,
};
use url::Url;

fn key(text: &str) -> IpAddress {
    if text.contains(':') {
        let (head, tail) = text.split_once("::").unwrap_or((text, ""));
        let parse = |s: &str| -> Vec<u16> {
            s.split(':').filter(|g| !g.is_empty()).map(|g| u16::from_str_radix(g, 16).unwrap()).collect()
        };
        let (front, back) = (parse(head), parse(tail));
        let mut groups = front.clone();
        groups.resize(8 - back.len(), 0);
        groups.extend(back);
        IpAddress::V6(groups.iter().fold(0u128, |acc, g| (acc << 16) | u128::from(*g)))
    } else {
        let octets: Vec<u32> = text.split('.').map(|o| o.parse().unwrap()).collect();
        IpAddress::V4(octets.iter().fold(0u32, |acc, o| (acc << 8) | o))
    }
}

fn template(text: &str) -> Result<EndpointTemplate, EndpointTemplateError> {
    EndpointTemplate::new(Url::parse(text).unwrap())
}

#[test]
fn can_substitute_domain_fot_ipv4_address() {
    let builder = template("http://example.com:50051/foo").unwrap();

    let endpoint = builder.build(key("203.0.113.6"));
    assert_eq!(
        Uri::from_str(&endpoint.uri).unwrap(),
        Uri::from_str("http://203.0.113.6:50051/foo").unwrap()
    );
}

#[test]
fn can_substitute_domain_fot_ipv6_address() {
    let builder = template("http://example.com:50051/foo").unwrap();

    let endpoint = builder.build(key("2001:db8::"));
    assert_eq!(
        Uri::from_str(&endpoint.uri).unwrap(),
        Uri::from_str("http://[2001:db8::]:50051/foo").unwrap()
    );
}

#[test]
fn builder_error_ipv4_host() {
    let result = template("http://127.0.0.1:50051");
    assert_eq!(result.unwrap_err(), EndpointTemplateError::AlreadyIpAddress);
}

#[test]
fn builder_error_ipv6_host() {
    let result = template("http://[::1]:50051");
    assert_eq!(result.unwrap_err(), EndpointTemplateError::AlreadyIpAddress);
}

#[test]
fn builder_error_missing_host() {
    let result = template("mailto:admin@example.com");
    assert_eq!(result.unwrap_err(), EndpointTemplateError::HostMissing);
}

#[test]
fn ip_literal_url_starts_no_loop() {
    let result = template("http://127.0.0.1:50051/");
    assert_eq!(result.unwrap_err(), EndpointTemplateError::AlreadyIpAddress);
}

#[test]
fn cannot_be_a_base_is_inconvertible() {
    let parts = UrlParts {
        before_host: "http://".to_string(),
        host: Some(UrlHost::Domain("example.com".to_string())),
        after_host: "/".to_string(),
        cannot_be_a_base: true,
    };
    let result = EndpointTemplate::from_parts(parts);
    assert_eq!(result.unwrap_err(), EndpointTemplateError::Inconvertible);
}

#[test]
fn text_that_is_no_uri_is_inconvertible() {
    let parts = UrlParts {
        before_host: "http://".to_string(),
        host: Some(UrlHost::Domain("exa mple.com".to_string())),
        after_host: "/".to_string(),
        cannot_be_a_base: false,
    };
    let result = EndpointTemplate::from_parts(parts);
    assert_eq!(result.unwrap_err(), EndpointTemplateError::Inconvertible);
}

#[test]
fn parts_without_host_are_rejected() {
    let parts = UrlParts {
        before_host: "unix:".to_string(),
        host: None,
        after_host: "/run/foo.socket".to_string(),
        cannot_be_a_base: false,
    };
    let result = EndpointTemplate::from_parts(parts);
    assert_eq!(result.unwrap_err(), EndpointTemplateError::HostMissing);
}

#[test]
fn parts_of_a_url_split_around_the_host() {
    let parts = UrlParts::of(&Url::parse("http://user@example.com:50051/foo?x=1").unwrap());
    assert_eq!(parts.before_host, "http://user@");
    assert_eq!(parts.host, Some(UrlHost::Domain("example.com".to_string())));
    assert_eq!(parts.after_host, ":50051/foo?x=1");
    assert!(!parts.cannot_be_a_base);
}

#[test]
fn template_from_parts_builds_the_same_uri() {
    let parts = UrlParts {
        before_host: "https://".to_string(),
        host: Some(UrlHost::Domain("svc.internal".to_string())),
        after_host: ":8443/api".to_string(),
        cannot_be_a_base: false,
    };
    let t = EndpointTemplate::from_parts(parts).unwrap();
    assert_eq!(t.domain(), "svc.internal");
    assert_eq!(t.build(key("10.1.2.3")).uri, "https://10.1.2.3:8443/api");
}

#[test]
fn domain_is_the_url_host() {
    let t = template("http://example.com:50051/foo").unwrap();
    assert_eq!(t.domain(), "example.com");
}

#[test]
fn ipv4_host_text_is_dotted_decimal() {
    assert_eq!(key("203.0.113.6").host_text(), "203.0.113.6");
    assert_eq!(IpAddress::V4(0).host_text(), "0.0.0.0");
    assert_eq!(IpAddress::V4(u32::MAX).host_text(), "255.255.255.255");
    assert_eq!(key("10.0.0.1").host_text(), "10.0.0.1");
    assert_eq!(key("192.168.100.9").host_text(), "192.168.100.9");
}

#[test]
fn ipv6_host_text_is_bracketed_and_compressed() {
    assert_eq!(key("::1").host_text(), "[::1]");
    assert_eq!(key("2001:db8::").host_text(), "[2001:db8::]");
    assert_eq!(key("2001:db8:0:1:0:0:0:1").host_text(), "[2001:db8:0:1::1]");
}

#[test]
fn build_carries_every_option() {
    let origin = Uri::from_str("https://origin.example").unwrap();
    let t = template("http://example.com:50051/foo")
        .unwrap()
        .origin(origin.clone())
        .user_agent(http::HeaderValue::from_static("probe/1"))
        .timeout(Duration::from_secs(3))
        .connect_timeout(Duration::from_secs(1))
        .tcp_keepalive(Some(Duration::from_secs(60)))
        .concurrency_limit(8)
        .rate_limit(100, Duration::from_secs(1))
        .initial_stream_window_size(Some(65535))
        .initial_connection_window_size(Some(1 << 20))
        .buffer_size(Some(1024))
        .tcp_nodelay(true)
        .http2_keep_alive_interval(Duration::from_secs(30))
        .keep_alive_timeout(Duration::from_secs(20))
        .keep_alive_while_idle(true)
        .http2_adaptive_window(false);
    let d = t.build(key("10.0.0.1"));
    assert_eq!(d.address, key("10.0.0.1"));
    assert_eq!(d.uri, "http://10.0.0.1:50051/foo");
    let o = &d.options;
    assert_eq!(o.origin, Some(origin));
    assert_eq!(o.user_agent, Some(http::HeaderValue::from_static("probe/1")));
    assert_eq!(o.timeout, Some(Duration::from_secs(3)));
    assert_eq!(o.connect_timeout, Some(Duration::from_secs(1)));
    assert_eq!(o.tcp_keepalive, Some(Duration::from_secs(60)));
    assert_eq!(o.concurrency_limit, Some(8));
    assert_eq!(o.rate_limit, Some((100, Duration::from_secs(1))));
    assert_eq!(o.init_stream_window_size, Some(65535));
    assert_eq!(o.init_connection_window_size, Some(1 << 20));
    assert_eq!(o.buffer_size, Some(1024));
    assert_eq!(o.tcp_nodelay, Some(true));
    assert_eq!(o.http2_keep_alive_interval, Some(Duration::from_secs(30)));
    assert_eq!(o.http2_keep_alive_timeout, Some(Duration::from_secs(20)));
    assert_eq!(o.http2_keep_alive_while_idle, Some(true));
    assert_eq!(o.http2_adaptive_window, Some(false));
}

#[test]
fn new_template_sets_no_option() {
    let d = template("http://example.com/").unwrap().build(key("::1"));
    assert_eq!(d.uri, "http://[::1]/");
    assert!(d.options.origin.is_none());
    assert!(d.options.user_agent.is_none());
    assert!(d.options.timeout.is_none());
    assert!(d.options.buffer_size.is_none());
    assert!(d.options.tcp_nodelay.is_none());
}
