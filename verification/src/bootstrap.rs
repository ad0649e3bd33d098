//! Deciding what a connection-open response means, and where to connect.
//!
//! The control-plane call hands back a descriptor with `ok`, `url` and
//! `error`; a failed descriptor must never be used to connect, so the
//! decision of whether and where to connect is taken here, as a verified
//! function. Extracting the host name from the one-time URL is the `url`
//! crate's job, behind a trusted boundary.

use vstd::prelude::*;
use crate::messages::OpenConnectionsResponse;
use vstd::string::StringExecFns;

verus! {

/// Why startup must abort instead of connecting.
#[derive(Debug, PartialEq, Eq, Clone)]
pub enum BootstrapError {
    /// The control plane answered `ok: false`; `message` carries its error
    /// string, or the fixed fallback when it gave none.
    NotOk { message: String },
    /// The control plane answered `ok: true` but passed no URL — a protocol
    /// violation by the server.
    MissingUrl,
}

/// Decides what a connection-open response means: the one-time URL when the
/// call succeeded, and otherwise the error to surface before terminating.
pub fn evaluate_descriptor(resp: &OpenConnectionsResponse) -> (r: Result<String, BootstrapError>)
    ensures
        !resp.ok ==> (r matches Err(BootstrapError::NotOk { message }) && message@ == (
        match resp.error {
            Some(e) => e@,
            None => "Unknown error"@,
        })),
        resp.ok && resp.url is None ==> r matches Err(BootstrapError::MissingUrl),
        resp.ok ==> (resp.url matches Some(u) ==> r matches Ok(url) && url@ == u@),
{
    if !resp.ok {
        let message: String = match &resp.error {
            Some(e) => e.clone(),
            None => "Unknown error".to_owned(),
        };
        Err(BootstrapError::NotOk { message })
    } else {
        match &resp.url {
            Some(u) => Ok(u.clone()),
            None => Err(BootstrapError::MissingUrl),
        }
    }
}

/// The domain name that the `url` crate reads out of a URL text, when the
/// text parses as an absolute URL whose host is a domain name.
pub uninterp spec fn spec_host_of(url_text: Seq<char>) -> Option<Seq<char>>;

/// Relies on `url::Url::parse` and `url::Url::domain`: both depend on the
/// URL text alone, and [`spec_host_of`] names the domain name they extract —
/// `None` when the text does not parse or its host is not a domain name.
#[verifier::external_body]
fn host_of_url(url_text: &str) -> (r: Option<String>)
    ensures
        match r {
            Some(h) => spec_host_of(url_text@) == Some(h@),
            None => spec_host_of(url_text@) is None,
        },
{
    match url::Url::parse(url_text) {
        Ok(u) => u.domain().map(|d| d.to_owned()),
        Err(_) => None,
    }
}

/// Where the transport connects: the URL's domain name, and that name on
/// the protocol's fixed port 443 as a dialable address.
#[derive(Debug, PartialEq, Eq, Clone)]
pub struct ConnectTarget {
    pub host: String,
    pub address: String,
}

/// The place the transport connects to for a one-time URL; `None` when the
/// URL carries no domain name, which is fatal at startup.
pub fn connect_target(url_text: &str) -> (r: Option<ConnectTarget>)
    ensures
        match spec_host_of(url_text@) {
            Some(h) => r matches Some(target) && target.host@ == h && target.address@ == h
                + ":443"@,
            None => r is None,
        },
{
    match host_of_url(url_text) {
        Some(host) => {
            let mut address = host.clone();
            address.append(":443");
            Some(ConnectTarget { host, address })
        },
        None => None,
    }
}

} // verus!
