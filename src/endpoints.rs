//! The relay's fixed configuration: the two upstream URLs and the
//! network constants of the server and of its outbound client.

use vstd::prelude::*;

verus! {

/// Seconds allowed for establishing an outbound connection.
pub const CONNECT_TIMEOUT_SECS: u64 = 2;

/// TCP port the server listens on, on all interfaces.
pub const LISTEN_PORT: u16 = 8888;

/// The address the server binds to: all interfaces.
pub const LISTEN_ADDR: [u8; 4] = [0, 0, 0, 0];

/// The two upstream URLs, as mathematical strings.
pub struct UrlsSpec {
    pub url_1: Seq<char>,
    pub url_2: Seq<char>,
}

/// The two upstream endpoints that every request is relayed through.
/// Built once at startup and only read afterwards.
#[derive(Clone, Debug)]
pub struct ExternalUrls {
    pub url_1: String,
    pub url_2: String,
}

impl View for ExternalUrls {
    type V = UrlsSpec;

    open spec fn view(&self) -> UrlsSpec {
        UrlsSpec { url_1: self.url_1@, url_2: self.url_2@ }
    }
}

impl ExternalUrls {
    /// The configuration that calls `url_1` first and `url_2` second.
    pub fn new(url_1: &str, url_2: &str) -> (r: ExternalUrls)
        ensures
            r.url_1@ == url_1@,
            r.url_2@ == url_2@,
    {
        ExternalUrls { url_1: String::from_str(url_1), url_2: String::from_str(url_2) }
    }
}

} // verus!
