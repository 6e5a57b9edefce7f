//! How the HTTP client is set up.
use crate::error::IaGetError;
use crate::http::{header_value_from_str, invalid_header_value_text};
#[allow(unused_imports)]
use crate::error::{outcome, ErrorView};
#[allow(unused_imports)]
use crate::http::{is_header_byte, is_header_value};
use vstd::prelude::*;

verus! {

/// Extended timeout for large file downloads (10 minutes for connection, no read timeout).
pub const CONNECTION_TIMEOUT_SECS: u64 = 600;

/// How long an idle connection is kept.
pub const POOL_IDLE_TIMEOUT_SECS: u64 = 90;

/// How many idle connections are kept for one host.
pub const POOL_MAX_IDLE_PER_HOST: usize = 1;

/// The interval of TCP keepalive probes.
pub const TCP_KEEPALIVE_SECS: u64 = 60;

/// Settings of the HTTP client used for metadata and file downloads.
#[derive(Debug, PartialEq, Eq)]
pub struct ClientSettings {
    pub connect_timeout_secs: u64,
    pub pool_idle_timeout_secs: u64,
    pub pool_max_idle_per_host: usize,
    pub tcp_keepalive_secs: u64,
    /// The value of the `Cookie` header that goes with every request.
    pub cookie: Option<Vec<u8>>,
}

/// [`ClientSettings`] as plain values.
pub struct ClientSettingsView {
    pub connect_timeout_secs: u64,
    pub pool_idle_timeout_secs: u64,
    pub pool_max_idle_per_host: usize,
    pub tcp_keepalive_secs: u64,
    pub cookie: Option<Seq<u8>>,
}

impl DeepView for ClientSettings {
    type V = ClientSettingsView;

    open spec fn deep_view(&self) -> ClientSettingsView {
        ClientSettingsView {
            connect_timeout_secs: self.connect_timeout_secs,
            pool_idle_timeout_secs: self.pool_idle_timeout_secs,
            pool_max_idle_per_host: self.pool_max_idle_per_host,
            tcp_keepalive_secs: self.tcp_keepalive_secs,
            cookie: match self.cookie {
                Some(bytes) => Some(bytes@),
                None => None,
            },
        }
    }
}

/// The settings with the given `Cookie` header.
pub open spec fn settings_with(cookie: Option<Seq<u8>>) -> ClientSettingsView {
    ClientSettingsView {
        connect_timeout_secs: CONNECTION_TIMEOUT_SECS,
        pool_idle_timeout_secs: POOL_IDLE_TIMEOUT_SECS,
        pool_max_idle_per_host: POOL_MAX_IDLE_PER_HOST,
        tcp_keepalive_secs: TCP_KEEPALIVE_SECS,
        cookie,
    }
}

impl ClientSettings {
    /// The settings with the given `Cookie` header.
    pub fn with_cookie(cookie: Option<Vec<u8>>) -> (r: ClientSettings)
        ensures
            r.deep_view() == settings_with(
                match cookie {
                    Some(bytes) => Some(bytes@),
                    None => None,
                },
            ),
    {
        ClientSettings {
            connect_timeout_secs: CONNECTION_TIMEOUT_SECS,
            pool_idle_timeout_secs: POOL_IDLE_TIMEOUT_SECS,
            pool_max_idle_per_host: POOL_MAX_IDLE_PER_HOST,
            tcp_keepalive_secs: TCP_KEEPALIVE_SECS,
            cookie,
        }
    }
}

/// The settings for a session cookie: an error where the cookie cannot be a header value.
pub open spec fn settings_for(session_cookie: Option<Seq<char>>) -> Result<
    ClientSettingsView,
    ErrorView,
> {
    match session_cookie {
        None => Ok(settings_with(None)),
        Some(cookie) => if is_header_value(cookie) {
            Ok(settings_with(Some(vstd::utf8::encode_utf8(cookie))))
        } else {
            Err(
                ErrorView::Network(
                    "Invalid auth cookie value: "@ + "failed to parse header value"@,
                ),
            )
        },
    }
}

/// The settings of the HTTP client, with the session cookie where there is one.
pub fn client_settings(session_cookie: Option<&str>) -> (r: Result<ClientSettings, IaGetError>)
    ensures
        outcome(r) == settings_for(session_cookie.deep_view()),
{
    match session_cookie {
        None => Ok(ClientSettings::with_cookie(None)),
        Some(cookie) => match header_value_from_str(cookie) {
            Ok(bytes) => Ok(ClientSettings::with_cookie(Some(bytes))),
            Err(error) => {
                let text: String = "Invalid auth cookie value: ".to_owned().concat(
                    invalid_header_value_text(error).as_str(),
                );
                Err(IaGetError::Network(text))
            },
        },
    }
}

/// The view of the settings holds all of them.
pub proof fn settings_are_seen_whole(settings: ClientSettings)
    ensures
        settings.deep_view().connect_timeout_secs == settings.connect_timeout_secs,
        settings.deep_view().pool_idle_timeout_secs == settings.pool_idle_timeout_secs,
        settings.deep_view().pool_max_idle_per_host == settings.pool_max_idle_per_host,
        settings.deep_view().tcp_keepalive_secs == settings.tcp_keepalive_secs,
        settings.deep_view().cookie is Some <==> settings.cookie is Some,
        settings.cookie matches Some(bytes) ==> settings.deep_view().cookie->0 == bytes@,
{
}

/// With or without a session, the client waits ten minutes for a connection, keeps one idle
/// connection for a host, for a minute and a half, and probes every minute.
pub proof fn every_client_has_the_same_limits(session_cookie: Option<Seq<char>>)
    ensures
        settings_for(session_cookie) matches Ok(settings) ==> {
            &&& settings.connect_timeout_secs == 600
            &&& settings.pool_idle_timeout_secs == 90
            &&& settings.pool_max_idle_per_host == 1
            &&& settings.tcp_keepalive_secs == 60
        },
{
}

/// Without a session the client sends no cookie, and setting it up cannot fail.
pub proof fn open_client_sends_no_cookie()
    ensures
        settings_for(None) is Ok,
        settings_for(None)->Ok_0.cookie is None,
{
}

/// A session cookie is sent byte for byte where a header can carry it, that is, where its UTF-8
/// bytes hold no control character but a tab, and is refused exactly where it cannot.
pub proof fn session_cookie_is_sent_unchanged(cookie: Seq<char>)
    ensures
        settings_for(Some(cookie)) is Ok <==> (forall|i: int|
            #![trigger vstd::utf8::encode_utf8(cookie)[i]]
            0 <= i < vstd::utf8::encode_utf8(cookie).len() ==> {
                ||| vstd::utf8::encode_utf8(cookie)[i] >= 32
                    && vstd::utf8::encode_utf8(cookie)[i] != 127
                ||| vstd::utf8::encode_utf8(cookie)[i] == 9
            }),
        settings_for(Some(cookie)) matches Ok(settings) ==> settings.cookie == Some(
            vstd::utf8::encode_utf8(cookie),
        ),
        settings_for(Some(cookie)) matches Err(error) ==> error == ErrorView::Network(
            "Invalid auth cookie value: "@ + "failed to parse header value"@,
        ),
{
    if settings_for(Some(cookie)) is Ok {
        assert forall|i: int| 0 <= i < vstd::utf8::encode_utf8(cookie).len() implies {
            ||| #[trigger] vstd::utf8::encode_utf8(cookie)[i] >= 32
                && vstd::utf8::encode_utf8(cookie)[i] != 127
            ||| vstd::utf8::encode_utf8(cookie)[i] == 9
        } by {
            assert(is_header_byte(vstd::utf8::encode_utf8(cookie)[i]));
        }
    }
}

} // verus!
