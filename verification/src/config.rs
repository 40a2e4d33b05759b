use crate::text::{decimal, spec_decimal};
use vstd::prelude::*;

verus! {

/// Where and under what name to post to the chat server.
#[derive(Debug)]
pub struct DiscordConfig {
    pub username: Option<String>,
    pub avatar_url: Option<String>,
    pub webhook_url: String,
    pub color: Option<String>,
}

/// The bot and the chat to post to on the messenger.
#[derive(Debug)]
pub struct TelegramConfig {
    pub bot_token: String,
    pub chat_id: String,
}

/// How to reach one series download manager.
#[derive(Debug)]
pub struct SonarrConfig {
    pub url: String,
    pub api_key: String,
}

/// How to reach one movie download manager.
#[derive(Debug)]
pub struct RadarrConfig {
    pub url: String,
    pub api_key: String,
}

/// How to reach the request portal.
#[derive(Debug)]
pub struct JellyseerrConfig {
    pub url: String,
    pub api_key: String,
}

/// The configuration of the whole service.
#[derive(Debug)]
pub struct AppConfig {
    pub jellyseerr: JellyseerrConfig,
    pub discord: Option<DiscordConfig>,
    pub telegram: Option<TelegramConfig>,
    /// The series download managers; asked of the portal where absent.
    pub sonarr: Option<Vec<SonarrConfig>>,
    /// The movie download managers; asked of the portal where absent.
    pub radarr: Option<Vec<RadarrConfig>>,
}

/// The seconds between two full rebuilds of the store: half an hour.
pub const SCAN_INTERVAL_SECONDS: u64 = 1800;

/// How many requests one page of the portal's list holds.
pub const REQUEST_BATCH_SIZE: u64 = 100;

/// The port that the service listens on where none is configured.
pub const DEFAULT_PORT: u16 = 7532;

/// The address of a service: scheme, host and port.
pub open spec fn spec_service_url(use_ssl: bool, host: Seq<char>, port: u16) -> Seq<char> {
    (if use_ssl {
        "https"@
    } else {
        "http"@
    }) + "://"@ + host + ":"@ + spec_decimal(port as int)
}

/// Writes the address of a service that the portal describes by scheme,
/// host and port.
pub fn service_url(use_ssl: bool, host: &str, port: u16) -> (url: String)
    ensures
        url@ == spec_service_url(use_ssl, host@, port),
{
    let mut url = String::from_str(
        if use_ssl {
            "https"
        } else {
            "http"
        },
    );
    url.append("://");
    url.append(host);
    url.append(":");
    let number = decimal(port as i32);
    url.append(number.as_str());
    assert(url@ =~= spec_service_url(use_ssl, host@, port));
    url
}

/// The root of the portal's interface under its address.
pub open spec fn spec_api_base_path(url: Seq<char>) -> Seq<char> {
    url + "/"@ + "api/v1"@
}

/// Writes the root of the portal's interface under its address.
pub fn api_base_path(url: &str) -> (path: String)
    ensures
        path@ == spec_api_base_path(url@),
{
    let mut path = String::from_str(url);
    path.append("/");
    path.append("api/v1");
    path
}

/// Tells at which offset the page after the one at `offset` begins, and
/// `None` where the list of `total` entries ends with that page.
pub fn next_page(offset: u64, total: u64) -> (next: Option<u64>)
    ensures
        next == if offset + REQUEST_BATCH_SIZE < total {
            Some((offset + REQUEST_BATCH_SIZE) as u64)
        } else {
            None::<u64>
        },
{
    if total > REQUEST_BATCH_SIZE && offset < total - REQUEST_BATCH_SIZE {
        Some(offset + REQUEST_BATCH_SIZE)
    } else {
        None
    }
}

/// Tells at which offset the first page begins, and `None` where the list
/// is empty.
pub fn first_page(total: u64) -> (first: Option<u64>)
    ensures
        first == if total > 0 {
            Some(0u64)
        } else {
            None::<u64>
        },
{
    if total > 0 {
        Some(0)
    } else {
        None
    }
}

/// Decides whether the loop ends: it does once the shutdown signal was
/// read without fault and is raised.
pub fn should_stop(signal_read: bool, signal_raised: bool) -> (stop: bool)
    ensures
        stop == (signal_read && signal_raised),
{
    signal_read && signal_raised
}

} // verus!
