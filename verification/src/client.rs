//! How the transfer client that all workers share is set up.

use crate::models::opt_view;
use crate::text::{chars_of, string_of};
use vstd::prelude::*;

verus! {

broadcast use vstd::string::group_string_axioms;

/// The settings of the transfer client. They are fixed before the first
/// worker starts and not changed after.
#[derive(Clone, Debug)]
pub struct ClientSettings {
    /// How many redirects a request may follow.
    pub redirect_limit: usize,
    /// What the client calls itself.
    pub user_agent: String,
    /// The page requests claim to come from.
    pub referer: String,
    /// The origin requests claim to have.
    pub origin: String,
    /// Whether small packets are sent at once.
    pub tcp_nodelay: bool,
    /// How many idle connections are kept per host.
    pub pool_max_idle_per_host: usize,
    /// After how many seconds an idle connection is closed.
    pub pool_idle_timeout_secs: u64,
    /// After how many seconds connecting is given up.
    pub connect_timeout_secs: u64,
    /// The page fetched once at the start, for its cookies.
    pub warmup_url: String,
    /// The proxy all requests go through, if any.
    pub proxy: Option<String>,
}

/// The name the client gives as its user agent.
pub open spec fn user_agent() -> Seq<char> {
    "Mozilla/5.0 (Windows NT 10.0; Win64; x64) AppleWebKit/537.36 (KHTML, like Gecko) Chrome/120.0.0.0 Safari/537.36"@
}

/// The settings of the transfer client for a batch: ten redirects at most,
/// fifty idle connections per host kept for fifteen seconds, ten seconds to
/// connect, and the proxy as given.
pub fn client_settings(proxy: Option<&str>) -> (r: ClientSettings)
    ensures
        r.redirect_limit == 10,
        r.user_agent@ == user_agent(),
        r.referer@ == "https://www.curseforge.com/"@,
        r.origin@ == "https://www.curseforge.com"@,
        r.tcp_nodelay,
        r.pool_max_idle_per_host == 50,
        r.pool_idle_timeout_secs == 15,
        r.connect_timeout_secs == 10,
        r.warmup_url@ == "https://www.curseforge.com"@,
        opt_view(r.proxy) == (match proxy {
            Some(p) => Some(p@),
            None => None,
        }),
{
    ClientSettings {
        redirect_limit: 10,
        user_agent: string_of(
            &chars_of(
                "Mozilla/5.0 (Windows NT 10.0; Win64; x64) AppleWebKit/537.36 (KHTML, like Gecko) Chrome/120.0.0.0 Safari/537.36",
            ),
        ),
        referer: string_of(&chars_of("https://www.curseforge.com/")),
        origin: string_of(&chars_of("https://www.curseforge.com")),
        tcp_nodelay: true,
        pool_max_idle_per_host: 50,
        pool_idle_timeout_secs: 15,
        connect_timeout_secs: 10,
        warmup_url: string_of(&chars_of("https://www.curseforge.com")),
        proxy: match proxy {
            Some(p) => Some(string_of(&chars_of(p))),
            None => None,
        },
    }
}

} // verus!
