//! Choosing and serving an update listener for a Telegram bot.
//!
//! A bot receives its updates either by long polling or through a webhook.
//! [`Listener`] holds that choice, [`Either`] lets one value stand for
//! whichever of two listeners was built, and [`webhook`] holds the rules of
//! the webhook transport: the address it registers, the route it serves and
//! the answer to each request.

use vstd::prelude::*;
use vstd::string::StringExecFns;

pub mod either;
pub mod webhook;

pub use crate::either::Either;
use crate::webhook::joined_url;
use crate::webhook::parse_url;
use crate::webhook::parsed_url;
use crate::webhook::BindAddr;
use crate::webhook::ConfigView;
use crate::webhook::HTTPConfig;

verus! {

/// One variable of the process environment, as a plain value.
pub struct EnvVar {
    /// The variable's name.
    pub name: String,
    /// The variable's text.
    pub value: String,
    /// The socket address that the text denotes, where it denotes one.
    pub socket_addr: Option<BindAddr>,
}

/// Why a webhook configuration was turned down.
#[derive(Clone, Copy, Debug, PartialEq, Eq)]
pub enum ConfigError {
    /// The base URL is no absolute URL.
    InvalidBaseUrl,
    /// The bind address is no socket address.
    InvalidBindAddress,
    /// The base URL and the path do not join to a URL.
    InvalidUrl,
}

/// How updates are to be received.
pub enum Listener {
    /// Polling listener.
    Polling,
    /// Webhook listener.
    Webhook(HTTPConfig),
}

/// A [`Listener`] as mathematical values.
pub ghost enum ListenerView {
    /// Polling.
    Polling,
    /// Webhook, with what the configuration holds.
    Webhook(ConfigView),
}

impl View for Listener {
    type V = ListenerView;

    open spec fn view(&self) -> ListenerView {
        match self {
            Listener::Polling => ListenerView::Polling,
            Listener::Webhook(config) => ListenerView::Webhook(config@),
        }
    }
}

/// The first variable of `env` that is called `name`.
pub open spec fn find_var(env: Seq<EnvVar>, name: Seq<char>) -> Option<EnvVar>
    decreases env.len(),
{
    if env.len() == 0 {
        None
    } else if env[0].name@ == name {
        Some(env[0])
    } else {
        find_var(env.skip(1), name)
    }
}

/// The listener that three settings select. `base_url` is the base URL
/// setting once parsed, `bind_addr` the address setting once parsed: the
/// outer `None` of each says that the setting is absent, the inner one that
/// it is malformed. With any setting absent the choice is polling. With all
/// three present a malformed base URL is reported first, then a malformed
/// address, then a base URL and a path that do not join to a URL.
pub open spec fn selected(
    base_url: Option<Option<Seq<char>>>,
    path: Option<Seq<char>>,
    bind_addr: Option<Option<BindAddr>>,
) -> Result<ListenerView, ConfigError> {
    if base_url is None || path is None || bind_addr is None {
        Ok(ListenerView::Polling)
    } else if base_url->Some_0 is None {
        Err(ConfigError::InvalidBaseUrl)
    } else if bind_addr->Some_0 is None {
        Err(ConfigError::InvalidBindAddress)
    } else if joined_url(base_url->Some_0->Some_0, path->Some_0) is None {
        Err(ConfigError::InvalidUrl)
    } else {
        Ok(
            ListenerView::Webhook(
                ConfigView {
                    base_url: base_url->Some_0->Some_0,
                    path: path->Some_0,
                    addr: bind_addr->Some_0->Some_0,
                },
            ),
        )
    }
}

/// The listener that `env` selects under the names that start with `prefix`.
pub open spec fn selected_from(prefix: Seq<char>, env: Seq<EnvVar>) -> Result<
    ListenerView,
    ConfigError,
> {
    let base_url = find_var(env, prefix + "WEBHOOK_URL"@);
    let path = find_var(env, prefix + "WEBHOOK_PATH"@);
    let bind_addr = find_var(env, prefix + "BIND_ADDR"@);
    selected(
        match base_url {
            Some(var) => Some(parsed_url(var.value@)),
            None => None,
        },
        match path {
            Some(var) => Some(var.value@),
            None => None,
        },
        match bind_addr {
            Some(var) => Some(var.socket_addr),
            None => None,
        },
    )
}

/// What `result` holds, as mathematical values.
pub open spec fn outcome(result: Result<Listener, ConfigError>) -> Result<
    ListenerView,
    ConfigError,
> {
    match result {
        Ok(listener) => Ok(listener@),
        Err(e) => Err(e),
    }
}

/// Looks `name` up in `env`: the first variable that is called so.
pub fn lookup<'a>(env: &'a Vec<EnvVar>, name: &String) -> (out: Option<&'a EnvVar>)
    ensures
        match out {
            Some(var) => find_var(env@, name@) == Some(*var),
            None => find_var(env@, name@) is None,
        },
{
    let mut at: usize = 0;
    proof {
        assert(env@.skip(0) == env@);
    }
    while at < env.len()
        invariant
            at <= env.len(),
            find_var(env@, name@) == find_var(env@.skip(at as int), name@),
        decreases env.len() - at,
    {
        if env[at].name == *name {
            return Some(&env[at]);
        }
        proof {
            assert(env@.skip(at as int).skip(1) == env@.skip(at + 1));
        }
        at += 1;
    }
    None
}

/// The name of a setting: the prefix, then the setting's own name.
pub fn var_name(prefix: &str, setting: &str) -> (out: String)
    ensures
        out@ == prefix@ + setting@,
{
    let mut out = String::from_str(prefix);
    out.append(setting);
    out
}

impl Listener {
    /// Creates a new `Listener` from the environment `env`, under the names
    /// that start with `TELOXIDE_`.
    ///
    /// To create a Webhook listener, `TELOXIDE_WEBHOOK_URL`,
    /// `TELOXIDE_WEBHOOK_PATH` and `TELOXIDE_BIND_ADDR` must be set. If one of
    /// them is not, the result is polling.
    #[must_use]
    pub fn from_env(env: &Vec<EnvVar>) -> (out: Result<Listener, ConfigError>)
        ensures
            outcome(out) == selected_from("TELOXIDE_"@, env@),
            out matches Ok(Listener::Webhook(config)) ==> config.wf(),
    {
        Self::from_env_with_prefix("TELOXIDE_", env)
    }

    /// Creates a new `Listener` from the environment `env`, under the names
    /// that start with `prefix`.
    ///
    /// To create a Webhook listener, `{prefix}WEBHOOK_URL`,
    /// `{prefix}WEBHOOK_PATH` and `{prefix}BIND_ADDR` must be set. If one of
    /// them is not, the result is polling. The base URL is stored as the
    /// URL parser writes it back, and the configuration is returned only
    /// where base URL and path join to a URL.
    #[must_use]
    pub fn from_env_with_prefix(prefix: &str, env: &Vec<EnvVar>) -> (out: Result<
        Listener,
        ConfigError,
    >)
        ensures
            outcome(out) == selected_from(prefix@, env@),
            out matches Ok(Listener::Webhook(config)) ==> config.wf(),
    {
        let base_url = match lookup(env, &var_name(prefix, "WEBHOOK_URL")) {
            Some(var) => Some(
                match parse_url(var.value.as_str()) {
                    Ok(text) => Some(text),
                    Err(_) => None,
                },
            ),
            None => None,
        };
        let path = match lookup(env, &var_name(prefix, "WEBHOOK_PATH")) {
            Some(var) => Some(var.value.clone()),
            None => None,
        };
        let bind_addr = match lookup(env, &var_name(prefix, "BIND_ADDR")) {
            Some(var) => Some(var.socket_addr),
            None => None,
        };
        Self::select(base_url, path, bind_addr)
    }

    /// The listener that three settings select, each given as it was found:
    /// `None` for an absent setting, `Some(None)` for a base URL or an address
    /// that is malformed. A webhook configuration is returned only where its
    /// base URL and path join to a URL.
    pub fn select(
        base_url: Option<Option<String>>,
        path: Option<String>,
        bind_addr: Option<Option<BindAddr>>,
    ) -> (out: Result<Listener, ConfigError>)
        ensures
            outcome(out) == selected(
                match base_url {
                    Some(Some(text)) => Some(Some(text@)),
                    Some(None) => Some(None),
                    None => None,
                },
                match path {
                    Some(text) => Some(text@),
                    None => None,
                },
                bind_addr,
            ),
            out matches Ok(Listener::Webhook(config)) ==> config.wf(),
    {
        match (base_url, path, bind_addr) {
            (Some(base_url), Some(path), Some(bind_addr)) => match base_url {
                None => Err(ConfigError::InvalidBaseUrl),
                Some(base_url) => match bind_addr {
                    None => Err(ConfigError::InvalidBindAddress),
                    Some(addr) => {
                        let config = HTTPConfig { base_url, path, addr };
                        match config.full_url() {
                            Some(_) => Ok(Listener::Webhook(config)),
                            None => Err(ConfigError::InvalidUrl),
                        }
                    },
                },
            },
            _ => Ok(Listener::Polling),
        }
    }
}

} // verus!
