//! The hosts of one run: the list as configured, and the quorum that
//! follows from it.

use vstd::prelude::*;
use vstd::string::*;
use crate::text::{split, split_on};

verus! {

/// The character that separates the hosts of a configured list.
pub open spec fn separator() -> char {
    ','
}

/// The hosts of one run, in the order in which they were configured. A
/// roster holds at least one host.
#[derive(Debug, PartialEq, Eq)]
pub struct Roster {
    hosts: Vec<String>,
}

impl View for Roster {
    type V = Seq<Seq<char>>;

    closed spec fn view(&self) -> Seq<Seq<char>> {
        self.hosts.deep_view()
    }
}

impl Roster {
    #[verifier::type_invariant]
    spec fn well_formed(&self) -> bool {
        self.hosts.len() >= 1
    }

    /// The roster of a configured list: its pieces between commas, in
    /// order, each as it stands.
    pub fn parse(list: &str) -> (roster: Roster)
        ensures
            roster@ == split(list@, separator()),
            roster@.len() >= 1,
    {
        let hosts = split_on(list, ',');
        Roster { hosts }
    }

    /// The hosts, in order.
    pub fn hosts(&self) -> (hosts: &Vec<String>)
        ensures
            hosts.deep_view() == self@,
            hosts.len() >= 1,
    {
        proof {
            use_type_invariant(self);
        }
        &self.hosts
    }

    /// The number of hosts.
    pub fn len(&self) -> (n: usize)
        ensures
            n == self@.len(),
            n >= 1,
    {
        proof {
            use_type_invariant(self);
        }
        self.hosts.len()
    }

    /// The number of followers that a leader should have in sync: every
    /// host but the leader itself.
    pub fn expected_followers(&self) -> (quorum: usize)
        ensures
            quorum == self@.len() - 1,
    {
        proof {
            use_type_invariant(self);
        }
        self.hosts.len() - 1
    }
}

/// What the environment holds of the settings that a run reads.
#[derive(Debug, Clone, PartialEq, Eq)]
pub struct Settings {
    pub hosts: Option<String>,
    pub login: Option<String>,
    pub password: Option<String>,
    pub juggler_url: Option<String>,
}

/// Which of the two monitors runs.
#[derive(Debug, Clone, Copy, PartialEq, Eq, Structural)]
pub enum Monitor {
    /// The coordination-service monitor.
    Zoo,
    /// The broker-federation monitor.
    Rmq,
}

impl Monitor {
    /// The name under which the monitor speaks to the sink.
    pub open spec fn source(self) -> Seq<char> {
        match self {
            Monitor::Zoo => "zoo"@,
            Monitor::Rmq => "rmq"@,
        }
    }

    /// The name under which the monitor speaks to the sink.
    pub fn as_str(&self) -> (name: &'static str)
        ensures
            name@ == self.source(),
    {
        match self {
            Monitor::Zoo => "zoo",
            Monitor::Rmq => "rmq",
        }
    }

    /// The settings without which the monitor does not start, in words.
    pub open spec fn required(self) -> Seq<char> {
        match self {
            Monitor::Zoo => "ZOO_HOSTS and JUGGLER_URL env vars must be set"@,
            Monitor::Rmq =>
                "RMQ_HOSTS and RMQ_LOGIN and RMQ_PASSWORD and JUGGLER_URL env vars must be set"@,
        }
    }

    /// The settings without which the monitor does not start, in words.
    pub fn requirement(&self) -> (words: &'static str)
        ensures
            words@ == self.required(),
    {
        match self {
            Monitor::Zoo => "ZOO_HOSTS and JUGGLER_URL env vars must be set",
            Monitor::Rmq =>
                "RMQ_HOSTS and RMQ_LOGIN and RMQ_PASSWORD and JUGGLER_URL env vars must be set",
        }
    }
}

/// A setting that a run needs and the environment lacks.
#[derive(Debug, Clone, Copy, PartialEq, Eq, Structural)]
pub enum ConfigError {
    MissingHosts,
    MissingLogin,
    MissingPassword,
    MissingJugglerUrl,
}

/// The name and password with which the brokers are asked.
#[derive(Debug, Clone, PartialEq, Eq)]
pub struct Credentials {
    pub login: String,
    pub password: String,
}

/// The settings of one run, read once and then handed on.
#[derive(Debug, PartialEq, Eq)]
pub struct Config {
    pub monitor: Monitor,
    pub roster: Roster,
    pub credentials: Option<Credentials>,
    pub juggler_url: String,
}

/// The first setting that `monitor` needs and `settings` lacks, in the
/// order hosts, login, password, sink address. Only the broker monitor
/// needs a login and a password.
pub open spec fn missing(monitor: Monitor, settings: Settings) -> Option<ConfigError> {
    if settings.hosts is None {
        Some(ConfigError::MissingHosts)
    } else if monitor == Monitor::Rmq && settings.login is None {
        Some(ConfigError::MissingLogin)
    } else if monitor == Monitor::Rmq && settings.password is None {
        Some(ConfigError::MissingPassword)
    } else if settings.juggler_url is None {
        Some(ConfigError::MissingJugglerUrl)
    } else {
        None
    }
}

/// Whether `config` holds what `settings` gives to `monitor`.
pub open spec fn configured(monitor: Monitor, settings: Settings, config: Config) -> bool {
    &&& config.monitor == monitor
    &&& config.roster@ == split(settings.hosts->0@, separator())
    &&& config.juggler_url@ == settings.juggler_url->0@
    &&& match monitor {
        Monitor::Zoo => config.credentials is None,
        Monitor::Rmq => config.credentials matches Some(c) && c.login@ == settings.login->0@
            && c.password@ == settings.password->0@,
    }
}

/// The configuration of a run of `monitor`, or the first setting that it
/// lacks.
pub fn configure(monitor: Monitor, settings: Settings) -> (config: Result<Config, ConfigError>)
    ensures
        match missing(monitor, settings) {
            Some(e) => config == Err::<Config, ConfigError>(e),
            None => config matches Ok(c) && configured(monitor, settings, c),
        },
{
    let hosts = match settings.hosts {
        Some(hosts) => hosts,
        None => {
            return Err(ConfigError::MissingHosts);
        },
    };
    let credentials = match monitor {
        Monitor::Zoo => None,
        Monitor::Rmq => {
            let login = match settings.login {
                Some(login) => login,
                None => {
                    return Err(ConfigError::MissingLogin);
                },
            };
            let password = match settings.password {
                Some(password) => password,
                None => {
                    return Err(ConfigError::MissingPassword);
                },
            };
            Some(Credentials { login, password })
        },
    };
    let juggler_url = match settings.juggler_url {
        Some(url) => url,
        None => {
            return Err(ConfigError::MissingJugglerUrl);
        },
    };
    Ok(Config { monitor, roster: Roster::parse(hosts.as_str()), credentials, juggler_url })
}

} // verus!
