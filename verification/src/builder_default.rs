//! Builder: a configuration is put together field by field, and the fields
//! that were never set get the default value of their type.

use vstd::prelude::*;

verus! {

/// A span of time: whole seconds and the nanoseconds beyond them.
#[derive(Clone, Copy, Debug, PartialEq, Eq, Structural)]
pub struct Timeout {
    pub secs: u64,
    pub nanos: u32,
}

impl Timeout {
    /// No time at all.
    pub open spec fn zero() -> Timeout {
        Timeout { secs: 0, nanos: 0 }
    }

    /// A span of `secs` whole seconds.
    pub fn from_secs(secs: u64) -> (timeout: Timeout)
        ensures
            timeout == (Timeout { secs, nanos: 0 }),
    {
        Timeout { secs, nanos: 0 }
    }
}

/// The fields of a configuration.
pub struct ConfigView {
    pub timeout: Timeout,
    pub retries: u32,
    pub enable_logging: bool,
    pub max_connections: usize,
}

/// A configuration.
#[derive(Debug)]
pub struct Config {
    timeout: Timeout,
    retries: u32,
    enable_logging: bool,
    max_connections: usize,
}

impl View for Config {
    type V = ConfigView;

    closed spec fn view(&self) -> ConfigView {
        ConfigView {
            timeout: self.timeout,
            retries: self.retries,
            enable_logging: self.enable_logging,
            max_connections: self.max_connections,
        }
    }
}

impl Config {
    /// The configuration one gets without asking for anything: five seconds,
    /// three retries, logging on, a hundred connections.
    pub open spec fn standard() -> ConfigView {
        ConfigView {
            timeout: Timeout { secs: 5, nanos: 0 },
            retries: 3,
            enable_logging: true,
            max_connections: 100,
        }
    }

    /// How long to wait.
    pub fn timeout(&self) -> (timeout: Timeout)
        ensures
            timeout == self@.timeout,
    {
        self.timeout
    }

    /// How often to try again.
    pub fn retries(&self) -> (retries: u32)
        ensures
            retries == self@.retries,
    {
        self.retries
    }

    /// Whether logging is on.
    pub fn enable_logging(&self) -> (enable_logging: bool)
        ensures
            enable_logging == self@.enable_logging,
    {
        self.enable_logging
    }

    /// How many connections there may be at most.
    pub fn max_connections(&self) -> (max_connections: usize)
        ensures
            max_connections == self@.max_connections,
    {
        self.max_connections
    }
}

impl Default for Config {
    fn default() -> (config: Config)
        ensures
            config@ == Config::standard(),
    {
        Config {
            timeout: Timeout::from_secs(5),
            retries: 3,
            enable_logging: true,
            max_connections: 100,
        }
    }
}

/// What has been asked for so far; `None` where nothing was.
pub struct ConfigBuilder {
    timeout: Option<Timeout>,
    retries: Option<u32>,
    enable_logging: Option<bool>,
    max_connections: Option<usize>,
}

/// The fields of a builder.
pub struct BuilderView {
    pub timeout: Option<Timeout>,
    pub retries: Option<u32>,
    pub enable_logging: Option<bool>,
    pub max_connections: Option<usize>,
}

impl BuilderView {
    /// A builder that was asked for nothing.
    pub open spec fn empty() -> BuilderView {
        BuilderView { timeout: None, retries: None, enable_logging: None, max_connections: None }
    }

    /// The configuration this builder builds: each field as it was asked
    /// for, and the default of its type (no time, zero, `false`) where it
    /// was not.
    pub open spec fn built(self) -> ConfigView {
        ConfigView {
            timeout: match self.timeout {
                Some(timeout) => timeout,
                None => Timeout::zero(),
            },
            retries: match self.retries {
                Some(retries) => retries,
                None => 0,
            },
            enable_logging: match self.enable_logging {
                Some(enable_logging) => enable_logging,
                None => false,
            },
            max_connections: match self.max_connections {
                Some(max_connections) => max_connections,
                None => 0,
            },
        }
    }
}

impl View for ConfigBuilder {
    type V = BuilderView;

    closed spec fn view(&self) -> BuilderView {
        BuilderView {
            timeout: self.timeout,
            retries: self.retries,
            enable_logging: self.enable_logging,
            max_connections: self.max_connections,
        }
    }
}

impl Default for ConfigBuilder {
    fn default() -> (builder: ConfigBuilder)
        ensures
            builder@ == BuilderView::empty(),
    {
        ConfigBuilder { timeout: None, retries: None, enable_logging: None, max_connections: None }
    }
}

impl ConfigBuilder {
    /// Asks for this timeout.
    pub fn timeout(self, timeout: Timeout) -> (builder: ConfigBuilder)
        ensures
            builder@ == (BuilderView { timeout: Some(timeout), ..self@ }),
    {
        let mut builder = self;
        builder.timeout = Some(timeout);
        builder
    }

    /// Asks for this number of retries.
    pub fn retries(self, retries: u32) -> (builder: ConfigBuilder)
        ensures
            builder@ == (BuilderView { retries: Some(retries), ..self@ }),
    {
        let mut builder = self;
        builder.retries = Some(retries);
        builder
    }

    /// Asks for logging to be on or off.
    pub fn enable_logging(self, enable_logging: bool) -> (builder: ConfigBuilder)
        ensures
            builder@ == (BuilderView { enable_logging: Some(enable_logging), ..self@ }),
    {
        let mut builder = self;
        builder.enable_logging = Some(enable_logging);
        builder
    }

    /// Asks for this limit on connections.
    pub fn max_connections(self, max_connections: usize) -> (builder: ConfigBuilder)
        ensures
            builder@ == (BuilderView { max_connections: Some(max_connections), ..self@ }),
    {
        let mut builder = self;
        builder.max_connections = Some(max_connections);
        builder
    }

    /// Builds the configuration.
    pub fn build(self) -> (config: Config)
        ensures
            config@ == self@.built(),
    {
        Config {
            timeout: match self.timeout {
                Some(timeout) => timeout,
                None => Timeout { secs: 0, nanos: 0 },
            },
            retries: match self.retries {
                Some(retries) => retries,
                None => 0,
            },
            enable_logging: match self.enable_logging {
                Some(enable_logging) => enable_logging,
                None => false,
            },
            max_connections: match self.max_connections {
                Some(max_connections) => max_connections,
                None => 0,
            },
        }
    }
}

} // verus!
