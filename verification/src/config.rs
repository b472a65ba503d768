//! The resolved configuration the supervisor starts from.

use vstd::prelude::*;

verus! {

/// How long each worker's watchdog sleeps between poll cycles; one value
/// shared read-only by every worker.
#[derive(Clone, Copy, Debug, PartialEq, Eq, Structural)]
pub struct RefreshInterval {
    pub millis: u64,
}

impl RefreshInterval {
    pub fn from_millis(millis: u64) -> (r: Self)
        ensures
            r.millis == millis,
    {
        RefreshInterval { millis }
    }

    pub fn from_secs(secs: u64) -> (r: Self)
        requires
            secs <= u64::MAX / 1000,
        ensures
            r.millis == secs * 1000,
    {
        RefreshInterval { millis: secs * 1000 }
    }
}

impl Default for RefreshInterval {
    /// Thirty seconds between poll cycles.
    fn default() -> (r: Self)
        ensures
            r.millis == 30_000,
    {
        RefreshInterval { millis: 30_000 }
    }
}

/// One game server entry; immutable once loaded, owned by the supervisor
/// and borrowed read-only by its worker.
#[derive(Clone, Debug)]
pub struct ServerConfig {
    /// Unique key of the entry.
    pub name: String,
    /// Disabled entries get no worker.
    pub enabled: bool,
    /// Network address the status prober queries.
    pub address: String,
    /// Secret the gateway session authenticates with.
    pub credential: String,
}

impl ServerConfig {
    /// A field-for-field copy whose equality is part of the contract.
    pub fn duplicate(&self) -> (r: Self)
        ensures
            r == *self,
    {
        ServerConfig {
            name: self.name.clone(),
            enabled: self.enabled,
            address: self.address.clone(),
            credential: self.credential.clone(),
        }
    }
}

impl Default for ServerConfig {
    /// The example entry written into a fresh configuration.
    fn default() -> (r: Self)
        ensures
            r.name@ == "example-server"@,
            r.enabled,
            r.address@ == "localhost:8000"@,
            r.credential@ == Seq::<char>::empty(),
    {
        ServerConfig {
            name: "example-server".to_owned(),
            enabled: true,
            address: "localhost:8000".to_owned(),
            credential: String::new(),
        }
    }
}

/// Everything the supervisor needs, fully resolved before it starts: the
/// server entries and the shared refresh interval.
#[derive(Debug)]
pub struct Config {
    pub refresh: RefreshInterval,
    pub servers: Vec<ServerConfig>,
}

impl Config {
    /// Server names are unique keys.
    pub open spec fn wf(&self) -> bool {
        forall|i: int, j: int|
            0 <= i < j < self.servers@.len() ==> (#[trigger] self.servers@[i]).name@ != (
            #[trigger] self.servers@[j]).name@
    }
}

impl Default for Config {
    /// A fresh configuration: the example entry, polled every thirty
    /// seconds.
    fn default() -> (r: Self)
        ensures
            r.refresh.millis == 30_000,
            r.servers@.len() == 1,
            r.servers@[0].name@ == "example-server"@,
            r.servers@[0].enabled,
            r.servers@[0].address@ == "localhost:8000"@,
            r.servers@[0].credential@ == Seq::<char>::empty(),
            r.wf(),
    {
        let mut servers: Vec<ServerConfig> = Vec::new();
        servers.push(ServerConfig::default());
        Config { refresh: RefreshInterval::default(), servers }
    }
}

} // verus!
