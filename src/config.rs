//! Worker configuration: its sections, their checks, and the listen address
//! of the worker server.

use std::collections::HashMap;
use vstd::prelude::*;

verus! {

pub const DEFAULT_WORKER_SERVER_PORT: u16 = 17890;

pub const DEFAULT_WORKER_SERVER_HOST: &'static str = "0.0.0.0";

pub const MAX_RETRIES_LIMIT: u32 = 1024;

/// A span of time: whole seconds and the nanoseconds past them.
#[derive(Clone, Copy, Debug, PartialEq, Eq, Structural)]
pub struct Interval {
    pub secs: u64,
    pub nanos: u32,
}

impl Interval {
    /// A span of whole seconds.
    pub fn from_secs(secs: u64) -> (r: Interval)
        ensures
            r.secs == secs,
            r.nanos == 0,
    {
        Interval { secs, nanos: 0 }
    }
}

/// configurations for sealing sectors
#[derive(Debug, Clone)]
pub struct Sealing {
    /// specified miner actors
    pub allowed_miners: Option<Vec<u64>>,
    /// specified sector sizes
    pub allowed_sizes: Option<Vec<String>>,
    /// enable sealing sectors with deal pieces
    pub enable_deals: bool,
    /// max retry times for tempoary failed sector
    pub max_retries: u32,
    /// interval between sectors
    pub seal_interval: Interval,
    /// interval between retry attempts
    pub recover_interval: Interval,
    /// interval between polling requests
    pub rpc_polling_interval: Interval,
    /// ignore proof state check
    pub ignore_proof_check: bool,
}

impl Default for Sealing {
    fn default() -> (r: Sealing)
        ensures
            r.allowed_miners.is_none(),
            r.allowed_sizes.is_none(),
            !r.enable_deals,
            r.max_retries == 5,
            r.seal_interval == Interval::from_secs_spec(30),
            r.recover_interval == Interval::from_secs_spec(30),
            r.rpc_polling_interval == Interval::from_secs_spec(30),
            !r.ignore_proof_check,
    {
        Sealing {
            allowed_miners: None,
            allowed_sizes: None,
            enable_deals: false,
            max_retries: 5,
            seal_interval: Interval::from_secs(30),
            recover_interval: Interval::from_secs(30),
            rpc_polling_interval: Interval::from_secs(30),
            ignore_proof_check: false,
        }
    }
}

impl Interval {
    pub open spec fn from_secs_spec(secs: u64) -> Interval {
        Interval { secs, nanos: 0 }
    }
}

/// Which interval of a sealing section a check refers to.
#[derive(Clone, Copy, Debug, PartialEq, Eq, Structural)]
pub enum IntervalField {
    SealInterval,
    RecoverInterval,
    RpcPollingInterval,
}

/// Why a configuration was refused.
#[derive(Clone, Copy, Debug, PartialEq, Eq, Structural)]
pub enum ConfigError {
    /// The interval should be greater than zero seconds.
    ZeroInterval(IntervalField),
    /// max_retries should be less than or equal to 1024.
    TooManyRetries(u32),
}

/// The text of a configuration error.
pub open spec fn config_error_text(e: ConfigError) -> Seq<char> {
    match e {
        ConfigError::ZeroInterval(IntervalField::SealInterval) =>
            "seal_interval should be greater than '0's"@,
        ConfigError::ZeroInterval(IntervalField::RecoverInterval) =>
            "recover_interval should be greater than '0's"@,
        ConfigError::ZeroInterval(IntervalField::RpcPollingInterval) =>
            "rpc_polling_interval should be greater than '0's"@,
        ConfigError::TooManyRetries(_) => "max_retries should be less or equal than 1024"@,
    }
}

impl ConfigError {
    /// The text of this error.
    pub fn message(&self) -> (r: String)
        ensures
            r@ == config_error_text(*self),
    {
        match self {
            ConfigError::ZeroInterval(IntervalField::SealInterval) =>
                "seal_interval should be greater than '0's".to_string(),
            ConfigError::ZeroInterval(IntervalField::RecoverInterval) =>
                "recover_interval should be greater than '0's".to_string(),
            ConfigError::ZeroInterval(IntervalField::RpcPollingInterval) =>
                "rpc_polling_interval should be greater than '0's".to_string(),
            ConfigError::TooManyRetries(_) => "max_retries should be less or equal than 1024".to_string(),
        }
    }
}

/// configurations for sealing sectors, each field optional
#[derive(Debug, Default)]
pub struct SealingOptional {
    /// specified miner actors
    pub allowed_miners: Option<Vec<u64>>,
    /// specified sector sizes
    pub allowed_sizes: Option<Vec<String>>,
    /// enable sealing sectors with deal pieces
    pub enable_deals: Option<bool>,
    /// max retry times for tempoary failed sector
    pub max_retries: Option<u32>,
    /// interval between sectors
    pub seal_interval: Option<Interval>,
    /// interval between retry attempts
    pub recover_interval: Option<Interval>,
    /// interval between polling requests
    pub rpc_polling_interval: Option<Interval>,
    /// ignore proof state check
    pub ignore_proof_check: Option<bool>,
}

/// Whether an interval is given and shorter than a second.
pub open spec fn under_a_second(i: Option<Interval>) -> bool {
    i matches Some(v) && v.secs == 0
}

/// The first fault of a sealing section, if it has one.
pub open spec fn sealing_problem(o: &SealingOptional) -> Option<ConfigError> {
    if under_a_second(o.seal_interval) {
        Some(ConfigError::ZeroInterval(IntervalField::SealInterval))
    } else if under_a_second(o.recover_interval) {
        Some(ConfigError::ZeroInterval(IntervalField::RecoverInterval))
    } else if under_a_second(o.rpc_polling_interval) {
        Some(ConfigError::ZeroInterval(IntervalField::RpcPollingInterval))
    } else if o.max_retries matches Some(n) && n > MAX_RETRIES_LIMIT {
        Some(ConfigError::TooManyRetries(o.max_retries.unwrap()))
    } else {
        None
    }
}

fn check_interval(i: Option<Interval>, field: IntervalField) -> (r: Result<(), ConfigError>)
    ensures
        under_a_second(i) ==> r == Err::<(), ConfigError>(ConfigError::ZeroInterval(field)),
        !under_a_second(i) ==> r.is_ok(),
{
    match i {
        Some(v) => if v.secs > 0 {
            Ok(())
        } else {
            Err(ConfigError::ZeroInterval(field))
        },
        None => Ok(()),
    }
}

impl SealingOptional {
    /// Refuses intervals under a second and more than 1024 retries,
    /// reporting the first such field.
    pub fn check(&self) -> (r: Result<(), ConfigError>)
        ensures
            match sealing_problem(self) {
                Some(e) => r == Err::<(), ConfigError>(e),
                None => r.is_ok(),
            },
    {
        match check_interval(self.seal_interval, IntervalField::SealInterval) {
            Ok(()) => {},
            Err(e) => return Err(e),
        }
        match check_interval(self.recover_interval, IntervalField::RecoverInterval) {
            Ok(()) => {},
            Err(e) => return Err(e),
        }
        match check_interval(self.rpc_polling_interval, IntervalField::RpcPollingInterval) {
            Ok(()) => {},
            Err(e) => return Err(e),
        }
        match self.max_retries {
            Some(n) => if n > MAX_RETRIES_LIMIT {
                return Err(ConfigError::TooManyRetries(n));
            },
            None => {},
        }
        Ok(())
    }
}

/// configuration for remote store
#[derive(Debug, Default)]
pub struct Remote {
    /// store path, if we are using fs based store
    pub path: Option<String>,
    pub instance: Option<String>,
}

/// configurations for sector store
#[derive(Debug, Default)]
pub struct Store {
    /// store location
    pub location: String,
    /// special sealing configuration
    pub sealing: Option<SealingOptional>,
}

/// The fault of a store's own sealing section, if it has one.
pub open spec fn store_problem(s: &Store) -> Option<ConfigError> {
    match s.sealing {
        Some(o) => sealing_problem(&o),
        None => None,
    }
}

/// configurations for rpc
#[derive(Debug, Default)]
pub struct RPCClient {
    /// jsonrpc endpoint
    pub url: String,
    pub headers: Option<HashMap<String, String>>,
}

/// configuration for the worker server
#[derive(Debug, Default)]
pub struct RPCServer {
    /// listen host
    pub host: Option<String>,
    /// listen port
    pub port: Option<u16>,
}

/// configurations for processors: the text of each external processor section
#[derive(Debug, Default)]
pub struct Processors {
    /// section for pc2 processor
    pub pc2: Option<String>,
    /// section for c2 processor
    pub c2: Option<String>,
}

#[derive(Debug, Default)]
pub struct InstanceConfig {
    pub name: Option<String>,
}

/// global configuration
#[derive(Debug, Default)]
pub struct Config {
    /// section for local config
    pub instance: Option<InstanceConfig>,
    /// section for worker server
    pub worker_server: Option<RPCServer>,
    /// section for rpc
    pub sealer_rpc: RPCClient,
    /// section for common sealing
    pub sealing: SealingOptional,
    /// section for list of sector stores
    pub stores: Vec<Store>,
    /// section for concurrent limit
    pub limit: HashMap<String, usize>,
    /// section for remote store
    pub remote: Remote,
    /// section for processors
    pub processors: Option<Processors>,
}

/// Whether store `i` is the first with a faulty sealing section.
pub open spec fn first_faulty_store(stores: Seq<Store>, i: int) -> bool {
    &&& 0 <= i < stores.len()
    &&& store_problem(&stores[i]).is_some()
    &&& forall|j: int| 0 <= j < i ==> store_problem(&#[trigger] stores[j]).is_none()
}

/// Whether no store has a faulty sealing section.
pub open spec fn stores_sound(stores: Seq<Store>) -> bool {
    forall|j: int| 0 <= j < stores.len() ==> store_problem(&#[trigger] stores[j]).is_none()
}

/// The host the worker server listens on.
pub open spec fn listen_host(c: &Config) -> Seq<char> {
    if c.worker_server matches Some(s) && s.host is Some {
        c.worker_server.unwrap().host.unwrap()@
    } else {
        DEFAULT_WORKER_SERVER_HOST@
    }
}

/// The port the worker server listens on.
pub open spec fn listen_port(c: &Config) -> u16 {
    if c.worker_server matches Some(s) && s.port is Some {
        c.worker_server.unwrap().port.unwrap()
    } else {
        DEFAULT_WORKER_SERVER_PORT
    }
}

impl Config {
    /// Checks the sealing section of each store, in order, then the common
    /// one, and reports the first fault.
    pub fn check(&self) -> (r: Result<(), ConfigError>)
        ensures
            r.is_ok() <==> stores_sound(self.stores@) && sealing_problem(&self.sealing).is_none(),
            r matches Err(e) ==> (exists|i: int|
                first_faulty_store(self.stores@, i) && store_problem(&self.stores@[i]) == Some(
                    e,
                )) || (stores_sound(self.stores@) && sealing_problem(&self.sealing) == Some(e)),
    {
        let mut i: usize = 0;
        while i < self.stores.len()
            invariant
                i <= self.stores@.len(),
                forall|j: int| 0 <= j < i ==> store_problem(&#[trigger] self.stores@[j]).is_none(),
            decreases self.stores@.len() - i,
        {
            match &self.stores[i].sealing {
                Some(cfg) => match cfg.check() {
                    Ok(()) => {},
                    Err(e) => {
                        assert(first_faulty_store(self.stores@, i as int));
                        return Err(e);
                    },
                },
                None => {},
            }
            i = i + 1;
        }
        self.sealing.check()
    }

    /// The host and port the worker server listens on: those of the
    /// worker_server section where given, else 0.0.0.0 and 17890.
    pub fn worker_server_listen_addr(&self) -> (r: (String, u16))
        ensures
            r.0@ == listen_host(self),
            r.1 == listen_port(self),
    {
        let host = match &self.worker_server {
            Some(s) => match &s.host {
                Some(h) => h.clone(),
                None => DEFAULT_WORKER_SERVER_HOST.to_string(),
            },
            None => DEFAULT_WORKER_SERVER_HOST.to_string(),
        };
        let port = match &self.worker_server {
            Some(s) => match s.port {
                Some(p) => p,
                None => DEFAULT_WORKER_SERVER_PORT,
            },
            None => DEFAULT_WORKER_SERVER_PORT,
        };
        (host, port)
    }
}

} // verus!
