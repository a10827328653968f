use vstd::prelude::*;

use crate::error::Error;
use crate::serial::Serial;

verus! {

/// Whether a string parses as an absolute URL. The result depends on the
/// characters alone.
pub uninterp spec fn url_parses(s: Seq<char>) -> bool;

/// Relies on url::Url::parse: a deterministic parse of the string; `Ok`
/// exactly when the string is an absolute URL.
#[verifier::external_body]
fn check_url(s: &str) -> (r: bool)
    ensures
        r == url_parses(s@),
{
    url::Url::parse(s).is_ok()
}

/// Per-inverter connection settings, stable for the life of a session.
pub struct Inverter {
    pub enabled: bool,
    pub host: String,
    pub port: u16,
    pub serial: Serial,
    pub datalog: Serial,
    pub heartbeats: Option<bool>,
    pub publish_holdings_on_connect: Option<bool>,
    pub read_timeout: Option<u64>,
    pub use_tcp_nodelay: Option<bool>,
    pub register_block_size: Option<u16>,
    pub delay_ms: Option<u64>,
    pub read_only: Option<bool>,
}

impl Inverter {
    /// A copy with the same contents.
    pub fn duplicate(&self) -> (r: Self)
        ensures
            r == *self,
    {
        Inverter {
            enabled: self.enabled,
            host: self.host.clone(),
            port: self.port,
            serial: self.serial,
            datalog: self.datalog,
            heartbeats: self.heartbeats,
            publish_holdings_on_connect: self.publish_holdings_on_connect,
            read_timeout: self.read_timeout,
            use_tcp_nodelay: self.use_tcp_nodelay,
            register_block_size: self.register_block_size,
            delay_ms: self.delay_ms,
            read_only: self.read_only,
        }
    }
}

impl Inverter {
    pub open spec fn spec_heartbeats(&self) -> bool {
        self.heartbeats == Some(true)
    }

    pub open spec fn spec_publish_holdings_on_connect(&self) -> bool {
        self.publish_holdings_on_connect == Some(true)
    }

    pub open spec fn spec_read_timeout(&self) -> u64 {
        match self.read_timeout {
            Some(t) => t,
            None => 900,
        }
    }

    pub open spec fn spec_use_tcp_nodelay(&self) -> bool {
        match self.use_tcp_nodelay {
            Some(b) => b,
            None => true,
        }
    }

    pub open spec fn spec_register_block_size(&self) -> u16 {
        match self.register_block_size {
            Some(b) => b,
            None => 40,
        }
    }

    pub open spec fn spec_delay_ms(&self) -> u64 {
        match self.delay_ms {
            Some(d) => d,
            None => 1000,
        }
    }

    pub open spec fn spec_read_only(&self) -> bool {
        self.read_only == Some(true)
    }

    pub fn enabled(&self) -> (r: bool)
        ensures
            r == self.enabled,
    {
        self.enabled
    }

    pub fn host(&self) -> (r: &str)
        ensures
            r@ == self.host@,
    {
        self.host.as_str()
    }

    pub fn port(&self) -> (r: u16)
        ensures
            r == self.port,
    {
        self.port
    }

    pub fn serial(&self) -> (r: Serial)
        ensures
            r == self.serial,
    {
        self.serial
    }

    pub fn datalog(&self) -> (r: Serial)
        ensures
            r == self.datalog,
    {
        self.datalog
    }

    /// Heartbeat echoes are off unless switched on.
    pub fn heartbeats(&self) -> (r: bool)
        ensures
            r == self.spec_heartbeats(),
    {
        match self.heartbeats {
            Some(b) => b,
            None => false,
        }
    }

    /// Holdings are only read on connect when asked for.
    pub fn publish_holdings_on_connect(&self) -> (r: bool)
        ensures
            r == self.spec_publish_holdings_on_connect(),
    {
        match self.publish_holdings_on_connect {
            Some(b) => b,
            None => false,
        }
    }

    /// The session read timeout, fifteen minutes unless set.
    pub fn read_timeout(&self) -> (r: u64)
        ensures
            r == self.spec_read_timeout(),
    {
        match self.read_timeout {
            Some(t) => t,
            None => 900,
        }
    }

    pub fn use_tcp_nodelay(&self) -> (r: bool)
        ensures
            r == self.spec_use_tcp_nodelay(),
    {
        match self.use_tcp_nodelay {
            Some(b) => b,
            None => true,
        }
    }

    /// How many registers one read request may cover.
    pub fn register_block_size(&self) -> (r: u16)
        ensures
            r == self.spec_register_block_size(),
    {
        match self.register_block_size {
            Some(b) => b,
            None => 40,
        }
    }

    /// The minimum wall-clock gap between frames to this inverter.
    pub fn delay_ms(&self) -> (r: u64)
        ensures
            r == self.spec_delay_ms(),
    {
        match self.delay_ms {
            Some(d) => d,
            None => 1000,
        }
    }

    /// Whether every mutating command on this inverter is refused.
    pub fn read_only(&self) -> (r: bool)
        ensures
            r == self.spec_read_only(),
    {
        match self.read_only {
            Some(b) => b,
            None => false,
        }
    }
}

/// Home Assistant auto-discovery settings.
pub struct HomeAssistant {
    pub enabled: bool,
    pub prefix: String,
}

impl HomeAssistant {
    /// A copy with the same contents.
    pub fn duplicate(&self) -> (r: Self)
        ensures
            r == *self,
    {
        HomeAssistant { enabled: self.enabled, prefix: self.prefix.clone() }
    }
}

impl HomeAssistant {
    pub fn enabled(&self) -> (r: bool)
        ensures
            r == self.enabled,
    {
        self.enabled
    }

    pub fn prefix(&self) -> (r: &str)
        ensures
            r@ == self.prefix@,
    {
        self.prefix.as_str()
    }
}

/// MQTT broker settings.
pub struct Mqtt {
    pub enabled: bool,
    pub host: String,
    pub port: u16,
    pub username: Option<String>,
    pub password: Option<String>,
    pub namespace: String,
    pub homeassistant: HomeAssistant,
    pub publish_individual_input: Option<bool>,
}

impl Mqtt {
    /// A copy with the same contents.
    pub fn duplicate(&self) -> (r: Self)
        ensures
            r == *self,
    {
        Mqtt {
            enabled: self.enabled,
            host: self.host.clone(),
            port: self.port,
            username: clone_opt_string(&self.username),
            password: clone_opt_string(&self.password),
            namespace: self.namespace.clone(),
            homeassistant: self.homeassistant.duplicate(),
            publish_individual_input: self.publish_individual_input,
        }
    }
}

/// Copy an optional string, keeping its value.
fn clone_opt_string(s: &Option<String>) -> (r: Option<String>)
    ensures
        r == *s,
{
    match s {
        Some(v) => Some(v.clone()),
        None => None,
    }
}

impl Mqtt {
    pub open spec fn spec_publish_individual_input(&self) -> bool {
        self.publish_individual_input == Some(true)
    }

    pub fn enabled(&self) -> (r: bool)
        ensures
            r == self.enabled,
    {
        self.enabled
    }

    pub fn host(&self) -> (r: &str)
        ensures
            r@ == self.host@,
    {
        self.host.as_str()
    }

    pub fn port(&self) -> (r: u16)
        ensures
            r == self.port,
    {
        self.port
    }

    pub fn username(&self) -> (r: &Option<String>)
        ensures
            r == &self.username,
    {
        &self.username
    }

    pub fn password(&self) -> (r: &Option<String>)
        ensures
            r == &self.password,
    {
        &self.password
    }

    pub fn namespace(&self) -> (r: &str)
        ensures
            r@ == self.namespace@,
    {
        self.namespace.as_str()
    }

    pub fn homeassistant(&self) -> (r: &HomeAssistant)
        ensures
            r == &self.homeassistant,
    {
        &self.homeassistant
    }

    pub fn publish_individual_input(&self) -> (r: bool)
        ensures
            r == self.spec_publish_individual_input(),
    {
        match self.publish_individual_input {
            Some(b) => b,
            None => false,
        }
    }
}

/// InfluxDB sink settings.
pub struct Influx {
    pub enabled: bool,
    pub url: String,
    pub username: Option<String>,
    pub password: Option<String>,
    pub database: String,
}

impl Influx {
    /// A copy with the same contents.
    pub fn duplicate(&self) -> (r: Self)
        ensures
            r == *self,
    {
        Influx {
            enabled: self.enabled,
            url: self.url.clone(),
            username: clone_opt_string(&self.username),
            password: clone_opt_string(&self.password),
            database: self.database.clone(),
        }
    }
}

impl Influx {
    pub fn enabled(&self) -> (r: bool)
        ensures
            r == self.enabled,
    {
        self.enabled
    }

    pub fn url(&self) -> (r: &str)
        ensures
            r@ == self.url@,
    {
        self.url.as_str()
    }

    pub fn username(&self) -> (r: &Option<String>)
        ensures
            r == &self.username,
    {
        &self.username
    }

    pub fn password(&self) -> (r: &Option<String>)
        ensures
            r == &self.password,
    {
        &self.password
    }

    pub fn database(&self) -> (r: &str)
        ensures
            r@ == self.database@,
    {
        self.database.as_str()
    }
}

/// One relational database sink.
pub struct Database {
    pub enabled: bool,
    pub url: String,
}

impl Database {
    /// A copy with the same contents.
    pub fn duplicate(&self) -> (r: Self)
        ensures
            r == *self,
    {
        Database { enabled: self.enabled, url: self.url.clone() }
    }
}

impl Database {
    pub fn enabled(&self) -> (r: bool)
        ensures
            r == self.enabled,
    {
        self.enabled
    }

    pub fn url(&self) -> (r: &str)
        ensures
            r@ == self.url@,
    {
        self.url.as_str()
    }
}

/// Cron-driven periodic jobs.
pub struct Scheduler {
    pub enabled: bool,
    pub timesync_cron: Option<String>,
}

impl Scheduler {
    /// A copy with the same contents.
    pub fn duplicate(&self) -> (r: Self)
        ensures
            r == *self,
    {
        Scheduler { enabled: self.enabled, timesync_cron: clone_opt_string(&self.timesync_cron) }
    }
}

impl Scheduler {
    pub fn enabled(&self) -> (r: bool)
        ensures
            r == self.enabled,
    {
        self.enabled
    }

    pub fn timesync_cron(&self) -> (r: &Option<String>)
        ensures
            r == &self.timesync_cron,
    {
        &self.timesync_cron
    }
}

/// The whole configuration file, already parsed into plain values.
pub struct Config {
    pub inverters: Vec<Inverter>,
    pub mqtt: Mqtt,
    pub influx: Influx,
    pub databases: Vec<Database>,
    pub scheduler: Option<Scheduler>,
    pub loglevel: String,
    pub read_only: bool,
}

impl Config {
    /// A copy with the same contents.
    pub fn duplicate(&self) -> (r: Self)
        ensures
            spec_config_eq(r, *self),
    {
        let mut inverters: Vec<Inverter> = Vec::new();
        let mut i: usize = 0;
        while i < self.inverters.len()
            invariant
                i <= self.inverters@.len(),
                inverters@ == self.inverters@.subrange(0, i as int),
            decreases self.inverters@.len() - i,
        {
            inverters.push(self.inverters[i].duplicate());
            i += 1;
            proof {
                assert(inverters@ =~= self.inverters@.subrange(0, i as int));
            }
        }
        let mut databases: Vec<Database> = Vec::new();
        let mut j: usize = 0;
        while j < self.databases.len()
            invariant
                j <= self.databases@.len(),
                databases@ == self.databases@.subrange(0, j as int),
            decreases self.databases@.len() - j,
        {
            databases.push(self.databases[j].duplicate());
            j += 1;
            proof {
                assert(databases@ =~= self.databases@.subrange(0, j as int));
            }
        }
        let scheduler = match &self.scheduler {
            Some(s) => Some(s.duplicate()),
            None => None,
        };
        let r = Config {
            inverters,
            mqtt: self.mqtt.duplicate(),
            influx: self.influx.duplicate(),
            databases,
            scheduler,
            loglevel: self.loglevel.clone(),
            read_only: self.read_only,
        };
        proof {
            assert(r.inverters@ =~= self.inverters@);
            assert(r.databases@ =~= self.databases@);
        }
        r
    }
}

/// Two configurations with the same contents. A fresh copy of a list is a
/// different allocation, so the lists are compared by their contents.
pub open spec fn spec_config_eq(a: Config, b: Config) -> bool {
    &&& a.inverters@ == b.inverters@
    &&& a.mqtt == b.mqtt
    &&& a.influx == b.influx
    &&& a.databases@ == b.databases@
    &&& a.scheduler == b.scheduler
    &&& a.loglevel == b.loglevel
    &&& a.read_only == b.read_only
}

/// The conditions a configuration must meet before the bridge starts:
/// non-empty hosts, ports in range, parseable sink URLs, a non-zero read
/// timeout, and a non-empty cron expression where one is given.
pub open spec fn spec_config_valid(c: Config) -> bool {
    &&& (c.mqtt.enabled ==> c.mqtt.port != 0 && c.mqtt.host@.len() > 0)
    &&& (c.influx.enabled ==> url_parses(c.influx.url@) && c.influx.database@.len() > 0)
    &&& (forall|i: int|
        0 <= i < c.databases@.len() && c.databases@[i].enabled ==> url_parses(
            c.databases@[i].url@,
        ))
    &&& (forall|i: int|
        0 <= i < c.inverters@.len() && c.inverters@[i].enabled ==> c.inverters@[i].port != 0
            && c.inverters@[i].host@.len() > 0 && c.inverters@[i].spec_read_timeout() != 0)
    &&& (match c.scheduler {
        Some(s) => s.enabled ==> (match s.timesync_cron {
            Some(cron) => cron@.len() > 0,
            None => true,
        }),
        None => true,
    })
}

impl Config {
    /// Check the configuration; the bridge refuses to start on `Err`.
    pub fn validate(&self) -> (r: Result<(), Error>)
        ensures
            match r {
                Ok(()) => spec_config_valid(*self),
                Err(e) => e == Error::Config && !spec_config_valid(*self),
            },
    {
        if self.mqtt.enabled {
            if self.mqtt.port == 0 {
                return Err(Error::Config);
            }
            if self.mqtt.host.as_str().unicode_len() == 0 {
                return Err(Error::Config);
            }
        }
        if self.influx.enabled {
            if !check_url(self.influx.url.as_str()) {
                return Err(Error::Config);
            }
            if self.influx.database.as_str().unicode_len() == 0 {
                return Err(Error::Config);
            }
        }
        let mut i: usize = 0;
        while i < self.databases.len()
            invariant
                i <= self.databases@.len(),
                forall|j: int|
                    0 <= j < i && self.databases@[j].enabled ==> url_parses(
                        self.databases@[j].url@,
                    ),
            decreases self.databases@.len() - i,
        {
            if self.databases[i].enabled {
                if !check_url(self.databases[i].url.as_str()) {
                    return Err(Error::Config);
                }
            }
            i += 1;
        }
        let mut k: usize = 0;
        while k < self.inverters.len()
            invariant
                k <= self.inverters@.len(),
                forall|j: int|
                    0 <= j < k && self.inverters@[j].enabled ==> self.inverters@[j].port != 0
                        && self.inverters@[j].host@.len() > 0
                        && self.inverters@[j].spec_read_timeout() != 0,
            decreases self.inverters@.len() - k,
        {
            if self.inverters[k].enabled {
                if self.inverters[k].port == 0 {
                    return Err(Error::Config);
                }
                if self.inverters[k].host.as_str().unicode_len() == 0 {
                    return Err(Error::Config);
                }
                if self.inverters[k].read_timeout() == 0 {
                    return Err(Error::Config);
                }
            }
            k += 1;
        }
        match &self.scheduler {
            Some(s) => {
                if s.enabled {
                    match &s.timesync_cron {
                        Some(cron) => {
                            if cron.as_str().unicode_len() == 0 {
                                return Err(Error::Config);
                            }
                        },
                        None => {},
                    }
                }
            },
            None => {},
        }
        Ok(())
    }

    pub fn default_mqtt_port() -> (r: u16)
        ensures
            r == 1883,
    {
        1883
    }

    pub fn default_mqtt_namespace() -> (r: String)
        ensures
            r@ == "lxp"@,
    {
        String::from_str("lxp")
    }

    pub fn default_mqtt_homeassistant() -> (r: HomeAssistant)
        ensures
            r.enabled == true,
            r.prefix@ == "homeassistant"@,
    {
        HomeAssistant { enabled: Config::default_enabled(), prefix: Config::default_mqtt_homeassistant_prefix() }
    }

    pub fn default_mqtt_homeassistant_prefix() -> (r: String)
        ensures
            r@ == "homeassistant"@,
    {
        String::from_str("homeassistant")
    }

    pub fn default_enabled() -> (r: bool)
        ensures
            r == true,
    {
        true
    }

    pub fn default_loglevel() -> (r: String)
        ensures
            r@ == "debug"@,
    {
        String::from_str("debug")
    }
}

/// The first inverter in the list that is enabled and carries the datalog
/// serial, if any.
pub open spec fn spec_first_enabled_with_datalog(invs: Seq<Inverter>, datalog: Seq<u8>) -> Option<
    Inverter,
>
    decreases invs.len(),
{
    if invs.len() == 0 {
        None
    } else if invs[0].enabled && invs[0].datalog@ == datalog {
        Some(invs[0])
    } else {
        spec_first_enabled_with_datalog(invs.subrange(1, invs.len() as int), datalog)
    }
}

/// The first inverter in the list configured for the host, enabled or not.
pub open spec fn spec_first_with_host(invs: Seq<Inverter>, host: Seq<char>) -> Option<Inverter>
    decreases invs.len(),
{
    if invs.len() == 0 {
        None
    } else if invs[0].host@ == host {
        Some(invs[0])
    } else {
        spec_first_with_host(invs.subrange(1, invs.len() as int), host)
    }
}

/// Skipping a non-matching prefix does not change the first match.
proof fn lemma_first_datalog_skip(invs: Seq<Inverter>, datalog: Seq<u8>, i: int)
    requires
        0 <= i <= invs.len(),
        forall|j: int| 0 <= j < i ==> !((#[trigger] invs[j]).enabled && invs[j].datalog@ == datalog),
    ensures
        spec_first_enabled_with_datalog(invs, datalog) == spec_first_enabled_with_datalog(
            invs.subrange(i, invs.len() as int),
            datalog,
        ),
    decreases i,
{
    if i > 0 {
        let rest = invs.subrange(1, invs.len() as int);
        assert(forall|j: int|
            0 <= j < i - 1 ==> !((#[trigger] rest[j]).enabled && rest[j].datalog@ == datalog));
        lemma_first_datalog_skip(rest, datalog, i - 1);
        assert(rest.subrange(i - 1, rest.len() as int) =~= invs.subrange(i, invs.len() as int));
    } else {
        assert(invs.subrange(0, invs.len() as int) =~= invs);
    }
}

/// Skipping a non-matching prefix does not change the first host match.
proof fn lemma_first_host_skip(invs: Seq<Inverter>, host: Seq<char>, i: int)
    requires
        0 <= i <= invs.len(),
        forall|j: int| 0 <= j < i ==> (#[trigger] invs[j]).host@ != host,
    ensures
        spec_first_with_host(invs, host) == spec_first_with_host(
            invs.subrange(i, invs.len() as int),
            host,
        ),
    decreases i,
{
    if i > 0 {
        let rest = invs.subrange(1, invs.len() as int);
        assert(forall|j: int| 0 <= j < i - 1 ==> (#[trigger] rest[j]).host@ != host);
        lemma_first_host_skip(rest, host, i - 1);
        assert(rest.subrange(i - 1, rest.len() as int) =~= invs.subrange(i, invs.len() as int));
    } else {
        assert(invs.subrange(0, invs.len() as int) =~= invs);
    }
}

/// The shared configuration handle. Readers take snapshots; writers replace
/// whole lists at once. Every handle owns its snapshot: a later list
/// replacement through one handle is not seen by copies taken earlier.
pub struct ConfigWrapper {
    config: Config,
}

impl ConfigWrapper {
    /// A copy with the same contents.
    pub fn duplicate(&self) -> (r: Self)
        ensures
            spec_config_eq(r.spec_config(), self.spec_config()),
    {
        ConfigWrapper { config: self.config.duplicate() }
    }
}

impl Clone for ConfigWrapper {
    fn clone(&self) -> Self {
        self.duplicate()
    }
}

impl ConfigWrapper {
    /// The configuration behind the handle.
    pub closed spec fn spec_config(&self) -> Config {
        self.config
    }

    /// Wrap an already validated configuration.
    pub fn new(config: Config) -> (r: Result<ConfigWrapper, Error>)
        ensures
            match r {
                Ok(w) => spec_config_valid(config) && w.spec_config() == config,
                Err(e) => e == Error::Config && !spec_config_valid(config),
            },
    {
        let valid = config.validate();
        match valid {
            Ok(()) => Ok(ConfigWrapper { config }),
            Err(e) => Err(e),
        }
    }

    pub fn inverters(&self) -> (r: &Vec<Inverter>)
        ensures
            r@ == self.spec_config().inverters@,
    {
        &self.config.inverters
    }

    pub fn set_inverters(&mut self, new: Vec<Inverter>)
        ensures
            final(self).spec_config() == (Config { inverters: new, ..old(self).spec_config() }),
    {
        self.config.inverters = new;
    }

    /// The enabled inverters, in configuration order.
    pub fn enabled_inverters(&self) -> (r: Vec<Inverter>)
        ensures
            r@ == self.spec_config().inverters@.filter(|inv: Inverter| inv.enabled),
    {
        let mut r: Vec<Inverter> = Vec::new();
        let invs = &self.config.inverters;
        let mut i: usize = 0;
        while i < invs.len()
            invariant
                i <= invs@.len(),
                r@ == invs@.subrange(0, i as int).filter(|inv: Inverter| inv.enabled),
            decreases invs@.len() - i,
        {
            proof {
                assert(invs@.subrange(0, i + 1).drop_last() =~= invs@.subrange(0, i as int));
                reveal_with_fuel(Seq::filter, 2);
            }
            if invs[i].enabled {
                r.push(invs[i].duplicate());
            }
            i += 1;
        }
        proof {
            assert(invs@.subrange(0, invs@.len() as int) =~= invs@);
        }
        r
    }

    /// The first inverter configured for `host`, if any.
    pub fn inverter_with_host(&self, host: &str) -> (r: Option<Inverter>)
        ensures
            match r {
                Some(inv) => exists|i: int|
                    #![auto]
                    0 <= i < self.spec_config().inverters@.len() && self.spec_config().inverters@[i]
                        == inv && inv.host@ == host@,
                None => forall|i: int|
                    #![auto]
                    0 <= i < self.spec_config().inverters@.len()
                        ==> self.spec_config().inverters@[i].host@ != host@,
            },
    {
        let invs = &self.config.inverters;
        let mut i: usize = 0;
        while i < invs.len()
            invariant
                i <= invs@.len(),
                invs@ == self.spec_config().inverters@,
                forall|j: int| #![auto] 0 <= j < i ==> invs@[j].host@ != host@,
            decreases invs@.len() - i,
        {
            if crate::text::str_eq(invs[i].host.as_str(), host) {
                let found = invs[i].duplicate();
                proof {
                    let wi = i as int;
                    assert(0 <= wi < self.spec_config().inverters@.len());
                    assert(found == invs@[wi]);
                    assert(invs@ == self.spec_config().inverters@);
                    assert(self.spec_config().inverters@[wi] == found);
                    assert(found.host@ == host@);
                    assert(exists|j: int|
                        #![auto]
                        0 <= j < self.spec_config().inverters@.len() && self.spec_config(
                        ).inverters@[j] == found && found.host@ == host@);
                }
                return Some(found);
            }
            i += 1;
        }
        None
    }

    /// The first enabled inverter whose datalog serial is `datalog`, if any;
    /// a disabled inverter with a matching datalog is never returned.
    pub fn enabled_inverter_with_datalog(&self, datalog: Serial) -> (r: Option<Inverter>)
        ensures
            r == spec_first_enabled_with_datalog(self.spec_config().inverters@, datalog@),
    {
        let invs = &self.config.inverters;
        let mut i: usize = 0;
        while i < invs.len()
            invariant
                i <= invs@.len(),
                invs@ == self.spec_config().inverters@,
                forall|j: int|
                    0 <= j < i ==> !((#[trigger] invs@[j]).enabled && invs@[j].datalog@
                        == datalog@),
            decreases invs@.len() - i,
        {
            if invs[i].enabled && invs[i].datalog.eq_serial(&datalog) {
                let found = invs[i].duplicate();
                proof {
                    lemma_first_datalog_skip(invs@, datalog@, i as int);
                    let rest = invs@.subrange(i as int, invs@.len() as int);
                    assert(rest[0] == invs@[i as int]);
                }
                return Some(found);
            }
            i += 1;
        }
        proof {
            lemma_first_datalog_skip(invs@, datalog@, invs@.len() as int);
            assert(invs@.subrange(invs@.len() as int, invs@.len() as int).len() == 0);
        }
        None
    }

    /// The enabled inverters a command topic addresses: all of them, or the
    /// one with the target datalog serial.
    pub fn inverters_for_message(&self, message: &crate::mqtt::Message) -> (r: Result<
        Vec<Inverter>,
        Error,
    >)
        ensures
            match r {
                Ok(list) => crate::mqtt::spec_topic_routable(message.topic@) && ({
                    let enabled = self.spec_config().inverters@.filter(
                        |inv: Inverter| inv.enabled,
                    );
                    let segs = crate::mqtt::spec_segments(message.topic@);
                    if crate::text::chars_of(segs[2]) == "all"@ {
                        list@ == enabled
                    } else {
                        list@ == enabled.filter(|inv: Inverter| inv.datalog@ == segs[2])
                    }
                }),
                Err(e) => e == Error::BadCommand && !crate::mqtt::spec_topic_routable(
                    message.topic@,
                ),
            },
    {
        let (target, _rest) = match message.split_cmd_topic() {
            Ok(t) => t,
            Err(e) => {
                return Err(e);
            },
        };
        let enabled = self.enabled_inverters();
        match target {
            crate::mqtt::TargetInverter::All => Ok(enabled),
            crate::mqtt::TargetInverter::Serial(datalog) => {
                let mut list: Vec<Inverter> = Vec::new();
                let mut i: usize = 0;
                while i < enabled.len()
                    invariant
                        i <= enabled@.len(),
                        list@ == enabled@.subrange(0, i as int).filter(
                            |inv: Inverter| inv.datalog@ == datalog@,
                        ),
                    decreases enabled@.len() - i,
                {
                    proof {
                        assert(enabled@.subrange(0, i + 1).drop_last() =~= enabled@.subrange(
                            0,
                            i as int,
                        ));
                        reveal_with_fuel(Seq::filter, 2);
                    }
                    if enabled[i].datalog.eq_serial(&datalog) {
                        list.push(enabled[i].duplicate());
                    }
                    i += 1;
                }
                proof {
                    assert(enabled@.subrange(0, enabled@.len() as int) =~= enabled@);
                }
                Ok(list)
            },
        }
    }

    pub fn mqtt(&self) -> (r: Mqtt)
        ensures
            r == self.spec_config().mqtt,
    {
        self.config.mqtt.duplicate()
    }

    pub fn influx(&self) -> (r: Influx)
        ensures
            r == self.spec_config().influx,
    {
        self.config.influx.duplicate()
    }

    pub fn databases(&self) -> (r: &Vec<Database>)
        ensures
            r@ == self.spec_config().databases@,
    {
        &self.config.databases
    }

    pub fn set_databases(&mut self, new: Vec<Database>)
        ensures
            final(self).spec_config() == (Config { databases: new, ..old(self).spec_config() }),
    {
        self.config.databases = new;
    }

    /// The enabled database sinks, in configuration order.
    pub fn enabled_databases(&self) -> (r: Vec<Database>)
        ensures
            r@ == self.spec_config().databases@.filter(|db: Database| db.enabled),
    {
        let mut r: Vec<Database> = Vec::new();
        let dbs = &self.config.databases;
        let mut i: usize = 0;
        while i < dbs.len()
            invariant
                i <= dbs@.len(),
                r@ == dbs@.subrange(0, i as int).filter(|db: Database| db.enabled),
            decreases dbs@.len() - i,
        {
            proof {
                assert(dbs@.subrange(0, i + 1).drop_last() =~= dbs@.subrange(0, i as int));
                reveal_with_fuel(Seq::filter, 2);
            }
            if dbs[i].enabled {
                r.push(dbs[i].duplicate());
            }
            i += 1;
        }
        proof {
            assert(dbs@.subrange(0, dbs@.len() as int) =~= dbs@);
        }
        r
    }

    pub fn have_enabled_database(&self) -> (r: bool)
        ensures
            r == (self.spec_config().databases@.filter(|db: Database| db.enabled).len() > 0),
    {
        self.enabled_databases().len() > 0
    }

    pub fn scheduler(&self) -> (r: Option<Scheduler>)
        ensures
            r == self.spec_config().scheduler,
    {
        match &self.config.scheduler {
            Some(s) => Some(s.duplicate()),
            None => None,
        }
    }

    pub fn loglevel(&self) -> (r: String)
        ensures
            r@ == self.spec_config().loglevel@,
    {
        self.config.loglevel.clone()
    }

    pub fn read_only(&self) -> (r: bool)
        ensures
            r == self.spec_config().read_only,
    {
        self.config.read_only
    }
}

impl Clone for Inverter {
    fn clone(&self) -> Self {
        self.duplicate()
    }
}

impl Clone for HomeAssistant {
    fn clone(&self) -> Self {
        self.duplicate()
    }
}

impl Clone for Mqtt {
    fn clone(&self) -> Self {
        self.duplicate()
    }
}

impl Clone for Influx {
    fn clone(&self) -> Self {
        self.duplicate()
    }
}

impl Clone for Database {
    fn clone(&self) -> Self {
        self.duplicate()
    }
}

impl Clone for Scheduler {
    fn clone(&self) -> Self {
        self.duplicate()
    }
}

impl Clone for Config {
    fn clone(&self) -> Self {
        self.duplicate()
    }
}

} // verus!
