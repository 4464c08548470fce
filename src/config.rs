use vstd::prelude::*;

use crate::naming::{parse_unsigned, parsed_unsigned};
use crate::text::{list_items, parse_id_list, parsed_ids, split_list, split_trimmed, trimmed_fields};

verus! {

/// Why the configuration could not be built.
#[derive(Debug, Clone)]
pub enum ConfigError {
    MissingEnvVar(String),
    InvalidValue(String),
}

impl ConfigError {
    pub open spec fn text(&self) -> Seq<char> {
        match self {
            ConfigError::MissingEnvVar(v) => "Missing required environment variable: "@ + v@,
            ConfigError::InvalidValue(m) => "Invalid configuration value: "@ + m@,
        }
    }

    /// The message shown for the error.
    pub fn message(&self) -> (r: String)
        ensures
            r@ == self.text(),
    {
        proof {
            reveal_strlit("Missing required environment variable: ");
            reveal_strlit("Invalid configuration value: ");
        }
        match self {
            ConfigError::MissingEnvVar(v) => {
                let mut s = String::from_str("Missing required environment variable: ");
                s.append(v.as_str());
                s
            },
            ConfigError::InvalidValue(m) => {
                let mut s = String::from_str("Invalid configuration value: ");
                s.append(m.as_str());
                s
            },
        }
    }
}

/// Settings of a run.
#[derive(Debug, Clone)]
pub struct Config {
    pub storage_data_dir: String,
    pub storage_quota: u64,
    pub discovery_port: u16,
    pub max_peers: u32,
    pub bootstrap_nodes: Vec<String>,
    pub nat: String,
    pub listen_addrs: Vec<String>,
    pub whosonfirst_db_path: String,
    pub cid_db_path: String,
    pub areas_dir: String,
    pub bzip2_cmd: String,
    pub pmtiles_cmd: String,
    pub target_countries: Vec<String>,
    pub area_ids: Vec<u32>,
    pub max_concurrent_extractions: usize,
    pub planet_pmtiles_location: Option<String>,
    pub whosonfirst_db_url: String,
}

/// The raw values of the environment variables that a configuration is read from.
#[derive(Debug, Clone)]
pub struct EnvValues {
    pub storage_data_dir: Option<String>,
    pub storage_quota_gb: Option<String>,
    pub storage_discovery_port: Option<String>,
    pub storage_max_peers: Option<String>,
    pub whosonfirst_db_path: Option<String>,
    pub cid_db_path: Option<String>,
    pub areas_dir: Option<String>,
    pub bzip2_cmd: Option<String>,
    pub pmtiles_cmd: Option<String>,
    pub target_countries: Option<String>,
    pub area_ids: Option<String>,
    pub max_concurrent_extractions: Option<String>,
    pub planet_pmtiles_location: Option<String>,
    pub storage_bootstrap_nodes: Option<String>,
    pub storage_nat: Option<String>,
    pub storage_listen_addrs: Option<String>,
    pub whosonfirst_db_url: Option<String>,
}

pub const BYTES_PER_GB: u64 = 1073741824;

/// The largest quota in GB whose size in bytes fits in a `u64`.
pub const MAX_QUOTA_GB: u64 = 17179869183;

pub open spec fn number_in(o: Option<String>, max: int) -> Option<int> {
    match o {
        Some(s) => parsed_unsigned(s@, max),
        None => None,
    }
}

/// A variable that holds a value: missing, or empty, counts as absent.
pub open spec fn present(o: Option<String>) -> Option<Seq<char>> {
    match o {
        Some(s) => if s@.len() > 0 {
            Some(s@)
        } else {
            None
        },
        None => None,
    }
}

/// The first problem with the environment, in the order the variables are read:
/// `(true, name)` for a missing variable, `(false, name)` for one that holds no valid
/// number.
pub open spec fn env_problem(v: EnvValues) -> Option<(bool, Seq<char>)> {
    if v.storage_data_dir is None {
        Some((true, "STORAGE_DATA_DIR"@))
    } else if v.storage_quota_gb is None {
        Some((true, "STORAGE_QUOTA_GB"@))
    } else if number_in(v.storage_quota_gb, MAX_QUOTA_GB as int) is None {
        Some((false, "STORAGE_QUOTA_GB"@))
    } else if v.storage_discovery_port is None {
        Some((true, "STORAGE_DISCOVERY_PORT"@))
    } else if number_in(v.storage_discovery_port, u16::MAX as int) is None {
        Some((false, "STORAGE_DISCOVERY_PORT"@))
    } else if v.storage_max_peers is None {
        Some((true, "STORAGE_MAX_PEERS"@))
    } else if number_in(v.storage_max_peers, u32::MAX as int) is None {
        Some((false, "STORAGE_MAX_PEERS"@))
    } else if v.whosonfirst_db_path is None {
        Some((true, "WHOSONFIRST_DB_PATH"@))
    } else if v.cid_db_path is None {
        Some((true, "CID_DB_PATH"@))
    } else if v.areas_dir is None {
        Some((true, "AREAS_DIR"@))
    } else if v.bzip2_cmd is None {
        Some((true, "BZIP2_CMD"@))
    } else if v.pmtiles_cmd is None {
        Some((true, "PMTILES_CMD"@))
    } else if v.target_countries is None {
        Some((true, "TARGET_COUNTRIES"@))
    } else if v.max_concurrent_extractions is None {
        Some((true, "MAX_CONCURRENT_EXTRACTIONS"@))
    } else if number_in(v.max_concurrent_extractions, usize::MAX as int) is None {
        Some((false, "MAX_CONCURRENT_EXTRACTIONS"@))
    } else if v.storage_nat is None {
        Some((true, "STORAGE_NAT"@))
    } else if v.storage_listen_addrs is None {
        Some((true, "STORAGE_LISTEN_ADDRS"@))
    } else if v.whosonfirst_db_url is None {
        Some((true, "WHOSONFIRST_DB_URL"@))
    } else {
        None
    }
}

pub open spec fn same(o: Option<String>, s: String) -> bool {
    o is Some && s@ == o->Some_0@
}

fn required(o: &Option<String>, name: &str) -> (r: Result<String, ConfigError>)
    ensures
        o is None ==> (r matches Err(ConfigError::MissingEnvVar(n)) && n@ == name@),
        o is Some ==> (r matches Ok(s) && s@ == o->Some_0@),
{
    match o {
        Some(s) => Ok(s.clone()),
        None => Err(ConfigError::MissingEnvVar(String::from_str(name))),
    }
}

fn required_number(o: &Option<String>, name: &str, max: u64) -> (r: Result<u64, ConfigError>)
    ensures
        o is None ==> (r matches Err(ConfigError::MissingEnvVar(n)) && n@ == name@),
        o is Some && number_in(*o, max as int) is None ==> (r matches Err(
            ConfigError::InvalidValue(m),
        ) && m@ == name@ + ": invalid number"@),
        o is Some && number_in(*o, max as int) is Some ==> (r matches Ok(v) && v as int
            == number_in(*o, max as int)->Some_0),
{
    match o {
        Some(s) => match parse_unsigned(s.as_str(), max) {
            Some(v) => Ok(v),
            None => {
                proof {
                    reveal_strlit(": invalid number");
                }
                let mut m = String::from_str(name);
                m.append(": invalid number");
                Err(ConfigError::InvalidValue(m))
            },
        },
        None => Err(ConfigError::MissingEnvVar(String::from_str(name))),
    }
}

fn present_value(o: &Option<String>) -> (r: Option<String>)
    ensures
        match r {
            Some(s) => present(*o) == Some(s@),
            None => present(*o) is None,
        },
{
    match o {
        Some(s) => if s.unicode_len() > 0 {
            Some(s.clone())
        } else {
            None
        },
        None => None,
    }
}

impl Config {
    /// Builds the configuration from the environment's values. Required variables
    /// that are missing, and numbers that do not parse or do not fit, are reported in
    /// the order the variables are read. The quota is given in GB and kept in bytes.
    pub fn from_env_values(v: &EnvValues) -> (r: Result<Config, ConfigError>)
        ensures
            r is Err <==> env_problem(*v) is Some,
            r matches Err(ConfigError::MissingEnvVar(n)) ==> env_problem(*v) == Some(
                (true, n@),
            ),
            r matches Err(ConfigError::InvalidValue(m)) ==> env_problem(*v) is Some && !env_problem(
                *v,
            )->Some_0.0 && m@ == env_problem(*v)->Some_0.1 + ": invalid number"@,
            r matches Ok(c) ==> {
                &&& same(v.storage_data_dir, c.storage_data_dir)
                &&& c.storage_quota as int == number_in(v.storage_quota_gb, MAX_QUOTA_GB as int)->Some_0
                    * BYTES_PER_GB
                &&& c.discovery_port as int == number_in(
                    v.storage_discovery_port,
                    u16::MAX as int,
                )->Some_0
                &&& c.max_peers as int == number_in(v.storage_max_peers, u32::MAX as int)->Some_0
                &&& same(v.whosonfirst_db_path, c.whosonfirst_db_path)
                &&& same(v.cid_db_path, c.cid_db_path)
                &&& same(v.areas_dir, c.areas_dir)
                &&& same(v.bzip2_cmd, c.bzip2_cmd)
                &&& same(v.pmtiles_cmd, c.pmtiles_cmd)
                &&& c.target_countries.deep_view() == list_items(v.target_countries->Some_0@)
                &&& c.area_ids@ == match present(v.area_ids) {
                    Some(s) => parsed_ids(list_items(s)),
                    None => Seq::empty(),
                }
                &&& c.max_concurrent_extractions as int == number_in(
                    v.max_concurrent_extractions,
                    usize::MAX as int,
                )->Some_0
                &&& match c.planet_pmtiles_location {
                    Some(p) => present(v.planet_pmtiles_location) == Some(p@),
                    None => present(v.planet_pmtiles_location) is None,
                }
                &&& c.bootstrap_nodes.deep_view() == match present(v.storage_bootstrap_nodes) {
                    Some(s) => trimmed_fields(s),
                    None => Seq::empty(),
                }
                &&& same(v.storage_nat, c.nat)
                &&& c.listen_addrs.deep_view() == list_items(v.storage_listen_addrs->Some_0@)
                &&& same(v.whosonfirst_db_url, c.whosonfirst_db_url)
            },
    {
        proof {
            reveal_strlit("STORAGE_DATA_DIR");
            reveal_strlit("STORAGE_QUOTA_GB");
            reveal_strlit("STORAGE_DISCOVERY_PORT");
            reveal_strlit("STORAGE_MAX_PEERS");
            reveal_strlit("WHOSONFIRST_DB_PATH");
            reveal_strlit("CID_DB_PATH");
            reveal_strlit("AREAS_DIR");
            reveal_strlit("BZIP2_CMD");
            reveal_strlit("PMTILES_CMD");
            reveal_strlit("TARGET_COUNTRIES");
            reveal_strlit("MAX_CONCURRENT_EXTRACTIONS");
            reveal_strlit("STORAGE_NAT");
            reveal_strlit("STORAGE_LISTEN_ADDRS");
            reveal_strlit("WHOSONFIRST_DB_URL");
        }
        let storage_data_dir = required(&v.storage_data_dir, "STORAGE_DATA_DIR")?;
        let quota_gb = required_number(&v.storage_quota_gb, "STORAGE_QUOTA_GB", MAX_QUOTA_GB)?;
        let discovery_port = required_number(
            &v.storage_discovery_port,
            "STORAGE_DISCOVERY_PORT",
            65535,
        )?;
        let max_peers = required_number(&v.storage_max_peers, "STORAGE_MAX_PEERS", 4294967295)?;
        let whosonfirst_db_path = required(&v.whosonfirst_db_path, "WHOSONFIRST_DB_PATH")?;
        let cid_db_path = required(&v.cid_db_path, "CID_DB_PATH")?;
        let areas_dir = required(&v.areas_dir, "AREAS_DIR")?;
        let bzip2_cmd = required(&v.bzip2_cmd, "BZIP2_CMD")?;
        let pmtiles_cmd = required(&v.pmtiles_cmd, "PMTILES_CMD")?;
        let targets = required(&v.target_countries, "TARGET_COUNTRIES")?;
        let max_concurrent = required_number(
            &v.max_concurrent_extractions,
            "MAX_CONCURRENT_EXTRACTIONS",
            usize::MAX as u64,
        )?;
        let nat_method = required(&v.storage_nat, "STORAGE_NAT")?;
        let listen = required(&v.storage_listen_addrs, "STORAGE_LISTEN_ADDRS")?;
        let whosonfirst_db_url = required(&v.whosonfirst_db_url, "WHOSONFIRST_DB_URL")?;
        let area_ids = match present_value(&v.area_ids) {
            Some(s) => parse_id_list(s.as_str()),
            None => Vec::new(),
        };
        let bootstrap_nodes = match present_value(&v.storage_bootstrap_nodes) {
            Some(s) => split_trimmed(s.as_str()),
            None => {
                let none: Vec<String> = Vec::new();
                proof {
                    assert(none.deep_view() =~= Seq::<Seq<char>>::empty());
                }
                none
            },
        };
        Ok(
            Config {
                storage_data_dir,
                storage_quota: quota_gb * BYTES_PER_GB,
                discovery_port: discovery_port as u16,
                max_peers: max_peers as u32,
                bootstrap_nodes,
                nat: nat_method,
                listen_addrs: split_list(listen.as_str()),
                whosonfirst_db_path,
                cid_db_path,
                areas_dir,
                bzip2_cmd,
                pmtiles_cmd,
                target_countries: split_list(targets.as_str()),
                area_ids,
                max_concurrent_extractions: max_concurrent as usize,
                planet_pmtiles_location: present_value(&v.planet_pmtiles_location),
                whosonfirst_db_url,
            },
        )
    }
}

} // verus!
