use vstd::prelude::*;

use crate::text::{copy_strings, list_items, parse_id_list, parsed_ids, split_list};

verus! {

/// Command-line options of the node.
#[derive(Debug, Clone)]
pub struct Cli {
    pub non_interactive: bool,
    pub no_download: bool,
    pub no_extract: bool,
    pub port: Option<u16>,
    pub data_dir: Option<String>,
    pub config: Option<String>,
    pub verbose: bool,
    pub quiet: bool,
    pub bootstrap: Vec<String>,
    pub nat: Option<String>,
    pub listen_addrs: Option<String>,
    pub locality_ids: Option<String>,
}

pub open spec fn opt_str(o: Option<String>) -> Option<Seq<char>> {
    match o {
        Some(s) => Some(s@),
        None => None,
    }
}

pub open spec fn log_level(quiet: bool, verbose: bool) -> Seq<char> {
    if quiet {
        "error"@
    } else if verbose {
        "debug"@
    } else {
        "info"@
    }
}

impl Cli {
    /// The port given on the command line, else the one from the environment.
    pub fn get_port(&self, env_port: Option<u16>) -> (r: Option<u16>)
        ensures
            r == (if self.port is Some {
                self.port
            } else {
                env_port
            }),
    {
        match self.port {
            Some(p) => Some(p),
            None => env_port,
        }
    }

    /// The data directory given on the command line, else the one from the
    /// environment.
    pub fn get_data_dir(&self, env_dir: Option<String>) -> (r: Option<String>)
        ensures
            opt_str(r) == (if self.data_dir is Some {
                opt_str(self.data_dir)
            } else {
                opt_str(env_dir)
            }),
    {
        match &self.data_dir {
            Some(d) => Some(d.clone()),
            None => env_dir,
        }
    }

    pub fn is_non_interactive(&self) -> (r: bool)
        ensures
            r == self.non_interactive,
    {
        self.non_interactive
    }

    pub fn should_skip_download(&self) -> (r: bool)
        ensures
            r == self.no_download,
    {
        self.no_download
    }

    pub fn should_skip_extract(&self) -> (r: bool)
        ensures
            r == self.no_extract,
    {
        self.no_extract
    }

    /// `error` when quiet, else `debug` when verbose, else `info`.
    pub fn get_log_level(&self) -> (r: &'static str)
        ensures
            r@ == log_level(self.quiet, self.verbose),
    {
        proof {
            reveal_strlit("error");
            reveal_strlit("debug");
            reveal_strlit("info");
        }
        if self.quiet {
            "error"
        } else if self.verbose {
            "debug"
        } else {
            "info"
        }
    }

    /// The bootstrap nodes given on the command line, else those from the environment.
    pub fn get_bootstrap_nodes(&self, env_nodes: Vec<String>) -> (r: Vec<String>)
        ensures
            r.deep_view() == (if self.bootstrap@.len() > 0 {
                self.bootstrap.deep_view()
            } else {
                env_nodes.deep_view()
            }),
    {
        if self.bootstrap.len() > 0 {
            copy_strings(&self.bootstrap)
        } else {
            env_nodes
        }
    }

    /// The NAT method given on the command line, else the one from the environment.
    pub fn get_nat(&self, env_nat: String) -> (r: String)
        ensures
            r@ == (if self.nat is Some {
                self.nat->Some_0@
            } else {
                env_nat@
            }),
    {
        match &self.nat {
            Some(n) => n.clone(),
            None => env_nat,
        }
    }

    /// The listen addresses given on the command line as a comma-separated list,
    /// else those from the environment.
    pub fn get_listen_addrs(&self, env_addrs: Vec<String>) -> (r: Vec<String>)
        ensures
            r.deep_view() == (if self.listen_addrs is Some {
                list_items(self.listen_addrs->Some_0@)
            } else {
                env_addrs.deep_view()
            }),
    {
        match &self.listen_addrs {
            Some(addrs) => split_list(addrs.as_str()),
            None => env_addrs,
        }
    }

    /// The locality ids given on the command line as a comma-separated list (items
    /// that are not numbers are left out), else those from the environment.
    pub fn get_locality_ids(&self, env_ids: Vec<u32>) -> (r: Vec<u32>)
        ensures
            r@ == (if self.locality_ids is Some {
                parsed_ids(list_items(self.locality_ids->Some_0@))
            } else {
                env_ids@
            }),
    {
        match &self.locality_ids {
            Some(ids) => parse_id_list(ids.as_str()),
            None => env_ids,
        }
    }
}

} // verus!
