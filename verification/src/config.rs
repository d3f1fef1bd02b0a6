//! The configuration provider: for each server identifier, the command,
//! arguments, environment and declared port a start call snapshots.

use crate::table::Table;
use vstd::prelude::*;

verus! {

/// The launch recipe for one managed server. The environment is a mapping
/// with unique keys, applied additively over the inherited environment.
pub struct MCPServerConfig {
    pub command: String,
    pub args: Vec<String>,
    pub env: Table<String>,
    pub port: Option<u16>,
}

impl MCPServerConfig {
    pub open spec fn wf(&self) -> bool {
        self.env.wf()
    }

    /// A recipe with an empty environment; entries are added with
    /// `env.insert`, later values replacing earlier ones for the same key.
    pub fn new(command: String, args: Vec<String>, port: Option<u16>) -> (r: MCPServerConfig)
        ensures
            r.wf(),
            r.command == command,
            r.args == args,
            r.port == port,
            r.env@ == Map::<Seq<char>, String>::empty(),
    {
        MCPServerConfig { command, args, env: Table::new(), port }
    }
}

/// The set of configured servers, keyed by identifier.
pub struct Config {
    mcp_servers: Table<MCPServerConfig>,
}

impl View for Config {
    type V = Map<Seq<char>, MCPServerConfig>;

    closed spec fn view(&self) -> Map<Seq<char>, MCPServerConfig> {
        self.mcp_servers@
    }
}

impl Config {
    pub closed spec fn wf(&self) -> bool {
        &&& self.mcp_servers.wf()
        &&& forall|k: Seq<char>|
            self.mcp_servers@.contains_key(k) ==> (#[trigger] self.mcp_servers@[k]).wf()
    }

    /// Insert or replace the recipe for `name`.
    pub fn add_server(&mut self, name: String, cfg: MCPServerConfig)
        requires
            old(self).wf(),
            cfg.wf(),
        ensures
            final(self).wf(),
            final(self)@ == old(self)@.insert(name@, cfg),
    {
        self.mcp_servers.insert(name, cfg);
    }

    /// Remove the recipe for `name`; reports whether one was there.
    pub fn remove_server(&mut self, name: &String) -> (r: bool)
        requires
            old(self).wf(),
        ensures
            final(self).wf(),
            final(self)@ == old(self)@.remove(name@),
            r == old(self)@.contains_key(name@),
    {
        self.mcp_servers.remove(name)
    }

    /// Every configured server with its recipe, for callers that walk or
    /// persist the whole set.
    pub fn servers<'a>(&'a self) -> (r: &'a Vec<(String, MCPServerConfig)>)
        requires
            self.wf(),
        ensures
            forall|i: int|
                0 <= i < r@.len() ==> self@.contains_key(#[trigger] r@[i].0@) && self@[r@[i].0@]
                    == r@[i].1,
            forall|i: int, j: int| 0 <= i < j < r@.len() ==> r@[i].0@ != r@[j].0@,
            forall|k: Seq<char>|
                self@.contains_key(k) ==> exists|i: int| 0 <= i < r@.len() && r@[i].0@ == k,
    {
        self.mcp_servers.entries()
    }

    /// Look a recipe up; this is the boundary `start` consults.
    pub fn get_server<'a>(&'a self, name: &String) -> (r: Option<&'a MCPServerConfig>)
        requires
            self.wf(),
        ensures
            match r {
                Some(cfg) => self@.contains_key(name@) && *cfg == self@[name@] && cfg.wf(),
                None => !self@.contains_key(name@),
            },
    {
        self.mcp_servers.get(name)
    }
}

impl Default for Config {
    /// An empty configuration.
    fn default() -> (r: Config)
        ensures
            r.wf(),
            r@ == Map::<Seq<char>, MCPServerConfig>::empty(),
    {
        Config { mcp_servers: Table::new() }
    }
}

} // verus!
