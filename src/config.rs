//! Client and server configuration, as the TOML loader hands it over, and the
//! lookups the deploy path makes in it.

use vstd::prelude::*;

verus! {

/// Which of the two configuration files is meant.
#[derive(Clone, Copy, Debug, PartialEq, Eq, Structural)]
pub enum ConfigType {
    Client,
    Server,
}

/// Paths of the client's signing key pair.
#[derive(Clone, Debug)]
pub struct KeyPairPaths {
    pub private_key: String,
    pub public_key: String,
}

impl KeyPairPaths {
    pub fn new(private_key: String, public_key: String) -> (r: Self)
        ensures
            r.private_key == private_key,
            r.public_key == public_key,
    {
        KeyPairPaths { private_key, public_key }
    }
}

/// The source paths of one client package, in order.
#[derive(Clone, Debug)]
pub struct ClientPackageConfig {
    pub sources: Vec<String>,
}

/// How the client reaches one server.
#[derive(Clone, Copy, Debug, PartialEq, Eq, Structural)]
pub struct RemoteConfig {
    pub port: u16,
    /// Connect and call timeout in seconds; zero disables it.
    pub timeout: u64,
    pub max_file_size: Option<u64>,
}

/// Client configuration: packages and remotes, each keyed by name.
#[derive(Clone, Debug)]
pub struct ClientConfig {
    pub packages: Vec<(String, ClientPackageConfig)>,
    pub remotes: Vec<(String, RemoteConfig)>,
}

/// How the server installs one package.
#[derive(Clone, Debug)]
pub struct ServerPackageConfig {
    pub deploy_path: String,
    pub before_deploy_script: Option<String>,
    pub after_deploy_script: Option<String>,
    pub backup_enabled: bool,
    pub backup_path: Option<String>,
}

/// Settings of the agent itself.
#[derive(Clone, Debug)]
pub struct ServerSettings {
    pub port: u16,
    pub max_file_size: u64,
    pub allowed_keys: Vec<String>,
}

/// Server configuration: packages keyed by name, and the agent's settings.
#[derive(Clone, Debug)]
pub struct ServerConfig {
    pub packages: Vec<(String, ServerPackageConfig)>,
    pub server: ServerSettings,
}

/// No two entries share a name: the entries are a map from names to values.
pub open spec fn unique_names<V>(entries: Seq<(String, V)>) -> bool {
    forall|i: int, j: int| 0 <= i < j < entries.len() ==> (#[trigger] entries[i]).0@ != (#[trigger] entries[j]).0@
}

impl ClientConfig {
    /// Package and remote names are each unique.
    pub open spec fn wf(&self) -> bool {
        unique_names(self.packages@) && unique_names(self.remotes@)
    }
}

impl ServerConfig {
    /// Package names are unique.
    pub open spec fn wf(&self) -> bool {
        unique_names(self.packages@)
    }
}

/// In entries with unique names, looking up an entry's name finds that entry.
pub proof fn lemma_lookup_unique<V>(entries: Seq<(String, V)>, i: int)
    requires
        unique_names(entries),
        0 <= i < entries.len(),
    ensures
        lookup(entries, entries[i].0@) == Some(entries[i].1),
{
    let ns = names(entries);
    assert forall|j: int| 0 <= j < i implies ns[j] != entries[i].0@ by {
        assert(entries[j].0@ != entries[i].0@);
    }
    lemma_position(ns, entries[i].0@, i);
}

/// The names of keyed entries, in order.
pub open spec fn names<V>(entries: Seq<(String, V)>) -> Seq<Seq<char>> {
    entries.map_values(|e: (String, V)| e.0@)
}

/// Index of the first occurrence of `key` in `names`.
pub open spec fn position(names: Seq<Seq<char>>, key: Seq<char>) -> Option<int>
    decreases names.len(),
{
    if names.len() == 0 {
        None
    } else if names[0] == key {
        Some(0)
    } else {
        match position(names.drop_first(), key) {
            Some(i) => Some(i + 1),
            None => None,
        }
    }
}

/// The value of the first entry named `key`.
pub open spec fn lookup<V>(entries: Seq<(String, V)>, key: Seq<char>) -> Option<V> {
    match position(names(entries), key) {
        Some(i) => Some(entries[i].1),
        None => None,
    }
}

proof fn lemma_position(names: Seq<Seq<char>>, key: Seq<char>, k: int)
    requires
        0 <= k <= names.len(),
        forall|j: int| 0 <= j < k ==> names[j] != key,
    ensures
        k < names.len() && names[k] == key ==> position(names, key) == Some(k),
        k == names.len() ==> position(names, key) is None,
    decreases k,
{
    if k > 0 {
        let d = names.drop_first();
        assert forall|j: int| 0 <= j < k - 1 implies d[j] != key by {
            assert(d[j] == names[j + 1]);
        }
        lemma_position(d, key, k - 1);
    }
}

proof fn lemma_position_bounds(names: Seq<Seq<char>>, key: Seq<char>)
    ensures
        position(names, key) matches Some(i) ==> 0 <= i < names.len() && names[i] == key,
    decreases names.len(),
{
    if names.len() > 0 && names[0] != key {
        lemma_position_bounds(names.drop_first(), key);
    }
}

/// Index of the first entry named `key`.
pub fn find_entry<V>(entries: &Vec<(String, V)>, key: &str) -> (r: Option<usize>)
    ensures
        r matches Some(i) ==> position(names(entries@), key@) == Some(i as int),
        r is None ==> position(names(entries@), key@) is None,
        r matches Some(i) ==> i < entries@.len(),
{
    let mut i: usize = 0;
    while i < entries.len()
        invariant
            i <= entries@.len(),
            forall|j: int| 0 <= j < i ==> names(entries@)[j] != key@,
        decreases entries@.len() - i,
    {
        let name = String::from_str(key);
        if entries[i].0 == name {
            proof {
                lemma_position(names(entries@), key@, i as int);
            }
            return Some(i);
        }
        i = i + 1;
    }
    proof {
        lemma_position(names(entries@), key@, i as int);
    }
    None
}

/// The remote for `ip`, else the `default` remote.
pub open spec fn remote_for(config: ClientConfig, ip: Seq<char>) -> Option<RemoteConfig> {
    match lookup(config.remotes@, ip) {
        Some(r) => Some(r),
        None => lookup(config.remotes@, "default"@),
    }
}

/// Server configuration for `ip`, falling back to the `default` remote.
pub fn get_remote_config<'a>(client_config: &'a ClientConfig, ip: &str) -> (r: Option<&'a RemoteConfig>)
    requires
        client_config.wf(),
    ensures
        r is Some <==> remote_for(*client_config, ip@) is Some,
        r is Some ==> *r->0 == remote_for(*client_config, ip@)->0,
{
    match find_entry(&client_config.remotes, ip) {
        Some(i) => Some(&client_config.remotes[i].1),
        None => match find_entry(&client_config.remotes, "default") {
            Some(i) => Some(&client_config.remotes[i].1),
            None => None,
        },
    }
}

/// A copy of a list of texts.
pub fn copy_texts(v: &Vec<String>) -> (r: Vec<String>)
    ensures
        r@ == v@,
{
    let mut out: Vec<String> = Vec::new();
    let mut i: usize = 0;
    while i < v.len()
        invariant
            i <= v@.len(),
            out@ =~= v@.subrange(0, i as int),
        decreases v@.len() - i,
    {
        out.push(v[i].clone());
        i = i + 1;
    }
    out
}

fn copy_optional(o: &Option<String>) -> (r: Option<String>)
    ensures
        r == *o,
{
    match o {
        Some(s) => Some(s.clone()),
        None => None,
    }
}

impl ServerPackageConfig {
    /// A copy of this package entry.
    pub fn duplicate(&self) -> (r: Self)
        ensures
            r == *self,
    {
        ServerPackageConfig {
            deploy_path: self.deploy_path.clone(),
            before_deploy_script: copy_optional(&self.before_deploy_script),
            after_deploy_script: copy_optional(&self.after_deploy_script),
            backup_enabled: self.backup_enabled,
            backup_path: copy_optional(&self.backup_path),
        }
    }
}

impl ClientPackageConfig {
    /// A copy of this package entry.
    pub fn duplicate(&self) -> (r: Self)
        ensures
            r.sources@ == self.sources@,
    {
        ClientPackageConfig { sources: copy_texts(&self.sources) }
    }
}

/// What a request needs from the server configuration, read at one instant.
pub struct ConfigSnapshot {
    pub allowed_keys: Vec<String>,
    pub package: Option<ServerPackageConfig>,
    pub max_file_size: u64,
}

impl ServerConfig {
    /// The package entry named `name`.
    pub fn package(&self, name: &str) -> (r: Option<ServerPackageConfig>)
        requires
            self.wf(),
        ensures
            r == lookup(self.packages@, name@),
    {
        proof {
            lemma_position_bounds(names(self.packages@), name@);
        }
        match find_entry(&self.packages, name) {
            Some(i) => Some(self.packages[i].1.duplicate()),
            None => None,
        }
    }

    /// The allowed keys, the entry of `package_name` and the size limit, taken together.
    pub fn snapshot(&self, package_name: &str) -> (r: ConfigSnapshot)
        requires
            self.wf(),
        ensures
            r.allowed_keys@ == self.server.allowed_keys@,
            r.package == lookup(self.packages@, package_name@),
            r.max_file_size == self.server.max_file_size,
    {
        ConfigSnapshot {
            allowed_keys: copy_texts(&self.server.allowed_keys),
            package: self.package(package_name),
            max_file_size: self.server.max_file_size,
        }
    }
}

} // verus!
