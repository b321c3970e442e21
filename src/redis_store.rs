use vstd::prelude::*;
use vstd::string::StringExecFns;
use std::marker::PhantomData;
use std::sync::Arc;
use crate::addr::{
    opt_text, parse_url, parsed_url, set_url_password, set_url_path, set_url_port, set_url_query, set_url_username,
    url_with_password, url_with_path, url_with_port, url_with_query, url_with_username,
};
use crate::error::{ConfigurationError, SessionError};
use crate::session::{Session, StoredRecord};
use crate::text::{decimal, decimal_text, uuid_text, uuid_text_of};

verus! {

#[verifier::external_type_specification]
#[verifier::external_body]
pub struct ExHmacKey(ring::hmac::Key);

/// Relies on `ring::hmac::Key::new` with `HMAC_SHA256`: a signing key made
/// from the secret's bytes.
#[verifier::external_body]
fn hmac_sha256_key(secret: &[u8]) -> ring::hmac::Key {
    ring::hmac::Key::new(ring::hmac::HMAC_SHA256, secret)
}

/// What stands for the user name in a URL shown for diagnostics.
pub const REDACTED_CREDENTIALS: &'static str = "<credentials>";

/// The settings shared by every node of a store. It has no `Debug`, so the
/// password cannot reach a log.
#[derive(Clone, Copy)]
pub struct RedisStoreConfig<'a> {
    /// The cookie or header name that the store governs.
    pub key_name: &'a str,
    /// The secret from which the store's signing key is made.
    pub key: &'a str,
    pub username: Option<&'a str>,
    pub password: Option<&'a str>,
}

/// Where one node listens.
#[derive(Clone, Copy, Debug)]
pub struct RedisStoreNodeConfig<'a> {
    pub host: &'a str,
    pub port: Option<u16>,
    pub db: Option<u16>,
}

/// Whether a store talks to one node or to a cluster.
#[derive(Clone, Copy, Debug, PartialEq, Eq, Structural)]
pub enum Topology {
    Standalone,
    Cluster,
}

/// The topology that `node_count` nodes and the cluster flag call for, or
/// the configuration error when they disagree.
pub open spec fn topology_for(node_count: nat, is_cluster: bool) -> Result<Topology, ConfigurationError> {
    if node_count == 0 {
        Err(ConfigurationError::NoNodes)
    } else if is_cluster && node_count == 1 {
        Err(ConfigurationError::ClusterWithOneNode)
    } else if !is_cluster && node_count > 1 {
        Err(ConfigurationError::StandaloneWithManyNodes)
    } else if is_cluster {
        Ok(Topology::Cluster)
    } else {
        Ok(Topology::Standalone)
    }
}

/// Chooses the topology from the number of nodes and the cluster flag: no
/// nodes, or a flag that disagrees with the count, is a configuration error.
pub fn select_topology(node_count: usize, is_cluster: bool) -> (r: Result<Topology, ConfigurationError>)
    ensures
        r == topology_for(node_count as nat, is_cluster),
{
    if node_count == 0 {
        Err(ConfigurationError::NoNodes)
    } else if is_cluster && node_count == 1 {
        Err(ConfigurationError::ClusterWithOneNode)
    } else if !is_cluster && node_count > 1 {
        Err(ConfigurationError::StandaloneWithManyNodes)
    } else if is_cluster {
        Ok(Topology::Cluster)
    } else {
        Ok(Topology::Standalone)
    }
}

/// The text `redis://`.
pub open spec fn redis_scheme() -> Seq<char> {
    seq!['r', 'e', 'd', 'i', 's', ':', '/', '/']
}

/// The URL `redis://{host}` with the user name (when given), password,
/// port, path (when given) and query set on it in that order, or the step
/// that failed.
pub open spec fn url_of(
    username: Option<Seq<char>>,
    password: Option<Seq<char>>,
    host: Seq<char>,
    port: Option<u16>,
    path: Option<Seq<char>>,
    query: Option<Seq<char>>,
) -> Result<Seq<char>, ConfigurationError> {
    match parsed_url(redis_scheme() + host) {
        None => Err(ConfigurationError::InvalidAddress),
        Some(u0) => {
            let u1 = match username {
                Some(n) => url_with_username(u0, n),
                None => Some(u0),
            };
            match u1 {
                None => Err(ConfigurationError::InvalidUsername),
                Some(u1) => match url_with_password(u1, password) {
                    None => Err(ConfigurationError::InvalidPassword),
                    Some(u2) => match url_with_port(u2, port) {
                        None => Err(ConfigurationError::InvalidPort),
                        Some(u3) => {
                            let u4 = match path {
                                Some(p) => url_with_path(u3, p),
                                None => Some(u3),
                            };
                            match u4 {
                                None => Err(ConfigurationError::InvalidAddress),
                                Some(u4) => match url_with_query(u4, query) {
                                    None => Err(ConfigurationError::InvalidAddress),
                                    Some(u5) => Ok(u5),
                                },
                            }
                        },
                    },
                },
            }
        },
    }
}

/// True when `r` is the outcome that `url_of` describes.
pub open spec fn url_outcome(r: Result<String, SessionError>, expected: Result<Seq<char>, ConfigurationError>) -> bool {
    match expected {
        Ok(t) => r is Ok && r->Ok_0@ == t,
        Err(c) => r == Err::<String, SessionError>(SessionError::Configuration(c)),
    }
}

/// The URL `redis://{host}` with the given user name, password, port, path
/// and query set on it, as text.
pub fn url(
    username: Option<&str>,
    password: Option<&str>,
    host: &str,
    port: Option<u16>,
    path: Option<&str>,
    query: Option<&str>,
) -> (r: Result<String, SessionError>)
    ensures
        url_outcome(r, url_of(opt_text(username), opt_text(password), host@, port, opt_text(path), opt_text(query))),
{
    proof {
        reveal_strlit("redis://");
    }
    let mut text = String::from_str("redis://");
    text.append(host);
    assert(text@ =~= redis_scheme() + host@);
    let u = match parse_url(text.as_str()) {
        Some(u) => u,
        None => return Err(SessionError::Configuration(ConfigurationError::InvalidAddress)),
    };
    let u = match username {
        Some(username) => match set_url_username(u.as_str(), username) {
            Some(u) => u,
            None => return Err(SessionError::Configuration(ConfigurationError::InvalidUsername)),
        },
        None => u,
    };
    let u = match set_url_password(u.as_str(), password) {
        Some(u) => u,
        None => return Err(SessionError::Configuration(ConfigurationError::InvalidPassword)),
    };
    let u = match set_url_port(u.as_str(), port) {
        Some(u) => u,
        None => return Err(SessionError::Configuration(ConfigurationError::InvalidPort)),
    };
    let u = match path {
        Some(path) => match set_url_path(u.as_str(), path) {
            Some(u) => u,
            None => return Err(SessionError::Configuration(ConfigurationError::InvalidAddress)),
        },
        None => u,
    };
    match set_url_query(u.as_str(), query) {
        Some(u) => Ok(u),
        None => Err(SessionError::Configuration(ConfigurationError::InvalidAddress)),
    }
}

/// The user name shown in place of the credentials: a fixed placeholder
/// when a user name or a password is given, else none.
pub fn redacted_username(username: Option<&str>, password: Option<&str>) -> (r: Option<&'static str>)
    ensures
        r is Some <==> (username is Some || password is Some),
        r matches Some(s) ==> s@ == REDACTED_CREDENTIALS@,
{
    if username.is_some() || password.is_some() {
        Some(REDACTED_CREDENTIALS)
    } else {
        None
    }
}

/// The same URL as `url`, for diagnostics: the credentials are replaced by
/// a placeholder user name and no password.
pub fn safe_url(
    username: Option<&str>,
    password: Option<&str>,
    host: &str,
    port: Option<u16>,
    path: Option<&str>,
    query: Option<&str>,
) -> (r: Result<String, SessionError>)
    ensures
        url_outcome(
            r,
            url_of(
                redacted_of(username, password),
                None,
                host@,
                port,
                opt_text(path),
                opt_text(query),
            ),
        ),
{
    let username = redacted_username(username, password);
    url(username, None, host, port, path, query)
}

/// The path that selects database `db`: `/` and its number.
pub fn db_path(db: Option<u16>) -> (r: Option<String>)
    ensures
        r is Some <==> db is Some,
        r matches Some(p) ==> p@ == seq!['/'] + decimal(db->Some_0 as int),
{
    match db {
        Some(db) => {
            let mut p = String::from_str("/");
            proof {
                reveal_strlit("/");
            }
            let n = decimal_text(db as i64);
            p.append(n.as_str());
            Some(p)
        },
        None => None,
    }
}

/// A node's connection URL and the form of it that may be shown.
pub struct NodeAddress {
    pub url: String,
    pub safe_url: String,
}

/// The path that selects database `db`, as text.
pub open spec fn db_path_of(db: Option<u16>) -> Option<Seq<char>> {
    match db {
        Some(d) => Some(seq!['/'] + decimal(d as int)),
        None => None,
    }
}

/// The placeholder user name shown when credentials are given.
pub open spec fn redacted_of(username: Option<&str>, password: Option<&str>) -> Option<Seq<char>> {
    if username is Some || password is Some {
        Some(REDACTED_CREDENTIALS@)
    } else {
        None
    }
}

/// The connection URL of `node` under `config`.
pub open spec fn node_url_of(config: RedisStoreConfig, node: RedisStoreNodeConfig) -> Result<Seq<char>, ConfigurationError> {
    url_of(opt_text(config.username), opt_text(config.password), node.host@, node.port, db_path_of(node.db), None)
}

/// The redacted connection URL of `node` under `config`.
pub open spec fn node_safe_url_of(config: RedisStoreConfig, node: RedisStoreNodeConfig) -> Result<Seq<char>, ConfigurationError> {
    url_of(redacted_of(config.username, config.password), None, node.host@, node.port, db_path_of(node.db), None)
}

/// True when `r` is the address that `config` and `node` give: both URLs,
/// or the first error.
pub open spec fn address_outcome(config: RedisStoreConfig, node: RedisStoreNodeConfig, r: Result<NodeAddress, SessionError>) -> bool {
    match node_url_of(config, node) {
        Err(c) => r == Err::<NodeAddress, SessionError>(SessionError::Configuration(c)),
        Ok(u) => match node_safe_url_of(config, node) {
            Err(c) => r == Err::<NodeAddress, SessionError>(SessionError::Configuration(c)),
            Ok(v) => r is Ok && r->Ok_0.url@ == u && r->Ok_0.safe_url@ == v,
        },
    }
}

/// The connection URL of one node, and its redacted form.
pub fn node_address(config: &RedisStoreConfig, node: &RedisStoreNodeConfig) -> (r: Result<NodeAddress, SessionError>)
    ensures
        address_outcome(*config, *node, r),
{
    let path = db_path(node.db);
    let path_str: Option<&str> = match &path {
        Some(p) => Some(p.as_str()),
        None => None,
    };
    assert(opt_text(path_str) == db_path_of(node.db));
    let u = url(config.username, config.password, node.host, node.port, path_str, None)?;
    let s = safe_url(config.username, config.password, node.host, node.port, path_str, None)?;
    Ok(NodeAddress { url: u, safe_url: s })
}

/// What a store is built from: its topology and the addresses of its nodes,
/// in the order given.
pub struct StorePlan {
    pub topology: Topology,
    pub nodes: Vec<NodeAddress>,
}

/// Plans a store over `nodes`: the topology that the node count and the
/// cluster flag call for, then the address of every node.
pub fn plan_store(config: &RedisStoreConfig, nodes: &Vec<RedisStoreNodeConfig>, is_cluster: bool) -> (r: Result<StorePlan, SessionError>)
    ensures
        topology_for(nodes@.len(), is_cluster) matches Err(c) ==> r == Err::<StorePlan, SessionError>(SessionError::Configuration(c)),
        topology_for(nodes@.len(), is_cluster) matches Ok(t) ==> match r {
            Ok(p) => {
                &&& p.topology == t
                &&& p.nodes@.len() == nodes@.len()
                &&& forall|i: int| 0 <= i < nodes@.len() ==> #[trigger] address_outcome(*config, nodes@[i], Ok(p.nodes@[i]))
            },
            Err(e) => exists|i: int| 0 <= i < nodes@.len() && #[trigger] address_outcome(*config, nodes@[i], Err(e)),
        },
{
    let topology = match select_topology(nodes.len(), is_cluster) {
        Ok(t) => t,
        Err(c) => return Err(SessionError::Configuration(c)),
    };
    let mut addresses: Vec<NodeAddress> = Vec::new();
    let mut i: usize = 0;
    while i < nodes.len()
        invariant
            i <= nodes@.len(),
            addresses@.len() == i,
            forall|k: int| 0 <= k < i ==> #[trigger] address_outcome(*config, nodes@[k], Ok(addresses@[k])),
            topology_for(nodes@.len(), is_cluster) == Ok::<Topology, ConfigurationError>(topology),
        decreases nodes@.len() - i,
    {
        let a = match node_address(config, &nodes[i]) {
            Ok(a) => a,
            Err(e) => {
                assert(address_outcome(*config, nodes@[i as int], Err(e)));
                return Err(e);
            },
        };
        addresses.push(a);
        i = i + 1;
    }
    Ok(StorePlan { topology, nodes: addresses })
}

/// A Redis command: its name and arguments.
pub struct RedisCommand {
    pub name: String,
    pub args: Vec<String>,
}

/// The texts of a list of strings.
pub open spec fn texts(v: Seq<String>) -> Seq<Seq<char>> {
    v.map_values(|s: String| s@)
}

impl RedisCommand {
    pub open spec fn spec_name(&self) -> Seq<char> {
        self.name@
    }

    pub open spec fn spec_args(&self) -> Seq<Seq<char>> {
        texts(self.args@)
    }
}

/// The arguments of the write of a record: its key and value, and an
/// expiry in seconds in the same command when there is one.
pub open spec fn set_args(key: Seq<char>, value: Seq<char>, ttl: Option<int>) -> Seq<Seq<char>> {
    match ttl {
        Some(t) => seq![key, value, seq!['E', 'X'], decimal(t)],
        None => seq![key, value],
    }
}

/// The commands that persist one envelope: the write itself, and the
/// best-effort index write when a prefix is given.
pub struct SetCommands {
    pub set: RedisCommand,
    pub index: Option<RedisCommand>,
}

fn command(name: &str, args: Vec<String>) -> (r: RedisCommand)
    ensures
        r.name@ == name@,
        r.args@ == args@,
{
    RedisCommand { name: String::from_str(name), args }
}

/// A store on Redis: the name it governs, its signing key and a connection
/// pool. It persists envelopes of `T`.
pub struct RedisStore<T, Pool> {
    key_name: String,
    key: Arc<ring::hmac::Key>,
    pool: Pool,
    _value: PhantomData<T>,
}

impl<T, Pool> RedisStore<T, Pool> {
    pub closed spec fn spec_key_name(&self) -> Seq<char> {
        self.key_name@
    }

    /// A store over `pool`, named and keyed as `config` says.
    pub fn new(config: RedisStoreConfig, pool: Pool) -> (r: Self)
        ensures
            r.spec_key_name() == config.key_name@,
    {
        RedisStore {
            key_name: String::from_str(config.key_name),
            key: Arc::new(hmac_sha256_key(config.key.as_bytes())),
            pool,
            _value: PhantomData,
        }
    }

    /// The cookie or header name that the store governs.
    pub fn key_name(&self) -> (r: &str)
        ensures
            r@ == self.spec_key_name(),
    {
        self.key_name.as_str()
    }

    /// The store's signing key.
    pub fn key(&self) -> &ring::hmac::Key {
        &*self.key
    }

    /// The store's connection pool.
    pub fn pool(&self) -> &Pool {
        &self.pool
    }

    /// The commands that persist `session` under `session_id`, its record
    /// serialized as `value`: `SET id value [EX ttl]`, with the TTL derived
    /// from the envelope, and `SADD prefix id` when a prefix is given.
    pub fn set_commands(
        &self,
        prefix: Option<String>,
        session_id: u128,
        value: String,
        session: &Session<T>,
    ) -> (r: SetCommands)
        requires
            session.wf(),
        ensures
            r.set.spec_name() == seq!['S', 'E', 'T'],
            r.set.spec_args() == set_args(uuid_text_of(session_id), value@, session.ttl()),
            r.index is Some <==> prefix is Some,
            r.index matches Some(c) ==> c.spec_name() == seq!['S', 'A', 'D', 'D']
                && c.spec_args() == seq![prefix->Some_0@, uuid_text_of(session_id)],
    {
        proof {
            reveal_strlit("SET");
            reveal_strlit("SADD");
            reveal_strlit("EX");
        }
        let key = uuid_text(session_id);
        let ttl = session.ttl_seconds();
        let mut args: Vec<String> = Vec::new();
        args.push(key.clone());
        args.push(value);
        let ghost value_text = value@;
        if let Some(t) = ttl {
            let ex = String::from_str("EX");
            assert(ex@ =~= seq!['E', 'X']);
            args.push(ex);
            args.push(decimal_text(t));
            assert(texts(args@) =~= set_args(uuid_text_of(session_id), value_text, session.ttl()));
        } else {
            assert(texts(args@) =~= set_args(uuid_text_of(session_id), value_text, session.ttl()));
        }
        let set = command("SET", args);
        let index = match prefix {
            Some(p) => {
                let mut index_args: Vec<String> = Vec::new();
                index_args.push(p);
                index_args.push(key);
                assert(texts(index_args@) =~= seq![p@, uuid_text_of(session_id)]);
                Some(command("SADD", index_args))
            },
            None => None,
        };
        SetCommands { set, index }
    }

    /// The command that reads the record of `session_id`: `GET id`.
    pub fn get_command(&self, session_id: u128) -> (r: RedisCommand)
        ensures
            r.spec_name() == seq!['G', 'E', 'T'],
            r.spec_args() == seq![uuid_text_of(session_id)],
    {
        proof {
            reveal_strlit("GET");
        }
        let mut args: Vec<String> = Vec::new();
        args.push(uuid_text(session_id));
        assert(texts(args@) =~= seq![uuid_text_of(session_id)]);
        command("GET", args)
    }

    /// The command that removes the record of `session_id`: `DEL id`.
    pub fn delete_command(&self, session_id: u128) -> (r: RedisCommand)
        ensures
            r.spec_name() == seq!['D', 'E', 'L'],
            r.spec_args() == seq![uuid_text_of(session_id)],
    {
        proof {
            reveal_strlit("DEL");
        }
        let mut args: Vec<String> = Vec::new();
        args.push(uuid_text(session_id));
        assert(texts(args@) =~= seq![uuid_text_of(session_id)]);
        command("DEL", args)
    }

    /// The envelope that a read under `session_id` returns for the stored
    /// record: its id is the requested one.
    pub fn session_from_record(&self, session_id: u128, record: StoredRecord<T>) -> (r: Session<T>)
        ensures
            r == crate::session::session_of(record, session_id),
    {
        record.into_session(session_id)
    }
}

} // verus!
