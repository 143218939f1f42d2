//! The network section of the node's JSON config file, and the defaults that
//! fill in the fields the file leaves out.
use crate::duration::{whole_seconds_span, Duration};
use vstd::prelude::*;

verus! {

broadcast use vstd::string::to_string_from_display_ensures_for_str;

/// Time to persist Accounts Id in the router without removing them, in seconds.
pub const TTL_ACCOUNT_ID_ROUTER: i64 = 60 * 60;

/// The endpoint of a STUN server, in the form `<domain/ip>:<port>`.
pub type ServerAddr = String;

/// The public address of a node, in the form `<node public key>@<IP>:<port>`.
pub type PeerAddr = String;

/// Default maximum number of active peers.
pub open spec fn max_num_peers_default() -> u32 {
    40
}

/// Default minimum number of outbound connections.
pub open spec fn minimum_outbound_peers_default() -> u32 {
    5
}

/// Default lower bound of the ideal number of connections.
pub open spec fn ideal_connections_lo_default() -> u32 {
    30
}

/// Default upper bound of the ideal number of connections.
pub open spec fn ideal_connections_hi_default() -> u32 {
    35
}

/// Default size of the socket receive and send buffers.
pub open spec fn socket_buffer_size_default() -> Option<u32> {
    Some(1000000)
}

/// Default window within which a peer counts as active: 600 seconds.
pub open spec fn peer_recent_time_window_default() -> Duration {
    whole_seconds_span(600)
}

/// Default number of peers kept while removing a connection.
pub open spec fn safe_set_size_default() -> u32 {
    20
}

/// Default lower bound of the connections to archival peers.
pub open spec fn archival_peer_connections_lower_bound_default() -> u32 {
    10
}

/// Default time to persist account ids in the router.
pub open spec fn ttl_account_id_router_default() -> Duration {
    whole_seconds_span(TTL_ACCOUNT_ID_ROUTER as int)
}

/// Default period of the check on peer status: 5 seconds.
pub open spec fn peer_stats_period_default() -> Duration {
    whole_seconds_span(5)
}

/// Default period of the update of the peers to connect to: 60 seconds.
pub open spec fn monitor_peers_max_period_default() -> Duration {
    whole_seconds_span(60)
}

/// Default number of peer states kept in memory.
pub open spec fn peer_states_cache_size_default() -> u32 {
    1000
}

/// Default number of snapshot hosts kept in memory.
pub open spec fn snapshot_hosts_cache_size_default() -> u32 {
    1000
}

/// Default time after which a peer not heard about is removed: one week.
pub open spec fn peer_expiration_duration_default() -> Duration {
    whole_seconds_span(7int * 24 * 60 * 60)
}

/// The default STUN servers: the public servers of Google.
pub open spec fn trusted_stun_servers_default() -> Seq<Seq<char>> {
    seq![
        "stun.l.google.com:19302"@,
        "stun1.l.google.com:19302"@,
        "stun2.l.google.com:19302"@,
        "stun3.l.google.com:19302"@,
        "stun4.l.google.com:19302"@,
    ]
}

/// Default interval between attempts to connect to Tier1 proxies: 60 seconds.
pub open spec fn tier1_connect_interval_default() -> Duration {
    whole_seconds_span(60)
}

/// Default number of new Tier1 connections per attempt.
pub open spec fn tier1_new_connections_per_attempt_default() -> u64 {
    50
}

/// Default interval between broadcasts of the validator's proxies: 15 minutes.
pub open spec fn tier1_advertise_proxies_interval_default() -> Duration {
    whole_seconds_span(15int * 60)
}

/// Maximum number of active peers. Hard limit.
pub fn default_max_num_peers() -> (n: u32)
    ensures
        n == max_num_peers_default(),
{
    40
}

/// Minimum outbound connections a peer should have to avoid eclipse attacks.
pub fn default_minimum_outbound_connections() -> (n: u32)
    ensures
        n == minimum_outbound_peers_default(),
{
    5
}

/// Lower bound of the ideal number of connections.
pub fn default_ideal_connections_lo() -> (n: u32)
    ensures
        n == ideal_connections_lo_default(),
{
    30
}

/// Upper bound of the ideal number of connections.
pub fn default_ideal_connections_hi() -> (n: u32)
    ensures
        n == ideal_connections_hi_default(),
{
    35
}

/// Default socket receive buffer size for peer connections.
pub fn default_so_recv_buffer_size() -> (n: Option<u32>)
    ensures
        n == socket_buffer_size_default(),
{
    Some(1000000)
}

/// Default socket send buffer size for peer connections.
pub fn default_so_send_buffer_size() -> (n: Option<u32>)
    ensures
        n == socket_buffer_size_default(),
{
    Some(1000000)
}

/// Peers whose last message was within this period of time are considered
/// active recent peers.
pub fn default_peer_recent_time_window() -> (d: Duration)
    ensures
        d == peer_recent_time_window_default(),
{
    Duration::seconds(600)
}

/// Number of peers to keep while removing a connection, so that peers
/// connected for a long time are not disconnected.
pub fn default_safe_set_size() -> (n: u32)
    ensures
        n == safe_set_size_default(),
{
    20
}

/// Lower bound of the number of connections to archival peers to keep if
/// this is an archival node.
pub fn default_archival_peer_connections_lower_bound() -> (n: u32)
    ensures
        n == archival_peer_connections_lower_bound_default(),
{
    10
}

/// Time to persist Accounts Id in the router without removing them.
pub fn default_ttl_account_id_router() -> (d: Duration)
    ensures
        d == ttl_account_id_router_default(),
{
    Duration::seconds(TTL_ACCOUNT_ID_ROUTER)
}

/// Period to check on peer status.
pub fn default_peer_stats_period() -> (d: Duration)
    ensures
        d == peer_stats_period_default(),
{
    Duration::seconds(5)
}

/// Period to update the list of peers to connect to.
pub fn default_monitor_peers_max_period() -> (d: Duration)
    ensures
        d == monitor_peers_max_period_default(),
{
    Duration::seconds(60)
}

/// Maximum number of peer states to keep in memory.
pub fn default_peer_states_cache_size() -> (n: u32)
    ensures
        n == peer_states_cache_size_default(),
{
    1000
}

/// Maximum number of snapshot hosts to keep in memory.
pub fn default_snapshot_hosts_cache_size() -> (n: u32)
    ensures
        n == snapshot_hosts_cache_size_default(),
{
    1000
}

/// Remove peers that were not heard about for this amount of time.
pub fn default_peer_expiration_duration() -> (d: Duration)
    ensures
        d == peer_expiration_duration_default(),
{
    Duration::seconds(7 * 24 * 60 * 60)
}

/// The public STUN servers provided by Google, which are known to have good
/// availability. To avoid trusting a centralized entity (and the DNS used to
/// resolve it), prefer to set up your own STUN server, or better, to use
/// `public_addrs`.
pub fn default_trusted_stun_servers() -> (servers: Vec<ServerAddr>)
    ensures
        servers@.map_values(|s: String| s@) == trusted_stun_servers_default(),
{
    let servers: Vec<ServerAddr> = vec![
        "stun.l.google.com:19302".to_string(),
        "stun1.l.google.com:19302".to_string(),
        "stun2.l.google.com:19302".to_string(),
        "stun3.l.google.com:19302".to_string(),
        "stun4.l.google.com:19302".to_string(),
    ];
    assert(servers@.map_values(|s: String| s@) =~= trusted_stun_servers_default());
    servers
}

/// Makes the node accept inbound Tier1 connections by default.
pub fn default_tier1_enable_inbound() -> (b: bool)
    ensures
        b,
{
    true
}

/// Makes the node try to establish outbound Tier1 connections by default.
pub fn default_tier1_enable_outbound() -> (b: bool)
    ensures
        b,
{
    true
}

/// Interval between attempts to connect to proxies of other Tier1 nodes.
pub fn default_tier1_connect_interval() -> (d: Duration)
    ensures
        d == tier1_connect_interval_default(),
{
    Duration::seconds(60)
}

/// Maximal number of new Tier1 connections established every connect interval.
pub fn default_tier1_new_connections_per_attempt() -> (n: u64)
    ensures
        n == tier1_new_connections_per_attempt_default(),
{
    50
}

/// Interval between broadcasts of the list of the validator's proxies.
pub fn default_tier1_advertise_proxies_interval() -> (d: Duration)
    ensures
        d == tier1_advertise_proxies_interval_default(),
{
    Duration::minutes(15)
}

/// Configuration of the Tier1 network: the network between validator nodes
/// that delivers consensus-related messages faster.
#[derive(Clone, Copy, Debug, PartialEq, Eq, Structural)]
pub struct Tier1Config {
    /// Makes the node accept inbound Tier1 connections from other validator nodes.
    pub enable_inbound: bool,
    /// Makes the node actively try to establish outbound Tier1 connections (recommended).
    pub enable_outbound: bool,
    /// Interval between attempts to connect to proxies of other Tier1 nodes.
    pub connect_interval: Duration,
    /// Maximal number of new connections established every `connect_interval`.
    pub new_connections_per_attempt: u64,
    /// Interval between broadcasts of the list of the validator's proxies.
    /// Before the broadcast, the validator tries to establish all the missing
    /// connections to its proxies.
    pub advertise_proxies_interval: Duration,
}

/// The Tier1 configuration that fills in a file that says nothing of Tier1.
pub open spec fn tier1_config_default() -> Tier1Config {
    Tier1Config {
        enable_inbound: true,
        enable_outbound: true,
        connect_interval: tier1_connect_interval_default(),
        new_connections_per_attempt: tier1_new_connections_per_attempt_default(),
        advertise_proxies_interval: tier1_advertise_proxies_interval_default(),
    }
}

impl Default for Tier1Config {
    /// Every field at its default.
    fn default() -> (c: Self)
        ensures
            c == tier1_config_default(),
    {
        Tier1Config {
            enable_inbound: default_tier1_enable_inbound(),
            enable_outbound: default_tier1_enable_outbound(),
            connect_interval: default_tier1_connect_interval(),
            new_connections_per_attempt: default_tier1_new_connections_per_attempt(),
            advertise_proxies_interval: default_tier1_advertise_proxies_interval(),
        }
    }
}

/// The network configuration of a node, as its JSON config file gives it.
///
/// The experimental part of the file, whose rate limits are floating-point
/// rates, is held apart from this type.
#[derive(Clone, Debug)]
pub struct Config {
    /// Local address to listen for incoming connections.
    pub addr: String,
    /// Comma separated list of nodes to connect to, each as
    /// `<node public key>@<IP or host>:<port>`.
    pub boot_nodes: String,
    /// Comma separated list of whitelisted nodes. Inbound connections from
    /// them are accepted even where the limit of inbound connections has been
    /// reached. Each needs both its peer id and its IP:port or Host:port.
    pub whitelist_nodes: String,
    /// Maximum number of active peers. Hard limit.
    pub max_num_peers: u32,
    /// Minimum outbound connections a peer should have to avoid eclipse attacks.
    pub minimum_outbound_peers: u32,
    /// Lower bound of the ideal number of connections.
    pub ideal_connections_lo: u32,
    /// Upper bound of the ideal number of connections.
    pub ideal_connections_hi: u32,
    pub so_recv_buffer_size: Option<u32>,
    pub so_send_buffer_size: Option<u32>,
    /// Peers whose last message was within this period of time are considered
    /// active recent peers.
    pub peer_recent_time_window: Duration,
    /// Number of peers to keep while removing a connection.
    pub safe_set_size: u32,
    /// Lower bound of the number of connections to archival peers to keep if
    /// this is an archival node.
    pub archival_peer_connections_lower_bound: u32,
    /// Handshake timeout.
    pub handshake_timeout: Duration,
    /// Skip waiting for peers before starting the node.
    pub skip_sync_wait: bool,
    /// Ban window for peers who misbehave.
    pub ban_window: Duration,
    /// Addresses that are not accepted as neighbors: IP:Port, or IP to block
    /// every connection coming from that address.
    pub blacklist: Vec<String>,
    /// Time to persist Accounts Id in the router without removing them.
    pub ttl_account_id_router: Duration,
    /// Period to check on peer status.
    pub peer_stats_period: Duration,
    /// Period to monitor peers (connect to new ones etc).
    pub monitor_peers_max_period: Duration,
    /// Maximum number of peer states to keep in memory.
    pub peer_states_cache_size: u32,
    /// Maximum number of snapshot hosts to keep in memory.
    pub snapshot_hosts_cache_size: u32,
    /// Remove peers that were not active for this amount of time.
    pub peer_expiration_duration: Duration,
    /// Public addresses of the trusted nodes that are willing to route
    /// messages to this node; useful only where this node is a validator.
    /// The list is signed and broadcast to the whole network. Where it is
    /// empty, a validator asks `trusted_stun_servers` for its own IP.
    pub public_addrs: Vec<PeerAddr>,
    /// For local tests only: allows IPs from private ranges in `public_addrs`.
    pub allow_private_ip_in_public_addrs: bool,
    /// Endpoints of trusted STUN servers, queried where this node is a
    /// validator and `public_addrs` is empty.
    pub trusted_stun_servers: Vec<ServerAddr>,
    /// Configuration of the Tier1 network.
    pub tier1: Tier1Config,
}

/// `c` holds the configuration that `Config::default` gives: the address
/// `0.0.0.0:24567`, no boot nodes, whitelist, blacklist or public addresses,
/// a handshake timeout of 20 seconds, a ban window of 3 hours, sync waiting
/// on, private IPs refused, and every other field at the default that also
/// fills it in where a file leaves it out.
pub open spec fn is_default_config(c: Config) -> bool {
    &&& c.addr@ == "0.0.0.0:24567"@
    &&& c.boot_nodes@ == Seq::<char>::empty()
    &&& c.whitelist_nodes@ == Seq::<char>::empty()
    &&& c.max_num_peers == max_num_peers_default()
    &&& c.minimum_outbound_peers == minimum_outbound_peers_default()
    &&& c.ideal_connections_lo == ideal_connections_lo_default()
    &&& c.ideal_connections_hi == ideal_connections_hi_default()
    &&& c.so_recv_buffer_size == socket_buffer_size_default()
    &&& c.so_send_buffer_size == socket_buffer_size_default()
    &&& c.peer_recent_time_window == peer_recent_time_window_default()
    &&& c.safe_set_size == safe_set_size_default()
    &&& c.archival_peer_connections_lower_bound
        == archival_peer_connections_lower_bound_default()
    &&& c.handshake_timeout == whole_seconds_span(20)
    &&& !c.skip_sync_wait
    &&& c.ban_window == whole_seconds_span(3int * 3600)
    &&& c.blacklist@.len() == 0
    &&& c.ttl_account_id_router == ttl_account_id_router_default()
    &&& c.peer_stats_period == peer_stats_period_default()
    &&& c.monitor_peers_max_period == monitor_peers_max_period_default()
    &&& c.peer_states_cache_size == peer_states_cache_size_default()
    &&& c.snapshot_hosts_cache_size == snapshot_hosts_cache_size_default()
    &&& c.peer_expiration_duration == peer_expiration_duration_default()
    &&& c.public_addrs@.len() == 0
    &&& !c.allow_private_ip_in_public_addrs
    &&& c.trusted_stun_servers@.map_values(|s: String| s@) == trusted_stun_servers_default()
    &&& c.tier1 == tier1_config_default()
}

/// The default configuration, field by field: listen on `0.0.0.0:24567`
/// with no boot nodes, at most 40 peers, at least 5 outbound, ideally 30 to
/// 35 connections, socket buffers of 1000000 bytes, peers recent within 600
/// seconds, 20 peers kept when removing one, 10 archival peers, a handshake
/// timeout of 20 seconds, a ban window of 3 hours, account ids kept for an
/// hour, peer status every 5 seconds, peer monitoring every 60 seconds, 1000
/// peer states and snapshot hosts, peers expiring after a week, Google's five
/// STUN servers, and Tier1 inbound and outbound on, connecting every 60
/// seconds with 50 new connections and advertising proxies every 15 minutes.
pub proof fn lemma_default_config_values(c: Config)
    requires
        is_default_config(c),
    ensures
        c.addr@ == "0.0.0.0:24567"@,
        c.boot_nodes@.len() == 0,
        c.whitelist_nodes@.len() == 0,
        c.max_num_peers == 40,
        c.minimum_outbound_peers == 5,
        c.ideal_connections_lo == 30,
        c.ideal_connections_hi == 35,
        c.so_recv_buffer_size == Some(1000000u32),
        c.so_send_buffer_size == Some(1000000u32),
        c.peer_recent_time_window == (Duration { seconds: 600, nanoseconds: 0 }),
        c.safe_set_size == 20,
        c.archival_peer_connections_lower_bound == 10,
        c.handshake_timeout == (Duration { seconds: 20, nanoseconds: 0 }),
        !c.skip_sync_wait,
        c.ban_window == (Duration { seconds: 10800, nanoseconds: 0 }),
        c.blacklist@.len() == 0,
        c.ttl_account_id_router == (Duration { seconds: 3600, nanoseconds: 0 }),
        c.peer_stats_period == (Duration { seconds: 5, nanoseconds: 0 }),
        c.monitor_peers_max_period == (Duration { seconds: 60, nanoseconds: 0 }),
        c.peer_states_cache_size == 1000,
        c.snapshot_hosts_cache_size == 1000,
        c.peer_expiration_duration == (Duration { seconds: 604800, nanoseconds: 0 }),
        c.public_addrs@.len() == 0,
        !c.allow_private_ip_in_public_addrs,
        c.trusted_stun_servers@.len() == 5,
        c.trusted_stun_servers@[0]@ == "stun.l.google.com:19302"@,
        c.trusted_stun_servers@[1]@ == "stun1.l.google.com:19302"@,
        c.trusted_stun_servers@[2]@ == "stun2.l.google.com:19302"@,
        c.trusted_stun_servers@[3]@ == "stun3.l.google.com:19302"@,
        c.trusted_stun_servers@[4]@ == "stun4.l.google.com:19302"@,
        c.tier1.enable_inbound,
        c.tier1.enable_outbound,
        c.tier1.connect_interval == (Duration { seconds: 60, nanoseconds: 0 }),
        c.tier1.new_connections_per_attempt == 50,
        c.tier1.advertise_proxies_interval == (Duration { seconds: 900, nanoseconds: 0 }),
{
    let v = c.trusted_stun_servers@.map_values(|s: String| s@);
    assert(v.len() == c.trusted_stun_servers@.len());
    assert(v[0] == c.trusted_stun_servers@[0]@);
    assert(v[1] == c.trusted_stun_servers@[1]@);
    assert(v[2] == c.trusted_stun_servers@[2]@);
    assert(v[3] == c.trusted_stun_servers@[3]@);
    assert(v[4] == c.trusted_stun_servers@[4]@);
}

impl Default for Config {
    /// The default network configuration.
    fn default() -> (c: Self)
        ensures
            is_default_config(c),
    {
        let addr = "0.0.0.0:24567".to_string();
        let boot_nodes = "".to_string();
        let whitelist_nodes = "".to_string();
        proof {
            reveal_strlit("");
            assert(boot_nodes@ =~= Seq::<char>::empty());
            assert(whitelist_nodes@ =~= Seq::<char>::empty());
        }
        Config {
            addr,
            boot_nodes,
            whitelist_nodes,
            max_num_peers: default_max_num_peers(),
            minimum_outbound_peers: default_minimum_outbound_connections(),
            ideal_connections_lo: default_ideal_connections_lo(),
            ideal_connections_hi: default_ideal_connections_hi(),
            so_recv_buffer_size: default_so_recv_buffer_size(),
            so_send_buffer_size: default_so_send_buffer_size(),
            peer_recent_time_window: default_peer_recent_time_window(),
            safe_set_size: default_safe_set_size(),
            archival_peer_connections_lower_bound: default_archival_peer_connections_lower_bound(),
            handshake_timeout: Duration::seconds(20),
            skip_sync_wait: false,
            ban_window: Duration::hours(3),
            blacklist: vec![],
            ttl_account_id_router: default_ttl_account_id_router(),
            peer_stats_period: default_peer_stats_period(),
            monitor_peers_max_period: default_monitor_peers_max_period(),
            peer_states_cache_size: default_peer_states_cache_size(),
            snapshot_hosts_cache_size: default_snapshot_hosts_cache_size(),
            peer_expiration_duration: default_peer_expiration_duration(),
            public_addrs: vec![],
            allow_private_ip_in_public_addrs: false,
            trusted_stun_servers: default_trusted_stun_servers(),
            tier1: Tier1Config::default(),
        }
    }
}

} // verus!
