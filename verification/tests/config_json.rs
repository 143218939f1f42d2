use near_node_config::config_json::{
    default_archival_peer_connections_lower_bound, default_ideal_connections_hi,
    default_ideal_connections_lo, default_max_num_peers, default_minimum_outbound_connections,
    default_monitor_peers_max_period, default_peer_expiration_duration,
    default_peer_recent_time_window, default_peer_states_cache_size, default_peer_stats_period,
    default_safe_set_size, default_snapshot_hosts_cache_size, default_so_recv_buffer_size,
    default_so_send_buffer_size, default_tier1_advertise_proxies_interval,
    default_tier1_connect_interval, default_tier1_enable_inbound, default_tier1_enable_outbound,
    default_tier1_new_connections_per_attempt, default_trusted_stun_servers,
    default_ttl_account_id_router, Config, Tier1Config, TTL_ACCOUNT_ID_ROUTER,
};
use near_node_config::duration::Duration;

#[test]
fn numeric_defaults() {
    assert_eq!(default_max_num_peers(), 40);
    assert_eq!(default_minimum_outbound_connections(), 5);
    assert_eq!(default_ideal_connections_lo(), 30);
    assert_eq!(default_ideal_connections_hi(), 35);
    assert_eq!(default_so_recv_buffer_size(), Some(1000000));
    assert_eq!(default_so_send_buffer_size(), Some(1000000));
    assert_eq!(default_safe_set_size(), 20);
    assert_eq!(default_archival_peer_connections_lower_bound(), 10);
    assert_eq!(default_peer_states_cache_size(), 1000);
    assert_eq!(default_snapshot_hosts_cache_size(), 1000);
    assert_eq!(default_tier1_new_connections_per_attempt(), 50);
    assert!(default_tier1_enable_inbound());
    assert!(default_tier1_enable_outbound());
}

#[test]
fn duration_defaults() {
    assert_eq!(default_peer_recent_time_window(), Duration::seconds(600));
    assert_eq!(default_ttl_account_id_router(), Duration::seconds(3600));
    assert_eq!(TTL_ACCOUNT_ID_ROUTER, 3600);
    assert_eq!(default_peer_stats_period(), Duration::seconds(5));
    assert_eq!(default_monitor_peers_max_period(), Duration::seconds(60));
    assert_eq!(default_peer_expiration_duration(), Duration::seconds(604800));
    assert_eq!(default_tier1_connect_interval(), Duration::seconds(60));
    assert_eq!(default_tier1_advertise_proxies_interval(), Duration::seconds(900));
}

#[test]
fn stun_servers_default() {
    assert_eq!(
        default_trusted_stun_servers(),
        vec![
            "stun.l.google.com:19302".to_string(),
            "stun1.l.google.com:19302".to_string(),
            "stun2.l.google.com:19302".to_string(),
            "stun3.l.google.com:19302".to_string(),
            "stun4.l.google.com:19302".to_string(),
        ]
    );
}

#[test]
fn tier1_default() {
    let t = Tier1Config::default();
    assert!(t.enable_inbound);
    assert!(t.enable_outbound);
    assert_eq!(t.connect_interval, Duration::seconds(60));
    assert_eq!(t.new_connections_per_attempt, 50);
    assert_eq!(t.advertise_proxies_interval, Duration::minutes(15));
}

#[test]
fn config_default() {
    let c = Config::default();
    assert_eq!(c.addr, "0.0.0.0:24567");
    assert_eq!(c.boot_nodes, "");
    assert_eq!(c.whitelist_nodes, "");
    assert_eq!(c.max_num_peers, 40);
    assert_eq!(c.minimum_outbound_peers, 5);
    assert_eq!(c.ideal_connections_lo, 30);
    assert_eq!(c.ideal_connections_hi, 35);
    assert_eq!(c.so_recv_buffer_size, Some(1000000));
    assert_eq!(c.so_send_buffer_size, Some(1000000));
    assert_eq!(c.peer_recent_time_window, Duration::seconds(600));
    assert_eq!(c.safe_set_size, 20);
    assert_eq!(c.archival_peer_connections_lower_bound, 10);
    assert_eq!(c.handshake_timeout, Duration::seconds(20));
    assert!(!c.skip_sync_wait);
    assert_eq!(c.ban_window, Duration::seconds(3 * 3600));
    assert!(c.blacklist.is_empty());
    assert_eq!(c.ttl_account_id_router, Duration::seconds(3600));
    assert_eq!(c.peer_stats_period, Duration::seconds(5));
    assert_eq!(c.monitor_peers_max_period, Duration::seconds(60));
    assert_eq!(c.peer_states_cache_size, 1000);
    assert_eq!(c.snapshot_hosts_cache_size, 1000);
    assert_eq!(c.peer_expiration_duration, Duration::seconds(7 * 24 * 3600));
    assert!(c.public_addrs.is_empty());
    assert!(!c.allow_private_ip_in_public_addrs);
    assert_eq!(c.trusted_stun_servers, default_trusted_stun_servers());
    assert_eq!(c.tier1, Tier1Config::default());
}

#[test]
fn config_default_matches_field_defaults() {
    let c = Config::default();
    assert_eq!(c.max_num_peers, default_max_num_peers());
    assert_eq!(c.minimum_outbound_peers, default_minimum_outbound_connections());
    assert_eq!(c.ideal_connections_lo, default_ideal_connections_lo());
    assert_eq!(c.ideal_connections_hi, default_ideal_connections_hi());
    assert_eq!(c.peer_expiration_duration, default_peer_expiration_duration());
    assert_eq!(c.ttl_account_id_router, default_ttl_account_id_router());
}

#[test]
fn default_connection_bounds_are_ordered() {
    let c = Config::default();
    assert!(c.minimum_outbound_peers <= c.ideal_connections_lo);
    assert!(c.ideal_connections_lo <= c.ideal_connections_hi);
    assert!(c.ideal_connections_hi <= c.max_num_peers);
    assert!(c.safe_set_size <= c.max_num_peers);
}
