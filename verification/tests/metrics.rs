use near_node_config::metrics::{
    bool_to_str, record_routed_msg_hops, record_routed_msg_latency, Connection, Encoding, Labels,
    MessageDropped, PeerType, Tier,
};

#[test]
fn connection_labels() {
    assert_eq!(Connection::names(), vec!["tier", "peer_type", "encoding"]);
    let c = Connection { tier: Tier::T2, type_: PeerType::Outbound, encoding: Some(Encoding::Proto) };
    assert_eq!(c.values(), vec!["T2", "Outbound", "Proto"]);
    let c = Connection { tier: Tier::T1, type_: PeerType::Inbound, encoding: None };
    assert_eq!(c.values(), vec!["T1", "Inbound", "unknown"]);
    assert_eq!(c.values().len(), Connection::names().len());
}

#[test]
fn variant_labels() {
    assert_eq!(Tier::T3.as_str(), "T3");
    assert_eq!(Encoding::Borsh.as_str(), "Borsh");
    assert_eq!(PeerType::Inbound.as_str(), "Inbound");
}

#[test]
fn bool_labels() {
    assert_eq!(bool_to_str(true), "true");
    assert_eq!(bool_to_str(false), "false");
    assert_ne!(bool_to_str(true), bool_to_str(false));
}

#[test]
fn latency_labels() {
    assert_eq!(record_routed_msg_latency("Ping", Tier::T1, true), vec!["Ping", "T1", "true"]);
    assert_eq!(record_routed_msg_latency("Pong", Tier::T2, false), vec!["Pong", "T2", "false"]);
}

#[test]
fn hops_labels_are_capped() {
    assert_eq!(record_routed_msg_hops("Ping", 0), vec!["Ping".to_string(), "0".to_string()]);
    assert_eq!(record_routed_msg_hops("Ping", 7), vec!["Ping".to_string(), "7".to_string()]);
    assert_eq!(record_routed_msg_hops("Ping", 19), vec!["Ping".to_string(), "19".to_string()]);
    assert_eq!(record_routed_msg_hops("Ping", 20), vec!["Ping".to_string(), "20".to_string()]);
    assert_eq!(record_routed_msg_hops("Pong", 21), vec!["Pong".to_string(), "20".to_string()]);
    assert_eq!(
        record_routed_msg_hops("Pong", u32::MAX),
        vec!["Pong".to_string(), "20".to_string()]
    );
}

#[test]
fn dropped_message_labels() {
    assert_eq!(MessageDropped::NoRouteFound.inc("ForwardTx"), vec!["ForwardTx", "NoRouteFound"]);
    assert_eq!(MessageDropped::Duplicate.inc_unknown_msg(), vec!["unknown", "Duplicate"]);
    assert_eq!(
        MessageDropped::TransactionsPerBlockExceeded.inc_msg_type("Tx"),
        vec!["Tx", "TransactionsPerBlockExceeded"]
    );
    assert_eq!(MessageDropped::MaxCapacityExceeded.as_str(), "MaxCapacityExceeded");
    assert_eq!(MessageDropped::InputTooLong.as_str(), "InputTooLong");
    assert_eq!(MessageDropped::UnknownAccount.as_str(), "UnknownAccount");
}

#[test]
fn dropped_reasons_have_distinct_labels() {
    let all = [
        MessageDropped::NoRouteFound,
        MessageDropped::UnknownAccount,
        MessageDropped::InputTooLong,
        MessageDropped::MaxCapacityExceeded,
        MessageDropped::TransactionsPerBlockExceeded,
        MessageDropped::Duplicate,
    ];
    for (i, a) in all.iter().enumerate() {
        for (j, b) in all.iter().enumerate() {
            assert_eq!(i == j, a.as_str() == b.as_str());
        }
    }
}
