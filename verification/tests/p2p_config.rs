use kingshot::p2p::{configure_socket_builder, room, room_url, MatchboxConfig, SocketBuilderResource};

#[test]
fn default_room_url() {
    let config = MatchboxConfig::default();
    assert!(config.signaling_server.is_none());
    assert!(config.room.is_none());
    assert_eq!(config.player_count, 2);
    assert_eq!(room_url(&config), "ws://127.0.0.1:3536/matchbox/quickstart");
}

#[test]
fn configured_room_url() {
    let config = MatchboxConfig {
        signaling_server: Some("wss://example.org/".to_string()),
        room: Some("lobby?next=2".to_string()),
        player_count: 4,
    };
    assert_eq!(room_url(&config), "wss://example.org/lobby?next=2");
    let config = MatchboxConfig { signaling_server: None, room: Some("r1".to_string()), player_count: 2 };
    assert_eq!(room_url(&config), "ws://127.0.0.1:3536/matchbox/r1");
}

#[test]
fn socket_builder_is_configured() {
    let mut builder = SocketBuilderResource::default();
    assert!(builder.0.is_none());
    let url = configure_socket_builder(&mut builder, &MatchboxConfig::default());
    assert_eq!(url, "ws://127.0.0.1:3536/matchbox/quickstart");
    assert!(builder.0.is_some());
}

#[test]
fn socket_builder_holds_room_and_channels() {
    let mut builder = SocketBuilderResource::default();
    let config = MatchboxConfig {
        signaling_server: Some("wss://example.org/".to_string()),
        room: Some("arena".to_string()),
        player_count: 3,
    };
    configure_socket_builder(&mut builder, &config);
    let text = format!("{:?}", builder.0.expect("configured"));
    assert!(text.contains("room_url: \"wss://example.org/arena\""));
    let reliable = text.find("ordered: true, max_retransmits: None").expect("reliable channel");
    let unreliable =
        text.find("ordered: false, max_retransmits: Some(0)").expect("unreliable channel");
    assert!(reliable < unreliable);
    assert_eq!(text.matches("ordered:").count(), 2);
}

#[test]
fn room_defaults_to_quickstart() {
    assert_eq!(room(&MatchboxConfig::default()), "quickstart");
    let config = MatchboxConfig { signaling_server: None, room: Some("x".to_string()), player_count: 2 };
    assert_eq!(room(&config), "x");
    let copy = config.clone();
    assert_eq!(copy.room.as_deref(), Some("x"));
}
