use subagent::channel::control_url;
use subagent::config::{parse_yml, SubConfig};
use subagent::install::{accept_core, base_name, download_url, http_uri, jar_dest_path};
use subagent::launch::{launch_args, memory_bounds, must_escalate_to_kill, termination_line};
use subagent::state::SubState;
use subagent::supervisor::ProcessSupervisor;

#[test]
fn accept_core_while_running_stops_first_and_repoints_the_identity() {
    let mut sup: ProcessSupervisor<u32> = ProcessSupervisor::new();
    assert!(sup.start_requested());
    sup.launch_completed(Some(1));
    assert_eq!(sup.current_state(), SubState::Running);

    // Running -> Stopping -> Stopped, before any transfer begins.
    let handle = sup.stop_requested();
    assert!(handle.is_some());
    assert_eq!(sup.current_state(), SubState::Stopping);
    sup.stop_completed();
    assert_eq!(sup.current_state(), SubState::Stopped);

    let mut cfg = SubConfig::default();
    let base = accept_core(&mut cfg, b"paper-1.21-10".to_vec()).expect("a UTF-8 name");
    assert_eq!(base, "paper-1.21-10");
    assert_eq!(cfg.server_jar, "paper-1.21-10.jar");

    // The new identity persists and reads back.
    let mut bytes: Vec<u8> = Vec::new();
    cfg.write_to_file(&mut bytes);
    let text = String::from_utf8(bytes).unwrap();
    let back = parse_yml(&text).unwrap();
    assert_eq!(back.server_jar, "paper-1.21-10.jar");

    // A later start launches the new artifact.
    assert!(sup.start_requested());
    let args = launch_args(&cfg.server_jar, 64, 128);
    assert_eq!(args[3], "paper-1.21-10.jar");
}

#[test]
fn accept_core_with_undecodable_payload_changes_nothing() {
    let mut cfg = SubConfig::default();
    let before = cfg.server_jar.clone();
    assert!(accept_core(&mut cfg, vec![0xff, 0xfe, 0xfd]).is_none());
    assert_eq!(cfg.server_jar, before);
}

#[test]
fn download_endpoint_is_derived_from_the_controller_address() {
    let cfg = SubConfig::default();
    assert_eq!(
        download_url(&cfg),
        "http://127.0.0.1:2024/api/subserver/down_server_jar?file_name=paper-1.20.6-147"
    );
}

#[test]
fn secure_scheme_is_rewritten_to_secure_transport() {
    assert_eq!(http_uri("wss://h/api"), "https://h/api");
    assert_eq!(http_uri("ws://h/api"), "http://h/api");
    assert_eq!(http_uri("tcp://h/api"), "tcp://h/api");
}

#[test]
fn base_name_strips_only_the_extension() {
    assert_eq!(base_name("paper-1.20.6-147.jar"), "paper-1.20.6-147");
    assert_eq!(base_name("plain"), "plain");
    assert_eq!(base_name(".jar"), "");
}

#[test]
fn destination_path_restores_the_extension() {
    assert_eq!(jar_dest_path("paper-1.21-10"), "server/paper-1.21-10.jar");
}

#[test]
fn memory_bounds_are_tenth_and_fifth_rounded() {
    assert_eq!(memory_bounds(1000), (100, 200));
    assert_eq!(memory_bounds(999), (100, 200));
    assert_eq!(memory_bounds(994), (99, 199));
    assert_eq!(memory_bounds(0), (0, 0));
    assert_eq!(memory_bounds(u64::MAX), (u64::MAX / 10 + 1, u64::MAX / 5));
}

#[test]
fn shutdown_protocol_pieces() {
    assert_eq!(termination_line(), b"stop\n");
    // Escalate exactly when the line could not be delivered.
    assert!(!must_escalate_to_kill(true, true));
    assert!(must_escalate_to_kill(true, false));
    assert!(must_escalate_to_kill(false, false));
}

#[test]
fn launch_arguments_spell_out_the_invocation() {
    let args = launch_args("server.jar", 1024, 2048);
    assert_eq!(args, vec!["-Xms1024", "-Xmx2048", "-jar", "server.jar", "--nogui"]);
}

#[test]
fn control_url_percent_encodes_the_server_name() {
    let cfg = SubConfig {
        uri: String::from("ws://h:1/api"),
        server_name: String::from("a b"),
        server_jar: String::from("a.jar"),
    };
    assert_eq!(control_url(&cfg), "ws://h:1/api/ws?server_name=a%20b");

    let plain = SubConfig {
        uri: String::from("ws://h:1/api"),
        server_name: String::from("Alpha7"),
        server_jar: String::from("a.jar"),
    };
    assert_eq!(control_url(&plain), "ws://h:1/api/ws?server_name=Alpha7");

    let wide = SubConfig {
        uri: String::from("ws://h:1/api"),
        server_name: String::from("服"),
        server_jar: String::from("a.jar"),
    };
    assert_eq!(control_url(&wide), "ws://h:1/api/ws?server_name=%E6%9C%8D");
}
