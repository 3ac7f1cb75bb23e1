use subagent::config::{load_or_default, parse_yml, SubConfig};

#[test]
fn default_identity_fields() {
    let c = SubConfig::default();
    assert_eq!(c.uri, "ws://127.0.0.1:2024/api/subserver");
    assert_eq!(c.server_name, "服务器名称");
    assert_eq!(c.server_jar, "paper-1.20.6-147.jar");
}

#[test]
fn identity_document_shape() {
    let c = SubConfig {
        uri: String::from("ws://h:1/api"),
        server_name: String::from("alpha"),
        server_jar: String::from("a.jar"),
    };
    assert_eq!(c.to_yml(), "uri: ws://h:1/api\nserver_name: alpha\nserver_jar: a.jar\n");
}

#[test]
fn identity_round_trips_through_its_document() {
    let c = SubConfig::default();
    let doc = c.to_yml();
    let back = parse_yml(&doc).expect("a written document loads");
    assert_eq!(back.uri, c.uri);
    assert_eq!(back.server_name, c.server_name);
    assert_eq!(back.server_jar, c.server_jar);
}

#[test]
fn persisted_bytes_are_stable_across_a_reload() {
    let c = SubConfig::default();
    let mut first: Vec<u8> = Vec::new();
    c.write_to_file(&mut first);
    let text = String::from_utf8(first.clone()).expect("the document is UTF-8");
    let reloaded = parse_yml(&text).expect("reload");
    let mut second: Vec<u8> = Vec::new();
    reloaded.write_to_file(&mut second);
    assert_eq!(first, second);
}

#[test]
fn missing_document_yields_the_default_and_asks_for_a_write() {
    let (c, write_back) = load_or_default(None);
    assert!(write_back);
    assert_eq!(c.uri, "ws://127.0.0.1:2024/api/subserver");
    assert_eq!(c.server_jar, "paper-1.20.6-147.jar");
}

#[test]
fn unparsable_document_yields_the_default_and_asks_for_a_write() {
    let (c, write_back) = load_or_default(Some("not: a\nknown: document\n"));
    assert!(write_back);
    assert_eq!(c.server_name, "服务器名称");
}

#[test]
fn readable_document_is_taken_as_it_stands() {
    let doc = "uri: ws://example:9/api\nserver_name: beta\nserver_jar: b.jar\n";
    let (c, write_back) = load_or_default(Some(doc));
    assert!(!write_back);
    assert_eq!(c.uri, "ws://example:9/api");
    assert_eq!(c.server_name, "beta");
    assert_eq!(c.server_jar, "b.jar");
}

#[test]
fn truncated_document_is_rejected() {
    assert!(parse_yml("uri: a\nserver_name: b\n").is_none());
    assert!(parse_yml("uri: a\nserver_name: b\nserver_jar: c").is_none());
    assert!(parse_yml("").is_none());
}
