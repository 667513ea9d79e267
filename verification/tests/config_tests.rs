use gremlin_bridge::config::ConnectionConfig;
use gremlin_bridge::config::GraphSonVersion;

fn standard(host: &str, port: u16, use_ssl: bool) -> ConnectionConfig {
    ConnectionConfig::Standard {
        name: "Test".to_string(),
        host: host.to_string(),
        port,
        username: None,
        password: None,
        use_ssl,
    }
}

#[test]
fn standard_connection_creates_correct_options() {
    let config = standard("localhost", 8182, false);
    let opts = config.to_connection_options().unwrap();
    assert_eq!(opts.websocket_url(), "ws://localhost:8182/gremlin");
}

#[test]
fn standard_connection_with_ssl() {
    let config = standard("example.com", 443, true);
    let opts = config.to_connection_options().unwrap();
    assert_eq!(opts.websocket_url(), "wss://example.com:443/gremlin");
}

#[test]
fn cosmos_connection_creates_correct_options() {
    let config = ConnectionConfig::Cosmos {
        name: "Test Cosmos".to_string(),
        endpoint: "myaccount.gremlin.cosmos.azure.com".to_string(),
        database: "mydb".to_string(),
        container: "mygraph".to_string(),
        key: "secret-key".to_string(),
    };
    let opts = config.to_connection_options().unwrap();
    assert_eq!(
        opts.websocket_url(),
        "wss://myaccount.gremlin.cosmos.azure.com:443/"
    );
}

#[test]
fn display_info_standard() {
    let config = standard("localhost", 8182, false);
    assert_eq!(config.display_info(), "localhost:8182");
}

#[test]
fn display_info_cosmos() {
    let config = ConnectionConfig::Cosmos {
        name: "Test".to_string(),
        endpoint: "myaccount.cosmos.azure.com".to_string(),
        database: "mydb".to_string(),
        container: "mygraph".to_string(),
        key: "secret".to_string(),
    };
    assert_eq!(config.display_info(), "myaccount.cosmos.azure.com/mydb/mygraph");
}

#[test]
fn cosmos_options_are_fully_pinned() {
    let config = ConnectionConfig::Cosmos {
        name: "c".to_string(),
        endpoint: "e.example".to_string(),
        database: "db".to_string(),
        container: "graph".to_string(),
        key: "k".to_string(),
    };
    let opts = config.to_connection_options().unwrap();
    assert_eq!(opts.port, 443);
    assert!(opts.ssl);
    assert_eq!(opts.path, "/");
    assert_eq!(opts.serializer, GraphSonVersion::V2);
    assert_eq!(opts.deserializer, GraphSonVersion::V2);
    let creds = opts.credentials.unwrap();
    assert_eq!(creds.username, "/dbs/db/colls/graph");
    assert_eq!(creds.password, "k");
}

#[test]
fn standard_options_attach_credentials_only_when_complete() {
    let config = ConnectionConfig::Standard {
        name: "t".to_string(),
        host: "h".to_string(),
        port: 1,
        username: Some("u".to_string()),
        password: Some("p".to_string()),
        use_ssl: false,
    };
    let opts = config.to_connection_options().unwrap();
    let creds = opts.credentials.unwrap();
    assert_eq!(creds.username, "u");
    assert_eq!(creds.password, "p");
    assert_eq!(opts.path, "/gremlin");
    assert_eq!(opts.serializer, GraphSonVersion::V3);
}

#[test]
fn standard_options_drop_partial_credentials_silently() {
    // A lone username (or a lone password) is dropped, not reported.
    let only_user = ConnectionConfig::Standard {
        name: "t".to_string(),
        host: "h".to_string(),
        port: 1,
        username: Some("u".to_string()),
        password: None,
        use_ssl: false,
    };
    assert!(only_user.to_connection_options().unwrap().credentials.is_none());
    let only_pass = ConnectionConfig::Standard {
        name: "t".to_string(),
        host: "h".to_string(),
        port: 1,
        username: None,
        password: Some("p".to_string()),
        use_ssl: false,
    };
    assert!(only_pass.to_connection_options().unwrap().credentials.is_none());
}

#[test]
fn name_is_returned_for_both_kinds() {
    assert_eq!(standard("h", 1, false).name(), "Test");
    let cosmos = ConnectionConfig::Cosmos {
        name: "Prod".to_string(),
        endpoint: "e".to_string(),
        database: "d".to_string(),
        container: "c".to_string(),
        key: "k".to_string(),
    };
    assert_eq!(cosmos.name(), "Prod");
}
