use ecard_report::config::init_config;
use ecard_report::settings::ConfigError;
use ecard_report::worker_config::{init_config_from_file, init_config_from_str};

const SERVER: &str = r#"
[db]
url = "mongodb://localhost:27017"

[redis]
url = "redis://127.0.0.1/0"

[server]
host = "0.0.0.0"
port = 8080

[tags_db]
url = "redis://127.0.0.1/1"
"#;

const WORKER: &str = r#"
[db]
url = "mongodb://db"
[redis]
url = "redis://q"
[tags_db]
url = "redis://t"
[untagged_db]
url = "redis://u"
"#;

#[test]
fn server_config_reads_every_setting() {
    let c = init_config("config.toml", SERVER).unwrap();
    assert_eq!(c.db.url, "mongodb://localhost:27017");
    assert_eq!(c.redis.url, "redis://127.0.0.1/0");
    assert_eq!(c.server.host, "0.0.0.0");
    assert_eq!(c.server.port, 8080);
    assert_eq!(c.tags_db.url, "redis://127.0.0.1/1");
}

#[test]
fn server_config_errors() {
    assert_eq!(
        init_config("config.yaml", SERVER),
        Err(ConfigError::UnsupportedFormat("config.yaml".to_string()))
    );
    let no_port = SERVER.replace("port = 8080", "");
    assert_eq!(
        init_config("config.toml", &no_port),
        Err(ConfigError::Missing("server.port".to_string()))
    );
    let big_port = SERVER.replace("port = 8080", "port = 70000");
    assert_eq!(
        init_config("config.toml", &big_port),
        Err(ConfigError::OutOfRange("server.port".to_string()))
    );
    match init_config("config.toml", "[db") {
        Err(ConfigError::Syntax(m)) => assert!(!m.is_empty() && m != "[db"),
        other => panic!("unexpected {:?}", other),
    }
}

#[test]
fn worker_config_reads_every_setting() {
    let c = init_config_from_file("config.toml", WORKER).unwrap();
    assert_eq!(c.db.url, "mongodb://db");
    assert_eq!(c.redis.url, "redis://q");
    assert_eq!(c.tags_db.url, "redis://t");
    assert_eq!(c.untagged_db.url, "redis://u");
    let missing = WORKER.replace("[untagged_db]\nurl = \"redis://u\"\n", "");
    assert_eq!(
        init_config_from_str(&missing),
        Err(ConfigError::Missing("untagged_db.url".to_string()))
    );
    let wrong_type = WORKER.replace("url = \"redis://q\"", "url = 5");
    assert_eq!(
        init_config_from_str(&wrong_type),
        Err(ConfigError::Missing("redis.url".to_string()))
    );
}
