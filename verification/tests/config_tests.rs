use pc::config::{BackendConfig, Config};
use pc::errors::{ConfigError, LookupError};

fn fields(pairs: &[(&str, &str)]) -> Vec<(String, String)> {
    pairs.iter().map(|(k, v)| (k.to_string(), v.to_string())).collect()
}

#[test]
fn deserialize_each_kind() {
    let h = BackendConfig::from_fields("haste", &fields(&[("url", "https://hastebin.com/")]));
    assert_eq!(h, Ok(BackendConfig::Haste { url: "https://hastebin.com/".to_string() }));
    let m = BackendConfig::from_fields(
        "modern_paste",
        &fields(&[("url", "https://paste.fedoraproject.org/"), ("title", "notes")]),
    );
    assert_eq!(
        m,
        Ok(BackendConfig::ModernPaste {
            url: "https://paste.fedoraproject.org/".to_string(),
            title: Some("notes".to_string()),
        })
    );
    let s = BackendConfig::from_fields(
        "sprunge",
        &fields(&[("url", "http://sprunge.us/"), ("syntax", "py")]),
    );
    assert_eq!(
        s,
        Ok(BackendConfig::Sprunge {
            url: "http://sprunge.us/".to_string(),
            syntax: Some("py".to_string()),
        })
    );
}

#[test]
fn deserialize_normalizes_endpoint() {
    let h = BackendConfig::from_fields("haste", &fields(&[("url", "https://hastebin.com")]));
    assert_eq!(h, Ok(BackendConfig::Haste { url: "https://hastebin.com/".to_string() }));
}

#[test]
fn round_trip_every_kind() {
    let configs = vec![
        BackendConfig::Haste { url: "https://hastebin.com/".to_string() },
        BackendConfig::ModernPaste {
            url: "https://paste.fedoraproject.org/".to_string(),
            title: Some("notes".to_string()),
        },
        BackendConfig::ModernPaste {
            url: "https://paste.fedoraproject.org/".to_string(),
            title: None,
        },
        BackendConfig::Pipfi { url: "http://p.ip.fi/".to_string() },
        BackendConfig::Sprunge {
            url: "http://sprunge.us/".to_string(),
            syntax: Some("py".to_string()),
        },
        BackendConfig::Sprunge { url: "http://sprunge.us/".to_string(), syntax: None },
        BackendConfig::Vpaste { url: "http://vpaste.net/".to_string() },
    ];
    for c in configs {
        let kind_name = pc::registry::kind_name(c.kind());
        let emitted = c.to_fields();
        let back = BackendConfig::from_fields(kind_name, &emitted);
        assert_eq!(back, Ok(c));
    }
}

#[test]
fn unknown_field_is_rejected() {
    let r = BackendConfig::from_fields(
        "haste",
        &fields(&[("url", "https://hastebin.com/"), ("syntax", "py")]),
    );
    assert_eq!(r, Err(ConfigError::UnknownField("syntax".to_string())));
}

#[test]
fn duplicate_field_is_rejected() {
    let r = BackendConfig::from_fields(
        "vpaste",
        &fields(&[("url", "http://vpaste.net/"), ("url", "http://other.example/")]),
    );
    assert_eq!(r, Err(ConfigError::DuplicateField("url".to_string())));
}

#[test]
fn missing_endpoint_is_rejected() {
    let r = BackendConfig::from_fields("sprunge", &fields(&[("syntax", "py")]));
    assert_eq!(r, Err(ConfigError::MissingField("url".to_string())));
}

#[test]
fn malformed_endpoint_is_rejected() {
    let r = BackendConfig::from_fields("pipfi", &fields(&[("url", "not a url")]));
    assert_eq!(r, Err(ConfigError::InvalidUrl("not a url".to_string())));
}

#[test]
fn unknown_backend_is_rejected() {
    let r = BackendConfig::from_fields("paste_rs", &fields(&[("url", "https://paste.rs/")]));
    assert_eq!(r, Err(ConfigError::UnknownBackend("paste_rs".to_string())));
}

#[test]
fn summary_is_kind_and_endpoint() {
    let c = BackendConfig::Sprunge {
        url: "http://sprunge.us/".to_string(),
        syntax: Some("py".to_string()),
    };
    assert_eq!(c.summary(), "sprunge | http://sprunge.us/");
}

#[test]
fn error_messages_name_the_cause() {
    assert_eq!(
        ConfigError::UnknownField("syntax".to_string()).message(),
        "unknown field: syntax"
    );
    assert_eq!(
        LookupError::UnknownServer("rs".to_string()).message(),
        "no corresponding server config for rs"
    );
}

fn sample_servers() -> Vec<(String, BackendConfig)> {
    vec![
        ("hb".to_string(), BackendConfig::Haste { url: "https://hastebin.com/".to_string() }),
        ("vp".to_string(), BackendConfig::Vpaste { url: "http://vpaste.net/".to_string() }),
    ]
}

#[test]
fn choose_server_uses_default_name() {
    let cfg = Config { server: Some("vp".to_string()), histfile: None, servers: sample_servers() };
    let (name, chosen) = cfg.choose_server().unwrap();
    assert_eq!(name, "vp");
    assert_eq!(chosen, BackendConfig::Vpaste { url: "http://vpaste.net/".to_string() });
}

#[test]
fn choose_server_falls_back_to_first_block() {
    let cfg = Config { server: None, histfile: None, servers: sample_servers() };
    let (name, chosen) = cfg.choose_server().unwrap();
    assert_eq!(name, "hb");
    assert_eq!(chosen, BackendConfig::Haste { url: "https://hastebin.com/".to_string() });
}

#[test]
fn choose_server_without_blocks_fails() {
    let cfg = Config::empty();
    assert_eq!(cfg.choose_server(), Err(LookupError::NoServers));
}

#[test]
fn choose_server_unknown_name_fails() {
    let cfg = Config { server: Some("rs".to_string()), histfile: None, servers: sample_servers() };
    assert_eq!(cfg.choose_server(), Err(LookupError::UnknownServer("rs".to_string())));
}

#[test]
fn invocation_overrides_replace_selection() {
    let cfg = Config { server: Some("hb".to_string()), histfile: Some("h.txt".to_string()), servers: sample_servers() };
    let cfg = cfg.with_server_override(Some("vp".to_string()));
    assert_eq!(cfg.server, Some("vp".to_string()));
    let cfg = cfg.with_histfile_override(Some("other.txt".to_string()));
    assert_eq!(cfg.histfile, Some("other.txt".to_string()));
}

#[test]
fn histfile_none_literal_disables_history() {
    let cfg = Config { server: None, histfile: Some("h.txt".to_string()), servers: sample_servers() };
    let cfg = cfg.with_histfile_override(Some("NONE".to_string()));
    assert_eq!(cfg.histfile, None);
}
