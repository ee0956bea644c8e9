use pc::config::BackendConfig;
use pc::errors::ArgError;
use pc::overrides::{help_text, ApplyOutcome, SPRUNGE_HELP};
use pc::registry::BackendKind;

fn args(parts: &[&str]) -> Vec<String> {
    parts.iter().map(|p| p.to_string()).collect()
}

fn sprunge() -> BackendConfig {
    BackendConfig::Sprunge {
        url: "http://sprunge.us/".to_string(),
        syntax: Some("py".to_string()),
    }
}

#[test]
fn no_flags_leave_every_field_unchanged() {
    let mut c = sprunge();
    let r = c.apply_args(&args(&["sp"]));
    assert_eq!(r, Ok(ApplyOutcome::Applied));
    assert_eq!(c, sprunge());
}

#[test]
fn url_override_replaces_endpoint() {
    let mut c = BackendConfig::Haste { url: "https://hastebin.com/".to_string() };
    let r = c.apply_args(&args(&["hb", "-u", "https://other.example/"]));
    assert_eq!(r, Ok(ApplyOutcome::Applied));
    assert_eq!(c, BackendConfig::Haste { url: "https://other.example/".to_string() });
}

#[test]
fn url_override_is_normalized() {
    let mut c = BackendConfig::Vpaste { url: "http://vpaste.net/".to_string() };
    let r = c.apply_args(&args(&["vp", "--url", "http://other.example"]));
    assert_eq!(r, Ok(ApplyOutcome::Applied));
    assert_eq!(c, BackendConfig::Vpaste { url: "http://other.example/".to_string() });
}

#[test]
fn syntax_override_replaces_value() {
    let mut c = sprunge();
    let r = c.apply_args(&args(&["sp", "--syntax", "rs"]));
    assert_eq!(r, Ok(ApplyOutcome::Applied));
    assert_eq!(
        c,
        BackendConfig::Sprunge {
            url: "http://sprunge.us/".to_string(),
            syntax: Some("rs".to_string()),
        }
    );
}

#[test]
fn sentinel_clears_syntax_field() {
    let mut c = sprunge();
    let r = c.apply_args(&args(&["sp", "-s", "NONE"]));
    assert_eq!(r, Ok(ApplyOutcome::Applied));
    assert_eq!(
        c,
        BackendConfig::Sprunge { url: "http://sprunge.us/".to_string(), syntax: None }
    );
}

#[test]
fn sentinel_clears_title_field() {
    let mut c = BackendConfig::ModernPaste {
        url: "https://paste.fedoraproject.org/".to_string(),
        title: Some("notes".to_string()),
    };
    let r = c.apply_args(&args(&["fed", "--title", "NONE"]));
    assert_eq!(r, Ok(ApplyOutcome::Applied));
    assert_eq!(
        c,
        BackendConfig::ModernPaste {
            url: "https://paste.fedoraproject.org/".to_string(),
            title: None,
        }
    );
}

#[test]
fn title_override_stores_value() {
    let mut c = BackendConfig::ModernPaste {
        url: "https://paste.fedoraproject.org/".to_string(),
        title: None,
    };
    let r = c.apply_args(&args(&["fed", "-t", "shopping list"]));
    assert_eq!(r, Ok(ApplyOutcome::Applied));
    assert_eq!(
        c,
        BackendConfig::ModernPaste {
            url: "https://paste.fedoraproject.org/".to_string(),
            title: Some("shopping list".to_string()),
        }
    );
}

#[test]
fn unknown_flag_fails_and_leaves_fields() {
    let mut c = sprunge();
    let r = c.apply_args(&args(&["sp", "--nope"]));
    assert_eq!(r, Err(ArgError::UnknownFlag("--nope".to_string())));
    assert_eq!(c, sprunge());
}

#[test]
fn flag_of_another_kind_is_unknown_here() {
    let mut c = BackendConfig::ModernPaste {
        url: "https://paste.fedoraproject.org/".to_string(),
        title: None,
    };
    let r = c.apply_args(&args(&["fed", "-u", "https://other.example/"]));
    assert_eq!(r, Err(ArgError::UnknownFlag("-u".to_string())));
}

#[test]
fn missing_value_fails() {
    let mut c = sprunge();
    let r = c.apply_args(&args(&["sp", "--syntax"]));
    assert_eq!(r, Err(ArgError::MissingValue("--syntax".to_string())));
    assert_eq!(c, sprunge());
}

#[test]
fn malformed_url_value_fails() {
    let mut c = sprunge();
    let r = c.apply_args(&args(&["sp", "-u", "not a url"]));
    assert_eq!(r, Err(ArgError::InvalidUrl("not a url".to_string())));
    assert_eq!(c, sprunge());
}

#[test]
fn help_request_is_not_an_error() {
    let mut c = sprunge();
    let r = c.apply_args(&args(&["sp", "--help"]));
    assert_eq!(r, Ok(ApplyOutcome::Help));
    assert_eq!(c, sprunge());
    let r = c.apply_args(&args(&["sp", "-h"]));
    assert_eq!(r, Ok(ApplyOutcome::Help));
    assert_eq!(c, sprunge());
}

#[test]
fn help_text_names_the_kind_grammar() {
    assert_eq!(help_text(BackendKind::Sprunge), SPRUNGE_HELP);
    assert!(help_text(BackendKind::Haste).contains("--url"));
}

#[test]
fn later_flag_wins() {
    let mut c = sprunge();
    let r = c.apply_args(&args(&["sp", "-s", "rs", "-s", "md"]));
    assert_eq!(r, Ok(ApplyOutcome::Applied));
    assert_eq!(
        c,
        BackendConfig::Sprunge {
            url: "http://sprunge.us/".to_string(),
            syntax: Some("md".to_string()),
        }
    );
}
