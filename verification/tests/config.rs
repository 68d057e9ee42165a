use sjmb::config::{BotConfig, ConfigError, LogLevel, OptsCommon, RawBotConfig, RawUrlCmd};
use sjmb::strmap::{get_wild, StrMap};

fn flag_map(entries: &[(&str, bool)]) -> StrMap<bool> {
    let mut m = StrMap::new();
    for (k, v) in entries {
        m.insert(k.to_string(), *v);
    }
    m
}

fn base_raw() -> RawBotConfig {
    RawBotConfig {
        irc_log_dir: "/tmp/irclog".to_string(),
        channel: "#main".to_string(),
        privileged_nicks: flag_map(&[("alice", true)]),
        url_regex: "(https?://[A-Za-z0-9./_-]+)".to_string(),
        url_log_db: "/tmp/urls.db".to_string(),
        url_blacklist: vec!["https://tracker.test/".to_string()],
        url_fetch_channels: flag_map(&[("#main", true)]),
        url_cmd_channels: flag_map(&[("#main", true)]),
        url_mut_channels: flag_map(&[]),
        url_log_channels: flag_map(&[("#main", true)]),
        url_dup_complain_channels: flag_map(&[]),
        url_dup_expire_days: StrMap::new(),
        url_dup_timezone: StrMap::new(),
        cmd_dumpacl: "dumpacl".to_string(),
        cmd_invite: "invite".to_string(),
        cmd_join: "join".to_string(),
        cmd_mode_o: "op".to_string(),
        cmd_mode_v: "voice".to_string(),
        cmd_nick: "nick".to_string(),
        cmd_reload: "reload".to_string(),
        cmd_say: "say".to_string(),
        mode_o_acl: vec!["^alice@trusted\\.example$".to_string()],
        auto_o_acl: vec!["^bob@auto\\.example$".to_string()],
        url_cmd_list: StrMap::new(),
        url_mut_list: vec![],
    }
}

#[test]
fn build_accepts_a_valid_config() {
    let cfg = BotConfig::build(base_raw()).unwrap();
    assert_eq!(cfg.channel, "#main");
    assert_eq!(cfg.mode_o_acl.patterns(), &vec!["^alice@trusted\\.example$".to_string()]);
}

#[test]
fn reload_idempotence_same_raw_authorizes_identically() {
    let c1 = BotConfig::build(base_raw()).unwrap();
    let c2 = BotConfig::build(base_raw()).unwrap();
    for probe in ["alice@trusted.example", "eve@evil.example", ""] {
        assert_eq!(c1.mode_o_acl.re_match(probe), c2.mode_o_acl.re_match(probe));
        assert_eq!(c1.auto_o_acl.re_match(probe), c2.auto_o_acl.re_match(probe));
    }
}

#[test]
fn build_rejects_bad_acl_pattern() {
    let mut raw = base_raw();
    raw.mode_o_acl.push("(".to_string());
    match BotConfig::build(raw) {
        Err(ConfigError::BadAclPattern(p)) => assert_eq!(p, "("),
        other => panic!("expected BadAclPattern, got {:?}", other.map(|_| ())),
    }
}

#[test]
fn build_rejects_bad_url_pattern() {
    let mut raw = base_raw();
    raw.url_regex = "[".to_string();
    match BotConfig::build(raw) {
        Err(ConfigError::BadUrlPattern(p)) => assert_eq!(p, "["),
        other => panic!("expected BadUrlPattern, got {:?}", other.map(|_| ())),
    }
}

#[test]
fn build_rejects_bad_rewrite_pattern() {
    let mut raw = base_raw();
    raw.url_mut_list.push(("(".to_string(), "x".to_string()));
    match BotConfig::build(raw) {
        Err(ConfigError::BadMutPattern(p)) => assert_eq!(p, "("),
        other => panic!("expected BadMutPattern, got {:?}", other.map(|_| ())),
    }
}

#[test]
fn build_rejects_bad_output_filter() {
    let mut raw = base_raw();
    raw.url_cmd_list.insert(
        "w".to_string(),
        RawUrlCmd { url_tmpl: "https://x.test/{{arg}}".to_string(), output_filter: "(".to_string() },
    );
    match BotConfig::build(raw) {
        Err(ConfigError::BadFilterPattern(p)) => assert_eq!(p, "("),
        other => panic!("expected BadFilterPattern, got {:?}", other.map(|_| ())),
    }
}

#[test]
fn build_rejects_bad_template() {
    let mut raw = base_raw();
    raw.url_cmd_list.insert(
        "w".to_string(),
        RawUrlCmd { url_tmpl: "{% bogus".to_string(), output_filter: "(x)".to_string() },
    );
    match BotConfig::build(raw) {
        Err(ConfigError::BadTemplate(p)) => assert_eq!(p, "{% bogus"),
        other => panic!("expected BadTemplate, got {:?}", other.map(|_| ())),
    }
}

#[test]
fn build_accepts_valid_template_and_filter() {
    let mut raw = base_raw();
    raw.url_cmd_list.insert(
        "w".to_string(),
        RawUrlCmd {
            url_tmpl: "https://x.test/{{arg}}".to_string(),
            output_filter: "<r>(.*?)</r>".to_string(),
        },
    );
    let cfg = BotConfig::build(raw).unwrap();
    let c = cfg.url_cmd_list.get("w").unwrap();
    assert_eq!(c.url_tmpl(), "https://x.test/{{arg}}");
    assert_eq!(c.output_filter(), "<r>(.*?)</r>");
}

#[test]
fn build_rejects_unknown_timezone() {
    let mut raw = base_raw();
    raw.url_dup_timezone.insert("#main".to_string(), "Nowhere/Atlantis".to_string());
    match BotConfig::build(raw) {
        Err(ConfigError::BadTimezone(p)) => assert_eq!(p, "Nowhere/Atlantis"),
        other => panic!("expected BadTimezone, got {:?}", other.map(|_| ())),
    }
}

#[test]
fn build_accepts_known_timezone() {
    let mut raw = base_raw();
    raw.url_dup_timezone.insert("#main".to_string(), "Europe/Helsinki".to_string());
    assert!(BotConfig::build(raw).is_ok());
}

#[test]
fn config_error_messages_name_the_value() {
    assert_eq!(
        ConfigError::BadTimezone("X/Y".to_string()).message(),
        "bad timezone: X/Y"
    );
    assert_eq!(
        ConfigError::BadAclPattern("(".to_string()).message(),
        "bad ACL pattern: ("
    );
}

#[test]
fn loglevel_most_verbose_switch_wins() {
    let mut o = OptsCommon {
        verbose: false,
        debug: false,
        trace: false,
        bot_config: "a".to_string(),
        irc_config: "b".to_string(),
    };
    assert_eq!(o.get_loglevel(), LogLevel::Error);
    o.verbose = true;
    assert_eq!(o.get_loglevel(), LogLevel::Info);
    o.debug = true;
    assert_eq!(o.get_loglevel(), LogLevel::Debug);
    o.trace = true;
    assert_eq!(o.get_loglevel(), LogLevel::Trace);
}

#[test]
fn insert_replaces_earlier_binding() {
    let mut m: StrMap<bool> = StrMap::new();
    m.insert("k".to_string(), false);
    m.insert("other".to_string(), true);
    m.insert("k".to_string(), true);
    assert_eq!(m.get("k"), Some(&true));
    assert_eq!(m.get("other"), Some(&true));
    assert_eq!(m.get("absent"), None);
}

#[test]
fn wildcard_lookup_falls_back_to_star() {
    let m = flag_map(&[("#a", true), ("*", false)]);
    assert_eq!(get_wild(&m, "#a"), Some(&true));
    assert_eq!(get_wild(&m, "#b"), Some(&false));
    let n = flag_map(&[("#a", true)]);
    assert_eq!(get_wild(&n, "#b"), None);
}
