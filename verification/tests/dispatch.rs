use sjmb::config::{RawBotConfig, RawUrlCmd};
use sjmb::ircbot::{Event, EventKind, IrcBot, IrcMsg, IrcOp, Origin};
use sjmb::strmap::StrMap;

fn flag_map(entries: &[(&str, bool)]) -> StrMap<bool> {
    let mut m = StrMap::new();
    for (k, v) in entries {
        m.insert(k.to_string(), *v);
    }
    m
}

fn base_raw() -> RawBotConfig {
    RawBotConfig {
        irc_log_dir: "/tmp/irclog".to_string(),
        channel: "#main".to_string(),
        privileged_nicks: flag_map(&[("alice", true)]),
        url_regex: "(https?://[A-Za-z0-9./_-]+)".to_string(),
        url_log_db: "/tmp/urls.db".to_string(),
        url_blacklist: vec!["https://tracker.test/".to_string()],
        url_fetch_channels: flag_map(&[("#main", true)]),
        url_cmd_channels: flag_map(&[("#main", true)]),
        url_mut_channels: flag_map(&[("#main", true)]),
        url_log_channels: flag_map(&[("#main", true)]),
        url_dup_complain_channels: flag_map(&[]),
        url_dup_expire_days: StrMap::new(),
        url_dup_timezone: StrMap::new(),
        cmd_dumpacl: "dumpacl".to_string(),
        cmd_invite: "invite".to_string(),
        cmd_join: "join".to_string(),
        cmd_mode_o: "op".to_string(),
        cmd_mode_v: "voice".to_string(),
        cmd_nick: "nick".to_string(),
        cmd_reload: "reload".to_string(),
        cmd_say: "say".to_string(),
        mode_o_acl: vec!["^alice@trusted\\.example$".to_string()],
        auto_o_acl: vec!["^bob@auto\\.example$".to_string()],
        url_cmd_list: StrMap::new(),
        url_mut_list: vec![(
            "^https://www\\.example\\.com/(.*)$".to_string(),
            "https://example.com/$1".to_string(),
        )],
    }
}

fn mk_bot(raw: RawBotConfig) -> IrcBot {
    let mut bot = IrcBot::new(raw, "mybot").unwrap();
    bot.setup_handlers();
    bot
}

fn chat(nick: &str, user: &str, host: &str, target: &str, text: &str) -> Event {
    Event {
        origin: Some(Origin {
            nick: nick.to_string(),
            user: user.to_string(),
            host: host.to_string(),
        }),
        kind: EventKind::PrivMsg { target: target.to_string(), text: text.to_string() },
    }
}

fn msgs_of(bot: &mut IrcBot) -> Vec<(String, String)> {
    bot.take_msgs().into_iter().map(|IrcMsg { target, msg }| (target, msg)).collect()
}

#[test]
fn channel_url_produces_log_then_title_in_order() {
    let mut bot = mk_bot(base_raw());
    let ev = chat("carol", "carol", "host.example", "#main", "check out http://example.com/page");
    let d = bot.handle_event(&ev, 1234);
    assert!(d.handled);
    assert!(!d.reload);
    let ops = bot.take_ops();
    assert_eq!(ops.len(), 2);
    match &ops[0] {
        IrcOp::UrlLog(db, url, chan, nick, ts) => {
            assert_eq!(db, "/tmp/urls.db");
            assert_eq!(url, "http://example.com/page");
            assert_eq!(chan, "#main");
            assert_eq!(nick, "carol");
            assert_eq!(*ts, 1234);
        }
        other => panic!("expected UrlLog first, got {:?}", other),
    }
    match &ops[1] {
        IrcOp::UrlTitle(url, chan) => {
            assert_eq!(url, "http://example.com/page");
            assert_eq!(chan, "#main");
        }
        other => panic!("expected UrlTitle second, got {:?}", other),
    }
    // The title fetch eventually replies with the page title in quotes.
    let body = "<html><head><title>Example Page</title></head></html>";
    let reply = sjmb::enrich::url_title_reply("http://example.com/page", Some(body));
    assert_eq!(reply, Some("\"Example Page\"".to_string()));
}

#[test]
fn say_from_privileged_sender_reaches_named_channel() {
    let mut bot = mk_bot(base_raw());
    let ev = chat("alice", "alice", "trusted.example", "mybot", "say #other hello");
    let d = bot.handle_event(&ev, 0);
    assert!(d.handled);
    assert_eq!(msgs_of(&mut bot), vec![("#other".to_string(), "hello".to_string())]);
    assert!(bot.take_ops().is_empty());
}

#[test]
fn say_from_unprivileged_sender_is_ignored() {
    let mut bot = mk_bot(base_raw());
    let ev = chat("bob", "bob", "somewhere.example", "mybot", "say #other hello");
    let d = bot.handle_event(&ev, 0);
    assert!(!d.handled);
    assert!(msgs_of(&mut bot).is_empty());
    assert!(bot.take_ops().is_empty());
}

#[test]
fn say_without_channel_goes_to_configured_channel() {
    let mut bot = mk_bot(base_raw());
    let ev = chat("alice", "alice", "trusted.example", "mybot", "say hello all");
    bot.handle_event(&ev, 0);
    assert_eq!(msgs_of(&mut bot), vec![("#main".to_string(), "hello all".to_string())]);
}

#[test]
fn mode_o_grants_op_on_acl_match_and_voice_otherwise() {
    let mut bot = mk_bot(base_raw());
    let ev = chat("alice", "alice", "trusted.example", "mybot", "op");
    bot.handle_event(&ev, 0);
    let ops = bot.take_ops();
    assert!(matches!(&ops[..], [IrcOp::ModeOper(chan, nick)]
        if chan == "#main" && nick == "alice"));

    let ev2 = chat("mallory", "mallory", "evil.example", "mybot", "op");
    bot.handle_event(&ev2, 0);
    let ops2 = bot.take_ops();
    assert!(matches!(&ops2[..], [IrcOp::ModeVoice(chan, nick)]
        if chan == "#main" && nick == "mallory"));
}

#[test]
fn colliding_keywords_let_the_later_registration_win() {
    // With two commands configured on the same keyword, the one registered
    // later replaces the earlier one (the voice grant is registered after
    // the operator grant).
    let mut raw = base_raw();
    raw.cmd_mode_o = "mode".to_string();
    raw.cmd_mode_v = "mode".to_string();
    let mut bot = mk_bot(raw);
    bot.handle_event(&chat("alice", "alice", "trusted.example", "mybot", "mode"), 0);
    let ops = bot.take_ops();
    assert!(matches!(&ops[..], [IrcOp::ModeVoice(chan, nick)]
        if chan == "#main" && nick == "alice"));
}

#[test]
fn join_auto_ops_identity_on_acl() {
    let mut bot = mk_bot(base_raw());
    let ev = Event {
        origin: Some(Origin {
            nick: "bob".to_string(),
            user: "bob".to_string(),
            host: "auto.example".to_string(),
        }),
        kind: EventKind::Join { channel: "#main".to_string() },
    };
    let d = bot.handle_event(&ev, 0);
    assert!(d.handled);
    let ops = bot.take_ops();
    assert!(matches!(&ops[..], [IrcOp::ModeOper(chan, nick)]
        if chan == "#main" && nick == "bob"));

    // A join by someone not on the auto-op ACL does nothing.
    let ev2 = Event {
        origin: Some(Origin {
            nick: "carol".to_string(),
            user: "carol".to_string(),
            host: "elsewhere.example".to_string(),
        }),
        kind: EventKind::Join { channel: "#main".to_string() },
    };
    let d2 = bot.handle_event(&ev2, 0);
    assert!(!d2.handled);
    assert!(bot.take_ops().is_empty());
}

#[test]
fn dumpacl_lists_both_acls() {
    let mut bot = mk_bot(base_raw());
    let ev = chat("alice", "alice", "trusted.example", "mybot", "dumpacl");
    bot.handle_event(&ev, 0);
    let msgs = msgs_of(&mut bot);
    let texts: Vec<&str> = msgs.iter().map(|(_, m)| m.as_str()).collect();
    assert_eq!(
        texts,
        vec![
            "My +o ACL:",
            "^alice@trusted\\.example$",
            "<EOF>",
            "My auto +o ACL:",
            "^bob@auto\\.example$",
            "<EOF>",
        ]
    );
    assert!(msgs.iter().all(|(t, _)| t == "alice"));
}

#[test]
fn nick_and_join_commands_enqueue_operations() {
    let mut bot = mk_bot(base_raw());
    bot.handle_event(&chat("alice", "alice", "trusted.example", "mybot", "nick newbot"), 0);
    bot.handle_event(&chat("alice", "alice", "trusted.example", "mybot", "join #extra"), 0);
    bot.handle_event(&chat("carol", "carol", "x.example", "mybot", "invite"), 0);
    let ops = bot.take_ops();
    assert!(matches!(&ops[0], IrcOp::Nick(n) if n == "newbot"));
    assert!(matches!(&ops[1], IrcOp::Join(c) if c == "#extra"));
    assert!(matches!(&ops[2], IrcOp::Invite(n, c) if n == "carol" && c == "#main"));
}

#[test]
fn url_rewrite_announces_and_refetches() {
    let mut bot = mk_bot(base_raw());
    let ev = chat("carol", "carol", "h.example", "#main", "see https://www.example.com/a/b");
    bot.handle_event(&ev, 7);
    let msgs = msgs_of(&mut bot);
    assert_eq!(msgs, vec![("#main".to_string(), "https://example.com/a/b".to_string())]);
    let ops = bot.take_ops();
    // log, title for the original, then title for the rewritten URL
    assert!(matches!(&ops[0], IrcOp::UrlLog(_, u, _, _, _) if u == "https://www.example.com/a/b"));
    assert!(matches!(&ops[1], IrcOp::UrlTitle(u, _) if u == "https://www.example.com/a/b"));
    assert!(matches!(&ops[2], IrcOp::UrlTitle(u, _) if u == "https://example.com/a/b"));
}

#[test]
fn blacklisted_url_is_ignored_but_counts_as_handled() {
    let mut bot = mk_bot(base_raw());
    let ev = chat("carol", "carol", "h.example", "#main", "https://tracker.test/pixel");
    let d = bot.handle_event(&ev, 0);
    assert!(d.handled);
    assert!(bot.take_ops().is_empty());
    assert!(msgs_of(&mut bot).is_empty());
}

#[test]
fn templated_command_enqueues_fetch() {
    let mut raw = base_raw();
    raw.url_cmd_list.insert(
        "weather".to_string(),
        RawUrlCmd {
            url_tmpl: "https://wx.test/{{arg}}".to_string(),
            output_filter: "<t>(.*?)</t>".to_string(),
        },
    );
    let mut bot = mk_bot(raw);
    let ev = chat("carol", "carol", "h.example", "#main", "!weather Oulu today");
    let d = bot.handle_event(&ev, 0);
    assert!(d.handled);
    let ops = bot.take_ops();
    match &ops[..] {
        [IrcOp::UrlFetch(tmpl, arg, chan, filter)] => {
            assert_eq!(tmpl, "https://wx.test/{{arg}}");
            assert_eq!(arg, "Oulu today");
            assert_eq!(chan, "#main");
            assert_eq!(filter.as_str(), "<t>(.*?)</t>");
            // The consumer renders the template and filters the body.
            let url = sjmb::enrich::render_url_cmd(tmpl, arg).unwrap();
            assert_eq!(url, "https://wx.test/Oulu today");
            let lines = sjmb::enrich::url_fetch_replies("<t>+21C</t>", filter);
            assert_eq!(lines, vec!["--> +21C".to_string()]);
        }
        other => panic!("expected one UrlFetch, got {:?}", other),
    }
}

#[test]
fn unknown_templated_command_falls_through() {
    let mut bot = mk_bot(base_raw());
    let ev = chat("carol", "carol", "h.example", "#main", "!nosuch thing");
    let d = bot.handle_event(&ev, 0);
    assert!(!d.handled);
    assert!(bot.take_ops().is_empty());
}

#[test]
fn nick_change_updates_tracked_nickname() {
    let mut bot = mk_bot(base_raw());
    assert_eq!(bot.mynick(), "mybot");
    let ev = Event {
        origin: Some(Origin {
            nick: "mybot".to_string(),
            user: "u".to_string(),
            host: "h".to_string(),
        }),
        kind: EventKind::NickChange { newnick: "otherbot".to_string() },
    };
    bot.handle_event(&ev, 0);
    assert_eq!(bot.mynick(), "otherbot");

    // Someone else's nick change leaves the bot's nickname alone.
    let ev2 = Event {
        origin: Some(Origin {
            nick: "carol".to_string(),
            user: "u".to_string(),
            host: "h".to_string(),
        }),
        kind: EventKind::NickChange { newnick: "carola".to_string() },
    };
    bot.handle_event(&ev2, 0);
    assert_eq!(bot.mynick(), "otherbot");
}

#[test]
fn sender_context_tracks_origin() {
    let mut bot = mk_bot(base_raw());
    bot.handle_event(&chat("carol", "cuser", "chost.example", "#main", "hi"), 0);
    assert_eq!(bot.msg_nick(), "carol");
    assert_eq!(bot.msg_user(), "cuser");
    assert_eq!(bot.msg_host(), "chost.example");
    assert_eq!(bot.msg_userhost(), "cuser@chost.example");
    let ev = Event { origin: None, kind: EventKind::Other };
    bot.handle_event(&ev, 0);
    assert_eq!(bot.msg_nick(), "NONE");
    assert_eq!(bot.msg_userhost(), "NONE@NONE");
}

#[test]
fn reload_requested_then_applied() {
    let mut bot = mk_bot(base_raw());
    let ev = chat("alice", "alice", "trusted.example", "mybot", "reload");
    let d = bot.handle_event(&ev, 0);
    assert!(d.handled);
    assert!(d.reload);
    // The loader hands back new raw values; the new snapshot is installed.
    let mut raw2 = base_raw();
    raw2.channel = "#moved".to_string();
    assert!(bot.apply_reload(Some(raw2)));
    let msgs = msgs_of(&mut bot);
    assert_eq!(msgs, vec![("alice".to_string(), "*** Reload successful.".to_string())]);
    // The new snapshot is active: say goes to the new default channel.
    bot.handle_event(&chat("alice", "alice", "trusted.example", "mybot", "say hi"), 0);
    assert_eq!(msgs_of(&mut bot), vec![("#moved".to_string(), "hi".to_string())]);
}

#[test]
fn failed_reload_keeps_previous_snapshot_active() {
    let mut bot = mk_bot(base_raw());
    // A reload with an invalid config must leave ACLs, channel and command
    // keywords fully intact.
    let mut bad = base_raw();
    bad.mode_o_acl.push("(".to_string());
    assert!(!bot.apply_reload(Some(bad)));
    let msgs = msgs_of(&mut bot);
    assert_eq!(msgs.len(), 1);
    assert!(msgs[0].1.starts_with("Could not parse runtime config: "));
    // Pre-reload behavior: the op command still works against the old ACL.
    bot.handle_event(&chat("alice", "alice", "trusted.example", "mybot", "op"), 0);
    let ops = bot.take_ops();
    assert!(matches!(&ops[..], [IrcOp::ModeOper(chan, nick)]
        if chan == "#main" && nick == "alice"));
    // And say still goes to the old channel.
    bot.handle_event(&chat("alice", "alice", "trusted.example", "mybot", "say hi"), 0);
    assert_eq!(msgs_of(&mut bot), vec![("#main".to_string(), "hi".to_string())]);
}

#[test]
fn unreadable_reload_keeps_previous_snapshot_active() {
    let mut bot = mk_bot(base_raw());
    assert!(!bot.apply_reload(None));
    let msgs = msgs_of(&mut bot);
    assert_eq!(msgs.len(), 1);
    assert!(msgs[0].1.starts_with("Could not parse runtime config: "));
    bot.handle_event(&chat("alice", "alice", "trusted.example", "mybot", "say hi"), 0);
    assert_eq!(msgs_of(&mut bot), vec![("#main".to_string(), "hi".to_string())]);
}

#[test]
fn message_with_several_urls_processes_each() {
    let mut raw = base_raw();
    raw.url_mut_channels = flag_map(&[]);
    let mut bot = mk_bot(raw);
    let ev = chat(
        "carol",
        "carol",
        "h.example",
        "#main",
        "a http://one.test/x b http://two.test/y",
    );
    bot.handle_event(&ev, 5);
    let ops = bot.take_ops();
    assert_eq!(ops.len(), 4);
    assert!(matches!(&ops[0], IrcOp::UrlLog(_, u, _, _, _) if u == "http://one.test/x"));
    assert!(matches!(&ops[1], IrcOp::UrlTitle(u, _) if u == "http://one.test/x"));
    assert!(matches!(&ops[2], IrcOp::UrlLog(_, u, _, _, _) if u == "http://two.test/y"));
    assert!(matches!(&ops[3], IrcOp::UrlTitle(u, _) if u == "http://two.test/y"));
}

#[test]
fn duplicate_check_enqueued_with_zone_and_window() {
    let mut raw = base_raw();
    raw.url_dup_complain_channels = flag_map(&[("#main", true)]);
    raw.url_dup_expire_days.insert("#main".to_string(), 30i64);
    raw.url_dup_timezone.insert("#main".to_string(), "Europe/Helsinki".to_string());
    raw.url_mut_channels = flag_map(&[]);
    raw.url_fetch_channels = flag_map(&[]);
    let mut bot = mk_bot(raw);
    bot.handle_event(&chat("carol", "carol", "h.example", "#main", "http://a.test/b"), 99);
    let ops = bot.take_ops();
    assert_eq!(ops.len(), 2);
    match &ops[0] {
        IrcOp::UrlCheck(db, url, chan, tz, days) => {
            assert_eq!(db, "/tmp/urls.db");
            assert_eq!(url, "http://a.test/b");
            assert_eq!(chan, "#main");
            assert_eq!(tz, "Europe/Helsinki");
            assert_eq!(*days, 30);
        }
        other => panic!("expected UrlCheck, got {:?}", other),
    }
    assert!(matches!(&ops[1], IrcOp::UrlLog(_, _, _, _, ts) if *ts == 99));
}
