use sjmb::enrich::{
    is_html_content_type, is_text_content_type, render_url_cmd, url_check_reply,
    url_fetch_replies, url_title_reply,
};
use sjmb::urlhist::{dup_cutoff, InsertRetry, UrlCtx, UrlHistory, URL_LOG_RETRY_COUNT};

fn sighting(ts: i64) -> UrlCtx {
    UrlCtx {
        ts,
        chan: "#main".to_string(),
        nick: "alice".to_string(),
        url: "http://example.com/page".to_string(),
    }
}

#[test]
fn duplicate_seen_once_inside_window() {
    let mut h = UrlHistory::new();
    h.add(sighting(1000));
    let agg = h.check("http://example.com/page", "#main", 500);
    let reply = url_check_reply(agg, "UTC");
    assert_eq!(reply, Some("Wanha URL, nähty 1970-01-01 00:16:40 UTC".to_string()));
}

#[test]
fn duplicate_seen_three_times_reports_first_and_last() {
    let mut h = UrlHistory::new();
    h.add(sighting(1000));
    h.add(sighting(2000));
    h.add(sighting(3000));
    let agg = h.check("http://example.com/page", "#main", 0).unwrap();
    assert_eq!(agg.cnt, 3);
    assert_eq!(agg.min, 1000);
    assert_eq!(agg.max, 3000);
    let reply = url_check_reply(Some(agg), "UTC");
    assert_eq!(
        reply,
        Some(
            "Wanha URL, nähty 3 kertaa, ensin 1970-01-01 00:16:40 UTC ja viimeksi 1970-01-01 00:50:00 UTC"
                .to_string()
        )
    );
}

#[test]
fn duplicate_outside_expiry_window_is_silent() {
    let mut h = UrlHistory::new();
    h.add(sighting(1000));
    let agg = h.check("http://example.com/page", "#main", 5000);
    assert!(agg.is_none());
    assert_eq!(url_check_reply(agg, "UTC"), None);
}

#[test]
fn duplicate_query_is_per_url_and_channel() {
    let mut h = UrlHistory::new();
    h.add(sighting(1000));
    assert!(h.check("http://example.com/other", "#main", 0).is_none());
    assert!(h.check("http://example.com/page", "#other", 0).is_none());
}

#[test]
fn duplicate_reply_renders_in_channel_timezone() {
    let mut h = UrlHistory::new();
    h.add(sighting(1000));
    let agg = h.check("http://example.com/page", "#main", 0);
    // Helsinki was UTC+2 at that timestamp.
    let reply = url_check_reply(agg, "Europe/Helsinki");
    assert_eq!(reply, Some("Wanha URL, nähty 1970-01-01 02:16:40 EET".to_string()));
}

#[test]
fn expiry_window_cutoff() {
    assert_eq!(dup_cutoff(1_000_000, 7), 1_000_000 - 7 * 86400);
    assert_eq!(dup_cutoff(1_000_000, 0), 1_000_000);
    // An absurdly large window saturates to the beginning of time.
    assert_eq!(dup_cutoff(0, i64::MAX), i64::MIN);
}

#[test]
fn retry_budget_is_bounded() {
    let mut p = InsertRetry::new();
    let mut used = 0u64;
    while p.next_attempt() {
        used += 1;
        assert!(used <= URL_LOG_RETRY_COUNT);
    }
    assert_eq!(used, URL_LOG_RETRY_COUNT);
    assert!(!p.next_attempt());
}

#[test]
fn title_reply_quotes_the_extracted_title() {
    let body = "<html><head><title>Example Page</title></head><body></body></html>";
    let r = url_title_reply("http://example.com/page", Some(body));
    assert_eq!(r, Some("\"Example Page\"".to_string()));
}

#[test]
fn title_reply_collapses_whitespace() {
    let body = "<html><head><title>An   odd\n\t title</title></head></html>";
    let r = url_title_reply("http://x.test/", Some(body));
    assert_eq!(r, Some("\"An odd title\"".to_string()));
}

#[test]
fn title_equal_to_url_is_suppressed() {
    let url = "http://example.com/page";
    let body = format!("<html><head><title>{}</title></head></html>", url);
    assert_eq!(url_title_reply(url, Some(body.as_str())), None);
}

#[test]
fn title_reply_absent_without_body_or_title() {
    assert_eq!(url_title_reply("http://x.test/", None), None);
    assert_eq!(
        url_title_reply("http://x.test/", Some("<html><body>no title</body></html>")),
        None
    );
}

#[test]
fn overlong_title_is_truncated_with_ellipsis() {
    let long = "a".repeat(500);
    let body = format!("<html><head><title>{}</title></head></html>", long);
    let r = url_title_reply("http://x.test/", Some(body.as_str())).unwrap();
    let expected = format!("\"{}...\"", "a".repeat(396));
    assert_eq!(r, expected);
    assert_eq!(r.chars().count(), 396 + 3 + 2);
}

#[test]
fn fetch_replies_one_line_per_capture() {
    let filter = regex::Regex::new("<r>([^<]*)</r>").unwrap();
    let body = "x<r>one</r>y<r>two</r>z";
    assert_eq!(
        url_fetch_replies(body, &filter),
        vec!["--> one".to_string(), "--> two".to_string()]
    );
    assert_eq!(url_fetch_replies("nothing here", &filter), Vec::<String>::new());
}

#[test]
fn template_renders_arg_and_words() {
    assert_eq!(render_url_cmd("https://x.test/{{arg}}", "hello"), Some(
        "https://x.test/hello".to_string(),
    ));
    assert_eq!(
        render_url_cmd("{% for a in args %}{{a}}-{% endfor %}", "one two"),
        Some("one-two-".to_string())
    );
    assert_eq!(render_url_cmd("{% bogus", "x"), None);
}

#[test]
fn content_type_gates() {
    assert!(is_text_content_type("text/plain"));
    assert!(is_text_content_type("text/html; charset=utf-8"));
    assert!(!is_text_content_type("image/png"));
    assert!(is_html_content_type("text/html"));
    assert!(!is_html_content_type("text/plain"));
}
