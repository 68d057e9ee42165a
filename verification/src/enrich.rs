//! The pure parts of the enrichment jobs: title extraction and suppression,
//! templated-fetch output filtering, and duplicate-URL reply formatting. The
//! fetching itself is the caller's side effect; these functions turn what
//! came back into the chat replies to enqueue.

use vstd::prelude::*;

use crate::re_engine::{re_captures1, re_pattern, regex_captures1};
use crate::str_util::{is_prefix_of, starts_with, str_eq, u64_to_dec, spec_dec_digits,
    ws_collapse_spec, ws_collapse_str, ws_split};
use crate::time_fmt::{tz_format, tz_render, TS_NONE};
use crate::tmpl::{render_url_template, template_parses};
use crate::urlhist::UrlHist;

verus! {

/// What `webpage::HTML::from_string` extracts as the title of a document:
/// `None` when the text does not parse or carries no title.
pub uninterp spec fn html_title(body: Seq<char>) -> Option<Seq<char>>;

/// Relies on `webpage::HTML::from_string`: title extraction is a pure
/// function of the document text.
#[verifier::external_body]
fn extract_title(body: &str) -> (r: Option<String>)
    ensures
        r is Some <==> html_title(body@) is Some,
        r matches Some(t) ==> t@ == html_title(body@)->0,
{
    match webpage::HTML::from_string(body.to_string(), None) {
        Ok(h) => h.title,
        Err(_) => None,
    }
}

/// Character budget for a title reply.
pub const TITLE_MAX_CHARS: usize = 400;

/// Where an overlong title is cut before the ellipsis marker.
pub const TITLE_CUT_CHARS: usize = 396;

/// An overlong title is cut at the character budget and marked with an
/// ellipsis.
pub open spec fn spec_truncate_title(t: Seq<char>) -> Seq<char> {
    if t.len() > TITLE_MAX_CHARS {
        t.take(TITLE_CUT_CHARS as int) + "..."@
    } else {
        t
    }
}

fn truncate_title(t: String) -> (r: String)
    ensures
        r@ == spec_truncate_title(t@),
{
    if t.as_str().unicode_len() > TITLE_MAX_CHARS {
        let head = t.as_str().substring_char(0, TITLE_CUT_CHARS);
        proof {
            assert(t@.subrange(0, TITLE_CUT_CHARS as int) =~= t@.take(TITLE_CUT_CHARS as int));
        }
        head.to_owned().concat("...")
    } else {
        t
    }
}

/// The reply a title fetch produces: the extracted title with every
/// whitespace run collapsed to one space, truncated to the character budget,
/// in double quotes — or nothing, when the body is missing (non-text
/// response or failed fetch), carries no title, or the collapsed title is
/// exactly the submitted URL (no point echoing the URL back).
pub open spec fn spec_title_reply(url: Seq<char>, body: Option<Seq<char>>) -> Option<Seq<char>> {
    match body {
        None => None,
        Some(b) => match html_title(b) {
            None => None,
            Some(t) => {
                let c = ws_collapse_spec(t);
                if c == url {
                    None
                } else {
                    Some("\""@ + spec_truncate_title(c) + "\""@)
                }
            },
        },
    }
}

/// Turn a fetched page body into the title reply for `url`, per
/// `spec_title_reply`.
pub fn url_title_reply(url: &str, body: Option<&str>) -> (r: Option<String>)
    ensures
        r.deep_view() == spec_title_reply(url@, body.deep_view()),
{
    match body {
        None => None,
        Some(b) => match extract_title(b) {
            None => None,
            Some(title) => {
                let collapsed = ws_collapse_str(title.as_str());
                if str_eq(collapsed.as_str(), url) {
                    None
                } else {
                    let t = truncate_title(collapsed);
                    Some("\"".to_owned().concat(t.as_str()).concat("\""))
                }
            },
        },
    }
}

/// Title-suppression law: when the extracted, whitespace-collapsed title of
/// a page is character-for-character the submitted URL, the title fetch
/// yields no chat reply.
pub proof fn lemma_title_suppressed(url: Seq<char>, body: Seq<char>)
    requires
        html_title(body) matches Some(t) && ws_collapse_spec(t) == url,
    ensures
        spec_title_reply(url, Some(body)) is None,
{
}

/// One reply line per extracted match.
pub open spec fn spec_fetch_replies(caps: Seq<Seq<char>>) -> Seq<Seq<char>> {
    caps.map_values(|c: Seq<char>| "--> "@ + c)
}

/// Apply a templated command's output filter to a fetched body: one reply
/// line `"--> <match>"` per capture of the filter pattern, in match order.
pub fn url_fetch_replies(body: &str, filter: &regex::Regex) -> (r: Vec<String>)
    ensures
        r.deep_view() == spec_fetch_replies(regex_captures1(re_pattern(*filter), body@)),
{
    let caps = re_captures1(filter, body);
    let ghost gcaps = regex_captures1(re_pattern(*filter), body@);
    let n = caps.len();
    let mut out: Vec<String> = Vec::new();
    let mut i: usize = 0;
    while i < n
        invariant
            i <= n,
            n == caps@.len(),
            caps.deep_view() == gcaps,
            out.deep_view().len() == i,
            forall|j: int| 0 <= j < i ==> #[trigger] out.deep_view()[j] == "--> "@ + gcaps[j],
        decreases n - i,
    {
        let ghost prev = out.deep_view();
        out.push("--> ".to_owned().concat(caps[i].as_str()));
        proof {
            assert(caps.deep_view()[i as int] == caps@[i as int]@);
            assert forall|j: int| 0 <= j <= i as int implies #[trigger] out.deep_view()[j]
                == "--> "@ + gcaps[j] by {
                assert(out.deep_view()[j] == out@[j]@);
                if j < i as int {
                    assert(prev[j] == out@[j]@);
                }
            }
        }
        i = i + 1;
    }
    proof {
        assert(out.deep_view() =~~= spec_fetch_replies(gcaps));
    }
    out
}

/// Render a templated command's URL from the user-supplied argument text:
/// the template sees the whole text as `arg` and its whitespace-split words
/// as `args`. `None` when the template does not parse or does not render.
pub fn render_url_cmd(url_tmpl: &str, arg: &str) -> (r: Option<String>)
    ensures
        r is Some ==> template_parses(url_tmpl@),
{
    let args = ws_split(arg);
    render_url_template(url_tmpl, arg, &args)
}

/// A timestamp rendered as a local time of the named zone, with `"(none)"`
/// where the zone or the timestamp cannot be rendered.
pub open spec fn spec_ts_in_tz(tzname: Seq<char>, ts: i64) -> Seq<char> {
    match tz_render(tzname, ts as int) {
        Some(s) => s,
        None => TS_NONE@,
    }
}

fn ts_in_tz(tzname: &str, ts: i64) -> (r: String)
    ensures
        r@ == spec_ts_in_tz(tzname@, ts),
{
    match tz_format(tzname, ts) {
        Some(s) => s,
        None => TS_NONE.to_owned(),
    }
}

/// The reply a duplicate check produces: nothing without a prior sighting;
/// for exactly one prior sighting, its timestamp; for more, the count with
/// the first and last timestamps — all rendered in the channel's timezone.
pub open spec fn spec_dup_reply(hist: Option<UrlHist>, tzname: Seq<char>) -> Option<Seq<char>> {
    match hist {
        None => None,
        Some(h) => if h.cnt == 1 {
            Some("Wanha URL, nähty "@ + spec_ts_in_tz(tzname, h.min))
        } else if h.cnt > 1 {
            Some(
                "Wanha URL, nähty "@ + spec_dec_digits(h.cnt) + " kertaa, ensin "@ + spec_ts_in_tz(
                    tzname,
                    h.min,
                ) + " ja viimeksi "@ + spec_ts_in_tz(tzname, h.max),
            )
        } else {
            None
        },
    }
}

/// Format the duplicate-URL reply from a query aggregate, per
/// `spec_dup_reply`.
pub fn url_check_reply(hist: Option<UrlHist>, tzname: &str) -> (r: Option<String>)
    ensures
        r.deep_view() == spec_dup_reply(hist, tzname@),
{
    match hist {
        None => None,
        Some(h) => {
            if h.cnt == 1 {
                Some("Wanha URL, nähty ".to_owned().concat(ts_in_tz(tzname, h.min).as_str()))
            } else if h.cnt > 1 {
                Some(
                    "Wanha URL, nähty ".to_owned().concat(u64_to_dec(h.cnt).as_str()).concat(
                        " kertaa, ensin ",
                    ).concat(ts_in_tz(tzname, h.min).as_str()).concat(" ja viimeksi ").concat(
                        ts_in_tz(tzname, h.max).as_str(),
                    ),
                )
            } else {
                None
            }
        },
    }
}

/// Whether a content type is textual: only those responses are read at all.
pub fn is_text_content_type(ct: &str) -> (r: bool)
    ensures
        r == is_prefix_of("text/"@, ct@),
{
    starts_with(ct, "text/")
}

/// Whether a content type is HTML: only those bodies go to title extraction.
pub fn is_html_content_type(ct: &str) -> (r: bool)
    ensures
        r == is_prefix_of("text/html"@, ct@),
{
    starts_with(ct, "text/html")
}

} // verus!
