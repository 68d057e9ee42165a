//! Verified character-level string utilities: equality, prefix tests,
//! whitespace classification, whitespace collapsing and splitting, and
//! decimal rendering.

use vstd::prelude::*;

verus! {

/// The characters with the Unicode `White_Space` property, the set
/// `char::is_whitespace` accepts.
pub open spec fn is_ws_char(c: char) -> bool {
    c == ' ' || c == '\t' || c == '\n' || c == '\r' || c == '\u{b}' || c == '\u{c}'
        || c == '\u{85}' || c == '\u{a0}' || c == '\u{1680}' || c == '\u{2000}'
        || c == '\u{2001}' || c == '\u{2002}' || c == '\u{2003}' || c == '\u{2004}'
        || c == '\u{2005}' || c == '\u{2006}' || c == '\u{2007}' || c == '\u{2008}'
        || c == '\u{2009}' || c == '\u{200a}' || c == '\u{2028}' || c == '\u{2029}'
        || c == '\u{202f}' || c == '\u{205f}' || c == '\u{3000}'
}

/// Executable whitespace test, equal to `is_ws_char`.
pub fn is_ws(c: char) -> (r: bool)
    ensures
        r == is_ws_char(c),
{
    c == ' ' || c == '\t' || c == '\n' || c == '\r' || c == '\u{b}' || c == '\u{c}'
        || c == '\u{85}' || c == '\u{a0}' || c == '\u{1680}' || c == '\u{2000}'
        || c == '\u{2001}' || c == '\u{2002}' || c == '\u{2003}' || c == '\u{2004}'
        || c == '\u{2005}' || c == '\u{2006}' || c == '\u{2007}' || c == '\u{2008}'
        || c == '\u{2009}' || c == '\u{200a}' || c == '\u{2028}' || c == '\u{2029}'
        || c == '\u{202f}' || c == '\u{205f}' || c == '\u{3000}'
}

/// String equality on views.
pub fn str_eq(a: &str, b: &str) -> (r: bool)
    ensures
        r == (a@ == b@),
{
    let a_s: String = a.to_owned();
    let b_s: String = b.to_owned();
    a_s == b_s
}

/// Whether `prefix` is a prefix of `s`.
pub open spec fn is_prefix_of(prefix: Seq<char>, s: Seq<char>) -> bool {
    prefix.len() <= s.len() && s.subrange(0, prefix.len() as int) == prefix
}

/// Executable prefix test on views.
pub fn starts_with(s: &str, prefix: &str) -> (r: bool)
    ensures
        r == is_prefix_of(prefix@, s@),
{
    let n = prefix.unicode_len();
    if s.unicode_len() < n {
        assert(!is_prefix_of(prefix@, s@));
        false
    } else {
        let head = s.substring_char(0, n);
        let r = str_eq(head, prefix);
        assert(head@ == s@.subrange(0, prefix@.len() as int));
        r
    }
}

/// Whitespace-collapsed form of a string: the whitespace-separated tokens of
/// `s` joined by single spaces, with no leading or trailing space. `gap_rest`
/// renders the remaining tokens after at least one token was already emitted;
/// `tok_rest` continues inside a token.
pub open spec fn ws_collapse_spec(s: Seq<char>) -> Seq<char>
    decreases s.len(), 0int,
{
    if s.len() == 0 {
        Seq::empty()
    } else if is_ws_char(s[0]) {
        ws_collapse_spec(s.drop_first())
    } else {
        seq![s[0]] + tok_rest(s.drop_first())
    }
}

pub open spec fn gap_rest(s: Seq<char>) -> Seq<char>
    decreases s.len(), 1int,
{
    if ws_collapse_spec(s).len() == 0 {
        Seq::empty()
    } else {
        seq![' '] + ws_collapse_spec(s)
    }
}

pub open spec fn tok_rest(s: Seq<char>) -> Seq<char>
    decreases s.len(), 2int,
{
    if s.len() == 0 {
        Seq::empty()
    } else if !is_ws_char(s[0]) {
        seq![s[0]] + tok_rest(s.drop_first())
    } else {
        gap_rest(s)
    }
}

proof fn lemma_skip_one(s: Seq<char>, i: int)
    requires
        0 <= i < s.len(),
    ensures
        s.skip(i).drop_first() == s.skip(i + 1),
        s.skip(i).len() == s.len() - i,
        s.skip(i)[0] == s[i],
{
    assert(s.skip(i).drop_first() =~= s.skip(i + 1));
}

/// `gap_rest` is unchanged by dropping a leading whitespace character.
proof fn lemma_gap_ws(s: Seq<char>)
    requires
        s.len() > 0,
        is_ws_char(s[0]),
    ensures
        gap_rest(s) == gap_rest(s.drop_first()),
{
}

/// Collapse all runs of whitespace in `s` to single spaces and trim both ends.
pub fn ws_collapse_str(s: &str) -> (r: String)
    ensures
        r@ == ws_collapse_spec(s@),
{
    let n = s.unicode_len();
    let mut out: Vec<char> = Vec::new();
    let mut i: usize = 0;
    // 0: nothing emitted yet; 1: last examined character was part of a token;
    // 2: inside a whitespace gap after a token
    let mut state: u8 = 0;
    proof {
        assert(s@.skip(0) =~= s@);
    }
    while i < n
        invariant
            i <= n,
            n == s@.len(),
            state == 0 || state == 1 || state == 2,
            state == 0 ==> out@ == Seq::<char>::empty() && ws_collapse_spec(s@)
                == ws_collapse_spec(s@.skip(i as int)),
            state == 1 ==> ws_collapse_spec(s@) == out@ + tok_rest(s@.skip(i as int)),
            state == 2 ==> ws_collapse_spec(s@) == out@ + gap_rest(s@.skip(i as int)),
        decreases n - i,
    {
        let c = s.get_char(i);
        proof {
            lemma_skip_one(s@, i as int);
        }
        let ghost suf = s@.skip(i as int);
        let ghost suf1 = s@.skip(i as int + 1);
        if state == 0 {
            if is_ws(c) {
                assert(ws_collapse_spec(suf) == ws_collapse_spec(suf1));
            } else {
                out.push(c);
                state = 1;
                assert(ws_collapse_spec(suf) == seq![s@[i as int]] + tok_rest(suf1));
            }
        } else if state == 1 {
            if is_ws(c) {
                state = 2;
                assert(tok_rest(suf) == gap_rest(suf));
                proof {
                    lemma_gap_ws(suf);
                }
            } else {
                out.push(c);
                assert(tok_rest(suf) == seq![s@[i as int]] + tok_rest(suf1));
            }
        } else {
            if is_ws(c) {
                proof {
                    lemma_gap_ws(suf);
                }
            } else {
                out.push(' ');
                out.push(c);
                state = 1;
                assert(ws_collapse_spec(suf) == seq![s@[i as int]] + tok_rest(suf1));
                assert(gap_rest(suf) == seq![' '] + seq![s@[i as int]] + tok_rest(suf1));
            }
        }
        i = i + 1;
    }
    proof {
        assert(s@.skip(n as int) =~= Seq::<char>::empty());
        if state == 1 {
            assert(tok_rest(Seq::<char>::empty()) =~= Seq::<char>::empty());
        }
        if state == 2 {
            assert(ws_collapse_spec(Seq::<char>::empty()) =~= Seq::<char>::empty());
        }
        assert(ws_collapse_spec(s@) =~= out@);
    }
    chars_to_string(&out)
}

/// Relies on `String` implementing `FromIterator<char>`: collecting chars
/// yields the string of exactly those characters in order.
#[verifier::external_body]
pub(crate) fn chars_to_string(v: &Vec<char>) -> (r: String)
    ensures
        r@ == v@,
{
    v.iter().collect()
}

/// Index of the first character of `s` satisfying `is_ws_char`, or `s.len()`
/// when there is none.
pub open spec fn spec_first_ws(s: Seq<char>) -> int
    decreases s.len(),
{
    if s.len() == 0 {
        0
    } else if is_ws_char(s[0]) {
        0
    } else {
        1 + spec_first_ws(s.drop_first())
    }
}

/// Index of the first occurrence of `c` in `s`, or `s.len()` when absent.
pub open spec fn spec_first_char(s: Seq<char>, c: char) -> int
    decreases s.len(),
{
    if s.len() == 0 {
        0
    } else if s[0] == c {
        0
    } else {
        1 + spec_first_char(s.drop_first(), c)
    }
}

proof fn lemma_first_ws_at(s: Seq<char>, i: int)
    requires
        0 <= i <= s.len(),
        forall|j: int| 0 <= j < i ==> !is_ws_char(s[j]),
        i < s.len() ==> is_ws_char(s[i]),
    ensures
        spec_first_ws(s) == i,
    decreases s.len(),
{
    if s.len() == 0 {
    } else if is_ws_char(s[0]) {
        assert(i == 0);
    } else {
        assert(forall|j: int| 0 <= j < i - 1 ==> s.drop_first()[j] == s[j + 1]
            && !is_ws_char(s.drop_first()[j]));
        lemma_first_ws_at(s.drop_first(), i - 1);
    }
}

proof fn lemma_first_char_at(s: Seq<char>, c: char, i: int)
    requires
        0 <= i <= s.len(),
        forall|j: int| 0 <= j < i ==> s[j] != c,
        i < s.len() ==> s[i] == c,
    ensures
        spec_first_char(s, c) == i,
    decreases s.len(),
{
    if s.len() == 0 {
    } else if s[0] == c {
        assert(i == 0);
    } else {
        assert(forall|j: int| 0 <= j < i - 1 ==> s.drop_first()[j] == s[j + 1]
            && s.drop_first()[j] != c);
        lemma_first_char_at(s.drop_first(), c, i - 1);
    }
}

/// Split at the first whitespace character: `(s, "")` when there is none,
/// else the part before it and the part after it (the separator dropped).
pub open spec fn spec_split_ws_once(s: Seq<char>) -> (Seq<char>, Seq<char>) {
    let j = spec_first_ws(s);
    if j < s.len() {
        (s.take(j), s.skip(j + 1))
    } else {
        (s, Seq::empty())
    }
}

/// Split at the first occurrence of `c`: `None` when absent, else the parts
/// before and after it.
pub open spec fn spec_split_char_once(s: Seq<char>, c: char) -> Option<(Seq<char>, Seq<char>)> {
    let j = spec_first_char(s, c);
    if j < s.len() {
        Some((s.take(j), s.skip(j + 1)))
    } else {
        None
    }
}

fn first_ws_index(s: &str) -> (r: usize)
    ensures
        r == spec_first_ws(s@),
        r <= s@.len(),
{
    let n = s.unicode_len();
    let mut i: usize = 0;
    while i < n
        invariant
            i <= n,
            n == s@.len(),
            forall|j: int| 0 <= j < i ==> !is_ws_char(s@[j]),
        decreases n - i,
    {
        if is_ws(s.get_char(i)) {
            proof {
                lemma_first_ws_at(s@, i as int);
            }
            return i;
        }
        i = i + 1;
    }
    proof {
        lemma_first_ws_at(s@, n as int);
    }
    n
}

fn first_char_index(s: &str, c: char) -> (r: usize)
    ensures
        r == spec_first_char(s@, c),
        r <= s@.len(),
{
    let n = s.unicode_len();
    let mut i: usize = 0;
    while i < n
        invariant
            i <= n,
            n == s@.len(),
            forall|j: int| 0 <= j < i ==> s@[j] != c,
        decreases n - i,
    {
        if s.get_char(i) == c {
            proof {
                lemma_first_char_at(s@, c, i as int);
            }
            return i;
        }
        i = i + 1;
    }
    proof {
        lemma_first_char_at(s@, c, n as int);
    }
    n
}

/// Split a message into its first whitespace-delimited word and the rest,
/// as a command keyword and its argument text.
pub fn split_ws_once(s: &str) -> (r: (String, String))
    ensures
        (r.0@, r.1@) == spec_split_ws_once(s@),
{
    let n = s.unicode_len();
    let j = first_ws_index(s);
    if j < n {
        let head = s.substring_char(0, j).to_owned();
        let tail = s.substring_char(j + 1, n).to_owned();
        proof {
            assert(s@.take(spec_first_ws(s@)) =~= s@.subrange(0, spec_first_ws(s@)));
            assert(s@.skip(spec_first_ws(s@) + 1) =~= s@.subrange(
                spec_first_ws(s@) + 1,
                s@.len() as int,
            ));
        }
        (head, tail)
    } else {
        (s.to_owned(), String::new())
    }
}

/// Split at the first occurrence of `c`, as `str::split_once` does.
pub fn split_char_once(s: &str, c: char) -> (r: Option<(String, String)>)
    ensures
        match r {
            Some(p) => spec_split_char_once(s@, c) == Some((p.0@, p.1@)),
            None => spec_split_char_once(s@, c) is None,
        },
{
    let n = s.unicode_len();
    let j = first_char_index(s, c);
    if j < n {
        let head = s.substring_char(0, j).to_owned();
        let tail = s.substring_char(j + 1, n).to_owned();
        proof {
            assert(s@.take(spec_first_char(s@, c)) =~= s@.subrange(0, spec_first_char(s@, c)));
            assert(s@.skip(spec_first_char(s@, c) + 1) =~= s@.subrange(
                spec_first_char(s@, c) + 1,
                s@.len() as int,
            ));
        }
        Some((head, tail))
    } else {
        None
    }
}

/// The whitespace-separated tokens of `s`, in order. `spec_tok_cont`
/// continues a token begun with the accumulated characters `acc`.
pub open spec fn spec_ws_tokens(s: Seq<char>) -> Seq<Seq<char>>
    decreases s.len(), 0int,
{
    if s.len() == 0 {
        Seq::empty()
    } else if is_ws_char(s[0]) {
        spec_ws_tokens(s.drop_first())
    } else {
        spec_tok_cont(s.drop_first(), seq![s[0]])
    }
}

pub open spec fn spec_tok_cont(s: Seq<char>, acc: Seq<char>) -> Seq<Seq<char>>
    decreases s.len(), 1int,
{
    if s.len() == 0 {
        seq![acc]
    } else if !is_ws_char(s[0]) {
        spec_tok_cont(s.drop_first(), acc.push(s[0]))
    } else {
        seq![acc] + spec_ws_tokens(s.drop_first())
    }
}

/// Split `s` into its whitespace-separated tokens, as
/// `str::split_whitespace` yields them.
pub fn ws_split(s: &str) -> (r: Vec<String>)
    ensures
        r.deep_view() == spec_ws_tokens(s@),
{
    let n = s.unicode_len();
    let mut out: Vec<String> = Vec::new();
    let mut cur: Vec<char> = Vec::new();
    let mut in_tok = false;
    let mut i: usize = 0;
    proof {
        assert(s@.skip(0) =~= s@);
    }
    while i < n
        invariant
            i <= n,
            n == s@.len(),
            !in_tok ==> cur@ == Seq::<char>::empty() && spec_ws_tokens(s@) == out.deep_view()
                + spec_ws_tokens(s@.skip(i as int)),
            in_tok ==> cur@.len() > 0 && spec_ws_tokens(s@) == out.deep_view() + spec_tok_cont(
                s@.skip(i as int),
                cur@,
            ),
        decreases n - i,
    {
        let c = s.get_char(i);
        proof {
            lemma_skip_one(s@, i as int);
        }
        if in_tok {
            if is_ws(c) {
                let tok = chars_to_string(&cur);
                out.push(tok);
                cur = Vec::new();
                in_tok = false;
            } else {
                cur.push(c);
            }
        } else {
            if !is_ws(c) {
                cur.push(c);
                in_tok = true;
            }
        }
        i = i + 1;
    }
    proof {
        assert(s@.skip(n as int) =~= Seq::<char>::empty());
    }
    if in_tok {
        let tok = chars_to_string(&cur);
        out.push(tok);
    }
    out
}

/// The decimal digits of `n`, most significant first.
pub open spec fn spec_dec_digits(n: u64) -> Seq<char>
    decreases n,
{
    if n < 10 {
        seq![spec_digit_char(n)]
    } else {
        spec_dec_digits(n / 10).push(spec_digit_char(n % 10))
    }
}

pub open spec fn spec_digit_char(d: u64) -> char {
    if d == 0 { '0' } else if d == 1 { '1' } else if d == 2 { '2' } else if d == 3 { '3' }
    else if d == 4 { '4' } else if d == 5 { '5' } else if d == 6 { '6' } else if d == 7 { '7' }
    else if d == 8 { '8' } else { '9' }
}

fn digit_char(d: u64) -> (r: char)
    requires
        d < 10,
    ensures
        r == spec_digit_char(d),
{
    if d == 0 { '0' } else if d == 1 { '1' } else if d == 2 { '2' } else if d == 3 { '3' }
    else if d == 4 { '4' } else if d == 5 { '5' } else if d == 6 { '6' } else if d == 7 { '7' }
    else if d == 8 { '8' } else { '9' }
}

fn dec_chars(n: u64) -> (r: Vec<char>)
    ensures
        r@ == spec_dec_digits(n),
    decreases n,
{
    if n < 10 {
        let mut v: Vec<char> = Vec::new();
        v.push(digit_char(n));
        proof {
            assert(v@ =~= seq![spec_digit_char(n)]);
        }
        v
    } else {
        let mut v = dec_chars(n / 10);
        v.push(digit_char(n % 10));
        v
    }
}

/// Render `n` in decimal.
pub fn u64_to_dec(n: u64) -> (r: String)
    ensures
        r@ == spec_dec_digits(n),
{
    let v = dec_chars(n);
    chars_to_string(&v)
}

/// Collapsing every whitespace run to a single space, on the string itself.
pub trait CollapseWhiteSpace: Sized {
    spec fn cw_val(self) -> Seq<char>;

    fn ws_collapse(self) -> (r: String)
        ensures
            r@ == ws_collapse_spec(self.cw_val()),
    ;
}

impl CollapseWhiteSpace for &str {
    open spec fn cw_val(self) -> Seq<char> {
        self@
    }

    fn ws_collapse(self) -> (r: String) {
        ws_collapse_str(self)
    }
}

/// A sequence is a prefix of itself followed by anything.
pub proof fn lemma_prefix_concat(p: Seq<char>, q: Seq<char>)
    ensures
        is_prefix_of(p, p + q),
{
    assert((p + q).subrange(0, p.len() as int) =~= p);
}

} // verus!
