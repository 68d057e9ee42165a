//! Ordered URL-rewrite tables: the first rule whose pattern matches rewrites
//! the input once.

use vstd::prelude::*;

use crate::re_acl::PatternError;
use crate::re_engine::{
    re_compile, re_is_match, re_pattern, re_replace_first, regex_match, regex_replace_first,
    regex_valid,
};

verus! {

/// Rule `i` of `rules` (a sequence of pattern/replacement pairs) is the
/// first one whose pattern matches `text`.
pub open spec fn rewrite_match_at(
    rules: Seq<(Seq<char>, Seq<char>)>,
    text: Seq<char>,
    i: int,
) -> bool {
    &&& 0 <= i < rules.len()
    &&& regex_match(rules[i].0, text)
    &&& forall|j: int| 0 <= j < i ==> !regex_match(rules[j].0, text)
}

/// Some rule's pattern matches `text`.
pub open spec fn rewrite_matches(rules: Seq<(Seq<char>, Seq<char>)>, text: Seq<char>) -> bool {
    exists|i: int| 0 <= i < rules.len() && regex_match(rules[i].0, text)
}

/// The first-match rewrite as a function: the replacement of the first rule
/// whose pattern matches, applied once, or `None` when no rule matches.
pub open spec fn spec_rewrite(rules: Seq<(Seq<char>, Seq<char>)>, text: Seq<char>) -> Option<
    Seq<char>,
>
    decreases rules.len(),
{
    if rules.len() == 0 {
        None
    } else if regex_match(rules[0].0, text) {
        Some(regex_replace_first(rules[0].0, text, rules[0].1))
    } else {
        spec_rewrite(rules.drop_first(), text)
    }
}

proof fn lemma_spec_rewrite_at(rules: Seq<(Seq<char>, Seq<char>)>, text: Seq<char>, i: int)
    requires
        0 <= i <= rules.len(),
        forall|j: int| 0 <= j < i ==> !regex_match((#[trigger] rules[j]).0, text),
        i < rules.len() ==> regex_match(rules[i].0, text),
    ensures
        spec_rewrite(rules, text) == if i < rules.len() {
            Some(regex_replace_first(rules[i].0, text, rules[i].1))
        } else {
            None::<Seq<char>>
        },
    decreases rules.len(),
{
    if rules.len() == 0 {
    } else if regex_match(rules[0].0, text) {
        assert(i == 0);
    } else {
        assert(forall|j: int|
            0 <= j < i - 1 ==> (#[trigger] rules.drop_first()[j]) == rules[j + 1]);
        lemma_spec_rewrite_at(rules.drop_first(), text, i - 1);
    }
}

/// An ordered rewrite table of compiled patterns with replacement strings.
/// Its view is the sequence of (pattern, replacement) texts, in declaration
/// order.
#[derive(Debug)]
pub struct ReMut {
    re_str: Vec<(String, String)>,
    re_vec: Vec<regex::Regex>,
}

impl View for ReMut {
    type V = Seq<(Seq<char>, Seq<char>)>;

    closed spec fn view(&self) -> Seq<(Seq<char>, Seq<char>)> {
        self.re_str.deep_view()
    }
}

impl ReMut {
    #[verifier::type_invariant]
    spec fn wf(&self) -> bool {
        &&& self.re_vec@.len() == self.re_str@.len()
        &&& forall|i: int|
            0 <= i < self.re_vec@.len() ==> re_pattern(#[trigger] self.re_vec@[i])
                == self.re_str@[i].0@
    }

    /// Compile every rule pattern of `list`, keeping declaration order; fails
    /// on the first pattern that is not a valid one.
    pub fn new(list: &Vec<(String, String)>) -> (r: Result<Self, PatternError>)
        ensures
            match r {
                Ok(t) => t@ == list.deep_view() && forall|i: int|
                    0 <= i < list@.len() ==> regex_valid(#[trigger] list.deep_view()[i].0),
                Err(e) => exists|i: int|
                    0 <= i < list@.len() && !regex_valid(#[trigger] list.deep_view()[i].0)
                        && e.pattern@ == list.deep_view()[i].0,
            },
    {
        let mut re_str: Vec<(String, String)> = Vec::new();
        let mut re_vec: Vec<regex::Regex> = Vec::new();
        let n = list.len();
        let mut k: usize = 0;
        while k < n
            invariant
                k <= n,
                n == list@.len(),
                re_str@.len() == k,
                re_str.deep_view() == list.deep_view().take(k as int),
                re_vec@.len() == k,
                forall|i: int|
                    0 <= i < k ==> re_pattern(#[trigger] re_vec@[i]) == list.deep_view()[i].0,
                forall|i: int| 0 <= i < k ==> regex_valid(#[trigger] list.deep_view()[i].0),
            decreases n - k,
        {
            let s = &list[k].0;
            match re_compile(s.as_str()) {
                Some(re) => {
                    re_str.push((s.clone(), list[k].1.clone()));
                    re_vec.push(re);
                    proof {
                        assert(re_str@.len() == k as int + 1);
                        assert(re_str.deep_view() =~= list.deep_view().take(k as int + 1));
                    }
                }
                None => {
                    proof {
                        assert(!regex_valid(list.deep_view()[k as int].0));
                    }
                    return Err(PatternError { pattern: s.clone() });
                }
            }
            k = k + 1;
        }
        proof {
            assert(list.deep_view().take(n as int) =~~= list.deep_view());
        }
        Ok(ReMut { re_str, re_vec })
    }

    /// Number of rules.
    pub fn len(&self) -> (r: usize)
        ensures
            r == self@.len(),
    {
        self.re_str.len()
    }

    /// First-match rewrite: apply the replacement of the first rule whose
    /// pattern matches `text`, returning its index and the rewritten string;
    /// `None` exactly when no rule's pattern matches.
    pub fn re_mut(&self, text: &str) -> (r: Option<(usize, String)>)
        ensures
            match r {
                Some(m) => rewrite_match_at(self@, text@, m.0 as int) && m.1@
                    == regex_replace_first(self@[m.0 as int].0, text@, self@[m.0 as int].1),
                None => !rewrite_matches(self@, text@),
            },
            spec_rewrite(self@, text@) == match r {
                Some(m) => Some(m.1@),
                None => None::<Seq<char>>,
            },
    {
        proof {
            use_type_invariant(&*self);
        }
        let n = self.re_vec.len();
        let mut i: usize = 0;
        while i < n
            invariant
                i <= n,
                n == self.re_vec@.len(),
                self.wf(),
                forall|j: int| 0 <= j < i ==> !regex_match(self@[j].0, text@),
            decreases n - i,
        {
            if re_is_match(&self.re_vec[i], text) {
                let out = re_replace_first(&self.re_vec[i], text, self.re_str[i].1.as_str());
                proof {
                    lemma_spec_rewrite_at(self@, text@, i as int);
                }
                return Some((i, out));
            }
            i = i + 1;
        }
        proof {
            lemma_spec_rewrite_at(self@, text@, self@.len() as int);
        }
        None
    }
}

} // verus!
