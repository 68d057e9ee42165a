//! Ordered pattern access-control lists: first matching rule wins.

use vstd::prelude::*;

use crate::re_engine::{re_compile, re_is_match, re_pattern, regex_match, regex_valid};

verus! {

/// A pattern that failed to compile.
#[derive(Debug)]
pub struct PatternError {
    pub pattern: String,
}

/// Rule `i` of `rules` is the first one matching `text`.
pub open spec fn acl_match_at(rules: Seq<Seq<char>>, text: Seq<char>, i: int) -> bool {
    &&& 0 <= i < rules.len()
    &&& regex_match(rules[i], text)
    &&& forall|j: int| 0 <= j < i ==> !regex_match(rules[j], text)
}

/// Some rule of `rules` matches `text`.
pub open spec fn acl_matches(rules: Seq<Seq<char>>, text: Seq<char>) -> bool {
    exists|i: int| 0 <= i < rules.len() && regex_match(rules[i], text)
}

/// An ordered access-control list of compiled patterns. Its view is the
/// sequence of rule texts, in declaration order; the list is read-only after
/// construction.
#[derive(Debug)]
pub struct ReAcl {
    acl_str: Vec<String>,
    acl_re: Vec<regex::Regex>,
}

impl View for ReAcl {
    type V = Seq<Seq<char>>;

    closed spec fn view(&self) -> Seq<Seq<char>> {
        self.acl_str.deep_view()
    }
}

impl ReAcl {
    #[verifier::type_invariant]
    spec fn wf(&self) -> bool {
        &&& self.acl_re@.len() == self.acl_str@.len()
        &&& forall|i: int|
            0 <= i < self.acl_re@.len() ==> re_pattern(#[trigger] self.acl_re@[i])
                == self.acl_str@[i]@
    }

    /// Compile every rule of `list`, keeping declaration order; fails on the
    /// first rule that is not a valid pattern.
    pub fn new(list: &Vec<String>) -> (r: Result<Self, PatternError>)
        ensures
            match r {
                Ok(acl) => acl@ == list.deep_view() && forall|i: int|
                    0 <= i < list@.len() ==> regex_valid(#[trigger] list.deep_view()[i]),
                Err(e) => exists|i: int|
                    0 <= i < list@.len() && !regex_valid(#[trigger] list.deep_view()[i])
                        && e.pattern@ == list.deep_view()[i],
            },
    {
        let mut acl_str: Vec<String> = Vec::new();
        let mut acl_re: Vec<regex::Regex> = Vec::new();
        let n = list.len();
        let mut k: usize = 0;
        while k < n
            invariant
                k <= n,
                n == list@.len(),
                acl_str@.len() == k,
                acl_str.deep_view() == list.deep_view().take(k as int),
                acl_re@.len() == k,
                forall|i: int|
                    0 <= i < k ==> re_pattern(#[trigger] acl_re@[i]) == list.deep_view()[i],
                forall|i: int| 0 <= i < k ==> regex_valid(#[trigger] list.deep_view()[i]),
            decreases n - k,
        {
            let s = &list[k];
            match re_compile(s.as_str()) {
                Some(re) => {
                    acl_str.push(s.clone());
                    acl_re.push(re);
                    proof {
                        assert(acl_str@.len() == k as int + 1);
                        assert(acl_str.deep_view() =~= list.deep_view().take(k as int + 1));
                    }
                }
                None => {
                    proof {
                        assert(!regex_valid(list.deep_view()[k as int]));
                    }
                    return Err(PatternError { pattern: s.clone() });
                }
            }
            k = k + 1;
        }
        proof {
            assert(list.deep_view().take(n as int) =~~= list.deep_view());
        }
        Ok(ReAcl { acl_str, acl_re })
    }

    /// The rule texts, in declaration order.
    pub fn patterns(&self) -> (r: &Vec<String>)
        ensures
            r.deep_view() == self@,
    {
        &self.acl_str
    }

    /// Number of rules.
    pub fn len(&self) -> (r: usize)
        ensures
            r == self@.len(),
    {
        self.acl_str.len()
    }

    /// First-match lookup: the lowest index whose pattern matches `text`,
    /// with that rule's text, or `None` when no rule matches.
    pub fn re_match(&self, text: &str) -> (r: Option<(usize, String)>)
        ensures
            match r {
                Some(m) => acl_match_at(self@, text@, m.0 as int) && m.1@ == self@[m.0 as int],
                None => !acl_matches(self@, text@),
            },
    {
        proof {
            use_type_invariant(&*self);
        }
        let n = self.acl_re.len();
        let mut i: usize = 0;
        while i < n
            invariant
                i <= n,
                n == self.acl_re@.len(),
                self.wf(),
                forall|j: int| 0 <= j < i ==> !regex_match(self@[j], text@),
            decreases n - i,
        {
            if re_is_match(&self.acl_re[i], text) {
                return Some((i, self.acl_str[i].clone()));
            }
            i = i + 1;
        }
        None
    }
}

} // verus!
