//! The scope selector of a token colour rule: one TextMate scope or a list.

use vstd::prelude::*;
use crate::text::{contains_seq, str_contains};

verus! {

/// A token rule's scope: one selector or a list of selectors.
pub enum Scope {
    Single(String),
    Multiple(Vec<String>),
}

/// A scope as character sequences.
pub enum ScopeView {
    Single(Seq<char>),
    Multiple(Seq<Seq<char>>),
}

impl View for Scope {
    type V = ScopeView;

    open spec fn view(&self) -> ScopeView {
        match self {
            Scope::Single(s) => ScopeView::Single(s@),
            Scope::Multiple(v) => ScopeView::Multiple(v@.map_values(|s: String| s@)),
        }
    }
}

/// Some selector of the scope has `keyword` as a substring.
pub open spec fn scope_has_keyword(scope: ScopeView, keyword: Seq<char>) -> bool {
    match scope {
        ScopeView::Single(s) => contains_seq(s, keyword),
        ScopeView::Multiple(v) => exists|i: int| 0 <= i < v.len() && contains_seq(#[trigger] v[i], keyword),
    }
}

impl Scope {
    /// Whether some selector contains `keyword` as a substring.
    pub fn contains_keyword(&self, keyword: &str) -> (r: bool)
        ensures
            r == scope_has_keyword(self@, keyword@),
    {
        match self {
            Scope::Single(s) => str_contains(s.as_str(), keyword),
            Scope::Multiple(v) => {
                let ghost vs = v@.map_values(|s: String| s@);
                let n = v.len();
                let mut i: usize = 0;
                while i < n
                    invariant
                        n == v@.len(),
                        vs == v@.map_values(|s: String| s@),
                        self@ == ScopeView::Multiple(vs),
                        i <= n,
                        forall|k: int| 0 <= k < i ==> !contains_seq(#[trigger] vs[k], keyword@),
                    decreases n - i,
                {
                    assert(vs[i as int] == v@[i as int]@);
                    if str_contains(v[i].as_str(), keyword) {
                        let ghost sv = ScopeView::Multiple(vs);
                        assert(contains_seq(vs[i as int], keyword@));
                        assert(sv matches ScopeView::Multiple(w) && w == vs);
                        assert(scope_has_keyword(sv, keyword@));
                        return true;
                    }
                    i += 1;
                }
                false
            },
        }
    }

    /// A scope of one selector.
    pub fn single(s: &str) -> (r: Scope)
        ensures
            r@ == ScopeView::Single(s@),
    {
        Scope::Single(s.to_owned())
    }

    /// A scope of several selectors, in the given order.
    pub fn multiple(v: Vec<&str>) -> (r: Scope)
        ensures
            r@ == ScopeView::Multiple(v@.map_values(|s: &str| s@)),
    {
        let mut out: Vec<String> = Vec::new();
        let n = v.len();
        let mut i: usize = 0;
        while i < n
            invariant
                n == v@.len(),
                i <= n,
                out@.len() == i,
                forall|k: int| 0 <= k < i ==> (#[trigger] out@[k])@ == v@[k]@,
            decreases n - i,
        {
            out.push(v[i].to_owned());
            i += 1;
        }
        let r = Scope::Multiple(out);
        assert(out@.map_values(|s: String| s@) =~= v@.map_values(|s: &str| s@));
        r
    }
}

} // verus!
