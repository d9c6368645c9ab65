use vstd::prelude::*;

use crate::matchee::MatcheeModel;
use crate::matchee::whole_text;
use crate::matcher::Matcher;
use crate::matcher::matcher_result;
use crate::matcher::then_result;

verus! {

/// Law: one matcher application never drops, duplicates or reorders a
/// character. A successful step only moves the first pending character to
/// the back of the consumed text, so the whole text is kept.
pub proof fn lemma_matcher_preserves_text(m: Matcher, s: MatcheeModel, t: MatcheeModel)
    requires
        matcher_result(m, s) == Some(t),
    ensures
        whole_text(t) == whole_text(s),
    decreases m,
{
    match m {
        Matcher::Range(lower, upper) => {
            assert(s.remained =~= seq![s.remained[0]] + s.remained.drop_first());
            assert(whole_text(t) =~= whole_text(s));
        },
        Matcher::Or(first, second) => {
            if matcher_result(*first, s) is Some {
                lemma_matcher_preserves_text(*first, s, t);
            } else {
                lemma_matcher_preserves_text(*second, s, t);
            }
        },
    }
}

/// Law: no matcher can consume from empty pending text; every matcher fails
/// on a state whose `remained` is empty.
pub proof fn lemma_empty_remained_fails(m: Matcher, s: MatcheeModel)
    requires
        s.remained.len() == 0,
    ensures
        matcher_result(m, s) is None,
    decreases m,
{
    match m {
        Matcher::Range(lower, upper) => {
        },
        Matcher::Or(first, second) => {
            lemma_empty_remained_fails(*first, s);
            lemma_empty_remained_fails(*second, s);
        },
    }
}

/// What a whole pipeline yields: the matchers of `ms` applied in order by
/// sequencing, starting from state `s`, each step short-circuiting on
/// failure.
pub open spec fn run_pipeline(ms: Seq<Matcher>, s: MatcheeModel) -> Option<MatcheeModel>
    decreases ms.len(),
{
    if ms.len() == 0 {
        Some(s)
    } else {
        then_result(run_pipeline(ms.drop_last(), s), ms.last())
    }
}

/// Law: any sequence of matcher applications keeps the whole text of the
/// state it started from.
pub proof fn lemma_pipeline_preserves_text(ms: Seq<Matcher>, s: MatcheeModel, t: MatcheeModel)
    requires
        run_pipeline(ms, s) == Some(t),
    ensures
        whole_text(t) == whole_text(s),
    decreases ms.len(),
{
    if ms.len() == 0 {
    } else {
        match run_pipeline(ms.drop_last(), s) {
            Some(u) => {
                lemma_pipeline_preserves_text(ms.drop_last(), s, u);
                lemma_matcher_preserves_text(ms.last(), u, t);
            },
            None => {
                assert(false);
            },
        }
    }
}

/// Law: every state reachable by matcher applications from the fresh state
/// `(matched = empty, remained = input)` satisfies the concatenation
/// invariant `matched + remained == input`.
pub proof fn lemma_concat_invariant(ms: Seq<Matcher>, input: Seq<char>, t: MatcheeModel)
    requires
        run_pipeline(ms, MatcheeModel { matched: Seq::empty(), remained: input }) == Some(t),
    ensures
        t.matched + t.remained == input,
{
    let start = MatcheeModel { matched: Seq::empty(), remained: input };
    lemma_pipeline_preserves_text(ms, start, t);
    assert(whole_text(start) =~= input);
}

} // verus!
