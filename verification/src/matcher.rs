use vstd::prelude::*;

use crate::matchee::Matchee;
use crate::matchee::MatcheeModel;
use crate::matchee::opt_model;

verus! {

/// A first-class matching step. `Range(lower, upper)` consumes one character
/// whose codepoint lies in the inclusive interval `[lower, upper]`;
/// `Or(first, second)` tries `first` and, only on its failure, `second` on
/// the very same state.
pub enum Matcher {
    Range(char, char),
    Or(Box<Matcher>, Box<Matcher>),
}

/// What a range step yields: if the pending text starts with a character
/// whose codepoint lies in `[lower, upper]`, that character moves from the
/// front of `remained` to the back of `matched`; otherwise, and on empty
/// pending text, the step fails.
pub open spec fn range_step(lower: char, upper: char, s: MatcheeModel) -> Option<MatcheeModel> {
    if s.remained.len() > 0 && lower as u32 <= s.remained[0] as u32 <= upper as u32 {
        Some(
            MatcheeModel {
                matched: s.matched.push(s.remained[0]),
                remained: s.remained.drop_first(),
            },
        )
    } else {
        None
    }
}

/// What applying a matcher to a state yields. Alternation is left-biased:
/// the second branch is consulted only when the first fails, and it starts
/// from the original state, not from any partial result.
pub open spec fn matcher_result(m: Matcher, s: MatcheeModel) -> Option<MatcheeModel>
    decreases m,
{
    match m {
        Matcher::Range(lower, upper) => range_step(lower, upper, s),
        Matcher::Or(first, second) => match matcher_result(*first, s) {
            Some(t) => Some(t),
            None => matcher_result(*second, s),
        },
    }
}

/// What sequencing yields: a failure already recorded propagates without
/// consulting the matcher; otherwise the matcher is applied to the held
/// state.
pub open spec fn then_result(inputee: Option<MatcheeModel>, m: Matcher) -> Option<MatcheeModel> {
    match inputee {
        Some(s) => matcher_result(m, s),
        None => None,
    }
}

/// One range step on a borrowed state: decode the pending text, test its
/// first character, and on success build the advanced state.
fn range_apply(lower: char, upper: char, x: &Matchee) -> (r: Option<Matchee>)
    ensures
        opt_model(r) == range_step(lower, upper, x@),
{
    let rem: &str = x.remained.as_str();
    let n: usize = rem.unicode_len();
    if n == 0 {
        None
    } else {
        let c: char = rem.get_char(0);
        if lower as u32 <= c as u32 && c as u32 <= upper as u32 {
            let head: &str = rem.substring_char(0, 1);
            let tail: &str = rem.substring_char(1, n);
            let new_matched: String = x.matched.clone().concat(head);
            let new_remained: String = String::from_str(tail);
            proof {
                assert(new_matched@ =~= x@.matched.push(c));
                assert(new_remained@ =~= x@.remained.drop_first());
            }
            Some(Matchee { matched: new_matched, remained: new_remained })
        } else {
            None
        }
    }
}

impl Matcher {
    /// Applies this matcher to a state. The state itself is only borrowed:
    /// on failure the caller still holds it, unchanged, for another attempt.
    pub fn apply(&self, x: &Matchee) -> (r: Option<Matchee>)
        ensures
            opt_model(r) == matcher_result(*self, x@),
        decreases *self,
    {
        match self {
            Matcher::Range(lower, upper) => range_apply(*lower, *upper, x),
            Matcher::Or(first, second) => {
                let attempt: Option<Matchee> = first.apply(x);
                match attempt {
                    Some(t) => Some(t),
                    None => second.apply(x),
                }
            },
        }
    }
}

/// A matcher that consumes one character whose codepoint lies in the
/// inclusive interval `[lower_ch, upper_ch]`. An empty interval
/// (`lower_ch > upper_ch`) matches nothing.
pub fn match_range(lower_ch: char, upper_ch: char) -> (m: Matcher)
    ensures
        m == Matcher::Range(lower_ch, upper_ch),
{
    Matcher::Range(lower_ch, upper_ch)
}

/// A matcher that consumes the one character `ch`: a range whose two bounds
/// coincide.
pub fn match_one_char(ch: char) -> (m: Matcher)
    ensures
        m == Matcher::Range(ch, ch),
{
    match_range(ch, ch)
}

/// Sequencing: feeds the result of a prior step into the next matcher,
/// short-circuiting when the prior step already failed.
pub fn then_do(inputee: Option<Matchee>, matcher: &Matcher) -> (r: Option<Matchee>)
    ensures
        opt_model(r) == then_result(opt_model(inputee), *matcher),
        inputee is None ==> r is None,
{
    match inputee {
        Some(inner) => matcher.apply(&inner),
        None => None,
    }
}

/// Alternation: a matcher that tries `first` and, only on its failure,
/// `second` on the original state.
pub fn or_do(first: Matcher, second: Matcher) -> (m: Matcher)
    ensures
        m matches Matcher::Or(a, b) && *a == first && *b == second,
        forall|s: MatcheeModel| #[trigger] matcher_result(m, s) == (match matcher_result(
            first,
            s,
        ) {
            Some(t) => Some(t),
            None => matcher_result(second, s),
        }),
{
    Matcher::Or(Box::new(first), Box::new(second))
}

} // verus!
