use vstd::prelude::*;

verus! {

/// A matching state: the text consumed so far paired with the text still to
/// be matched. Every successful matcher application produces a fresh state;
/// the state it was given is never altered, so the same state can be tried
/// against several alternative matchers.
#[derive(Debug)]
pub struct Matchee {
    /// Characters consumed so far, in match order.
    pub matched: String,
    /// Characters not yet consumed.
    pub remained: String,
}

/// The mathematical model of a matching state: the two texts as character
/// sequences.
pub struct MatcheeModel {
    pub matched: Seq<char>,
    pub remained: Seq<char>,
}

impl View for Matchee {
    type V = MatcheeModel;

    open spec fn view(&self) -> MatcheeModel {
        MatcheeModel { matched: self.matched@, remained: self.remained@ }
    }
}

impl Clone for Matchee {
    /// A clone keeps both fields, so one state can feed two independent
    /// matching attempts.
    fn clone(&self) -> (res: Self)
        ensures
            res == *self,
    {
        Matchee { matched: self.matched.clone(), remained: self.remained.clone() }
    }
}

impl Matchee {
    /// Builds a state from the text already consumed and the text still
    /// pending. A pipeline normally starts from `new(empty, input)`.
    pub fn new(matched: String, remained: String) -> (m: Matchee)
        ensures
            m@.matched == matched@,
            m@.remained == remained@,
    {
        Matchee { matched, remained }
    }
}

/// The model of an optional state; `None` stands for a failed match.
pub open spec fn opt_model(r: Option<Matchee>) -> Option<MatcheeModel> {
    match r {
        Some(m) => Some(m.view()),
        None => None,
    }
}

/// The whole text a state accounts for: the consumed part followed by the
/// pending part.
pub open spec fn whole_text(s: MatcheeModel) -> Seq<char> {
    s.matched + s.remained
}

} // verus!
