//! A minimal combinator-based matcher for Unicode text.
//!
//! A [`Matchee`] pairs the text matched so far with the text still to be
//! matched. A [`Matcher`] is a first-class matching step: a one-character or
//! codepoint-range test, or a left-biased alternation of two matchers.
//! Applying a matcher to a state either consumes the first remaining
//! character and yields a new state, or fails with `None`. [`then_do`]
//! chains applications left to right, short-circuiting on failure.

pub mod chars;
pub mod laws;
pub mod matchee;
pub mod matcher;

pub use chars::str_to_char_vec;
pub use matchee::Matchee;
pub use matchee::MatcheeModel;
pub use matchee::opt_model;
pub use matchee::whole_text;
pub use matcher::Matcher;
pub use matcher::match_one_char;
pub use matcher::match_range;
pub use matcher::or_do;
pub use matcher::then_do;
