use vstd::prelude::*;

verus! {

/// Decodes text into its ordered sequence of Unicode scalar values.
///
/// Matchers inspect decoded characters, never raw bytes, so a multi-byte
/// character is never split.
pub fn str_to_char_vec(s: &str) -> (r: Vec<char>)
    ensures
        r@ == s@,
{
    let n: usize = s.unicode_len();
    let mut r: Vec<char> = Vec::new();
    let mut i: usize = 0;
    while i < n
        invariant
            i <= n,
            n == s@.len(),
            r@ == s@.subrange(0, i as int),
        decreases n - i,
    {
        let c: char = s.get_char(i);
        r.push(c);
        proof {
            assert(r@ =~= s@.subrange(0, i as int + 1));
        }
        i = i + 1;
    }
    proof {
        assert(s@.subrange(0, n as int) =~= s@);
    }
    r
}

} // verus!
