//! CAIP-2 chain-id normalization.
//!
//! Chain ids (`namespace:reference`, e.g. `eip155:1`) are compared
//! case-insensitively everywhere; the canonical form is the ASCII-lowercased
//! string, computed once before any lookup or storage.

use vstd::prelude::*;
use vstd::string::StrSliceExecFns;

verus! {

/// ASCII lowercasing of a single character: `'A'..='Z'` maps to
/// `'a'..='z'`, everything else is unchanged.
pub open spec fn lower_char(c: char) -> char {
    if 65 <= c as int && c as int <= 90 {
        ((c as int + 32) as char)
    } else {
        c
    }
}

/// The canonical (ASCII-lowercased) form of a chain id.
pub open spec fn norm_chain_id(s: Seq<char>) -> Seq<char> {
    s.map_values(|c: char| lower_char(c))
}

/// Relies on std's `String::push`: appends exactly the given character.
#[verifier::external_body]
fn push_char(s: &mut String, c: char)
    ensures
        final(s)@ == old(s)@.push(c),
{
    s.push(c);
}

/// Returns the canonical form of a chain id: every ASCII upper-case letter
/// lowered, all other characters kept as they are.
pub fn normalize_chain_id(s: &str) -> (r: String)
    ensures
        r@ == norm_chain_id(s@),
{
    let n: usize = s.unicode_len();
    let mut out = String::new();
    let mut i: usize = 0;
    while i < n
        invariant
            i <= n,
            n == s@.len(),
            out@ == norm_chain_id(s@.take(i as int)),
        decreases n - i,
    {
        let c = s.get_char(i);
        let u = c as u32;
        let lc: char = if 65 <= u && u <= 90 {
            ((c as u8) + 32) as char
        } else {
            c
        };
        proof {
            assert(lc == lower_char(s@[i as int]));
            assert(norm_chain_id(s@.take(i as int + 1)) =~= norm_chain_id(
                s@.take(i as int),
            ).push(lower_char(s@[i as int])));
        }
        push_char(&mut out, lc);
        i = i + 1;
    }
    proof {
        assert(s@.take(n as int) =~= s@);
    }
    out
}

/// Normalization is idempotent: lowering an already-canonical id changes
/// nothing, so ids may be normalized once at insert time and once at query
/// time without drifting.
pub proof fn lemma_norm_idempotent(s: Seq<char>)
    ensures
        norm_chain_id(norm_chain_id(s)) == norm_chain_id(s),
{
    assert forall|i: int| 0 <= i < s.len() implies lower_char(lower_char(s[i])) == lower_char(
        s[i],
    ) by {
        let c = s[i];
        if 65 <= c as int && c as int <= 90 {
            let lc = ((c as int + 32) as char);
            assert(lc as int == c as int + 32);
            assert(lower_char(lc) == lc);
        }
    }
    assert(norm_chain_id(norm_chain_id(s)) =~= norm_chain_id(s));
}

} // verus!
