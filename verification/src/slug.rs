//! Slugs: six symbols drawn from an alphabet without look-alike letters.

use vstd::prelude::*;
use vstd::string::*;
use rand::Rng;

verus! {

/// Number of symbols in a slug.
pub const SLUG_LEN: usize = 6;

/// Number of symbols in the alphabet.
pub const ALPHABET_LEN: usize = 33;

/// The alphabet: the digits and the lowercase letters without `i`, `l`, `o`.
pub open spec fn alphabet() -> Seq<char> {
    "0123456789abcdefghjkmnpqrstuvwxyz"@
}

/// A slug is `SLUG_LEN` symbols of the alphabet.
pub open spec fn is_slug(s: Seq<char>) -> bool {
    &&& s.len() == SLUG_LEN
    &&& forall|i: int| 0 <= i < s.len() ==> alphabet().contains(#[trigger] s[i])
}

/// The slug that a sequence of alphabet positions spells.
pub open spec fn slug_of(indices: Seq<usize>) -> Seq<char> {
    Seq::new(indices.len(), |i: int| alphabet()[indices[i] as int])
}

/// A slug holds none of the letters that are easily taken for a digit.
pub proof fn lemma_slug_has_no_lookalike(s: Seq<char>)
    requires
        is_slug(s),
    ensures
        forall|i: int| 0 <= i < s.len() ==> s[i] != 'i' && s[i] != 'l' && s[i] != 'o',
{
    reveal_strlit("0123456789abcdefghjkmnpqrstuvwxyz");
    assert forall|i: int| 0 <= i < s.len() implies s[i] != 'i' && s[i] != 'l' && s[i] != 'o' by {
        assert(alphabet().contains(s[i]));
        let k = choose|k: int| 0 <= k < alphabet().len() && alphabet()[k] == s[i];
        assert(alphabet()[k] != 'i' && alphabet()[k] != 'l' && alphabet()[k] != 'o');
    }
}

/// `rand::rngs::ThreadRng`, the generator of a thread. It is carried from
/// where it is made to where it is sampled, and never looked into.
#[verifier::external_type_specification]
#[verifier::external_body]
pub struct ExThreadRng(rand::rngs::ThreadRng);

/// `rand::thread_rng` hands out the generator of the current thread, seeded
/// by the system on first use; it panics where the system has no seed to
/// give, which no argument decides. Nothing is claimed of what it hands out.
pub assume_specification[ rand::thread_rng ]() -> (rng: rand::rngs::ThreadRng);

/// `Rng::gen_range` on the range `0..bound`: the sample lies in the range.
/// Which number of the range it is, is left open. On an empty range the call
/// panics, so `bound` is positive. It panics too where the generator is due
/// for a new seed and the system has none to give, which no argument
/// decides.
#[verifier::external_body]
fn sample_below(rng: &mut rand::rngs::ThreadRng, bound: usize) -> (index: usize)
    requires
        bound > 0,
    ensures
        index < bound,
{
    rng.gen_range(0..bound)
}

/// Spells the slug whose symbols stand at the given alphabet positions.
pub fn slug_from_indices(indices: &Vec<usize>) -> (slug: String)
    requires
        forall|i: int| 0 <= i < indices.len() ==> indices[i] < ALPHABET_LEN,
    ensures
        slug@ == slug_of(indices@),
{
    let symbols = "0123456789abcdefghjkmnpqrstuvwxyz";
    proof {
        reveal_strlit("0123456789abcdefghjkmnpqrstuvwxyz");
    }
    let mut slug = String::new();
    let mut k: usize = 0;
    while k < indices.len()
        invariant
            k <= indices.len(),
            symbols@ == alphabet(),
            symbols@.len() == ALPHABET_LEN,
            forall|i: int| 0 <= i < indices.len() ==> indices[i] < ALPHABET_LEN,
            slug@ == slug_of(indices@.take(k as int)),
        decreases indices.len() - k,
    {
        let at = indices[k];
        let symbol = symbols.substring_char(at, at + 1);
        slug.append(symbol);
        k = k + 1;
        assert(slug@ =~= slug_of(indices@.take(k as int)));
    }
    assert(indices@.take(k as int) =~= indices@);
    slug
}

/// Draws a slug: each symbol uniformly and independently from the alphabet.
pub fn generate_random_slug() -> (slug: String)
    ensures
        is_slug(slug@),
{
    let mut rng = rand::thread_rng();
    let mut indices: Vec<usize> = Vec::new();
    while indices.len() < SLUG_LEN
        invariant
            indices.len() <= SLUG_LEN,
            forall|i: int| 0 <= i < indices.len() ==> indices[i] < ALPHABET_LEN,
        decreases SLUG_LEN - indices.len(),
    {
        let index = sample_below(&mut rng, ALPHABET_LEN);
        indices.push(index);
    }
    let slug = slug_from_indices(&indices);
    proof {
        reveal_strlit("0123456789abcdefghjkmnpqrstuvwxyz");
        assert forall|i: int| 0 <= i < slug@.len() implies alphabet().contains(#[trigger] slug@[i]) by {
            assert(slug@[i] == alphabet()[indices[i] as int]);
        }
    }
    slug
}

} // verus!
