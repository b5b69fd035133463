use vstd::prelude::*;
use rand::rngs::StdRng;
use rand::{FromEntropy, Rng};

verus! {

/// Number of characters in a match label.
pub const LABEL_LEN: usize = 4;

/// Number of symbols a label is drawn from: the letters `a` to `z`.
pub const ALPHABET_LEN: usize = 26;

/// The letter of the alphabet at position `k` (0 is `a`).
pub open spec fn letter(k: int) -> char {
    (97 + k) as char
}

/// Whether `c` is a lowercase letter `a` to `z`.
pub open spec fn is_label_char(c: char) -> bool {
    97 <= (c as u32) <= 122
}

/// Whether `s` has the shape of a match label: four lowercase letters.
pub open spec fn is_label(s: Seq<char>) -> bool {
    &&& s.len() == LABEL_LEN
    &&& forall|i: int| 0 <= i < s.len() ==> is_label_char(#[trigger] s[i])
}

/// The letters spelt by a sequence of alphabet positions.
pub open spec fn spelt(idx: Seq<usize>) -> Seq<char> {
    idx.map_values(|k: usize| letter(k as int))
}

#[verifier::external_type_specification]
#[verifier::external_body]
pub struct ExStdRng(StdRng);

/// Relies on rand's `FromEntropy::from_entropy` for `StdRng`: a generator
/// seeded from the operating system (it panics only when every entropy
/// source of the platform fails).
#[verifier::external_body]
fn entropy_rng() -> StdRng {
    StdRng::from_entropy()
}

/// Relies on rand's `Rng::gen_range(low, high)`: a value in `low..high`; it
/// panics when `low >= high`, which the precondition leaves out.
#[verifier::external_body]
fn draw_below(rng: &mut StdRng, high: usize) -> (r: usize)
    requires
        0 < high,
    ensures
        r < high,
{
    rng.gen_range(0, high)
}

/// Relies on `String::push`: the character is appended at the end.
#[verifier::external_body]
fn push_char(s: &mut String, c: char)
    ensures
        final(s)@ == old(s)@.push(c),
{
    s.push(c)
}

/// The letter at alphabet position `k`.
pub fn letter_at(k: usize) -> (c: char)
    requires
        k < ALPHABET_LEN,
    ensures
        c == letter(k as int),
        is_label_char(c),
{
    let code: u8 = 97u8 + k as u8;
    code as char
}

/// Spells a label from alphabet positions, one letter per position.
pub fn label_from_indices(idx: &Vec<usize>) -> (r: String)
    requires
        forall|i: int| 0 <= i < idx@.len() ==> #[trigger] idx@[i] < ALPHABET_LEN,
    ensures
        r@ == spelt(idx@),
{
    let mut r = String::new();
    let mut i: usize = 0;
    while i < idx.len()
        invariant
            i <= idx@.len(),
            forall|j: int| 0 <= j < idx@.len() ==> #[trigger] idx@[j] < ALPHABET_LEN,
            r@ == spelt(idx@.subrange(0, i as int)),
        decreases idx.len() - i,
    {
        let c = letter_at(idx[i]);
        push_char(&mut r, c);
        proof {
            assert(spelt(idx@.subrange(0, i + 1)) =~= spelt(idx@.subrange(0, i as int)).push(c));
        }
        i = i + 1;
    }
    proof {
        assert(idx@.subrange(0, idx@.len() as int) =~= idx@);
    }
    r
}

/// Draws a fresh label: four letters, each chosen uniformly and
/// independently from `a` to `z`.
pub fn generate_label() -> (r: String)
    ensures
        is_label(r@),
{
    let mut rng = entropy_rng();
    let mut idx: Vec<usize> = Vec::new();
    let mut n: usize = 0;
    while n < LABEL_LEN
        invariant
            n <= LABEL_LEN,
            idx@.len() == n,
            forall|j: int| 0 <= j < idx@.len() ==> #[trigger] idx@[j] < ALPHABET_LEN,
        decreases LABEL_LEN - n,
    {
        let k = draw_below(&mut rng, ALPHABET_LEN);
        idx.push(k);
        n = n + 1;
    }
    let r = label_from_indices(&idx);
    proof {
        assert forall|i: int| 0 <= i < r@.len() implies is_label_char(#[trigger] r@[i]) by {
            assert(idx@[i] < ALPHABET_LEN);
        }
    }
    r
}

} // verus!
