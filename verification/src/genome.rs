use vstd::prelude::*;
use vstd::assert_seqs_equal;

verus! {

broadcast use vstd::array::group_array_axioms;

/// A registry entity: a fixed 16-byte genome, opaque except to breeding.
/// The genome never changes after creation; breeding always produces a new
/// entity.
#[derive(Clone, Copy, Debug)]
pub struct Kitty(pub [u8; 16]);

/// Per-byte multiplexer: where a selector bit is one the result carries the
/// corresponding bit of `a`, elsewhere the bit of `b`.
pub open spec fn mux_byte(s: u8, a: u8, b: u8) -> u8 {
    (s & a) | ((!s) & b)
}

/// The child genome as a whole: byte `i` multiplexes the parents' bytes `i`
/// under selector byte `i`.
pub open spec fn child_genome(s: Seq<u8>, a: Seq<u8>, b: Seq<u8>) -> Seq<u8> {
    Seq::new(16, |i: int| mux_byte(s[i], a[i], b[i]))
}

/// Breeding engine: combine two parent genomes under a 16-byte selector.
/// The result is pinned to `child_genome`, a function of the three inputs
/// alone, so equal inputs always give equal children.
pub fn breed_genomes(dna1: &[u8; 16], dna2: &[u8; 16], selector: &[u8; 16]) -> (child: [u8; 16])
    ensures
        child@ == child_genome(selector@, dna1@, dna2@),
{
    let mut out: [u8; 16] = [0u8; 16];
    for i in 0..16
        invariant
            forall|j: int|
                0 <= j < i ==> out@[j] == mux_byte(selector@[j], dna1@[j], dna2@[j]),
    {
        out[i] = (selector[i] & dna1[i]) | ((!selector[i]) & dna2[i]);
    }
    proof {
        assert_seqs_equal!(out@ == child_genome(selector@, dna1@, dna2@));
    }
    out
}

/// The per-bit selection rule: bit `k` of child byte `i` equals parent A's
/// bit where the selector bit is one, else parent B's bit.
pub proof fn lemma_breeding_rule(s: Seq<u8>, a: Seq<u8>, b: Seq<u8>, i: int, k: u8)
    requires
        0 <= i < 16,
        k < 8,
    ensures
        (child_genome(s, a, b)[i] >> k) & 1 == (if (s[i] >> k) & 1 == 1 {
            (a[i] >> k) & 1
        } else {
            (b[i] >> k) & 1
        }),
{
    let sb = s[i];
    let ab = a[i];
    let bb = b[i];
    assert((((sb & ab) | ((!sb) & bb)) >> k) & 1 == (if (sb >> k) & 1 == 1 {
        (ab >> k) & 1
    } else {
        (bb >> k) & 1
    })) by (bit_vector)
        requires
            k < 8,
    ;
}

} // verus!
