//! Sums, inner products and matrix products over the field, the building
//! blocks of the linear layers.

use crate::field::{lemma_residue_add, lemma_residue_mul, residue, values, Fp};
use vstd::prelude::*;

verus! {

/// The entries of a table row as integers.
pub open spec fn ints(row: Seq<u64>) -> Seq<int> {
    Seq::new(row.len(), |i: int| row[i] as int)
}

/// The rows of a table as sequences of integers.
pub open spec fn table<const C: usize, const R: usize>(t: [[u64; C]; R]) -> Seq<Seq<int>> {
    Seq::new(R as nat, |i: int| ints(t[i]@))
}

/// The product of a matrix, given by its rows, and the state.
pub open spec fn mat_vec(matrix: Seq<Seq<int>>, state: Seq<int>) -> Seq<int> {
    Seq::new(state.len(), |i: int| residue(dot(matrix[i], state)))
}

/// The state with a row of constants added.
pub open spec fn add_constants(constants: Seq<int>, state: Seq<int>) -> Seq<int> {
    Seq::new(state.len(), |i: int| residue(state[i] + constants[i]))
}

/// The sum of the products `a[i] * b[i]` over the indices of `a`, as an
/// integer.
pub open spec fn dot(a: Seq<int>, b: Seq<int>) -> int
    decreases a.len(),
{
    if a.len() == 0 {
        0
    } else {
        dot(a.drop_last(), b) + a.last() * b[a.len() - 1]
    }
}

/// Taking one more term of an inner product adds the product at that index.
pub proof fn lemma_dot_step(a: Seq<int>, b: Seq<int>, n: int)
    requires
        0 <= n < a.len(),
    ensures
        dot(a.take(n + 1), b) == dot(a.take(n), b) + a[n] * b[n],
{
    assert(a.take(n + 1).drop_last() =~= a.take(n));
}

/// One step of an accumulated inner product: adding the reduced product of a
/// table entry and an element keeps the accumulator congruent to the sum.
pub proof fn lemma_accumulate(sum: int, entry: int, element: int)
    ensures
        residue(residue(sum) + residue(residue(entry) * element)) == residue(
            sum + entry * element,
        ),
{
    lemma_residue_mul(entry, element);
    lemma_residue_add(sum, entry * element);
    lemma_residue_add(sum, residue(entry) * element);
}

/// The inner product of a table row with the leading elements of `v`.
pub fn inner_product(row: &[u64], v: &[Fp]) -> (r: Fp)
    requires
        row@.len() <= v@.len(),
    ensures
        r@ == residue(dot(ints(row@), values(v@))),
{
    let mut acc = Fp::zero();
    let mut j: usize = 0;
    proof {
        assert(ints(row@).take(0).len() == 0);
        crate::field::lemma_residue_range(0);
    }
    while j < row.len()
        invariant
            j <= row@.len() <= v@.len(),
            acc@ == residue(dot(ints(row@).take(j as int), values(v@))),
        decreases row@.len() - j,
    {
        proof {
            lemma_dot_step(ints(row@), values(v@), j as int);
            lemma_accumulate(
                dot(ints(row@).take(j as int), values(v@)),
                row@[j as int] as int,
                v@[j as int]@,
            );
        }
        acc = acc.add(Fp::new(row[j]).mul(v[j]));
        j += 1;
    }
    assert(ints(row@).take(row@.len() as int) =~= ints(row@));
    acc
}

/// Multiplies the state by the matrix whose rows are given.
pub fn dense_layer<const W: usize>(matrix: &[[u64; W]; W], state: &mut [Fp; W])
    ensures
        values(final(state)@) == mat_vec(table(*matrix), values(old(state)@)),
{
    let zero = Fp::zero();
    let mut result = [zero;W];
    let ghost before = values(state@);
    let mut i: usize = 0;
    while i < W
        invariant
            i <= W,
            before == values(state@),
            forall|k: int|
                0 <= k < i ==> (#[trigger] result@[k])@ == residue(
                    dot(table(*matrix)[k], before),
                ),
        decreases W - i,
    {
        let ghost old_result = result@;
        let entry = inner_product(matrix[i].as_slice(), state.as_slice());
        result[i] = entry;
        assert(result@ == old_result.update(i as int, entry));
        i += 1;
    }
    *state = result;
    assert(values(state@) =~= mat_vec(table(*matrix), before));
}

/// Adds a row of round constants to the state.
pub fn add_round_constants<const W: usize>(constants: &[u64; W], state: &mut [Fp; W])
    ensures
        values(final(state)@) == add_constants(ints(constants@), values(old(state)@)),
{
    let ghost before = values(state@);
    let mut i: usize = 0;
    while i < W
        invariant
            i <= W,
            before.len() == W,
            forall|k: int|
                0 <= k < i ==> (#[trigger] state@[k])@ == residue(before[k] + constants@[k]),
            forall|k: int| i <= k < W ==> (#[trigger] state@[k])@ == before[k],
        decreases W - i,
    {
        let ghost old_state = state@;
        let entry = state[i].add(Fp::new(constants[i]));
        proof {
            lemma_residue_add(before[i as int], constants@[i as int] as int);
        }
        state[i] = entry;
        assert(state@ == old_state.update(i as int, entry));
        i += 1;
    }
    assert(values(state@) =~= add_constants(ints(constants@), before));
}

} // verus!
