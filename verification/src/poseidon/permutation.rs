//! The round functions of the Poseidon permutation, for any state width.
//!
//! The permutation runs four full rounds, twenty-two partial rounds and four
//! more full rounds. A full round adds the round constants, raises every
//! element to the seventh power and multiplies the state by the dense
//! matrix. The partial rounds raise only the first element; they run in a
//! basis in which the multiplication of each round costs one inner product
//! and one multiply-add per element.

use crate::f64_utils::{apply_rescue_sbox, pow_7, power_layer};
use crate::field::{lemma_residue_add, lemma_residue_mul, pow_mod, residue, values, Fp};
use crate::linalg::{
    add_constants, add_round_constants, dense_layer, dot, inner_product, ints, lemma_dot_step,
    mat_vec, table,
};
use vstd::prelude::*;

verus! {

/// The number of full rounds before, and again after, the partial rounds.
pub const NUM_HALF_FULL_ROUNDS: usize = 4;

/// The number of partial rounds.
pub const NUM_PARTIAL_ROUNDS: usize = 22;

/// The number of rounds, and of rows of round constants.
pub const NUM_ROUNDS: usize = 30;

/// The product of the state and the sparse matrix of one partial round: the
/// first element becomes the inner product of `w_hat` and the state, and
/// every other element gains `v_col` at its index times the first element.
pub open spec fn sparse_mat_vec(w_hat: Seq<int>, v_col: Seq<int>, state: Seq<int>) -> Seq<int> {
    Seq::new(
        state.len(),
        |i: int|
            if i == 0 {
                residue(dot(w_hat, state))
            } else {
                residue(state[i] + v_col[i] * state[0])
            },
    )
}

/// One full round: constants, seventh powers, dense matrix.
pub open spec fn full_round(constants: Seq<int>, mds: Seq<Seq<int>>, state: Seq<int>) -> Seq<
    int,
> {
    mat_vec(mds, power_layer(add_constants(constants, state)))
}

/// The state after the first `count` of the four full rounds that start at
/// round `first`.
pub open spec fn full_rounds(
    ark: Seq<Seq<int>>,
    mds: Seq<Seq<int>>,
    first: int,
    count: nat,
    state: Seq<int>,
) -> Seq<int>
    decreases count,
{
    if count == 0 {
        state
    } else {
        full_round(
            ark[first + count - 1],
            mds,
            full_rounds(ark, mds, first, (count - 1) as nat, state),
        )
    }
}

/// One partial round in the basis of the partial rounds: the first element is
/// raised to the seventh power and, in every round but the last, gains the
/// first constant of the next row; then the sparse matrix of the round is
/// applied. The tables list the sparse matrices from the last round back.
pub open spec fn partial_round(
    ark: Seq<Seq<int>>,
    v_col: Seq<Seq<int>>,
    w_hat: Seq<Seq<int>>,
    round: int,
    state: Seq<int>,
) -> Seq<int> {
    let raised = pow_mod(state[0], 7);
    let first = if round < NUM_PARTIAL_ROUNDS - 1 {
        residue(raised + ark[NUM_HALF_FULL_ROUNDS + round + 1][0])
    } else {
        raised
    };
    sparse_mat_vec(
        w_hat[NUM_PARTIAL_ROUNDS - round - 1],
        v_col[NUM_PARTIAL_ROUNDS - round - 1],
        state.update(0, first),
    )
}

/// The state after the first `count` partial rounds.
pub open spec fn partial_rounds_from(
    ark: Seq<Seq<int>>,
    v_col: Seq<Seq<int>>,
    w_hat: Seq<Seq<int>>,
    count: nat,
    state: Seq<int>,
) -> Seq<int>
    decreases count,
{
    if count == 0 {
        state
    } else {
        partial_round(
            ark,
            v_col,
            w_hat,
            count - 1,
            partial_rounds_from(ark, v_col, w_hat, (count - 1) as nat, state),
        )
    }
}

/// The block of partial rounds: the constants of its first round are added
/// to the whole state, the state is taken into the basis of the partial
/// rounds by `m_i`, and the partial rounds follow.
pub open spec fn partial_rounds(
    ark: Seq<Seq<int>>,
    m_i: Seq<Seq<int>>,
    v_col: Seq<Seq<int>>,
    w_hat: Seq<Seq<int>>,
    state: Seq<int>,
) -> Seq<int> {
    partial_rounds_from(
        ark,
        v_col,
        w_hat,
        NUM_PARTIAL_ROUNDS as nat,
        mat_vec(m_i, add_constants(ark[NUM_HALF_FULL_ROUNDS as int], state)),
    )
}

/// The permutation: four full rounds, the partial rounds, four full rounds.
pub open spec fn permutation(
    ark: Seq<Seq<int>>,
    mds: Seq<Seq<int>>,
    m_i: Seq<Seq<int>>,
    v_col: Seq<Seq<int>>,
    w_hat: Seq<Seq<int>>,
    state: Seq<int>,
) -> Seq<int> {
    let opened = full_rounds(ark, mds, 0, NUM_HALF_FULL_ROUNDS as nat, state);
    let middle = partial_rounds(ark, m_i, v_col, w_hat, opened);
    full_rounds(
        ark,
        mds,
        NUM_HALF_FULL_ROUNDS + NUM_PARTIAL_ROUNDS,
        NUM_HALF_FULL_ROUNDS as nat,
        middle,
    )
}

/// The sparse matrix of one partial round, by its rows: the first row is
/// `w_hat`; row `i` holds `v_col` at its index in the first column, a one on
/// the diagonal, and zeros elsewhere.
pub open spec fn sparse_matrix(w_hat: Seq<int>, v_col: Seq<int>) -> Seq<Seq<int>> {
    Seq::new(
        w_hat.len(),
        |i: int|
            if i == 0 {
                w_hat
            } else {
                Seq::new(
                    w_hat.len(),
                    |j: int|
                        if j == 0 {
                            v_col[i]
                        } else if j == i {
                            1
                        } else {
                            0
                        },
                )
            },
    )
}

/// The inner product of the leading `count` entries of a row of the sparse
/// matrix, other than the first row, and the state.
proof fn lemma_sparse_row(w_hat: Seq<int>, v_col: Seq<int>, state: Seq<int>, i: int, count: nat)
    requires
        0 < i < w_hat.len(),
        count <= w_hat.len(),
    ensures
        dot(sparse_matrix(w_hat, v_col)[i].take(count as int), state) == (if count > 0 {
            v_col[i] * state[0]
        } else {
            0
        }) + (if count > i {
            state[i]
        } else {
            0
        }),
    decreases count,
{
    let row = sparse_matrix(w_hat, v_col)[i];
    if count == 0 {
        assert(row.take(0).len() == 0);
    } else {
        lemma_sparse_row(w_hat, v_col, state, i, (count - 1) as nat);
        lemma_dot_step(row, state, count - 1);
        let j = count - 1;
        if j == 0 {
            assert(row[j] == v_col[i]);
        } else if j == i {
            assert(row[j] == 1);
            assert(row[j] * state[j] == state[j]) by (nonlinear_arith)
                requires
                    row[j] == 1,
            ;
        } else {
            assert(row[j] == 0);
            assert(row[j] * state[j] == 0) by (nonlinear_arith)
                requires
                    row[j] == 0,
            ;
        }
    }
}

/// The multiplication of a partial round is a multiplication by a matrix: the
/// inner product and the multiply-adds give what the dense product of the
/// sparse matrix and the state gives.
pub proof fn lemma_sparse_is_dense(w_hat: Seq<int>, v_col: Seq<int>, state: Seq<int>)
    requires
        0 < state.len() == w_hat.len(),
    ensures
        sparse_mat_vec(w_hat, v_col, state) == mat_vec(sparse_matrix(w_hat, v_col), state),
{
    let matrix = sparse_matrix(w_hat, v_col);
    assert forall|i: int| 0 <= i < state.len() implies sparse_mat_vec(w_hat, v_col, state)[i]
        == mat_vec(matrix, state)[i] by {
        if i > 0 {
            lemma_sparse_row(w_hat, v_col, state, i, w_hat.len());
            assert(matrix[i].take(w_hat.len() as int) =~= matrix[i]);
        }
    }
    assert(sparse_mat_vec(w_hat, v_col, state) =~= mat_vec(matrix, state));
}

/// The full rounds keep the width of the state.
pub proof fn lemma_full_rounds_width(
    ark: Seq<Seq<int>>,
    mds: Seq<Seq<int>>,
    first: int,
    count: nat,
    state: Seq<int>,
)
    ensures
        full_rounds(ark, mds, first, count, state).len() == state.len(),
    decreases count,
{
    if count > 0 {
        lemma_full_rounds_width(ark, mds, first, (count - 1) as nat, state);
    }
}

/// The partial rounds keep the width of the state.
pub proof fn lemma_partial_rounds_width(
    ark: Seq<Seq<int>>,
    v_col: Seq<Seq<int>>,
    w_hat: Seq<Seq<int>>,
    count: nat,
    state: Seq<int>,
)
    requires
        state.len() > 0,
    ensures
        partial_rounds_from(ark, v_col, w_hat, count, state).len() == state.len(),
    decreases count,
{
    if count > 0 {
        lemma_partial_rounds_width(ark, v_col, w_hat, (count - 1) as nat, state);
    }
}

/// The permutation keeps the width of the state.
pub proof fn lemma_permutation_width(
    ark: Seq<Seq<int>>,
    mds: Seq<Seq<int>>,
    m_i: Seq<Seq<int>>,
    v_col: Seq<Seq<int>>,
    w_hat: Seq<Seq<int>>,
    state: Seq<int>,
)
    requires
        state.len() > 0,
    ensures
        permutation(ark, mds, m_i, v_col, w_hat, state).len() == state.len(),
{
    let opened = full_rounds(ark, mds, 0, NUM_HALF_FULL_ROUNDS as nat, state);
    lemma_full_rounds_width(ark, mds, 0, NUM_HALF_FULL_ROUNDS as nat, state);
    let entered = mat_vec(m_i, add_constants(ark[NUM_HALF_FULL_ROUNDS as int], opened));
    lemma_partial_rounds_width(ark, v_col, w_hat, NUM_PARTIAL_ROUNDS as nat, entered);
    let middle = partial_rounds(ark, m_i, v_col, w_hat, opened);
    lemma_full_rounds_width(
        ark,
        mds,
        NUM_HALF_FULL_ROUNDS + NUM_PARTIAL_ROUNDS,
        NUM_HALF_FULL_ROUNDS as nat,
        middle,
    );
}

/// Applies the sparse matrix of one partial round.
pub fn sparse_layer<const W: usize>(w_hat: &[u64; W], v_col: &[u64; W], state: &mut [Fp; W])
    requires
        W > 0,
    ensures
        values(final(state)@) == sparse_mat_vec(
            ints(w_hat@),
            ints(v_col@),
            values(old(state)@),
        ),
{
    let ghost before = values(state@);
    let first = state[0];
    let res_0 = inner_product(w_hat.as_slice(), state.as_slice());
    let mut i: usize = 1;
    while i < W
        invariant
            1 <= i <= W,
            before.len() == W,
            first@ == before[0],
            forall|k: int|
                1 <= k < i ==> (#[trigger] state@[k])@ == residue(
                    before[k] + v_col@[k] * before[0],
                ),
            forall|k: int| i <= k < W ==> (#[trigger] state@[k])@ == before[k],
        decreases W - i,
    {
        let ghost old_state = state@;
        let entry = Fp::new(v_col[i]).mul(first).add(state[i]);
        proof {
            lemma_residue_mul(v_col@[i as int] as int, first@);
            lemma_residue_add(residue(v_col@[i as int] as int) * first@, before[i as int]);
            lemma_residue_add(v_col@[i as int] * first@, before[i as int]);
        }
        state[i] = entry;
        assert(state@ == old_state.update(i as int, entry));
        i += 1;
    }
    let ghost old_state = state@;
    state[0] = res_0;
    assert(state@ == old_state.update(0, res_0));
    assert(values(state@) =~= sparse_mat_vec(ints(w_hat@), ints(v_col@), before));
}

/// Runs one full round with the given row of constants.
pub fn apply_full_round<const W: usize>(
    constants: &[u64; W],
    mds: &[[u64; W]; W],
    state: &mut [Fp; W],
)
    ensures
        values(final(state)@) == full_round(ints(constants@), table(*mds), values(old(state)@)),
{
    add_round_constants(constants, state);
    apply_rescue_sbox(state);
    dense_layer(mds, state);
}

/// Runs the block of partial rounds.
pub fn apply_partial_rounds<const W: usize>(
    ark: &[[u64; W]; 30],
    m_i: &[[u64; W]; W],
    v_col: &[[u64; W]; 22],
    w_hat: &[[u64; W]; 22],
    state: &mut [Fp; W],
)
    requires
        W > 0,
    ensures
        values(final(state)@) == partial_rounds(
            table(*ark),
            table(*m_i),
            table(*v_col),
            table(*w_hat),
            values(old(state)@),
        ),
{
    add_round_constants(&ark[NUM_HALF_FULL_ROUNDS], state);
    dense_layer(m_i, state);
    let ghost entered = values(state@);
    let mut r: usize = 0;
    while r < NUM_PARTIAL_ROUNDS
        invariant
            W > 0,
            r <= NUM_PARTIAL_ROUNDS,
            values(state@) == partial_rounds_from(
                table(*ark),
                table(*v_col),
                table(*w_hat),
                r as nat,
                entered,
            ),
        decreases NUM_PARTIAL_ROUNDS - r,
    {
        let ghost old_state = state@;
        let mut first = state[0];
        pow_7(&mut first);
        if r < NUM_PARTIAL_ROUNDS - 1 {
            let constant = ark[NUM_HALF_FULL_ROUNDS + r + 1][0];
            proof {
                lemma_residue_add(first@, constant as int);
            }
            first = first.add(Fp::new(constant));
        }
        state[0] = first;
        proof {
            assert(state@ == old_state.update(0, first));
            assert(values(state@) =~= values(old_state).update(0, first@));
        }
        sparse_layer(
            &w_hat[NUM_PARTIAL_ROUNDS - r - 1],
            &v_col[NUM_PARTIAL_ROUNDS - r - 1],
            state,
        );
        r += 1;
    }
}

/// Runs `count` full rounds, starting at round `first`.
pub fn apply_full_rounds<const W: usize>(
    ark: &[[u64; W]; 30],
    mds: &[[u64; W]; W],
    first: usize,
    state: &mut [Fp; W],
)
    requires
        first + NUM_HALF_FULL_ROUNDS <= NUM_ROUNDS,
    ensures
        values(final(state)@) == full_rounds(
            table(*ark),
            table(*mds),
            first as int,
            NUM_HALF_FULL_ROUNDS as nat,
            values(old(state)@),
        ),
{
    let ghost before = values(state@);
    let mut i: usize = 0;
    while i < NUM_HALF_FULL_ROUNDS
        invariant
            i <= NUM_HALF_FULL_ROUNDS,
            first + NUM_HALF_FULL_ROUNDS <= NUM_ROUNDS,
            values(state@) == full_rounds(
                table(*ark),
                table(*mds),
                first as int,
                i as nat,
                before,
            ),
        decreases NUM_HALF_FULL_ROUNDS - i,
    {
        apply_full_round(&ark[first + i], mds, state);
        i += 1;
    }
}

/// Applies the permutation to the state.
pub fn apply_permutation<const W: usize>(
    ark: &[[u64; W]; 30],
    mds: &[[u64; W]; W],
    m_i: &[[u64; W]; W],
    v_col: &[[u64; W]; 22],
    w_hat: &[[u64; W]; 22],
    state: &mut [Fp; W],
)
    requires
        W > 0,
    ensures
        values(final(state)@) == permutation(
            table(*ark),
            table(*mds),
            table(*m_i),
            table(*v_col),
            table(*w_hat),
            values(old(state)@),
        ),
{
    apply_full_rounds(ark, mds, 0, state);
    apply_partial_rounds(ark, m_i, v_col, w_hat, state);
    apply_full_rounds(ark, mds, NUM_HALF_FULL_ROUNDS + NUM_PARTIAL_ROUNDS, state);
}

} // verus!
