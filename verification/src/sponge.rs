//! The sponge construction over a fixed-width permutation: absorption of
//! field elements into the rate part of the state, the padding rule of each
//! family, and the two ways of merging a pair of digests.

use crate::field::{
    add_mod, lemma_residue_add, lemma_residue_successor, residue, values, Fp,
};
use crate::traits::Permutation;
use vstd::arithmetic::div_mod::*;
use vstd::prelude::*;

verus! {

/// The all-zero state of the given width.
pub open spec fn zeros(width: nat) -> Seq<int> {
    Seq::new(width, |i: int| 0int)
}

/// The state with a block added, element by element, into its leading slots.
pub open spec fn add_block(state: Seq<int>, block: Seq<int>) -> Seq<int> {
    Seq::new(
        state.len(),
        |i: int|
            if i < block.len() {
                add_mod(state[i], block[i])
            } else {
                state[i]
            },
    )
}

/// The state after every full block of `rate` elements of the input has been
/// added into it and permuted, in order. Elements after the last full block
/// are not looked at.
pub open spec fn absorb_blocks<const W: usize, E: Permutation<W>>(
    engine: &E,
    rate: nat,
    state: Seq<int>,
    input: Seq<int>,
) -> Seq<int>
    decreases input.len(),
{
    if rate == 0 || input.len() < rate {
        state
    } else {
        absorb_blocks(
            engine,
            rate,
            engine.spec_permute(add_block(state, input.take(rate as int))),
            input.skip(rate as int),
        )
    }
}

/// The elements of the input that follow its last full block.
pub open spec fn tail(rate: nat, input: Seq<int>) -> Seq<int> {
    input.skip(input.len() - input.len() % rate)
}

/// The state with one added to the slot at `pos`.
pub open spec fn add_one_at(state: Seq<int>, pos: int) -> Seq<int> {
    state.update(pos, add_mod(state[pos], 1))
}

/// The state with one added to the slot at `pos` and the rate slots behind
/// it set to zero.
pub open spec fn pad_and_clear(state: Seq<int>, pos: int, rate: int) -> Seq<int> {
    Seq::new(
        state.len(),
        |i: int|
            if i == pos {
                add_mod(state[i], 1)
            } else if pos < i < rate {
                0
            } else {
                state[i]
            },
    )
}

/// Final sponge state under the padding rule of Poseidon: a partial last
/// block gets
/// a one in its next slot, zeros in the rest of the rate, and one more
/// permutation; an input of whole blocks gets nothing more.
pub open spec fn poseidon_state<const W: usize, E: Permutation<W>>(
    engine: &E,
    rate: nat,
    input: Seq<int>,
) -> Seq<int> {
    let absorbed = absorb_blocks(engine, rate, zeros(W as nat), input);
    let rest = tail(rate, input);
    if rest.len() == 0 {
        absorbed
    } else {
        engine.spec_permute(pad_and_clear(add_block(absorbed, rest), rest.len() as int, rate as int))
    }
}

/// The state that the padding rule of Griffin starts from: all zero, but for a
/// one in the first capacity slot where the input is not made of whole
/// blocks.
pub open spec fn griffin_start(width: nat, rate: nat, input: Seq<int>) -> Seq<int> {
    if input.len() % rate == 0 {
        zeros(width)
    } else {
        zeros(width).update(rate as int, 1)
    }
}

/// Final sponge state under the padding rule of Griffin: where the input is
/// not made of whole blocks, the first capacity slot starts at one, and the
/// partial last block gets a one in its next slot and one more permutation.
pub open spec fn griffin_state<const W: usize, E: Permutation<W>>(
    engine: &E,
    rate: nat,
    input: Seq<int>,
) -> Seq<int> {
    let absorbed = absorb_blocks(engine, rate, griffin_start(W as nat, rate, input), input);
    let rest = tail(rate, input);
    if rest.len() == 0 {
        absorbed
    } else {
        engine.spec_permute(add_one_at(add_block(absorbed, rest), rest.len() as int))
    }
}

/// The separator of the padding rule of Anemoi: one for an input of whole
/// blocks, zero otherwise.
pub open spec fn separator(rate: nat, input: Seq<int>) -> int {
    if input.len() % rate == 0 {
        1
    } else {
        0
    }
}

/// The state with `sigma` added to its last slot.
pub open spec fn add_to_last(state: Seq<int>, sigma: int) -> Seq<int> {
    state.update(state.len() - 1, add_mod(state[state.len() - 1], sigma))
}

/// Final sponge state under the padding rule of Anemoi: a partial last block
/// gets a one in its next slot and one more permutation; then the separator
/// is added to the last slot of the state, with no further permutation.
pub open spec fn anemoi_state<const W: usize, E: Permutation<W>>(
    engine: &E,
    rate: nat,
    input: Seq<int>,
) -> Seq<int> {
    let absorbed = absorb_blocks(engine, rate, zeros(W as nat), input);
    let rest = tail(rate, input);
    let squeezed = if rest.len() == 0 {
        absorbed
    } else {
        engine.spec_permute(add_one_at(add_block(absorbed, rest), rest.len() as int))
    };
    add_to_last(squeezed, separator(rate, input))
}

/// The state a plain merge permutes: the two digests side by side at the
/// front, zeros behind them.
pub open spec fn merge_input(width: nat, left: Seq<int>, right: Seq<int>) -> Seq<int> {
    left + right + zeros((width - left.len() - right.len()) as nat)
}

/// The permuted state of a plain merge; the digest is its leading elements.
pub open spec fn plain_merge_state<const W: usize, E: Permutation<W>>(
    engine: &E,
    left: Seq<int>,
    right: Seq<int>,
) -> Seq<int> {
    engine.spec_permute(merge_input(W as nat, left, right))
}

/// The digest of a compression merge: the two digests fill the state, and
/// each output element is the sum of the two input elements at its index and
/// of the two elements of the permuted state at its index and half a state
/// further.
pub open spec fn jive_merge_digest<const W: usize, E: Permutation<W>>(
    engine: &E,
    left: Seq<int>,
    right: Seq<int>,
) -> Seq<int> {
    let permuted = engine.spec_permute(left + right);
    Seq::new(
        left.len(),
        |i: int| residue(left[i] + right[i] + permuted[i] + permuted[i + W / 2]),
    )
}

/// Absorbing whole blocks and then one more block is absorbing them all.
pub proof fn lemma_absorb_append<const W: usize, E: Permutation<W>>(
    engine: &E,
    rate: nat,
    state: Seq<int>,
    blocks: Seq<int>,
    last: Seq<int>,
    count: nat,
)
    requires
        rate > 0,
        blocks.len() == count * rate,
        last.len() == rate,
    ensures
        absorb_blocks(engine, rate, state, blocks + last) == engine.spec_permute(
            add_block(absorb_blocks(engine, rate, state, blocks), last),
        ),
    decreases count,
{
    let all = blocks + last;
    if count == 0 {
        assert(blocks.len() == 0) by (nonlinear_arith)
            requires
                blocks.len() == count * rate,
                count == 0,
        ;
        assert(all =~= last);
        assert(blocks =~= Seq::<int>::empty());
        assert(last.take(rate as int) =~= last);
        let next = engine.spec_permute(add_block(state, last));
        assert(absorb_blocks(engine, rate, next, last.skip(rate as int)) == next);
        assert(absorb_blocks(engine, rate, state, blocks) == state);
    } else {
        assert(count * rate == (count - 1) * rate + rate) by (nonlinear_arith);
        assert((count - 1) * rate >= 0) by (nonlinear_arith)
            requires
                count >= 1,
        ;
        assert(all.take(rate as int) =~= blocks.take(rate as int));
        assert(all.skip(rate as int) =~= blocks.skip(rate as int) + last);
        let next = engine.spec_permute(add_block(state, blocks.take(rate as int)));
        lemma_absorb_append(
            engine,
            rate,
            next,
            blocks.skip(rate as int),
            last,
            (count - 1) as nat,
        );
    }
}

/// Elements behind the last whole block do not change what the whole blocks
/// absorb into.
pub proof fn lemma_absorb_ignores_tail<const W: usize, E: Permutation<W>>(
    engine: &E,
    rate: nat,
    state: Seq<int>,
    blocks: Seq<int>,
    rest: Seq<int>,
    count: nat,
)
    requires
        rate > 0,
        blocks.len() == count * rate,
        rest.len() < rate,
    ensures
        absorb_blocks(engine, rate, state, blocks + rest) == absorb_blocks(
            engine,
            rate,
            state,
            blocks,
        ),
    decreases count,
{
    let all = blocks + rest;
    if count == 0 {
        assert(blocks.len() == 0) by (nonlinear_arith)
            requires
                blocks.len() == count * rate,
                count == 0,
        ;
        assert(all =~= rest);
    } else {
        assert(count * rate == (count - 1) * rate + rate) by (nonlinear_arith);
        assert((count - 1) * rate >= 0) by (nonlinear_arith)
            requires
                count >= 1,
        ;
        assert(all.take(rate as int) =~= blocks.take(rate as int));
        assert(all.skip(rate as int) =~= blocks.skip(rate as int) + rest);
        let next = engine.spec_permute(add_block(state, blocks.take(rate as int)));
        lemma_absorb_ignores_tail(
            engine,
            rate,
            next,
            blocks.skip(rate as int),
            rest,
            (count - 1) as nat,
        );
    }
}

/// Absorbing keeps the width of the state.
pub proof fn lemma_absorb_width<const W: usize, E: Permutation<W>>(
    engine: &E,
    rate: nat,
    state: Seq<int>,
    input: Seq<int>,
)
    requires
        state.len() == W,
    ensures
        absorb_blocks(engine, rate, state, input).len() == W,
    decreases input.len(),
{
    if rate != 0 && input.len() >= rate {
        let entering = add_block(state, input.take(rate as int));
        engine.lemma_permute_width(entering);
        lemma_absorb_width(engine, rate, engine.spec_permute(entering), input.skip(rate as int));
    }
}

/// How an input of whole blocks followed by a partial block, and the same
/// input filled up with zeros to the next whole block, split at the last
/// whole block.
proof fn lemma_split_inputs<const W: usize, E: Permutation<W>>(
    engine: &E,
    rate: nat,
    start_short: Seq<int>,
    start_long: Seq<int>,
    blocks: Seq<int>,
    partial: Seq<int>,
    count: nat,
)
    requires
        0 < rate,
        blocks.len() == count * rate,
        0 < partial.len() < rate,
    ensures
        ({
            let fill = zeros((rate - partial.len()) as nat);
            let short = blocks + partial;
            let long = blocks + partial + fill;
            &&& short.len() % rate == partial.len()
            &&& long.len() % rate == 0
            &&& tail(rate, short) == partial
            &&& tail(rate, long).len() == 0
            &&& absorb_blocks(engine, rate, start_short, short) == absorb_blocks(
                engine,
                rate,
                start_short,
                blocks,
            )
            &&& absorb_blocks(engine, rate, start_long, long) == engine.spec_permute(
                add_block(absorb_blocks(engine, rate, start_long, blocks), partial + fill),
            )
        }),
{
    let fill = zeros((rate - partial.len()) as nat);
    let short = blocks + partial;
    let long = blocks + partial + fill;
    lemma_fundamental_div_mod_converse(
        short.len() as int,
        rate as int,
        count as int,
        partial.len() as int,
    );
    assert((count + 1) * rate == count * rate + rate) by (nonlinear_arith);
    lemma_fundamental_div_mod_converse(long.len() as int, rate as int, count as int + 1, 0);
    assert(tail(rate, short) =~= partial);
    lemma_absorb_ignores_tail(engine, rate, start_short, blocks, partial, count);
    assert(long =~= blocks + (partial + fill));
    lemma_absorb_append(engine, rate, start_long, blocks, partial + fill, count);
}

/// The padding of Poseidon tells a partial last block from the same
/// block filled up with zeros. The two inputs absorb into the same state up
/// to the last permutation, and the states handed to that permutation differ
/// in the slot behind the partial block.
pub proof fn lemma_poseidon_padding_separates<const W: usize, E: Permutation<W>>(
    engine: &E,
    rate: nat,
    blocks: Seq<int>,
    partial: Seq<int>,
    count: nat,
)
    requires
        0 < rate <= W,
        blocks.len() == count * rate,
        0 < partial.len() < rate,
    ensures
        ({
            let fill = zeros((rate - partial.len()) as nat);
            let absorbed = absorb_blocks(engine, rate, zeros(W as nat), blocks);
            let short = pad_and_clear(
                add_block(absorbed, partial),
                partial.len() as int,
                rate as int,
            );
            let long = add_block(absorbed, partial + fill);
            &&& poseidon_state(engine, rate, blocks + partial) == engine.spec_permute(short)
            &&& poseidon_state(engine, rate, blocks + partial + fill) == engine.spec_permute(
                long,
            )
            &&& short[partial.len() as int] != long[partial.len() as int]
        }),
{
    let start = zeros(W as nat);
    let absorbed = absorb_blocks(engine, rate, start, blocks);
    lemma_split_inputs(engine, rate, start, start, blocks, partial, count);
    lemma_absorb_width(engine, rate, start, blocks);
    lemma_residue_successor(absorbed[partial.len() as int]);
}

/// The padding of Griffin tells a partial last block from the same
/// block filled up with zeros. The two inputs start from states that differ
/// in the first capacity slot; where there is no whole block before the
/// partial one, the states handed to the one permutation differ in that slot
/// and in the slot behind the partial block.
pub proof fn lemma_griffin_padding_separates<const W: usize, E: Permutation<W>>(
    engine: &E,
    rate: nat,
    blocks: Seq<int>,
    partial: Seq<int>,
    count: nat,
)
    requires
        0 < rate < W,
        blocks.len() == count * rate,
        0 < partial.len() < rate,
    ensures
        ({
            let fill = zeros((rate - partial.len()) as nat);
            let start_short = griffin_start(W as nat, rate, blocks + partial);
            let start_long = griffin_start(W as nat, rate, blocks + partial + fill);
            let short = add_one_at(
                add_block(absorb_blocks(engine, rate, start_short, blocks), partial),
                partial.len() as int,
            );
            let long = add_block(
                absorb_blocks(engine, rate, start_long, blocks),
                partial + fill,
            );
            &&& start_short[rate as int] == 1
            &&& start_long[rate as int] == 0
            &&& griffin_state(engine, rate, blocks + partial) == engine.spec_permute(short)
            &&& griffin_state(engine, rate, blocks + partial + fill) == engine.spec_permute(long)
            &&& count == 0 ==> short[rate as int] == 1 && long[rate as int] == 0
            &&& count == 0 ==> short[partial.len() as int] != long[partial.len() as int]
        }),
{
    let fill = zeros((rate - partial.len()) as nat);
    let start_short = griffin_start(W as nat, rate, blocks + partial);
    let start_long = griffin_start(W as nat, rate, blocks + partial + fill);
    lemma_split_inputs(engine, rate, start_short, start_long, blocks, partial, count);
    if count == 0 {
        assert(blocks.len() == 0) by (nonlinear_arith)
            requires
                blocks.len() == count * rate,
                count == 0,
        ;
        lemma_residue_successor(0);
    }
}

/// The padding of Anemoi tells a partial last block from the same
/// block filled up with zeros. The two inputs absorb into the same state up
/// to the last permutation, the states handed to that permutation differ in
/// the slot behind the partial block, and only the filled-up input adds a
/// one to the last slot of the permuted state.
pub proof fn lemma_anemoi_padding_separates<const W: usize, E: Permutation<W>>(
    engine: &E,
    rate: nat,
    blocks: Seq<int>,
    partial: Seq<int>,
    count: nat,
)
    requires
        0 < rate <= W,
        blocks.len() == count * rate,
        0 < partial.len() < rate,
    ensures
        ({
            let fill = zeros((rate - partial.len()) as nat);
            let absorbed = absorb_blocks(engine, rate, zeros(W as nat), blocks);
            let short = add_one_at(add_block(absorbed, partial), partial.len() as int);
            let long = add_block(absorbed, partial + fill);
            &&& anemoi_state(engine, rate, blocks + partial) == add_to_last(
                engine.spec_permute(short),
                0,
            )
            &&& anemoi_state(engine, rate, blocks + partial + fill) == add_to_last(
                engine.spec_permute(long),
                1,
            )
            &&& short[partial.len() as int] != long[partial.len() as int]
        }),
{
    let start = zeros(W as nat);
    let absorbed = absorb_blocks(engine, rate, start, blocks);
    lemma_split_inputs(engine, rate, start, start, blocks, partial, count);
    lemma_absorb_width(engine, rate, start, blocks);
    lemma_residue_successor(absorbed[partial.len() as int]);
}

/// Merging is sensitive to the order of the two digests: where they differ,
/// the state handed to the permutation differs, in the plain merge and in
/// the compression merge.
pub proof fn lemma_merge_order(width: nat, left: Seq<int>, right: Seq<int>)
    requires
        left.len() == 4,
        right.len() == 4,
        width >= 8,
        left != right,
    ensures
        merge_input(width, left, right) != merge_input(width, right, left),
        left + right != right + left,
{
    if forall|i: int| 0 <= i < 4 ==> left[i] == right[i] {
        assert(left =~= right);
    }
    let i = choose|i: int| 0 <= i < 4 && left[i] != right[i];
    assert(merge_input(width, left, right)[i] == left[i]);
    assert(merge_input(width, right, left)[i] == right[i]);
    assert((left + right)[i] == left[i]);
    assert((right + left)[i] == right[i]);
}

/// Where the input is made of whole blocks, the state that `absorb` leaves is
/// the state after the last permutation; in any case the tail is as long as
/// the remainder of the input's length.
proof fn lemma_whole_blocks<const W: usize, E: Permutation<W>>(
    engine: &E,
    rate: nat,
    start: Seq<int>,
    input: Seq<int>,
    state: Seq<int>,
)
    requires
        rate > 0,
        state == add_block(absorb_blocks(engine, rate, start, input), tail(rate, input)),
    ensures
        tail(rate, input).len() == input.len() % rate,
        input.len() % rate == 0 ==> state == absorb_blocks(engine, rate, start, input),
        absorb_blocks(engine, rate, start, input).len() == state.len(),
{
    lemma_mod_bound(input.len() as int, rate as int);
    lemma_fundamental_div_mod(input.len() as int, rate as int);
    assert(rate * (input.len() as int / rate as int) >= 0) by (nonlinear_arith)
        requires
            rate > 0,
            input.len() as int / rate as int >= 0,
    {
    }
    if input.len() % rate == 0 {
        assert(state =~= absorb_blocks(engine, rate, start, input));
    }
}

/// The all-zero state.
pub fn zero_state<const W: usize>() -> (state: [Fp; W])
    ensures
        values(state@) == zeros(W as nat),
{
    let zero = Fp::zero();
    let state = [zero;W];
    assert(state == vstd::array::spec_array_fill_for_copy_type::<Fp, W>(zero));
    assert(forall|k: int| 0 <= k < W ==> state@[k] == zero);
    assert(values(state@) =~= zeros(W as nat));
    state
}

/// Adds the input into the rate part of the state, element by element,
/// permuting each time the rate is full. Returns the number of elements of
/// the last, partial block, which have been added and not yet permuted.
pub fn absorb<const W: usize, E: Permutation<W>>(
    engine: &E,
    rate: usize,
    state: &mut [Fp; W],
    input: &[Fp],
) -> (pos: usize)
    requires
        0 < rate <= W,
    ensures
        pos == input@.len() % (rate as nat),
        pos < rate,
        values(final(state)@) == add_block(
            absorb_blocks(engine, rate as nat, values(old(state)@), values(input@)),
            tail(rate as nat, values(input@)),
        ),
{
    let ghost start = values(state@);
    let ghost all = values(input@);
    let ghost mut count: nat = 0;
    let mut pos: usize = 0;
    let mut i: usize = 0;
    assert(values(state@) =~= add_block(
        absorb_blocks(engine, rate as nat, start, all.take(0)),
        all.subrange(0, 0),
    ));
    while i < input.len()
        invariant
            0 < rate <= W,
            i <= input.len(),
            pos < rate,
            i == count * rate + pos,
            all == values(input@),
            values(state@) == add_block(
                absorb_blocks(engine, rate as nat, start, all.take(i - pos)),
                all.subrange(i - pos, i as int),
            ),
        decreases input.len() - i,
    {
        let ghost done = absorb_blocks(engine, rate as nat, start, all.take(i - pos));
        let ghost before = values(state@);
        let ghost old_state = state@;
        state[pos] = state[pos].add(input[i]);
        proof {
            let block = all.subrange(i - pos, i + 1);
            assert(before.len() == W);
            assert(done.len() == W);
            assert(state@ == old_state.update(pos as int, state@[pos as int]));
            assert forall|k: int| 0 <= k < W implies values(state@)[k] == add_block(
                done,
                block,
            )[k] by {
                assert(before[k] == add_block(done, all.subrange(i - pos, i as int))[k]);
            }
            assert(values(state@) =~= add_block(done, block));
        }
        pos += 1;
        i += 1;
        if pos == rate {
            engine.apply_permutation(state);
            proof {
                let blocks = all.take(i - rate);
                let last = all.subrange(i - rate, i as int);
                lemma_absorb_append(engine, rate as nat, start, blocks, last, count);
                assert(blocks + last =~= all.take(i as int));
                assert((count + 1) * rate == count * rate + rate) by (nonlinear_arith);
                count = count + 1;
                assert(values(state@) =~= add_block(
                    absorb_blocks(engine, rate as nat, start, all.take(i as int)),
                    all.subrange(i as int, i as int),
                ));
            }
            pos = 0;
        }
    }
    proof {
        let len = input@.len() as int;
        lemma_fundamental_div_mod_converse(len, rate as int, count as int, pos as int);
        let blocks = all.take(len - pos);
        let rest = all.subrange(len - pos, len);
        lemma_absorb_ignores_tail(engine, rate as nat, start, blocks, rest, count);
        assert(blocks + rest =~= all);
        assert(rest =~= tail(rate as nat, all));
    }
    pos
}

/// Runs the sponge over the input under the padding rule of Poseidon and
/// returns the final state.
pub fn sponge_poseidon<const W: usize, E: Permutation<W>>(
    engine: &E,
    rate: usize,
    input: &[Fp],
) -> (state: [Fp; W])
    requires
        0 < rate <= W,
    ensures
        values(state@) == poseidon_state(engine, rate as nat, values(input@)),
{
    let zero = Fp::zero();
    let mut state = zero_state::<W>();
    let pos = absorb(engine, rate, &mut state, input);
    proof {
        lemma_whole_blocks(engine, rate as nat, zeros(W as nat), values(input@), values(state@));
    }
    if pos > 0 {
        let ghost absorbed = values(state@);
        let ghost old_state = state@;
        state[pos] = state[pos].add(Fp::one());
        assert(state@ == old_state.update(pos as int, state@[pos as int]));
        let mut i: usize = pos + 1;
        assert(values(state@) =~= pad_and_clear(absorbed, pos as int, pos + 1));
        while i < rate
            invariant
                pos < i <= rate <= W,
                zero@ == 0,
                absorbed.len() == W,
                values(state@) == pad_and_clear(absorbed, pos as int, i as int),
            decreases rate - i,
        {
            let ghost old_state = state@;
            state[i] = zero;
            proof {
                assert(state@ == old_state.update(i as int, zero));
                assert forall|k: int| 0 <= k < W implies values(state@)[k] == pad_and_clear(
                    absorbed,
                    pos as int,
                    i + 1,
                )[k] by {
                    assert(values(old_state)[k] == pad_and_clear(
                        absorbed,
                        pos as int,
                        i as int,
                    )[k]);
                }
                assert(values(state@) =~= pad_and_clear(absorbed, pos as int, i + 1));
            }
            i += 1;
        }
        assert(values(state@) =~= pad_and_clear(absorbed, pos as int, rate as int));
        engine.apply_permutation(&mut state);
    }
    state
}

/// Runs the sponge over the input under the padding rule of Griffin and
/// returns the final state.
pub fn sponge_griffin<const W: usize, E: Permutation<W>>(
    engine: &E,
    rate: usize,
    input: &[Fp],
) -> (state: [Fp; W])
    requires
        0 < rate < W,
    ensures
        values(state@) == griffin_state(engine, rate as nat, values(input@)),
{
    let mut state = zero_state::<W>();
    if input.len() % rate != 0 {
        let ghost old_state = state@;
        state[rate] = Fp::one();
        assert(state@ == old_state.update(rate as int, state@[rate as int]));
        assert(values(state@) =~= zeros(W as nat).update(rate as int, 1));
    }
    let ghost start = values(state@);
    let pos = absorb(engine, rate, &mut state, input);
    proof {
        lemma_whole_blocks(engine, rate as nat, start, values(input@), values(state@));
    }
    if pos > 0 {
        let ghost absorbed = values(state@);
        let ghost old_state = state@;
        state[pos] = state[pos].add(Fp::one());
        assert(state@ == old_state.update(pos as int, state@[pos as int]));
        assert(values(state@) =~= add_one_at(absorbed, pos as int));
        engine.apply_permutation(&mut state);
    }
    state
}

/// Runs the sponge over the input under the padding rule of Anemoi and
/// returns the final state.
pub fn sponge_anemoi<const W: usize, E: Permutation<W>>(
    engine: &E,
    rate: usize,
    input: &[Fp],
) -> (state: [Fp; W])
    requires
        0 < rate <= W,
    ensures
        values(state@) == anemoi_state(engine, rate as nat, values(input@)),
{
    let sigma = if input.len() % rate == 0 {
        Fp::one()
    } else {
        Fp::zero()
    };
    let mut state = zero_state::<W>();
    let pos = absorb(engine, rate, &mut state, input);
    proof {
        lemma_whole_blocks(engine, rate as nat, zeros(W as nat), values(input@), values(state@));
    }
    if sigma.is_zero() {
        let ghost absorbed = values(state@);
        let ghost old_state = state@;
        state[pos] = state[pos].add(Fp::one());
        assert(state@ == old_state.update(pos as int, state@[pos as int]));
        assert(values(state@) =~= add_one_at(absorbed, pos as int));
        engine.apply_permutation(&mut state);
    }
    let ghost squeezed = values(state@);
    let ghost old_state = state@;
    state[W - 1] = state[W - 1].add(sigma);
    assert(state@ == old_state.update(W - 1, state@[W - 1]));
    assert(values(state@) =~= add_to_last(squeezed, sigma@));
    state
}

/// Permutes the state made of the two digests and zeros, and returns it.
pub fn merge_plain<const W: usize, E: Permutation<W>>(
    engine: &E,
    left: &[Fp; 4],
    right: &[Fp; 4],
) -> (state: [Fp; W])
    requires
        W >= 8,
    ensures
        values(state@) == plain_merge_state(engine, values(left@), values(right@)),
{
    let mut state = zero_state::<W>();
    assert forall|k: int| 8 <= k < W implies (#[trigger] state@[k])@ == 0 by {
        assert(values(state@)[k] == zeros(W as nat)[k]);
    }
    let mut i: usize = 0;
    while i < 4
        invariant
            i <= 4,
            W >= 8,
            forall|k: int| 0 <= k < i ==> state@[k] == left@[k] && state@[4 + k] == right@[k],
            forall|k: int| 8 <= k < W ==> (#[trigger] state@[k])@ == 0,
        decreases 4 - i,
    {
        let ghost old_state = state@;
        state[i] = left[i];
        state[4 + i] = right[i];
        assert(state@ == old_state.update(i as int, left@[i as int]).update(
            4 + i,
            right@[i as int],
        ));
        i += 1;
    }
    assert(values(state@) =~= merge_input(W as nat, values(left@), values(right@)));
    engine.apply_permutation(&mut state);
    state
}

/// Permutes the state made of the two digests and folds the result back onto
/// them.
pub fn merge_jive<E: Permutation<8>>(engine: &E, left: &[Fp; 4], right: &[Fp; 4]) -> (digest: [
    Fp;
    4
])
    ensures
        values(digest@) == jive_merge_digest(engine, values(left@), values(right@)),
{
    let zero = Fp::zero();
    let mut state = zero_state::<8>();
    let mut i: usize = 0;
    while i < 4
        invariant
            i <= 4,
            forall|k: int| 0 <= k < i ==> state@[k] == left@[k] && state@[4 + k] == right@[k],
        decreases 4 - i,
    {
        state[i] = left[i];
        state[4 + i] = right[i];
        i += 1;
    }
    assert(values(state@) =~= values(left@) + values(right@));
    engine.apply_permutation(&mut state);
    let ghost permuted = values(state@);
    let mut digest = [zero;4];
    let mut i: usize = 0;
    while i < 4
        invariant
            i <= 4,
            permuted == values(state@),
            forall|k: int|
                0 <= k < i ==> digest@[k]@ == residue(
                    left@[k]@ + right@[k]@ + permuted[k] + permuted[k + 4],
                ),
        decreases 4 - i,
    {
        let sum = left[i].add(right[i]).add(state[i]).add(state[i + 4]);
        proof {
            let l = left@[i as int]@;
            let r = right@[i as int]@;
            let a = permuted[i as int];
            let b = permuted[i + 4];
            lemma_residue_add(l + r, a);
            lemma_residue_add(l + r + a, b);
        }
        digest[i] = sum;
        i += 1;
    }
    assert(values(digest@) =~= jive_merge_digest(engine, values(left@), values(right@)));
    digest
}

} // verus!
