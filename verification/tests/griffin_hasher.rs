use hash::anemoi::anemoi_64_8_4::hasher::AnemoiHash;
use hash::field::Fp;
use hash::griffin::griffin_64_12_8;
use hash::griffin::griffin_64_8_4;
use hash::poseidon::poseidon_64_12_8::hasher::PoseidonHash;
use hash::traits::{Hasher, Permutation};

/// A table of sample constants, from a linear congruential sequence.
fn sample_table<const C: usize, const R: usize>(seed: u64) -> [[u64; C]; R] {
    let mut x = seed;
    let mut table = [[0u64; C]; R];
    for row in table.iter_mut() {
        for entry in row.iter_mut() {
            x = x
                .wrapping_mul(6364136223846793005)
                .wrapping_add(1442695040888963407);
            *entry = x;
        }
    }
    table
}

fn wide() -> griffin_64_12_8::hasher::GriffinHash<PoseidonHash> {
    griffin_64_12_8::hasher::GriffinHash::new(PoseidonHash::default())
}

fn narrow() -> griffin_64_8_4::hasher::GriffinHash<AnemoiHash> {
    let engine = AnemoiHash::new(sample_table::<4, 11>(2), sample_table::<4, 11>(3));
    griffin_64_8_4::hasher::GriffinHash::new(engine)
}

#[test]
fn griffin_12_8_hash_exact() {
    let hasher = wide();
    assert_eq!(hasher.hash(&[]).to_elements(), [Fp::zero(); 4]);
    assert_eq!(hasher.hash(&[Fp::zero(); 8]).to_elements(), [Fp::new(8284484866863402260), Fp::new(5615796946316250159), Fp::new(6223295001502419598), Fp::new(4986667914262003715)]);
    assert_eq!(hasher.hash(&[Fp::zero()]).to_elements(), [Fp::new(10406998553634153385), Fp::new(12272919384180935575), Fp::new(16263215664950192378), Fp::new(5508592563110333614)]);
    let long = [Fp::new(1), Fp::new(2), Fp::new(3), Fp::new(4), Fp::new(5), Fp::new(6), Fp::new(7), Fp::new(8), Fp::new(9), Fp::new(10), Fp::new(11)];
    assert_eq!(hasher.hash(&long).to_elements(), [Fp::new(18129552895825304848), Fp::new(10038246030901258534), Fp::new(3475984751914907263), Fp::new(748906058286208037)]);
}

#[test]
fn griffin_12_8_partial_input_sets_the_first_capacity_slot() {
    let hasher = wide();
    let mut state = [Fp::zero(); 12];
    state[0] = Fp::new(5);
    state[1] = Fp::new(6);
    state[2] = Fp::one();
    state[8] = Fp::one();
    hasher.engine.apply_permutation(&mut state);
    let digest = hasher.hash(&[Fp::new(5), Fp::new(6)]);
    assert_eq!(digest.as_elements()[..], state[..4]);
    assert_ne!(digest, hasher.hash(&[Fp::new(5), Fp::new(6), Fp::new(0), Fp::new(0), Fp::new(0), Fp::new(0), Fp::new(0), Fp::new(0)]));
    assert_ne!(digest, hasher.hash(&[Fp::new(5), Fp::new(6), Fp::new(1), Fp::new(0), Fp::new(0), Fp::new(0), Fp::new(0), Fp::new(0)]));
}

#[test]
fn griffin_12_8_merge_exact() {
    let hasher = wide();
    let a = hasher.hash(&[Fp::zero()]);
    let b = hasher.hash(&[Fp::one()]);
    assert_eq!(
        hasher.merge(&[a, b]).to_elements(),
        [Fp::new(5398848826603304654), Fp::new(8533533131885622296), Fp::new(14344874785832400761), Fp::new(970614851756248081)]
    );
    assert_ne!(hasher.merge(&[a, b]), hasher.merge(&[b, a]));
    let seed = hasher.hash(&[Fp::new(42)]);
    let e = seed.to_elements();
    let expected = hasher.hash(&[e[0], e[1], e[2], e[3], Fp::new(99)]);
    assert_eq!(hasher.merge_with_int(seed, 99), expected);
}

#[test]
fn griffin_12_8_matrix_exact() {
    let mut state = [Fp::new(4242), Fp::new(11400714819323202727), Fp::new(4354685569231816891), Fp::new(15755400388555015376), Fp::new(8709371138463629540), Fp::new(1663341888372243704), Fp::new(13064056707695442189), Fp::new(6018027457604056353), Fp::new(17418742276927254838), Fp::new(10372713026835869002), Fp::new(3326683776744483166), Fp::new(14727398596067681651)];
    griffin_64_12_8::apply_mds(&mut state);
    assert_eq!(state, [Fp::new(2969428986747427205), Fp::new(3512073980669737560), Fp::new(13192158716263341726), Fp::new(13734803710185652081), Fp::new(13192158716263341726), Fp::new(15790807295160319531), Fp::new(4968144376364671926), Fp::new(7566792955261649731), Fp::new(4968144376364671926), Fp::new(9622796540236317181), Fp::new(15190874105880586447), Fp::new(1398782200337647381)]);
}

#[test]
fn griffin_8_4_hash_exact() {
    let hasher = narrow();
    assert_eq!(hasher.hash(&[]).to_elements(), [Fp::zero(); 4]);
    assert_eq!(hasher.hash(&[Fp::zero(); 4]).to_elements(), [Fp::new(7611805129924467377), Fp::new(8974743790399738474), Fp::new(3199436784569808886), Fp::new(1765687045488012293)]);
    assert_eq!(hasher.hash(&[Fp::zero()]).to_elements(), [Fp::new(17683167077760376641), Fp::new(17377416797580668976), Fp::new(2897022661386236069), Fp::new(6075601306954160665)]);
    let long = [Fp::new(1), Fp::new(2), Fp::new(3), Fp::new(4), Fp::new(5), Fp::new(6)];
    assert_eq!(hasher.hash(&long).to_elements(), [Fp::new(6640905723376384959), Fp::new(7898955994596202447), Fp::new(1732317419579182426), Fp::new(13230611228699953446)]);
    assert_ne!(hasher.hash(&[Fp::new(5), Fp::new(6)]), hasher.hash(&[Fp::new(5), Fp::new(6), Fp::new(0), Fp::new(0)]));
}

#[test]
fn griffin_8_4_merge_exact() {
    let hasher = narrow();
    let a = hasher.hash(&[Fp::zero()]);
    let b = hasher.hash(&[Fp::one()]);
    assert_eq!(
        hasher.merge(&[a, b]).to_elements(),
        [Fp::new(1304252010126011094), Fp::new(18119977776724172937), Fp::new(5300583260305855632), Fp::new(4753253473790462863)]
    );
    assert_ne!(hasher.merge(&[a, b]), hasher.merge(&[b, a]));
    let seed = hasher.hash(&[Fp::new(42)]);
    let e = seed.to_elements();
    let expected = hasher.hash(&[e[0], e[1], e[2], e[3], Fp::new(99)]);
    assert_eq!(hasher.merge_with_int(seed, 99), expected);
}
