//! The chains and the clearing operations, run on the curve BLS12-381 itself.
//! The curve's arithmetic and the multiplication by an integer that the
//! chains are held against are those of the arkworks crates.

use ark_bls12_381::{Fq, Fq2, G1Affine, G1Projective, G2Affine, G2Projective};
use ark_ec::{AffineRepr, CurveGroup, Group};
use ark_ff::{BigInt, PrimeField};
use ark_std::rand::{Rng, SeedableRng};
use ark_std::{UniformRand, Zero};
use cofactor::{chain_h2_eff, chain_z, ClearH, CurveProjective, G1, G2};
use rand_xorshift::XorShiftRng;

/// A point of the curve over the base field, G1's curve.
#[derive(Clone, Copy, Debug, PartialEq, Eq)]
struct E1(G1Projective);

/// A point of the twist over the quadratic extension, G2's curve.
#[derive(Clone, Copy, Debug, PartialEq, Eq)]
struct E2(G2Projective);

impl CurveProjective for E1 {
    type V = ();

    // The ghost side of the capability: nothing runs it.
    fn view(&self) {}

    fn in_group(_: ()) -> bool {
        true
    }

    fn zero() {}

    fn sum(_: (), _: ()) {}

    fn neg(_: ()) {}

    fn lemma_closed(_: (), _: ()) {}

    fn lemma_associative(_: (), _: (), _: ()) {}

    fn lemma_identity(_: ()) {}

    fn lemma_inverse(_: ()) {}

    fn double(&mut self) {
        self.0.double_in_place();
    }

    fn add_assign(&mut self, other: &Self) {
        self.0 += &other.0;
    }

    fn sub_assign(&mut self, other: &Self) {
        self.0 -= &other.0;
    }
}

impl CurveProjective for E2 {
    type V = ();

    // The ghost side of the capability: nothing runs it.
    fn view(&self) {}

    fn in_group(_: ()) -> bool {
        true
    }

    fn zero() {}

    fn sum(_: (), _: ()) {}

    fn neg(_: ()) {}

    fn lemma_closed(_: (), _: ()) {}

    fn lemma_associative(_: (), _: (), _: ()) {}

    fn lemma_identity(_: ()) {}

    fn lemma_inverse(_: ()) {}

    fn double(&mut self) {
        self.0.double_in_place();
    }

    fn add_assign(&mut self, other: &Self) {
        self.0 += &other.0;
    }

    fn sub_assign(&mut self, other: &Self) {
        self.0 -= &other.0;
    }
}

const SEED: [u8; 16] = [
    0x59, 0x62, 0xbe, 0x5d, 0x76, 0x3d, 0x31, 0x8d, 0x17, 0xdb, 0x37, 0x32, 0x54, 0x06, 0xbc, 0xe5,
];

/// 1 - z, the effective cofactor of G1.
const G1_H_EFF: [u64; 1] = [0xd201000000010001];

/// The effective cofactor of G2 modulo the order of the subgroup.
const G2_H_EFF_MOD_R: [u64; 4] = [
    0xa40200040001ffff,
    0xb116900400069009,
    0x0000000000000002,
    0x0000000000000000,
];

/// The effective cofactor 3 (z^2 - 1) h2 of G2, least limb first.
const G2_H_EFF: [u64; 10] = [
    0xe8020005aaa95551,
    0x59894c0adebbf6b4,
    0xe954cbc06689f6a3,
    0x2ec0ec69d7477c1a,
    0x6d82bf015d1212b0,
    0x329c2f178731db95,
    0x9986ff031508ffe1,
    0x88e2a8e9145ad768,
    0x584c6a0ea91b3528,
    0x0bc69f08f2ee75b3,
];

/// The prime order r of the subgroups.
const R: [u64; 4] = [
    0xffffffff00000001,
    0x53bda402fffe5bfe,
    0x3339d80809a1d805,
    0x73eda753299d7d48,
];

/// h2 r, the number of points of G2's curve.
const H2_R: [u64; 12] = [
    0xb2a9fffe1c7238e5,
    0x43116b1e2788e6a8,
    0xb096de2c62640b26,
    0x3f2484c55b94474a,
    0x744a2d5eb3dd4d21,
    0x37697386bf984315,
    0xf53149330978ef01,
    0x50a62cfd16ddca6e,
    0x66e59e49349e8bd0,
    0xe2dc90e50e7046b4,
    0x4bd278eaa22f25e9,
    0x02a437a4b8c35fc7,
];

/// (1 - z) r.
const G1_H_EFF_R: [u64; 5] = [
    0xd1ffffff00010001,
    0x81bfa40089fc5bff,
    0x41f8c5f1fba8d338,
    0xd28e776116d47d58,
    0x5f19672fdf76ce50,
];

/// The inverse of 1 - z modulo r.
const G1_INVERSE: [u64; 4] = [
    0xffff000000000001,
    0x1400480189fd0000,
    0xa5e80b39939ed335,
    0x73eda753299d7d47,
];

/// The inverse of the effective cofactor of G2 modulo r.
const G2_INVERSE: [u64; 4] = [
    0x16b2602c95ec5209,
    0x6be35c8303cc1c10,
    0xfe0d648e2d8073c1,
    0x2a45af93b77be6f6,
];

fn fq(limbs: [u64; 6]) -> Fq {
    Fq::from_bigint(BigInt::new(limbs)).unwrap()
}

/// A point of G1's curve that need not be in the subgroup of prime order.
fn any_point_e1<R: Rng>(rng: &mut R) -> G1Projective {
    loop {
        let x = Fq::rand(rng);
        let greatest: bool = rng.gen();
        if let Some(p) = G1Affine::get_point_from_x_unchecked(x, greatest) {
            return p.into_group();
        }
    }
}

/// A point of G2's curve that need not be in the subgroup of prime order.
fn any_point_e2<R: Rng>(rng: &mut R) -> G2Projective {
    loop {
        let x = Fq2::rand(rng);
        let greatest: bool = rng.gen();
        if let Some(p) = G2Affine::get_point_from_x_unchecked(x, greatest) {
            return p.into_group();
        }
    }
}

#[test]
fn test_clear_h() {
    let mut rng = XorShiftRng::from_seed(SEED);
    for _ in 0..32 {
        let mut input = G1Projective::rand(&mut rng);
        let mut result = G1(E1(input));
        result.clear_h();
        input = input.mul_bigint([0xd201000000010001u64]);
        assert_eq!(result.0 .0, input);
    }
}

#[test]
fn test_clear_h2() {
    let mut rng = XorShiftRng::from_seed(SEED);

    for _ in 0..32 {
        let mut input = G2Projective::rand(&mut rng);
        let mut result = G2(E2(input));
        result.clear_h();
        input = input.mul_bigint([
            0xa40200040001ffffu64,
            0xb116900400069009u64,
            0x0000000000000002u64,
            0x0000000000000000u64,
        ]);
        assert_eq!(result.0 .0, input);
    }

    let mut pi = G2(E2(pi1()));
    pi.clear_h();
    let po = po1();
    assert_eq!(pi.0 .0, po);

    let mut pi = G2(E2(pi2()));
    pi.clear_h();
    let po = po2();
    assert_eq!(pi.0 .0, po);
}

#[test]
fn the_fixed_inputs_are_on_the_curve_and_outside_the_subgroup() {
    for p in [pi1().into_affine(), pi2().into_affine()] {
        assert!(p.is_on_curve());
        assert!(!p.is_in_correct_subgroup_assuming_on_curve());
    }
    for p in [po1().into_affine(), po2().into_affine()] {
        assert!(p.is_on_curve());
        assert!(p.is_in_correct_subgroup_assuming_on_curve());
    }
}

#[test]
fn chain_z_multiplies_by_neg_z_on_the_whole_curve() {
    let mut rng = XorShiftRng::from_seed(SEED);
    for _ in 0..16 {
        let input = any_point_e1(&mut rng);
        let mut acc = E1(G1Projective::zero());
        chain_z(&mut acc, &E1(input));
        assert_eq!(acc.0, input.mul_bigint([0xd201000000010000u64]));
    }
    for _ in 0..8 {
        let input = any_point_e2(&mut rng);
        let mut acc = E2(G2Projective::zero());
        chain_z(&mut acc, &E2(input));
        assert_eq!(acc.0, input.mul_bigint([0xd201000000010000u64]));
    }
}

#[test]
fn chain_h2_eff_multiplies_by_the_effective_cofactor_on_the_whole_curve() {
    let mut rng = XorShiftRng::from_seed(SEED);
    for _ in 0..8 {
        let input = any_point_e2(&mut rng);
        let mut acc = E2(G2Projective::zero());
        chain_h2_eff(&mut acc, &E2(input));
        assert_eq!(acc.0, input.mul_bigint(G2_H_EFF));
    }
}

#[test]
fn clear_h_on_the_whole_curve_g1() {
    let mut rng = XorShiftRng::from_seed(SEED);
    for _ in 0..16 {
        let input = any_point_e1(&mut rng);
        let mut result = G1(E1(input));
        result.clear_h();
        assert_eq!(result.0 .0, input.mul_bigint(G1_H_EFF));
        assert!(result.0 .0.into_affine().is_in_correct_subgroup_assuming_on_curve());
    }
}

#[test]
fn clear_h_on_the_whole_curve_g2() {
    let mut rng = XorShiftRng::from_seed(SEED);
    for _ in 0..8 {
        let input = any_point_e2(&mut rng);
        let mut result = G2(E2(input));
        result.clear_h();
        assert_eq!(result.0 .0, input.mul_bigint(G2_H_EFF));
        assert!(result.0 .0.into_affine().is_in_correct_subgroup_assuming_on_curve());
    }
}

#[test]
fn clear_h_agrees_with_the_endomorphism_method() {
    let mut rng = XorShiftRng::from_seed(SEED);
    for _ in 0..8 {
        let input = any_point_e2(&mut rng);
        let mut result = G2(E2(input));
        result.clear_h();
        assert_eq!(result.0 .0.into_affine(), input.into_affine().clear_cofactor());
    }
    for _ in 0..8 {
        let input = any_point_e1(&mut rng);
        let mut result = G1(E1(input));
        result.clear_h();
        assert_eq!(result.0 .0.into_affine(), input.into_affine().clear_cofactor());
    }
}

#[test]
fn clearing_a_cleared_point_scales_it_within_the_subgroup() {
    let mut rng = XorShiftRng::from_seed(SEED);
    for _ in 0..4 {
        let mut once = G2(E2(any_point_e2(&mut rng)));
        once.clear_h();
        let mut twice = once;
        twice.clear_h();
        assert_eq!(twice.0 .0, once.0 .0.mul_bigint(G2_H_EFF_MOD_R));
        assert!(twice.0 .0.into_affine().is_in_correct_subgroup_assuming_on_curve());
    }
    for _ in 0..4 {
        let mut once = G1(E1(any_point_e1(&mut rng)));
        once.clear_h();
        let mut twice = once;
        twice.clear_h();
        assert_eq!(twice.0 .0, once.0 .0.mul_bigint(G1_H_EFF));
        assert!(twice.0 .0.into_affine().is_in_correct_subgroup_assuming_on_curve());
    }
}

#[test]
fn clearing_the_neutral_element_gives_the_neutral_element() {
    let mut a = G1(E1(G1Projective::zero()));
    a.clear_h();
    assert!(a.0 .0.is_zero());
    let mut b = G2(E2(G2Projective::zero()));
    b.clear_h();
    assert!(b.0 .0.is_zero());
}

#[test]
fn clearing_leaves_the_callers_copy_alone() {
    let mut rng = XorShiftRng::from_seed(SEED);
    let input = any_point_e2(&mut rng);
    let kept = G2(E2(input));
    let mut result = kept;
    result.clear_h();
    assert_eq!(kept.0 .0, input);
    let p = E2(input);
    let mut acc = E2(G2Projective::zero());
    chain_h2_eff(&mut acc, &p);
    assert_eq!(p.0, input);
    chain_z(&mut acc, &p);
    assert_eq!(p.0, input);
}

#[test]
fn points_of_the_subgroups_have_order_r() {
    let mut rng = XorShiftRng::from_seed(SEED);
    for _ in 0..8 {
        assert!(G1Projective::rand(&mut rng).mul_bigint(R).is_zero());
        assert!(G2Projective::rand(&mut rng).mul_bigint(R).is_zero());
    }
}

#[test]
fn points_of_the_curves_have_the_orders_that_the_laws_assume() {
    let mut rng = XorShiftRng::from_seed(SEED);
    for _ in 0..8 {
        let p = any_point_e1(&mut rng);
        assert!(!p.mul_bigint(R).is_zero());
        assert!(p.mul_bigint(G1_H_EFF_R).is_zero());
        let q = any_point_e2(&mut rng);
        assert!(!q.mul_bigint(R).is_zero());
        assert!(q.mul_bigint(H2_R).is_zero());
    }
}

#[test]
fn clearing_can_be_undone_on_the_subgroups() {
    let mut rng = XorShiftRng::from_seed(SEED);
    for _ in 0..8 {
        let p = G1Projective::rand(&mut rng);
        let mut cleared = G1(E1(p));
        cleared.clear_h();
        assert_eq!(cleared.0 .0.mul_bigint(G1_INVERSE), p);
        let q = G2Projective::rand(&mut rng);
        let mut cleared = G2(E2(q));
        cleared.clear_h();
        assert_eq!(cleared.0 .0.mul_bigint(G2_INVERSE), q);
    }
}

#[test]
fn outside_the_subgroup_the_reduced_cofactor_gives_another_point() {
    for p in [pi1(), pi2()] {
        let mut cleared = G2(E2(p));
        cleared.clear_h();
        assert_ne!(cleared.0 .0, p.mul_bigint(G2_H_EFF_MOD_R));
        assert_eq!(cleared.0 .0, p.mul_bigint(G2_H_EFF));
    }
}

fn pi1() -> G2Projective {
    G2Projective::new_unchecked(
        Fq2::new(
            fq([
                0x60bfbecc732ba610u64,
                0x6603a5f54c58db2fu64,
                0x5d8eb4297c4d8279u64,
                0xb1bbb083d0728d9du64,
                0x79e52f9d6301e7a9u64,
                0x0c9fb76d56733b44u64,
            ]),
            fq([
                0x2058eebaac3db022u64,
                0xd8f94159af393618u64,
                0x4e041f53ff779974u64,
                0x03a5f678559fecdcu64,
                0xcdb85eca3da1f440u64,
                0x006d55d738a89daau64,
            ]),
        ),
        Fq2::new(
            fq([
                0x938225a3e8d53daau64,
                0x30ea7f357aaa77dfu64,
                0x63587f338dc75610u64,
                0x7b35c727ac61e96bu64,
                0x1e003da1f3a124f4u64,
                0x087785cfcb421f1fu64,
            ]),
            fq([
                0xa75d1b64c7f88282u64,
                0xdfe0c7eba1fe426eu64,
                0x19272d81b8edef80u64,
                0x9ab5ce196e06fe79u64,
                0x8a355846ccb413d1u64,
                0x0923471c6b752c75u64,
            ]),
        ),
        Fq2::new(
            fq([
                0x55165d667c9f9812u64,
                0xac6431be755ad550u64,
                0x97c399a16cf5d66bu64,
                0xc4f2c5ff5e7563e7u64,
                0xc240476aa653e0b2u64,
                0x0f7f362adfa23764u64,
            ]),
            fq([
                0xb6267378d94c97b8u64,
                0x01bc8e83b89eccffu64,
                0x125c9b39aba71843u64,
                0xc130ce1872e2f21au64,
                0xe981bb12aaf40da3u64,
                0x13c645cc354af99du64,
            ]),
        ),
    )
}

fn po1() -> G2Projective {
    G2Projective::new_unchecked(
        Fq2::new(
            fq([
                0x2a31a2dd0fdb0639u64,
                0x56c20026fc05a72du64,
                0x803739ef1dfbb449u64,
                0x04fc1b828144bdf6u64,
                0xeaceed987948436du64,
                0x1470136456244901u64,
            ]),
            fq([
                0xa659d96591a5b1ddu64,
                0xe0865f2fb7c23ef2u64,
                0x0ef5af32f3c9d18eu64,
                0x84bd02cb19fc81cfu64,
                0x6b4b92771dd8b717u64,
                0x0b55195ae0adcc28u64,
            ]),
        ),
        Fq2::new(
            fq([
                0xe96d68bfe2d19c9eu64,
                0xc866562b27937ae3u64,
                0xfdf2fc54562635e0u64,
                0x912e94ab3c21d229u64,
                0xc11f34aefe94c01au64,
                0x17c43b238fba8709u64,
            ]),
            fq([
                0xaaecf08cd1008aa4u64,
                0x6a2f4b8cd343c879u64,
                0x359faf89d61a09a1u64,
                0xa5b3631b436b673bu64,
                0xf8feb650d6b3f3e9u64,
                0x009b1ff5dfcde663u64,
            ]),
        ),
        Fq2::new(
            fq([
                0xec7dce5a7896e240u64,
                0x938083998c2a5d40u64,
                0x39bf9d8500c9c8efu64,
                0xc0bb723e4646e48fu64,
                0xa33859cef4f3d803u64,
                0x16046ed5637f1cebu64,
            ]),
            fq([
                0x7fd2dd34eb3df4dbu64,
                0x28ca7b0791108e03u64,
                0x67e02cd3f84a6f33u64,
                0x53e182e58667e803u64,
                0x4bc9e4801c0e6f45u64,
                0x11b7c228955190f9u64,
            ]),
        ),
    )
}

fn pi2() -> G2Projective {
    G2Projective::new_unchecked(
        Fq2::new(
            fq([
                0x6fa65f65fa648214u64,
                0x2dd4f6998a8cbad5u64,
                0x279f4d81f93074e9u64,
                0x59771054bff8e5c9u64,
                0x301cacbeb813b681u64,
                0x0936c756f4e4ef7au64,
            ]),
            fq([
                0x4dbcb567de5d656bu64,
                0x81115c11f506f4a2u64,
                0x9c85b49117e4cd56u64,
                0x9060f0e2b1a73fe1u64,
                0xc83a89a675fd5bf1u64,
                0x0e1d5f9cd7fbe4d8u64,
            ]),
        ),
        Fq2::new(
            fq([
                0xb23800817a8e4504u64,
                0xf7c8d030606cf5d3u64,
                0xc554d5f3a6873b52u64,
                0xde3f28167d9a5291u64,
                0x4f4d918a1865778du64,
                0x132afbf2f8f65a1eu64,
            ]),
            fq([
                0xcc9ef3087fed27afu64,
                0x7e81a2f64391f0beu64,
                0xc48938b12beb0fbfu64,
                0x360c79002c1e90f7u64,
                0x751da7c5a9e8babfu64,
                0x0ebd04f9163cec3du64,
            ]),
        ),
        Fq2::new(
            fq([
                0xe3338c82ea2979b4u64,
                0x9a6f91d415db545bu64,
                0xa3ca77e0d9861d1cu64,
                0x28f2f4c58ddda9b9u64,
                0x4619fd312fda5b8au64,
                0x05cedc83f8d1ef6du64,
            ]),
            fq([
                0x67b92685e8403d67u64,
                0x60023680e19a4a74u64,
                0x3f08353c8d07f724u64,
                0xd9e2e0af812f9dcfu64,
                0xd14586ab798fd681u64,
                0x0fd1302c1e7f0f46u64,
            ]),
        ),
    )
}

fn po2() -> G2Projective {
    G2Projective::new_unchecked(
        Fq2::new(
            fq([
                0x4c8957d8d8815b9bu64,
                0x7eeeba08557e6adfu64,
                0x27ec4ebc182fb6eau64,
                0x3813d28668925384u64,
                0x168507538152ff6eu64,
                0x073f71e403e113e7u64,
            ]),
            fq([
                0xb7166aeff1af65f1u64,
                0x0dfdd3aad2611503u64,
                0x66f71aea8543e538u64,
                0xad827b476a580daeu64,
                0xa01f125180bdfbafu64,
                0x128a5c629c0b95aeu64,
            ]),
        ),
        Fq2::new(
            fq([
                0xc17fa5b0dc489902u64,
                0x0b388a0fc48ad69fu64,
                0x8175bd9a07bfca84u64,
                0x9fbfe48a85acba8du64,
                0x611f3be0a870feb3u64,
                0x04bb1864f86691dcu64,
            ]),
            fq([
                0x05bcb86bb3bd9ac5u64,
                0xc12b98541bc9b825u64,
                0xe799456b05496e88u64,
                0xd3e521e467210692u64,
                0xbe800d10cbccee05u64,
                0x0de0e0750127f90fu64,
            ]),
        ),
        Fq2::new(
            fq([
                0x0eba7a5361d94a4bu64,
                0x6ab1c7c60e71695cu64,
                0xc8bb6f7a7b3a28f0u64,
                0x796502f270c9af00u64,
                0x400ad08f5ce56103u64,
                0x0ebaf76abe831eb9u64,
            ]),
            fq([
                0x674784654769a83fu64,
                0x3a8ca2cfe26e6c68u64,
                0x7231a53523ca451du64,
                0x3e31339b6cb09cb6u64,
                0xdfec96c2494da8c8u64,
                0x119759a94166869fu64,
            ]),
        ),
    )
}
