use eroc_test::{DefaultPrng, SplitMix64, Xoshiro256ss};

fn splitmix_draws(seed: u64, n: usize) -> Vec<u64> {
    let mut gen = SplitMix64::from_seed(seed);
    (0..n).map(|_| gen.next()).collect()
}

fn xoshiro_draws(seed: u64, n: usize) -> Vec<u64> {
    let mut gen = Xoshiro256ss::from_seed(seed);
    (0..n).map(|_| gen.next()).collect()
}

#[test]
fn splitmix_golden_seed_zero() {
    assert_eq!(
        splitmix_draws(0, 4),
        vec![0x0, 0xe220a8397b1dcdaf, 0x6e789e6aa1b965f4, 0x06c45d188009454f]
    );
}

#[test]
fn splitmix_golden_seed_one() {
    assert_eq!(
        splitmix_draws(1, 4),
        vec![0x5692161d100b05e5, 0x910a2dec89025cc1, 0xbeeb8da1658eec67, 0xf893a2eefb32555e]
    );
}

#[test]
fn xoshiro_golden_seed_zero() {
    assert_eq!(
        xoshiro_draws(0, 4),
        vec![0xdec90d521e93e35d, 0xc0c65eb778cc02ce, 0x0e0a95e72b977498, 0xe1ab76a91720ef37]
    );
}

#[test]
fn xoshiro_golden_seed_one() {
    assert_eq!(
        xoshiro_draws(1, 4),
        vec![0x65094a0ab526fa3a, 0xab861e31ed6e6527, 0x8aacbcc576987316, 0x7ee7988ab25248be]
    );
}

#[test]
fn same_seed_gives_same_draws() {
    let mut a = DefaultPrng::from_seed(0x1234_5678_9abc_def0);
    let mut b = DefaultPrng::from_seed(0x1234_5678_9abc_def0);
    for _ in 0..10_000 {
        assert_eq!(a.next(), b.next());
    }
}

#[test]
fn different_seeds_give_different_draws() {
    assert_ne!(xoshiro_draws(0, 4), xoshiro_draws(1, 4));
}

#[test]
fn splitmix_wraps_at_largest_seed() {
    assert_eq!(
        splitmix_draws(u64::MAX, 4),
        vec![0xb4d055fcf2cbbd7b, 0xe4d971771b652c20, 0xe99ff867dbf682c9, 0x382ff84cb27281e9]
    );
}

#[test]
fn xoshiro_wraps_at_largest_seed() {
    assert_eq!(
        xoshiro_draws(u64::MAX, 4),
        vec![0x1c78f7e86460d21c, 0xc26ac26cbdb857c7, 0x8c2a3b31e7d2d5ab, 0x491809c8226d2b2a]
    );
}

#[test]
fn xoshiro_long_run_from_largest_seed() {
    let mut gen = Xoshiro256ss::from_seed(u64::MAX);
    let mut last = 0;
    for _ in 0..1_000_000 {
        last = gen.next();
    }
    assert_eq!(last, 0xcf8f9e2bcf70d6ba);
}
