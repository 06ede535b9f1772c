//! Test case identities, the run-wide seed registry, and the per-test seed
//! streams derived from them.
use vstd::prelude::*;
use std::collections::hash_map::DefaultHasher;
use std::hash::Hasher;
use vstd::std_specs::hash::DefaultHasherAdditionalSpecFns;

use crate::prng::{seeded_draws, seeded_lanes, xoshiro_output, xoshiro_state_after, DefaultPrng};

verus! {

/// The identity of a test case: a 64-bit hash of its name.
pub type TestCaseId = u64;

/// The base seed of every run.
pub const RUN_SEED: u64 = 0;

/// What is fed to the hasher for a name's bytes, one write per entry: the
/// byte length as eight little-endian bytes, then the bytes themselves.
pub open spec fn identity_input(name: Seq<u8>) -> Seq<Seq<u8>> {
    seq![vstd::bytes::spec_u64_to_le_bytes(name.len() as u64), name]
}

/// The identity of the name whose UTF-8 bytes are `name`: the fixed-key
/// default hash of the length followed by the bytes.
pub open spec fn spec_identity(name: Seq<u8>) -> TestCaseId {
    DefaultHasher::spec_finish(identity_input(name))
}

/// The seed of a test case's stream: the run seed xor the name's identity.
pub open spec fn composite_seed(name: Seq<char>) -> u64 {
    RUN_SEED ^ spec_identity(vstd::utf8::encode_utf8(name))
}

/// The seed of the `i`-th test (counting from zero) that a test case named
/// `name` creates.
pub open spec fn test_seed(name: Seq<char>, i: nat) -> u64 {
    xoshiro_output(xoshiro_state_after(seeded_lanes(composite_seed(name)), i))
}

/// The seeds of the first `n` tests that a test case named `name` creates.
pub open spec fn test_seeds(name: Seq<char>, n: nat) -> Seq<u64> {
    seeded_draws(composite_seed(name), n)
}

/// The identity of `name`. The hasher is std's default one made by
/// `DefaultHasher::new`, whose keys are fixed rather than drawn per process.
pub fn identity(name: &str) -> (r: TestCaseId)
    ensures
        r == spec_identity(vstd::utf8::encode_utf8(name@)),
{
    let bytes = name.as_bytes();
    let len_bytes = vstd::bytes::u64_to_le_bytes(bytes.len() as u64);
    let mut hasher = DefaultHasher::new();
    hasher.write(len_bytes.as_slice());
    hasher.write(bytes);
    assert(hasher@ =~= identity_input(vstd::utf8::encode_utf8(name@)));
    hasher.finish()
}


/// The run-wide registry: the base seed of the run and the registration of
/// test cases. It holds no state of its own, so every instance reads the
/// same seed and gives the same identities.
pub struct TestFramework;

impl TestFramework {
    /// Registers a test case by name and returns its identity. Nothing is
    /// stored: registering a name twice gives the same identity twice.
    pub fn register_test_case(&mut self, name: &'static str) -> (r: TestCaseId)
        ensures
            r == spec_identity(vstd::utf8::encode_utf8(name@)),
            *final(self) == *old(self),
    {
        identity(name)
    }

    /// The base seed of the run.
    pub fn seed(&self) -> (r: u64)
        ensures
            r == RUN_SEED,
    {
        RUN_SEED
    }
}

/// A named test whose successive tests draw their seeds from one stream,
/// seeded with the run seed xor the name's identity.
pub struct TestCase {
    name: &'static str,
    test_seed_gen: DefaultPrng,
    drawn: Ghost<nat>,
}

impl TestCase {
    /// Well-formedness: the owned generator is the stream of this test
    /// case, advanced once per test created so far.
    pub closed spec fn wf(&self) -> bool {
        self.test_seed_gen@ == xoshiro_state_after(
            seeded_lanes(composite_seed(self.name@)),
            self.drawn@,
        )
    }

    /// The test case's name.
    pub closed spec fn spec_name(&self) -> Seq<char> {
        self.name@
    }

    /// How many tests this test case has created.
    pub closed spec fn tests_created(&self) -> nat {
        self.drawn@
    }

    /// A test case named `name`, with no test created yet.
    pub fn new(name: &'static str) -> (r: Self)
        ensures
            r.wf(),
            r.spec_name() == name@,
            r.tests_created() == 0,
    {
        let unique_hash = identity(name);
        let framework = TestFramework;
        let seed = framework.seed() ^ unique_hash;
        let test_seed_gen = DefaultPrng::from_seed(seed);
        TestCase { name, test_seed_gen, drawn: Ghost(0) }
    }

    /// The test case's name.
    pub fn name(&self) -> (r: &'static str)
        ensures
            r@ == self.spec_name(),
    {
        self.name
    }

    /// Creates the next test: its seed is the next value of this test
    /// case's stream, the `i`-th for the `i`-th call.
    pub fn create_test(&mut self) -> (t: Test)
        requires
            old(self).wf(),
        ensures
            final(self).wf(),
            t.spec_name() == old(self).spec_name(),
            t.spec_seed() == test_seed(old(self).spec_name(), old(self).tests_created()),
            final(self).spec_name() == old(self).spec_name(),
            final(self).tests_created() == old(self).tests_created() + 1,
    {
        let name = self.name;
        let seed = self.test_seed_gen.next();
        self.drawn = Ghost(self.drawn@ + 1);
        Test { name, seed }
    }
}

/// One execution of a test case: its name and the seed that the test body
/// seeds its own generator with.
pub struct Test {
    name: &'static str,
    seed: u64,
}

impl Test {
    /// The name of the test case that created this test.
    pub closed spec fn spec_name(&self) -> Seq<char> {
        self.name@
    }

    /// The seed of this test.
    pub closed spec fn spec_seed(&self) -> u64 {
        self.seed
    }

    /// The name of the test case that created this test.
    pub fn name(&self) -> (r: &'static str)
        ensures
            r@ == self.spec_name(),
    {
        self.name
    }

    /// The seed of this test.
    pub fn seed(&self) -> (r: u64)
        ensures
            r == self.spec_seed(),
    {
        self.seed
    }
}

/// Prefix property: of the seeds of the first `k` tests that a test case
/// creates, the first `j` are the seeds that a fresh test case of the same
/// name gives in `j` calls.
pub proof fn lemma_test_seeds_prefix(name: Seq<char>, j: nat, k: nat)
    requires
        j < k,
    ensures
        test_seeds(name, k).subrange(0, j as int) == test_seeds(name, j),
        forall|i: nat| i < k ==> #[trigger] test_seeds(name, k)[i as int] == test_seed(name, i),
{
    crate::prng::lemma_draws_prefix(seeded_lanes(composite_seed(name)), j, k);
}

} // verus!
