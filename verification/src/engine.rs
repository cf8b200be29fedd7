//! The hashing engine: validated cost parameters.

use vstd::prelude::*;
use crate::erase::is_erased;
use crate::error::ErrorKind;
use crate::primitive::{
    argon2id_hash, argon2id_phc, memory_addressable, params_accepted, BLOCK_BYTES, MAX_PARALLELISM,
};
use crate::record::{sealed, HashRecord};
use crate::salt::Salt;
use zeroize::Zeroize;

verus! {

/// Memory cost of the default engine, in KiB.
pub const MEMORY_COST: u32 = 50;

/// Number of passes of the default engine.
pub const TIME_COST: u32 = 2;

/// Degree of parallelism of the default engine.
pub const PARALLELISM: u32 = 2;

/// Digest length of the default engine, in bytes.
pub const OUTPUT_LEN: usize = 32;

/// The cost parameters that an engine can work with: those that the
/// primitive accepts and whose working memory fits in one buffer.
pub open spec fn params_usable(
    memory_cost: u32,
    time_cost: u32,
    parallelism: u32,
    output_len: usize,
) -> bool {
    &&& params_accepted(memory_cost, time_cost, parallelism, output_len)
    &&& memory_addressable(memory_cost)
}

/// Cost parameters that the primitive has accepted.
#[derive(Debug)]
pub struct HashingEngine {
    memory_cost: u32,
    time_cost: u32,
    parallelism: u32,
    output_len: usize,
}

impl HashingEngine {
    #[verifier::type_invariant]
    spec fn accepted(self) -> bool {
        params_usable(self.memory_cost, self.time_cost, self.parallelism, self.output_len)
    }

    /// Memory cost, in KiB.
    pub closed spec fn spec_memory_cost(&self) -> u32 {
        self.memory_cost
    }

    /// Number of passes.
    pub closed spec fn spec_time_cost(&self) -> u32 {
        self.time_cost
    }

    /// Degree of parallelism.
    pub closed spec fn spec_parallelism(&self) -> u32 {
        self.parallelism
    }

    /// Digest length, in bytes.
    pub closed spec fn spec_output_len(&self) -> usize {
        self.output_len
    }

    /// Whether the engine holds parameters that it can work with.
    pub open spec fn wf(self) -> bool {
        params_usable(
            self.spec_memory_cost(),
            self.spec_time_cost(),
            self.spec_parallelism(),
            self.spec_output_len(),
        )
    }

    /// Memory cost, in KiB.
    #[verifier::when_used_as_spec(spec_memory_cost)]
    pub fn memory_cost(&self) -> (r: u32)
        ensures
            r == self.spec_memory_cost(),
    {
        self.memory_cost
    }

    /// Number of passes.
    #[verifier::when_used_as_spec(spec_time_cost)]
    pub fn time_cost(&self) -> (r: u32)
        ensures
            r == self.spec_time_cost(),
    {
        self.time_cost
    }

    /// Degree of parallelism.
    #[verifier::when_used_as_spec(spec_parallelism)]
    pub fn parallelism(&self) -> (r: u32)
        ensures
            r == self.spec_parallelism(),
    {
        self.parallelism
    }

    /// Digest length, in bytes.
    #[verifier::when_used_as_spec(spec_output_len)]
    pub fn output_len(&self) -> (r: usize)
        ensures
            r == self.spec_output_len(),
    {
        self.output_len
    }

    /// The text that the primitive gives for a password and a salt under the
    /// parameters of the engine, or nothing where it rejects them.
    pub open spec fn outcome(self, password: Seq<char>, salt: Seq<char>) -> Option<Seq<char>> {
        argon2id_phc(
            self.spec_memory_cost(),
            self.spec_time_cost(),
            self.spec_parallelism(),
            self.spec_output_len(),
            password,
            salt,
        )
    }

    /// Makes an engine of the cost parameters, where the primitive accepts
    /// them and the machine can hold their working memory.
    pub fn configure(memory_cost: u32, time_cost: u32, parallelism: u32, output_len: usize) -> (r:
        Result<HashingEngine, ErrorKind>)
        ensures
            match r {
                Ok(engine) => {
                    &&& params_usable(memory_cost, time_cost, parallelism, output_len)
                    &&& engine.wf()
                    &&& engine.spec_memory_cost() == memory_cost
                    &&& engine.spec_time_cost() == time_cost
                    &&& engine.spec_parallelism() == parallelism
                    &&& engine.spec_output_len() == output_len
                },
                Err(e) => {
                    &&& !params_usable(memory_cost, time_cost, parallelism, output_len)
                    &&& e is ParamError
                },
            },
    {
        if parallelism > MAX_PARALLELISM {
            return Err(ErrorKind::ParamError);
        }
        if memory_cost as u64 * BLOCK_BYTES > (usize::MAX / 2) as u64 {
            return Err(ErrorKind::ParamError);
        }
        match argon2::Params::new(memory_cost, time_cost, parallelism, Some(output_len)) {
            Ok(_) => Ok(HashingEngine { memory_cost, time_cost, parallelism, output_len }),
            Err(_) => Err(ErrorKind::ParamError),
        }
    }

    /// Hashes `password` under `salt` and wipes it, whether or not the hash
    /// was made: the buffer is left empty, with no byte in it but zero.
    pub fn hash(&self, password: &mut String, salt: Salt) -> (r: Result<HashRecord, ErrorKind>)
        ensures
            sealed(*self, salt, self.outcome(old(password)@, salt@), r),
            final(password)@ == Seq::<char>::empty(),
            is_erased(final(password)@),
    {
        let r = hash_password(self, password.as_str(), salt);
        password.zeroize();
        r
    }
}

/// The engine with the default cost parameters.
pub fn create_argon2() -> (engine: HashingEngine)
    ensures
        engine.wf(),
        engine.spec_memory_cost() == MEMORY_COST,
        engine.spec_time_cost() == TIME_COST,
        engine.spec_parallelism() == PARALLELISM,
        engine.spec_output_len() == OUTPUT_LEN,
{
    match HashingEngine::configure(MEMORY_COST, TIME_COST, PARALLELISM, OUTPUT_LEN) {
        Ok(engine) => engine,
        Err(_) => vstd::pervasive::unreached(),
    }
}

/// Hashes `password` under `salt` with the parameters of `engine`. The
/// record is the text that the primitive gives, once it has been checked to
/// embed these parameters and this salt.
pub fn hash_password(engine: &HashingEngine, password: &str, salt: Salt) -> (r: Result<
    HashRecord,
    ErrorKind,
>)
    ensures
        sealed(*engine, salt, engine.outcome(password@, salt@), r),
{
    proof {
        use_type_invariant(engine);
    }
    let outcome = argon2id_hash(
        engine.memory_cost,
        engine.time_cost,
        engine.parallelism,
        engine.output_len,
        password,
        salt.as_str(),
    );
    HashRecord::seal(engine, salt, outcome)
}

} // verus!
