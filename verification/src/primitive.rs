//! The Argon2 primitive: what this library takes on trust from the `argon2`
//! crate.

use vstd::prelude::*;
use argon2::password_hash::{PasswordHasher, SaltString};
use argon2::{Algorithm, Argon2, Params, Version};

verus! {

/// Smallest memory cost, in KiB.
pub const MIN_MEMORY_COST: u32 = 8;

/// Memory cost, in KiB, that each lane needs at least.
pub const MEMORY_PER_LANE: u32 = 8;

/// Smallest number of passes.
pub const MIN_TIME_COST: u32 = 1;

/// Smallest degree of parallelism.
pub const MIN_PARALLELISM: u32 = 1;

/// Largest degree of parallelism.
pub const MAX_PARALLELISM: u32 = 0xFF_FFFF;

/// Smallest digest length, in bytes.
pub const MIN_OUTPUT_LEN: usize = 4;

/// Largest digest length, in bytes.
pub const MAX_OUTPUT_LEN: u64 = 0xFFFF_FFFF;

/// Bytes of one block of the primitive's working memory.
pub const BLOCK_BYTES: u64 = 1024;

/// Whether a working memory of `memory_cost` blocks fits in one buffer.
pub open spec fn memory_addressable(memory_cost: u32) -> bool {
    memory_cost * BLOCK_BYTES <= usize::MAX / 2
}

/// The memory cost, number of passes and degree of parallelism that the
/// primitive accepts.
pub open spec fn costs_accepted(memory_cost: u32, time_cost: u32, parallelism: u32) -> bool {
    &&& memory_cost >= MIN_MEMORY_COST
    &&& memory_cost >= MEMORY_PER_LANE * parallelism
    &&& time_cost >= MIN_TIME_COST
    &&& MIN_PARALLELISM <= parallelism <= MAX_PARALLELISM
}

/// The cost parameters that the primitive accepts.
pub open spec fn params_accepted(
    memory_cost: u32,
    time_cost: u32,
    parallelism: u32,
    output_len: usize,
) -> bool {
    &&& costs_accepted(memory_cost, time_cost, parallelism)
    &&& MIN_OUTPUT_LEN <= output_len <= MAX_OUTPUT_LEN
}

/// The cost parameters that the primitive accepts, where the digest length
/// may be left to it.
pub open spec fn params_accepted_opt(
    memory_cost: u32,
    time_cost: u32,
    parallelism: u32,
    output_len: Option<usize>,
) -> bool {
    match output_len {
        Some(len) => params_accepted(memory_cost, time_cost, parallelism, len),
        None => costs_accepted(memory_cost, time_cost, parallelism),
    }
}

/// A parameter set of the primitive, carried as it is.
#[verifier::external_type_specification]
#[verifier::external_body]
pub struct ExParams(argon2::Params);

/// The primitive's refusal of a parameter set, carried as it is.
#[verifier::external_type_specification]
#[verifier::external_body]
pub struct ExParamsError(argon2::Error);

/// The primitive's refusal to hash, carried as it is.
#[verifier::external_type_specification]
#[verifier::external_body]
pub struct ExHashError(argon2::password_hash::Error);

/// `Params::new` checks the cost parameters and gives the parameter set
/// exactly when they lie in the accepted ranges. It multiplies the
/// parallelism by 8 in 32 bits before it looks at the parallelism's upper
/// limit, so a caller keeps that product in range.
pub assume_specification[ argon2::Params::new ](
    m_cost: u32,
    t_cost: u32,
    p_cost: u32,
    output_len: Option<usize>,
) -> (r: Result<argon2::Params, argon2::Error>)
    requires
        p_cost * 8 <= u32::MAX,
    ensures
        r is Ok <==> params_accepted_opt(m_cost, t_cost, p_cost, output_len),
;

/// The record that Argon2id, version 19, gives for a password and a salt
/// under the given cost parameters, or nothing where it rejects them.
pub uninterp spec fn argon2id_phc(
    memory_cost: u32,
    time_cost: u32,
    parallelism: u32,
    output_len: usize,
    password: Seq<char>,
    salt: Seq<char>,
) -> Option<Seq<char>>;

/// Builds an Argon2id context of version 19 from the cost parameters, has
/// `hash_password` hash the bytes of `password` under `salt`, and returns the
/// text of the record. The outcome is a function of the arguments alone. The
/// computation reserves its working memory, `memory_cost` blocks, as one
/// buffer, so a caller keeps that within what a buffer can hold.
#[verifier::external_body]
pub(crate) fn argon2id_hash(
    memory_cost: u32,
    time_cost: u32,
    parallelism: u32,
    output_len: usize,
    password: &str,
    salt: &str,
) -> (r: Result<String, argon2::password_hash::Error>)
    requires
        params_accepted(memory_cost, time_cost, parallelism, output_len),
        memory_addressable(memory_cost),
    ensures
        match r {
            Ok(text) => argon2id_phc(
                memory_cost,
                time_cost,
                parallelism,
                output_len,
                password@,
                salt@,
            ) == Some(text@),
            Err(_) => argon2id_phc(
                memory_cost,
                time_cost,
                parallelism,
                output_len,
                password@,
                salt@,
            ) is None,
        },
{
    let params = Params::new(memory_cost, time_cost, parallelism, Some(output_len))?;
    let salt = SaltString::from_b64(salt)?;
    let context = Argon2::new(Algorithm::Argon2id, Version::V0x13, params);
    Ok(context.hash_password(password.as_bytes(), &salt)?.to_string())
}

} // verus!
