//! Batches: many independent units of work, all or nothing.

use vstd::prelude::*;
use crate::engine::HashingEngine;
use crate::erase::{erase_all, is_erased};
use crate::error::ErrorKind;
use crate::generator::{generate_password, generated, GeneratedPassword};
use crate::policy::{PasswordPolicy, MAX_LENGTH};
use crate::record::{sealed, HashRecord};
use crate::salt::{is_fresh_salt_text, Salt};
use rayon::iter::{IntoParallelIterator, ParallelIterator};
use zeroize::Zeroize;

verus! {

/// Most units of a batch. The outcomes of a stage stand side by side in one
/// buffer, and none takes more than 256 bytes of it.
pub const MAX_BATCH_SIZE: usize = usize::MAX / 512;

/// Whether `i` is the place of the first failed unit.
pub open spec fn is_first_failure<T>(units: Seq<Result<T, ErrorKind>>, i: int) -> bool {
    &&& 0 <= i < units.len()
    &&& units[i] is Err
    &&& forall|j: int| 0 <= j < i ==> (#[trigger] units[j]) is Ok
}

/// What a batch makes of its units: where all succeeded, what they gave, in
/// their order; else the failure of the first unit that failed, and nothing
/// of the others.
pub open spec fn gathered<T>(units: Seq<Result<T, ErrorKind>>, r: Result<Vec<T>, ErrorKind>) -> bool {
    match r {
        Ok(items) => {
            &&& items@.len() == units.len()
            &&& forall|i: int|
                0 <= i < units.len() ==> #[trigger] units[i] == Ok::<T, ErrorKind>(items@[i])
        },
        Err(e) => exists|i: int|
            is_first_failure(units, i) && #[trigger] units[i] == Err::<T, ErrorKind>(e),
    }
}

/// A batch whose units all succeeded yields what each of them gave: as many
/// items as there were units.
pub proof fn lemma_gathered_success<T>(units: Seq<Result<T, ErrorKind>>, r: Result<Vec<T>, ErrorKind>)
    requires
        gathered(units, r),
        forall|i: int| 0 <= i < units.len() ==> (#[trigger] units[i]) is Ok,
    ensures
        r is Ok,
        r->Ok_0@.len() == units.len(),
{
}

/// A batch with a failed unit fails as a whole and yields no item.
pub proof fn lemma_gathered_failure<T>(
    units: Seq<Result<T, ErrorKind>>,
    r: Result<Vec<T>, ErrorKind>,
    k: int,
)
    requires
        gathered(units, r),
        0 <= k < units.len(),
        units[k] is Err,
    ensures
        r is Err,
{
}

/// Gathers what the units of a batch gave, or the first failure among them.
pub fn collect_all<T>(units: Vec<Result<T, ErrorKind>>) -> (r: Result<Vec<T>, ErrorKind>)
    ensures
        gathered(units@, r),
{
    let mut items: Vec<T> = Vec::new();
    for unit in it: units
        invariant
            it.seq() == units@,
            items@.len() == it.index(),
            forall|i: int|
                0 <= i < it.index() ==> #[trigger] units@[i] == Ok::<T, ErrorKind>(items@[i]),
    {
        match unit {
            Ok(item) => {
                items.push(item);
            },
            Err(e) => {
                proof {
                    assert(is_first_failure(units@, it.index() as int));
                }
                return Err(e);
            },
        }
    }
    Ok(items)
}

/// Gathers the passwords of a generation stage, or its first failure. On a
/// failure every password that was generated is wiped before it is let go.
pub fn collect_passwords(units: Vec<Result<GeneratedPassword, ErrorKind>>) -> (r: Result<
    Vec<GeneratedPassword>,
    ErrorKind,
>)
    ensures
        gathered(units@, r),
{
    let mut passwords: Vec<GeneratedPassword> = Vec::new();
    let mut failure: Option<ErrorKind> = None;
    for unit in it: units
        invariant
            it.seq() == units@,
            match failure {
                Some(e) => {
                    &&& exists|i: int|
                        i < it.index() && is_first_failure(units@, i) && #[trigger] units@[i]
                            == Err::<GeneratedPassword, ErrorKind>(e)
                    &&& forall|i: int|
                        0 <= i < passwords@.len() ==> is_erased(
                            (#[trigger] passwords@[i]).plaintext@,
                        )
                },
                None => {
                    &&& passwords@.len() == it.index()
                    &&& forall|i: int|
                        0 <= i < it.index() ==> #[trigger] units@[i] == Ok::<
                            GeneratedPassword,
                            ErrorKind,
                        >(passwords@[i])
                },
            },
    {
        match unit {
            Ok(password) => {
                if failure.is_none() {
                    passwords.push(password);
                } else {
                    let mut late = password;
                    late.plaintext.zeroize();
                    assert(is_erased(late.plaintext@));
                }
            },
            Err(e) => {
                if failure.is_none() {
                    proof {
                        assert(is_first_failure(units@, it.index() as int));
                    }
                    failure = Some(e);
                    erase_all(&mut passwords);
                }
            },
        }
    }
    match failure {
        Some(e) => Err(e),
        None => Ok(passwords),
    }
}

/// What hashing one password under a fresh salt gives: for some salt that
/// could have been drawn, what sealing makes of the primitive's outcome.
pub open spec fn hashed(
    engine: HashingEngine,
    password: GeneratedPassword,
    r: Result<HashRecord, ErrorKind>,
) -> bool {
    exists|salt: Salt|
        is_fresh_salt_text(salt@) && #[trigger] sealed(
            engine,
            salt,
            engine.outcome(password.plaintext@, salt@),
            r,
        )
}

/// Hashes one password under a fresh salt and wipes it.
pub fn hash_unit(engine: &HashingEngine, password: GeneratedPassword) -> (r: Result<
    HashRecord,
    ErrorKind,
>)
    ensures
        hashed(*engine, password, r),
{
    let mut plaintext = password.plaintext;
    let salt = Salt::generate();
    let r = engine.hash(&mut plaintext, salt);
    assert(is_erased(plaintext@));
    assert(sealed(*engine, salt, engine.outcome(password.plaintext@, salt@), r));
    r
}

/// Hands `count` generations for `policy` to rayon's worker pool with
/// `into_par_iter`, `map` and `collect`, which returns what each gave, one
/// entry for each, in the order of the units. `collect` reserves the buffer
/// for all entries at once, so a caller keeps the count within the limit.
#[verifier::external_body]
fn generate_in_parallel(count: usize, policy: &PasswordPolicy) -> (units: Vec<
    Result<GeneratedPassword, ErrorKind>,
>)
    requires
        count <= MAX_BATCH_SIZE,
    ensures
        units@.len() == count,
        forall|i: int| 0 <= i < units@.len() ==> generated(*policy, #[trigger] units@[i]),
{
    (0..count).into_par_iter().map(|_| generate_password(policy)).collect()
}

/// Hands the hashing of each password to rayon's worker pool with
/// `into_par_iter`, `map` and `collect`, which returns what each gave, one
/// entry for each password, in the order of the passwords. `collect`
/// reserves the buffer for all entries at once, so a caller keeps their
/// number within the limit.
#[verifier::external_body]
fn hash_in_parallel(engine: &HashingEngine, passwords: Vec<GeneratedPassword>) -> (units: Vec<
    Result<HashRecord, ErrorKind>,
>)
    requires
        passwords@.len() <= MAX_BATCH_SIZE,
    ensures
        units@.len() == passwords@.len(),
        forall|i: int|
            0 <= i < units@.len() ==> hashed(*engine, passwords@[i], #[trigger] units@[i]),
{
    passwords.into_par_iter().map(|password| hash_unit(engine, password)).collect()
}

/// What a generation stage of `count` units gives: what gathering makes of
/// some outcome of each unit.
pub open spec fn generation_stage(
    count: usize,
    policy: PasswordPolicy,
    r: Result<Vec<GeneratedPassword>, ErrorKind>,
) -> bool {
    exists|units: Seq<Result<GeneratedPassword, ErrorKind>>|
        {
            &&& units.len() == count
            &&& forall|i: int| 0 <= i < units.len() ==> generated(policy, #[trigger] units[i])
            &&& #[trigger] gathered(units, r)
        }
}

/// What a hashing stage gives: what gathering makes of some outcome of each
/// unit, the units standing in the order of the passwords.
pub open spec fn hashing_stage(
    engine: HashingEngine,
    passwords: Seq<GeneratedPassword>,
    r: Result<Vec<HashRecord>, ErrorKind>,
) -> bool {
    exists|units: Seq<Result<HashRecord, ErrorKind>>|
        {
            &&& units.len() == passwords.len()
            &&& forall|i: int|
                0 <= i < units.len() ==> hashed(engine, passwords[i], #[trigger] units[i])
            &&& #[trigger] gathered(units, r)
        }
}

/// Generates `count` passwords for `policy`, each scored, the units running
/// side by side. One failed unit fails the stage.
pub fn generate_batch(count: usize, policy: &PasswordPolicy) -> (r: Result<
    Vec<GeneratedPassword>,
    ErrorKind,
>)
    requires
        count <= MAX_BATCH_SIZE,
    ensures
        generation_stage(count, *policy, r),
        r is Ok <==> count == 0 || policy.satisfiable(),
        r matches Ok(passwords) ==> {
            &&& passwords@.len() == count
            &&& forall|i: int|
                0 <= i < passwords@.len() ==> (#[trigger] passwords@[i]).meets(*policy)
        },
        r matches Err(e) ==> e is GenerationError,
{
    let units = generate_in_parallel(count, policy);
    let r = collect_passwords(units);
    proof {
        if r is Ok {
            let passwords = r->Ok_0;
            assert forall|i: int| 0 <= i < passwords@.len() implies (
            #[trigger] passwords@[i]).meets(*policy) by {
                assert(units@[i] == Ok::<GeneratedPassword, ErrorKind>(passwords@[i]));
                assert(generated(*policy, units@[i]));
            }
            if count > 0 {
                assert(generated(*policy, units@[0]));
            }
        } else {
            let e = r->Err_0;
            let i = choose|i: int|
                is_first_failure(units@, i) && #[trigger] units@[i] == Err::<
                    GeneratedPassword,
                    ErrorKind,
                >(e);
            assert(generated(*policy, units@[i]));
        }
    }
    r
}

/// The policy of the standard batch: every class enabled, the ambiguous
/// characters left out, and each class owed at least once.
pub open spec fn standard_policy(length: usize) -> PasswordPolicy {
    PasswordPolicy {
        length,
        include_numbers: true,
        include_lowercase: true,
        include_uppercase: true,
        include_symbols: true,
        exclude_similar_characters: true,
        strict: true,
    }
}

/// Generates `number_of_passwords` passwords of `length` characters under
/// the standard policy, the units running side by side.
pub fn generate_passwords_using_rayon(number_of_passwords: usize, length: usize) -> (r: Result<
    Vec<GeneratedPassword>,
    ErrorKind,
>)
    requires
        number_of_passwords <= MAX_BATCH_SIZE,
    ensures
        generation_stage(number_of_passwords, standard_policy(length), r),
        r is Ok <==> number_of_passwords == 0 || 4 <= length <= MAX_LENGTH,
        r matches Ok(passwords) ==> {
            &&& passwords@.len() == number_of_passwords
            &&& forall|i: int|
                0 <= i < passwords@.len() ==> (#[trigger] passwords@[i]).meets(
                    standard_policy(length),
                )
        },
        r matches Err(e) ==> e is GenerationError,
{
    let policy = PasswordPolicy {
        length,
        include_numbers: true,
        include_lowercase: true,
        include_uppercase: true,
        include_symbols: true,
        exclude_similar_characters: true,
        strict: true,
    };
    generate_batch(number_of_passwords, &policy)
}

/// Hashes each password under a salt of its own, the units running side by
/// side, and wipes each password once its unit is done. One failed unit
/// fails the stage.
pub fn hash_batch(engine: &HashingEngine, passwords: Vec<GeneratedPassword>) -> (r: Result<
    Vec<HashRecord>,
    ErrorKind,
>)
    requires
        passwords@.len() <= MAX_BATCH_SIZE,
    ensures
        hashing_stage(*engine, passwords@, r),
        r matches Ok(records) ==> {
            &&& records@.len() == passwords@.len()
            &&& forall|i: int|
                0 <= i < records@.len() ==> hashed(
                    *engine,
                    passwords@[i],
                    Ok::<HashRecord, ErrorKind>(#[trigger] records@[i]),
                )
        },
        r matches Err(e) ==> e is HashingError,
{
    let units = hash_in_parallel(engine, passwords);
    let r = collect_all(units);
    proof {
        if r is Ok {
            let records = r->Ok_0;
            assert forall|i: int| 0 <= i < records@.len() implies hashed(
                *engine,
                passwords@[i],
                Ok::<HashRecord, ErrorKind>(#[trigger] records@[i]),
            ) by {
                assert(units@[i] == Ok::<HashRecord, ErrorKind>(records@[i]));
            }
        } else {
            let e = r->Err_0;
            let i = choose|i: int|
                is_first_failure(units@, i) && #[trigger] units@[i] == Err::<
                    HashRecord,
                    ErrorKind,
                >(e);
            assert(hashed(*engine, passwords@[i], units@[i]));
        }
    }
    r
}

/// Whether `record` is one that `engine` made under a fresh salt.
pub open spec fn made_by(engine: HashingEngine, record: HashRecord) -> bool {
    &&& record.wf()
    &&& record.spec_memory_cost() == engine.spec_memory_cost()
    &&& record.spec_time_cost() == engine.spec_time_cost()
    &&& record.spec_parallelism() == engine.spec_parallelism()
    &&& record.spec_output_len() == engine.spec_output_len()
    &&& is_fresh_salt_text(record.spec_salt())
}

/// What a run gives: the failure of its generation stage, or what the
/// hashing stage makes of the passwords that were generated.
pub open spec fn batch_outcome(
    batch_size: usize,
    policy: PasswordPolicy,
    engine: HashingEngine,
    r: Result<Vec<HashRecord>, ErrorKind>,
) -> bool {
    exists|stage: Result<Vec<GeneratedPassword>, ErrorKind>|
        {
            &&& #[trigger] generation_stage(batch_size, policy, stage)
            &&& match stage {
                Ok(passwords) => hashing_stage(engine, passwords@, r),
                Err(e) => r == Err::<Vec<HashRecord>, ErrorKind>(e),
            }
        }
}

/// Runs a batch: generates `batch_size` passwords for `policy`, then hashes
/// each with `engine` under a salt of its own and wipes it. The records come
/// all or not at all: the first failed unit of a stage fails the run, and no
/// hashing is begun after a failed generation.
pub fn run(batch_size: usize, policy: &PasswordPolicy, engine: &HashingEngine) -> (r: Result<
    Vec<HashRecord>,
    ErrorKind,
>)
    requires
        batch_size <= MAX_BATCH_SIZE,
    ensures
        batch_outcome(batch_size, *policy, *engine, r),
        batch_size > 0 && !policy.satisfiable() ==> r is Err,
        batch_size == 0 ==> r is Ok,
        r matches Ok(records) ==> {
            &&& records@.len() == batch_size
            &&& forall|i: int| 0 <= i < records@.len() ==> made_by(*engine, #[trigger] records@[i])
        },
        r matches Err(e) ==> {
            &&& batch_size > 0
            &&& if policy.satisfiable() {
                e is HashingError
            } else {
                e is GenerationError
            }
        },
{
    let stage = generate_batch(batch_size, policy);
    let ghost generation = stage;
    match stage {
        Ok(passwords) => {
            let ghost plain = passwords@;
            let r = hash_batch(engine, passwords);
            proof {
                assert(generation_stage(batch_size, *policy, generation));
                if r is Ok {
                    let records = r->Ok_0;
                    assert forall|i: int| 0 <= i < records@.len() implies made_by(
                        *engine,
                        #[trigger] records@[i],
                    ) by {
                        assert(hashed(*engine, plain[i], Ok::<HashRecord, ErrorKind>(records@[i])));
                    }
                }
            }
            r
        },
        Err(e) => {
            assert(generation_stage(batch_size, *policy, generation));
            Err(e)
        },
    }
}

} // verus!
