use argon2::password_hash::{PasswordHash, PasswordVerifier};
use argon2::Argon2;
use password_batch::batch::{
    collect_all, collect_passwords, generate_batch, generate_passwords_using_rayon, hash_batch,
    hash_unit, run, MAX_BATCH_SIZE,
};
use password_batch::engine::{create_argon2, HashingEngine};
use password_batch::error::{ErrorKind, HashFault};
use password_batch::generator::{generate_password, GeneratedPassword};
use password_batch::policy::PasswordPolicy;
use password_batch::record::HashRecord;
use password_batch::salt::Salt;
use std::collections::HashSet;
use std::mem::size_of;

const POLICY: PasswordPolicy = PasswordPolicy {
    length: 16,
    include_numbers: true,
    include_lowercase: true,
    include_uppercase: true,
    include_symbols: true,
    exclude_similar_characters: true,
    strict: true,
};

fn hashing_error(salt: &str) -> ErrorKind {
    ErrorKind::HashingError { salt: Salt::parse(salt).unwrap(), cause: HashFault::Malformed }
}

#[test]
fn a_full_batch_fits_in_one_buffer() {
    assert!(size_of::<Result<GeneratedPassword, ErrorKind>>() <= 256);
    assert!(size_of::<Result<HashRecord, ErrorKind>>() <= 256);
    assert_eq!(MAX_BATCH_SIZE, usize::MAX / 512);
    assert!(MAX_BATCH_SIZE.checked_mul(256).unwrap() <= isize::MAX as usize);
}

#[test]
fn collect_all_keeps_every_item_in_order() {
    let units: Vec<Result<u32, ErrorKind>> = vec![Ok(3), Ok(1), Ok(2)];
    assert_eq!(collect_all(units).unwrap(), vec![3, 1, 2]);
    let none: Vec<Result<u32, ErrorKind>> = Vec::new();
    assert_eq!(collect_all(none).unwrap(), Vec::<u32>::new());
}

#[test]
fn collect_all_fails_on_a_single_failure() {
    let units: Vec<Result<u32, ErrorKind>> =
        vec![Ok(3), Ok(1), Err(ErrorKind::GenerationError), Ok(2)];
    assert!(matches!(collect_all(units), Err(ErrorKind::GenerationError)));
    let last: Vec<Result<u32, ErrorKind>> = vec![Ok(3), Err(ErrorKind::ParamError)];
    assert!(matches!(collect_all(last), Err(ErrorKind::ParamError)));
}

#[test]
fn collect_all_reports_the_first_failure() {
    let units: Vec<Result<u32, ErrorKind>> = vec![
        Ok(3),
        Err(hashing_error("first")),
        Err(ErrorKind::GenerationError),
        Ok(2),
        Err(hashing_error("third")),
    ];
    match collect_all(units) {
        Err(ErrorKind::HashingError { salt, .. }) => assert_eq!(salt.as_str(), "first"),
        _ => panic!("the first failure must be reported"),
    }
}

#[test]
fn collect_passwords_keeps_every_password_in_order() {
    let units = vec![
        Ok(GeneratedPassword { plaintext: String::from("one"), score_bits: 1 }),
        Ok(GeneratedPassword { plaintext: String::from("two"), score_bits: 2 }),
    ];
    let passwords = collect_passwords(units).unwrap();
    assert_eq!(passwords.len(), 2);
    assert_eq!(passwords[0].plaintext, "one");
    assert_eq!(passwords[0].score_bits, 1);
    assert_eq!(passwords[1].plaintext, "two");
    assert_eq!(passwords[1].score_bits, 2);
    assert!(collect_passwords(Vec::new()).unwrap().is_empty());
}

#[test]
fn collect_passwords_reports_the_first_failure() {
    let units = vec![
        Ok(GeneratedPassword { plaintext: String::from("one"), score_bits: 1 }),
        Err(hashing_error("first")),
        Ok(GeneratedPassword { plaintext: String::from("two"), score_bits: 2 }),
        Err(ErrorKind::GenerationError),
    ];
    match collect_passwords(units) {
        Err(ErrorKind::HashingError { salt, .. }) => assert_eq!(salt.as_str(), "first"),
        _ => panic!("the first failure must be reported"),
    }
}

#[test]
fn standard_batch_gives_distinct_scored_passwords() {
    let passwords = generate_passwords_using_rayon(16, 16).unwrap();
    assert_eq!(passwords.len(), 16);
    let distinct: HashSet<&str> = passwords.iter().map(|p| p.plaintext.as_str()).collect();
    assert_eq!(distinct.len(), 16);
    for password in &passwords {
        assert_eq!(password.plaintext.len(), 16);
        assert!(POLICY.accepts(&password.plaintext));
        assert!(f64::from_bits(password.score_bits) > 0.0);
    }
}

#[test]
fn standard_batch_hashes_to_verifiable_records() {
    let passwords = generate_passwords_using_rayon(16, 16).unwrap();
    let plain: Vec<String> = passwords.iter().map(|p| p.plaintext.clone()).collect();
    let distinct: HashSet<&str> = plain.iter().map(|p| p.as_str()).collect();
    assert_eq!(distinct.len(), 16);
    for password in &passwords {
        assert_eq!(password.plaintext.chars().count(), 16);
        assert!(f64::from_bits(password.score_bits) > 0.0);
    }
    let records = hash_batch(&create_argon2(), passwords).unwrap();
    assert_eq!(records.len(), 16);
    for (record, plaintext) in records.iter().zip(plain.iter()) {
        let parsed = PasswordHash::new(record.as_str()).unwrap();
        assert_eq!(parsed.algorithm.as_str(), "argon2id");
        assert!(Argon2::default().verify_password(plaintext.as_bytes(), &parsed).is_ok());
        assert!(Argon2::default().verify_password(b"another password", &parsed).is_err());
    }
}

#[test]
fn standard_batch_needs_room_for_four_classes() {
    assert!(matches!(generate_passwords_using_rayon(3, 3), Err(ErrorKind::GenerationError)));
    assert!(matches!(generate_passwords_using_rayon(1, 0), Err(ErrorKind::GenerationError)));
    assert_eq!(generate_passwords_using_rayon(5, 4).unwrap().len(), 5);
    assert!(generate_passwords_using_rayon(0, 3).unwrap().is_empty());
}

#[test]
fn generate_batch_follows_the_policy() {
    let digits = PasswordPolicy {
        length: 9,
        include_numbers: true,
        include_lowercase: false,
        include_uppercase: false,
        include_symbols: false,
        exclude_similar_characters: false,
        strict: false,
    };
    let passwords = generate_batch(12, &digits).unwrap();
    assert_eq!(passwords.len(), 12);
    for password in &passwords {
        assert_eq!(password.plaintext.len(), 9);
        assert!(password.plaintext.chars().all(|c| c.is_ascii_digit()));
    }
    let empty = PasswordPolicy { include_numbers: false, ..digits };
    assert!(matches!(generate_batch(12, &empty), Err(ErrorKind::GenerationError)));
    assert!(generate_batch(0, &empty).unwrap().is_empty());
}

#[test]
fn hash_unit_hashes_under_a_fresh_salt() {
    let engine = create_argon2();
    let password = generate_password(&POLICY).unwrap();
    let plaintext = password.plaintext.clone();
    let record = hash_unit(&engine, password).unwrap();
    assert_eq!(record.salt().as_str().len(), 22);
    let parsed = PasswordHash::new(record.as_str()).unwrap();
    assert!(Argon2::default().verify_password(plaintext.as_bytes(), &parsed).is_ok());
}

#[test]
fn hash_batch_keeps_the_order_of_the_passwords() {
    let engine = create_argon2();
    let passwords = generate_batch(8, &POLICY).unwrap();
    let plain: Vec<String> = passwords.iter().map(|p| p.plaintext.clone()).collect();
    let records = hash_batch(&engine, passwords).unwrap();
    assert_eq!(records.len(), 8);
    for (record, plaintext) in records.iter().zip(plain.iter()) {
        let parsed = PasswordHash::new(record.as_str()).unwrap();
        assert!(Argon2::default().verify_password(plaintext.as_bytes(), &parsed).is_ok());
    }
    assert!(hash_batch(&engine, Vec::new()).unwrap().is_empty());
}

#[test]
fn hash_batch_fails_as_a_whole() {
    let engine = HashingEngine::configure(50, 2, 2, 4).unwrap();
    let passwords = generate_batch(4, &POLICY).unwrap();
    assert!(matches!(
        hash_batch(&engine, passwords),
        Err(ErrorKind::HashingError { cause: HashFault::Rejected(_), .. })
    ));
}

#[test]
fn run_gives_one_record_for_each_unit() {
    let engine = create_argon2();
    let records = run(16, &POLICY, &engine).unwrap();
    assert_eq!(records.len(), 16);
    let mut salts = HashSet::new();
    let mut texts = HashSet::new();
    for record in &records {
        assert!(record.as_str().starts_with("$argon2id$v=19$m=50,t=2,p=2$"));
        assert!(PasswordHash::new(record.as_str()).is_ok());
        assert_eq!(record.memory_cost(), 50);
        assert_eq!(record.time_cost(), 2);
        assert_eq!(record.parallelism(), 2);
        assert_eq!(record.output_len(), 32);
        salts.insert(record.salt().as_str().to_string());
        texts.insert(record.as_str().to_string());
    }
    assert_eq!(salts.len(), 16);
    assert_eq!(texts.len(), 16);
}

#[test]
fn run_of_no_unit_gives_no_record() {
    let engine = create_argon2();
    assert!(run(0, &POLICY, &engine).unwrap().is_empty());
    let unsatisfiable = PasswordPolicy { length: 0, ..POLICY };
    assert!(run(0, &unsatisfiable, &engine).unwrap().is_empty());
}

#[test]
fn run_fails_on_a_policy_that_cannot_be_met() {
    let engine = create_argon2();
    let unsatisfiable = PasswordPolicy { length: 2, ..POLICY };
    assert!(matches!(run(16, &unsatisfiable, &engine), Err(ErrorKind::GenerationError)));
}

#[test]
fn run_fails_when_hashing_fails() {
    let engine = HashingEngine::configure(50, 2, 2, 70).unwrap();
    assert!(matches!(run(4, &POLICY, &engine), Err(ErrorKind::HashingError { .. })));
}
