//! Credentials: verifying a password against a stored hash and hashing a
//! new password.

use vstd::prelude::*;
use vstd::utf8::encode_utf8;
use crate::entities::UserView;
use crate::store::{
    has_user, has_username, user_named, user_with_id, users_consistent, with_password_hash, Users,
};
use crate::text::{
    chain_text, chars_of, decimal, error_chain_fmt, one_cause, push_cause, transparent_report,
    transparent_text,
};

pub mod basic;
pub mod middleware;

pub use crate::authentication::basic::{
    basic_authentication, basic_credentials, AuthorizationHeader, BasicAuthError,
};
pub use crate::authentication::middleware::reject_anonymous_users;

verus! {

/// Why credentials were not accepted. Each kind carries the messages of
/// its causes, outermost first, for the log only.
#[derive(Debug)]
pub enum AuthError {
    /// Wrong password or unknown user: safe to report as such.
    InvalidCredentials(Vec<String>),
    /// An internal fault.
    UnexpectedError(Vec<String>),
}

/// A user name and a candidate password.
pub struct Credentials {
    pub username: String,
    pub password: String,
}

/// The identity of an account.
#[derive(Clone, Copy, Debug, PartialEq, Eq, Structural)]
pub struct UserId(pub u128);

/// What is stored for an account: its identity and its password hash.
pub struct StoredCredentials {
    pub user_id: UserId,
    pub password_hash: String,
}

/// What Argon2 makes of a password and a hash in PHC string format:
/// `None` where the hash is no PHC string, else whether Argon2, run with
/// the parameters and the salt that the hash names, gives the hash's
/// output for the password.
pub uninterp spec fn argon2_check(hash: Seq<char>, password: Seq<u8>) -> Option<bool>;

/// Whether `c` is a decimal digit.
pub open spec fn is_decimal_digit(c: char) -> bool {
    '0' <= c <= '9'
}

/// Whether nine decimal digits stand in `text` from `at` on.
pub open spec fn nine_digits_at(text: Seq<char>, at: int) -> bool {
    at + 9 <= text.len() && forall|k: int|
        0 <= k < 9 ==> is_decimal_digit(#[trigger] text[at + k])
}

/// Whether `text` names a degree of parallelism of nine digits or more
/// at `at`: `p=` stands there, followed by nine decimal digits.
pub open spec fn overlong_lanes_at(text: Seq<char>, at: int) -> bool {
    &&& 0 <= at
    &&& at + 1 < text.len()
    &&& text[at] == 'p'
    &&& text[at + 1] == '='
    &&& nine_digits_at(text, at + 2)
}

/// Whether every degree of parallelism that `hash` names has at most
/// eight digits, which is all that Argon2 can take: its degrees end at
/// 16777215.
pub open spec fn lanes_fit(hash: Seq<char>) -> bool {
    forall|at: int| 0 <= at < hash.len() ==> !#[trigger] overlong_lanes_at(hash, at)
}

/// The outcome of checking a password against a stored hash: `None` for
/// a hash that names a degree of parallelism beyond what Argon2 can take
/// or that is no PHC string, else whether the hash accepts the password.
pub open spec fn password_check(hash: Seq<char>, password: Seq<u8>) -> Option<bool> {
    if lanes_fit(hash) {
        argon2_check(hash, password)
    } else {
        None
    }
}

/// Decides whether every degree of parallelism that the hash names has
/// at most eight digits.
pub fn lanes_in_bounds(hash: &str) -> (fit: bool)
    ensures
        fit == lanes_fit(hash@),
{
    let chars = chars_of(hash);
    let n = chars.len();
    let mut i: usize = 0;
    while i < n
        invariant
            n == chars@.len(),
            chars@ == hash@,
            i <= n,
            forall|at: int| 0 <= at < i ==> !#[trigger] overlong_lanes_at(hash@, at),
        decreases n - i,
    {
        if chars[i] == 'p' && i + 1 < n && chars[i + 1] == '=' {
            let rest = n - (i + 2);
            let mut k: usize = 0;
            while k < 9 && k < rest && '0' <= chars[i + 2 + k] && chars[i + 2 + k] <= '9'
                invariant
                    n == chars@.len(),
                    chars@ == hash@,
                    i + 2 <= n,
                    rest == n - (i + 2),
                    k <= 9,
                    k <= rest,
                    forall|m: int| 0 <= m < k ==> is_decimal_digit(#[trigger] hash@[i + 2 + m]),
                decreases 9 - k,
            {
                k += 1;
            }
            if k == 9 {
                assert(overlong_lanes_at(hash@, i as int));
                return false;
            }
            assert(!nine_digits_at(hash@, i + 2)) by {
                if nine_digits_at(hash@, i + 2) {
                    assert(is_decimal_digit(hash@[i + 2 + k]));
                }
            }
        }
        i += 1;
    }
    true
}

/// Calls `argon2::PasswordHash::new` on the hash and, where that parses,
/// `verify_password` of `argon2::Argon2::default()` on the password and
/// the parsed hash. Both are functions of their arguments. The crate
/// multiplies the degree of parallelism that the hash names by eight in
/// 32 bits, so a hash that names nine digits or more is kept away.
#[verifier::external_body]
fn check_password(hash: &str, password: &[u8]) -> (outcome: Option<bool>)
    requires
        lanes_fit(hash@),
    ensures
        outcome == argon2_check(hash@, password@),
{
    match argon2::PasswordHash::new(hash) {
        Err(_) => None,
        Ok(parsed) => Some(
            argon2::PasswordVerifier::verify_password(
                &argon2::Argon2::default(),
                password,
                &parsed,
            ).is_ok(),
        ),
    }
}

/// A variant of Argon2.
#[derive(Clone, Copy, Debug, PartialEq, Eq, Structural)]
pub enum Algorithm {
    Argon2d,
    Argon2i,
    Argon2id,
}

/// The name of a variant in a PHC string.
pub open spec fn algorithm_name(algorithm: Algorithm) -> Seq<char> {
    match algorithm {
        Algorithm::Argon2d => "argon2d"@,
        Algorithm::Argon2i => "argon2i"@,
        Algorithm::Argon2id => "argon2id"@,
    }
}

/// How a PHC string starts that was made by the given variant, in version
/// 0x13, with the given costs: the variant, the version, and the three
/// costs in decimal, each part after a `$`.
pub open spec fn phc_header(algorithm: Algorithm, memory_kib: u32, passes: u32, lanes: u32) -> Seq<
    char,
> {
    "$"@ + algorithm_name(algorithm) + "$v=19$m="@ + decimal(memory_kib as nat) + ",t="@ + decimal(
        passes as nat,
    ) + ",p="@ + decimal(lanes as nat) + "$"@
}

/// The costs that Argon2 takes: at least one pass, between 1 and
/// 16777215 lanes, and at least eight KiB of memory for each lane.
pub open spec fn costs_in_range(memory_kib: u32, passes: u32, lanes: u32) -> bool {
    &&& 1 <= passes
    &&& 1 <= lanes <= 0xff_ffff
    &&& 8 * lanes <= memory_kib
}

/// Calls `hash_password` of an `argon2::Argon2` built for the given
/// variant, version 0x13 and the given costs, with a salt from
/// `SaltString::generate` on `rand::thread_rng()`. With costs in range
/// the crate refuses only a password of more than `u32::MAX` bytes. The
/// salt is random, so the hash differs from call to call; whatever comes
/// back is a PHC string that names the variant, the version and the
/// costs, holds no `=` after them, and is accepted by the crate for the
/// same password.
#[verifier::external_body]
fn argon2_hash(
    algorithm: Algorithm,
    password: &[u8],
    memory_kib: u32,
    passes: u32,
    lanes: u32,
) -> (hash: Option<String>)
    requires
        costs_in_range(memory_kib, passes, lanes),
    ensures
        password@.len() <= u32::MAX ==> hash is Some,
        hash matches Some(h) ==> lanes_fit(h@) && argon2_check(h@, password@) == Some(true)
            && phc_header(algorithm, memory_kib, passes, lanes).is_prefix_of(h@),
{
    let variant = match algorithm {
        Algorithm::Argon2d => argon2::Algorithm::Argon2d,
        Algorithm::Argon2i => argon2::Algorithm::Argon2i,
        Algorithm::Argon2id => argon2::Algorithm::Argon2id,
    };
    let salt = argon2::password_hash::SaltString::generate(&mut rand::thread_rng());
    let params = argon2::Params::new(memory_kib, passes, lanes, None).ok()?;
    let hasher = argon2::Argon2::new(variant, argon2::Version::V0x13, params);
    let hash = argon2::PasswordHasher::hash_password(&hasher, password, &salt).ok()?;
    Some(hash.to_string())
}

/// The header of every new hash: Argon2i with the fixed costs.
pub open spec fn new_hash_header() -> Seq<char> {
    phc_header(Algorithm::Argon2i, MEMORY_COST, TIME_COST, PARALLELISM)
}

/// Memory cost of a new hash, in KiB.
pub const MEMORY_COST: u32 = 15000;

/// Number of passes of a new hash.
pub const TIME_COST: u32 = 2;

/// Degree of parallelism of a new hash.
pub const PARALLELISM: u32 = 1;

/// The shortest password that may be set.
pub const MIN_PASSWORD_LENGTH: usize = 12;

/// The hash that a password is checked against where the user is unknown,
/// so that the check costs the same whether or not the user exists.
pub const REFERENCE_HASH: &'static str =
    "$argon2id$v=19$m=15000,t=2,p=1$gZiV/M1gPc22ElAH/Jh1Hw$CWOrkoo7oJBQ/iyh7uJ0LO2aLEfrHwTWllSAxT0zRno";

/// The reference hash as text.
pub open spec fn reference_hash() -> Seq<char> {
    REFERENCE_HASH@
}

/// What a password check means for the caller.
pub open spec fn hash_outcome(check: Option<bool>) -> Result<(), Seq<Seq<char>>> {
    match check {
        None => Err(seq!["Failed to parse hash in PHC string format."@]),
        Some(false) => Err(seq!["Invalid password."@]),
        Some(true) => Ok(()),
    }
}

/// The report of an authentication error for the log.
pub open spec fn auth_error_text(e: AuthError) -> Seq<char> {
    match e {
        AuthError::InvalidCredentials(causes) => chain_text(
            "Invalid credentials."@,
            causes.deep_view(),
        ),
        AuthError::UnexpectedError(causes) => transparent_text(causes.deep_view()),
    }
}

impl AuthError {
    /// The report of the error for the log: its message and its causes.
    pub fn report(&self) -> (report: String)
        ensures
            report@ == auth_error_text(*self),
    {
        match self {
            AuthError::InvalidCredentials(causes) => error_chain_fmt("Invalid credentials.", causes),
            AuthError::UnexpectedError(causes) => transparent_report(causes),
        }
    }

    /// The messages of the causes, outermost first.
    pub open spec fn causes(self) -> Seq<Seq<char>> {
        match self {
            AuthError::InvalidCredentials(causes) => causes.deep_view(),
            AuthError::UnexpectedError(causes) => causes.deep_view(),
        }
    }
}

/// Whether the outcome is the error for invalid credentials.
pub open spec fn rejects_as_invalid<T>(outcome: Result<T, AuthError>) -> bool {
    outcome is Err && outcome->Err_0 is InvalidCredentials
}

/// Whether the outcome is the error for an internal fault.
pub open spec fn rejects_as_fault<T>(outcome: Result<T, AuthError>) -> bool {
    outcome is Err && outcome->Err_0 is UnexpectedError
}

/// Checks a password against a stored hash, after making sure that the
/// hash names no degree of parallelism beyond what Argon2 can take.
fn guarded_check(hash: &str, password: &[u8]) -> (outcome: Option<bool>)
    ensures
        outcome == password_check(hash@, password@),
{
    if lanes_in_bounds(hash) {
        check_password(hash, password)
    } else {
        None
    }
}

/// Turns the outcome of a password check into a result: a hash that is
/// no PHC string is an internal fault, a password that the hash does not
/// accept is invalid credentials.
pub fn password_outcome(check: Option<bool>) -> (outcome: Result<(), AuthError>)
    ensures
        check == Some(true) <==> outcome is Ok,
        check == Some(false) <==> rejects_as_invalid(outcome),
        check is None <==> rejects_as_fault(outcome),
        outcome matches Err(e) ==> Err::<(), Seq<Seq<char>>>(e.causes()) == hash_outcome(check),
{
    match check {
        None => Err(
            AuthError::UnexpectedError(one_cause("Failed to parse hash in PHC string format.")),
        ),
        Some(false) => Err(AuthError::InvalidCredentials(one_cause("Invalid password."))),
        Some(true) => Ok(()),
    }
}

/// Checks a candidate password against a hash in PHC string format.
pub fn verify_password_hash(expected_password_hash: &str, password_candidate: &str) -> (outcome:
    Result<(), AuthError>)
    ensures
        ({
            let check = password_check(expected_password_hash@, encode_utf8(password_candidate@));
            &&& check == Some(true) <==> outcome is Ok
            &&& check == Some(false) <==> rejects_as_invalid(outcome)
            &&& check is None <==> rejects_as_fault(outcome)
            &&& outcome matches Err(e) ==> Err::<(), Seq<Seq<char>>>(e.causes()) == hash_outcome(
                check,
            )
        }),
{
    password_outcome(guarded_check(expected_password_hash, password_candidate.as_bytes()))
}

/// The hash that a candidate password is checked against: the stored one
/// where the user exists, the reference hash where not.
pub open spec fn expected_hash(stored: Option<StoredCredentials>) -> Seq<char> {
    match stored {
        Some(found) => found.password_hash@,
        None => reference_hash(),
    }
}

/// The causes of a rejection, for the log: what the password check found,
/// or that the user is unknown.
pub open spec fn rejection_causes(check: Option<bool>) -> Seq<Seq<char>> {
    match hash_outcome(check) {
        Err(causes) => causes,
        Ok(()) => seq!["Unknown username."@],
    }
}

/// Decides whether credentials are accepted, from the outcome of the
/// password check and from whether the user exists: the user's identity
/// exactly if the user exists and the check accepted the password.
pub fn credential_outcome(check: Option<bool>, user_id: Option<UserId>) -> (outcome: Result<
    UserId,
    AuthError,
>)
    ensures
        check is None <==> rejects_as_fault(outcome),
        (check == Some(true) && user_id is Some) <==> outcome is Ok,
        outcome is Ok ==> Some(outcome->Ok_0) == user_id,
        (check == Some(false) || (check == Some(true) && user_id is None)) <==> rejects_as_invalid(
            outcome,
        ),
        outcome is Err ==> outcome->Err_0.causes() == rejection_causes(check),
{
    match password_outcome(check) {
        Err(e) => Err(e),
        Ok(()) => match user_id {
            Some(id) => Ok(id),
            None => Err(AuthError::InvalidCredentials(one_cause("Unknown username."))),
        },
    }
}

/// Validates credentials against what the lookup of the user name gave:
/// the stored credentials, nothing for an unknown user, or the message of
/// a storage fault. A password is checked in every case but the last, for
/// an unknown user against the reference hash, and an unknown user is
/// rejected like a wrong password.
pub fn validate_credentials(
    credentials: Credentials,
    lookup: Result<Option<StoredCredentials>, String>,
) -> (outcome: Result<UserId, AuthError>)
    ensures
        lookup is Err ==> rejects_as_fault(outcome),
        lookup is Ok ==> ({
            let stored = lookup->Ok_0;
            let check = password_check(expected_hash(stored), encode_utf8(credentials.password@));
            &&& check is None <==> rejects_as_fault(outcome)
            &&& (check == Some(true) && stored is Some) <==> outcome is Ok
            &&& outcome is Ok ==> outcome->Ok_0 == stored->Some_0.user_id
            &&& (check == Some(false) || (check == Some(true) && stored is None))
                <==> rejects_as_invalid(outcome)
            &&& outcome is Err ==> outcome->Err_0.causes() == rejection_causes(check)
        }),
        lookup is Err ==> outcome->Err_0.causes() == seq![
            "Failed to perform a query to validate auth credentials."@,
            lookup->Err_0@,
        ],
{
    match lookup {
        Err(fault) => {
            let mut causes = one_cause("Failed to perform a query to validate auth credentials.");
            push_cause(&mut causes, fault);
            Err(AuthError::UnexpectedError(causes))
        },
        Ok(None) => {
            let check = guarded_check(REFERENCE_HASH, credentials.password.as_str().as_bytes());
            credential_outcome(check, None)
        },
        Ok(Some(found)) => {
            let check = guarded_check(
                found.password_hash.as_str(),
                credentials.password.as_str().as_bytes(),
            );
            credential_outcome(check, Some(found.user_id))
        },
    }
}

/// Hashes a password with Argon2i under a fresh random salt and the
/// fixed costs. Hashing succeeds for every password of up to `u32::MAX`
/// bytes. A hash that comes back names the algorithm and the costs, and
/// accepts the same password.
pub fn compute_password_hash(password: &str) -> (hash: Result<String, Vec<String>>)
    ensures
        encode_utf8(password@).len() <= u32::MAX ==> hash is Ok,
        hash matches Ok(h) ==> password_check(h@, encode_utf8(password@)) == Some(true)
            && new_hash_header().is_prefix_of(h@),
        hash matches Err(causes) ==> causes.deep_view() == seq!["Failed to hash password"@],
{
    match argon2_hash(
        Algorithm::Argon2i,
        password.as_bytes(),
        MEMORY_COST,
        TIME_COST,
        PARALLELISM,
    ) {
        Some(h) => Ok(h),
        None => Err(one_cause("Failed to hash password")),
    }
}

/// The hash that a password is checked against for a user name: the
/// stored hash of the account of that name, or the reference hash where
/// no account has the name.
pub open spec fn hash_for(rows: Seq<UserView>, username: Seq<char>) -> Seq<char> {
    match user_named(rows, username) {
        Some(user) => user.password_hash,
        None => reference_hash(),
    }
}

/// The user that the accounts accept for a user name and a password: the
/// account of that name, where its stored hash accepts the password.
pub open spec fn accepted_user(rows: Seq<UserView>, username: Seq<char>, password: Seq<char>) -> Option<
    u128,
> {
    match user_named(rows, username) {
        Some(user) => if password_check(user.password_hash, encode_utf8(password)) == Some(true) {
            Some(user.user_id)
        } else {
            None
        },
        None => None,
    }
}

/// Validates credentials against the stored accounts.
pub fn authenticate(users: &Users, credentials: Credentials) -> (outcome: Result<UserId, AuthError>)
    requires
        users.consistent(),
    ensures
        outcome is Ok <==> accepted_user(users@, credentials.username@, credentials.password@)
            is Some,
        outcome is Ok ==> Some(outcome->Ok_0.0) == accepted_user(
            users@,
            credentials.username@,
            credentials.password@,
        ),
        rejects_as_fault(outcome) <==> password_check(
            hash_for(users@, credentials.username@),
            encode_utf8(credentials.password@),
        ) is None,
{
    let lookup = users.get_stored_credentials(credentials.username.as_str());
    validate_credentials(credentials, Ok(lookup))
}

/// Whether `after` is `before` with the hash of one account overwritten
/// by a new hash of the password.
pub open spec fn password_changed(
    before: Seq<UserView>,
    after: Seq<UserView>,
    user_id: u128,
    password: Seq<char>,
) -> bool {
    exists|hash: Seq<char>|
        {
            &&& password_check(hash, encode_utf8(password)) == Some(true)
            &&& new_hash_header().is_prefix_of(hash)
            &&& after == #[trigger] with_password_hash(before, user_id, hash)
        }
}

/// Why a password was not set.
#[derive(Clone, Copy, Debug, PartialEq, Eq, Structural)]
pub enum PasswordChangeError {
    /// The password has fewer than twelve bytes.
    TooShort,
    /// The password could not be hashed.
    HashingFailed,
}

/// What comes of hashing a new password, as far as its length decides:
/// a password of fewer than twelve bytes is refused, and a longer one of
/// up to `u32::MAX` bytes is hashed.
pub open spec fn new_password_outcome(password: Seq<char>) -> Option<Result<(), PasswordChangeError>> {
    if encode_utf8(password).len() < MIN_PASSWORD_LENGTH {
        Some(Err(PasswordChangeError::TooShort))
    } else if encode_utf8(password).len() <= u32::MAX {
        Some(Ok(()))
    } else {
        None
    }
}

/// Hashes a new password, unless it is shorter than twelve bytes: such a
/// password is refused before anything is hashed.
pub fn new_password_hash(password: &str) -> (hash: Result<String, PasswordChangeError>)
    ensures
        encode_utf8(password@).len() < MIN_PASSWORD_LENGTH <==> hash == Err::<
            String,
            PasswordChangeError,
        >(PasswordChangeError::TooShort),
        MIN_PASSWORD_LENGTH <= encode_utf8(password@).len() <= u32::MAX ==> hash is Ok,
        hash matches Ok(h) ==> password_check(h@, encode_utf8(password@)) == Some(true)
            && new_hash_header().is_prefix_of(h@),
{
    if password.as_bytes().len() < MIN_PASSWORD_LENGTH {
        return Err(PasswordChangeError::TooShort);
    }
    match compute_password_hash(password) {
        Ok(h) => Ok(h),
        Err(_) => Err(PasswordChangeError::HashingFailed),
    }
}

/// Sets a new password for an account: a fresh hash of it overwrites the
/// stored one. A password of fewer than twelve bytes is refused before
/// anything is hashed, and the stored hash stays; every other password of
/// up to `u32::MAX` bytes is set.
pub fn change_password(users: &mut Users, user_id: UserId, password: &str) -> (changed: Result<
    (),
    PasswordChangeError,
>)
    requires
        old(users).consistent(),
    ensures
        final(users).consistent(),
        new_password_outcome(password@) is Some ==> changed == new_password_outcome(
            password@,
        )->Some_0,
        changed is Ok ==> encode_utf8(password@).len() >= MIN_PASSWORD_LENGTH && password_changed(
            old(users)@,
            final(users)@,
            user_id.0,
            password@,
        ),
        changed is Err ==> final(users)@ == old(users)@,
{
    match new_password_hash(password) {
        Err(e) => Err(e),
        Ok(password_hash) => {
            let ghost hash = password_hash@;
            users.set_password_hash(user_id, password_hash);
            assert(users@ == with_password_hash(old(users)@, user_id.0, hash));
            Ok(())
        },
    }
}

/// After a change of password the account is accepted with the new
/// password, under the user name it had before.
pub proof fn changed_password_logs_in(
    before: Seq<UserView>,
    after: Seq<UserView>,
    user_id: u128,
    password: Seq<char>,
)
    requires
        users_consistent(before),
        has_user(before, user_id),
        password_changed(before, after, user_id, password),
    ensures
        accepted_user(after, user_with_id(before, user_id)->Some_0.username, password) == Some(
            user_id,
        ),
{
    let hash = choose|hash: Seq<char>|
        {
            &&& password_check(hash, encode_utf8(password)) == Some(true)
            &&& new_hash_header().is_prefix_of(hash)
            &&& after == #[trigger] with_password_hash(before, user_id, hash)
        };
    let i = choose|i: int| 0 <= i < before.len() && (#[trigger] before[i]).user_id == user_id;
    let name = before[i].username;
    assert(after[i].username == name);
    let k = choose|k: int| 0 <= k < after.len() && (#[trigger] after[k]).username == name;
    assert(before[k].username == name);
    if k < i {
        assert(before[k].username != before[i].username);
    } else if k > i {
        assert(before[i].username != before[k].username);
    }
}

/// A change of password leaves every other account as it was: whoever
/// was accepted before is accepted after, and nobody else.
pub proof fn changed_password_leaves_others(
    before: Seq<UserView>,
    after: Seq<UserView>,
    user_id: u128,
    password: Seq<char>,
    username: Seq<char>,
    candidate: Seq<char>,
)
    requires
        users_consistent(before),
        has_user(before, user_id),
        password_changed(before, after, user_id, password),
        username != user_with_id(before, user_id)->Some_0.username,
    ensures
        accepted_user(after, username, candidate) == accepted_user(before, username, candidate),
{
    let i = choose|i: int| 0 <= i < before.len() && (#[trigger] before[i]).user_id == user_id;
    assert forall|j: int| 0 <= j < before.len() implies (#[trigger] after[j]).username
        == before[j].username by {}
    if has_username(before, username) {
        let k = choose|k: int| 0 <= k < before.len() && (#[trigger] before[k]).username == username;
        assert(after[k].username == username);
        let m = choose|m: int| 0 <= m < after.len() && (#[trigger] after[m]).username == username;
        assert(before[m].username == username);
        if m < k {
            assert(before[m].username != before[k].username);
        } else if m > k {
            assert(before[k].username != before[m].username);
        }
        assert(k != i);
        if before[k].user_id == user_id {
            if k < i {
                assert(before[k].user_id != before[i].user_id);
            } else {
                assert(before[i].user_id != before[k].user_id);
            }
        }
    } else {
        if has_username(after, username) {
            let m = choose|m: int| 0 <= m < after.len() && (#[trigger] after[m]).username == username;
            assert(before[m].username == username);
        }
    }
}

} // verus!
