use vstd::prelude::*;
use vstd::string::*;

use crate::digest::{sha256_digest, sha256_hex};

verus! {

/// The challenge parameters that the device hands out before a login.
pub struct AuthSetting {
    pub session_id: String,
    pub challenge: String,
    pub iterations: u32,
    pub salt: String,
    pub is_irreversible: bool,
    pub is_session_id_valid_long_term: bool,
    pub session_id_version: u32,
}

/// `s` hashed `n` more times.
pub open spec fn hash_rounds(s: Seq<char>, n: nat) -> Seq<char>
    decreases n,
{
    if n == 0 {
        s
    } else {
        sha256_hex(hash_rounds(s, (n - 1) as nat))
    }
}

/// `iterations - k`, or zero when that is negative.
pub open spec fn extra_rounds(iterations: u32, k: u32) -> nat {
    if iterations > k {
        (iterations - k) as nat
    } else {
        0
    }
}

/// Salted derivation: hash of user, salt and password, hashed again with the
/// challenge, then `iterations - 2` further rounds.
pub open spec fn salted_password(
    username: Seq<char>,
    password: Seq<char>,
    salt: Seq<char>,
    challenge: Seq<char>,
    iterations: u32,
) -> Seq<char> {
    let cred = sha256_hex(username + salt + password);
    hash_rounds(sha256_hex(cred + challenge), extra_rounds(iterations, 2))
}

/// Unsalted derivation: the password's hash with the challenge appended,
/// then `iterations - 1` rounds; with no round the concatenation is the result.
pub open spec fn unsalted_password(
    password: Seq<char>,
    challenge: Seq<char>,
    iterations: u32,
) -> Seq<char> {
    hash_rounds(sha256_hex(password) + challenge, extra_rounds(iterations, 1))
}

/// The password to submit for the given credential and challenge.
pub open spec fn derived_password(
    username: Seq<char>,
    password: Seq<char>,
    setting: AuthSetting,
) -> Seq<char> {
    if setting.is_irreversible {
        salted_password(username, password, setting.salt@, setting.challenge@, setting.iterations)
    } else {
        unsalted_password(password, setting.challenge@, setting.iterations)
    }
}

fn concat(a: &str, b: &str) -> (r: String)
    ensures
        r@ == a@ + b@,
{
    let mut s = String::from_str(a);
    s.append(b);
    s
}

/// Hashes `s` for each step from `from` up to `until`.
fn apply_rounds(s: String, from: u32, until: u32) -> (r: String)
    ensures
        r@ == hash_rounds(s@, extra_rounds(until, from)),
{
    let mut result = s;
    let mut i: u32 = from;
    while i < until
        invariant
            from <= i,
            from < until ==> i <= until,
            from >= until ==> i == from,
            result@ == hash_rounds(s@, (i - from) as nat),
        decreases until - i,
    {
        result = sha256_digest(result.as_str());
        i = i + 1;
    }
    result
}

/// Derives the session password from the credential and the challenge.
pub fn encode_password(username: &str, password: &str, setting: &AuthSetting) -> (r: String)
    ensures
        r@ == derived_password(username@, password@, *setting),
{
    if setting.is_irreversible {
        let user_salt = concat(username, setting.salt.as_str());
        let cred_input = concat(user_salt.as_str(), password);
        let cred_hash = sha256_digest(cred_input.as_str());
        let keyed = concat(cred_hash.as_str(), setting.challenge.as_str());
        let base = sha256_digest(keyed.as_str());
        apply_rounds(base, 2, setting.iterations)
    } else {
        let pwd_hash = sha256_digest(password);
        let base = concat(pwd_hash.as_str(), setting.challenge.as_str());
        apply_rounds(base, 1, setting.iterations)
    }
}

/// With the salted scheme and two iterations, the password is the challenge
/// hashed onto the hash of user, salt and password, with no further round.
pub proof fn lemma_salted_two_iterations(username: Seq<char>, password: Seq<char>, setting: AuthSetting)
    requires
        setting.is_irreversible,
        setting.iterations == 2,
    ensures
        derived_password(username, password, setting) == sha256_hex(
            sha256_hex(username + setting.salt@ + password) + setting.challenge@,
        ),
{
}

/// With the salted scheme and five iterations, the password is that base
/// value hashed three more times.
pub proof fn lemma_salted_five_iterations(username: Seq<char>, password: Seq<char>, setting: AuthSetting)
    requires
        setting.is_irreversible,
        setting.iterations == 5,
    ensures
        ({
            let base = sha256_hex(sha256_hex(username + setting.salt@ + password) + setting.challenge@);
            derived_password(username, password, setting) == sha256_hex(sha256_hex(sha256_hex(base)))
        }),
{
    let base = sha256_hex(sha256_hex(username + setting.salt@ + password) + setting.challenge@);
    assert(hash_rounds(base, 0) == base);
    assert(hash_rounds(base, 1) == sha256_hex(base));
    assert(hash_rounds(base, 2) == sha256_hex(sha256_hex(base)));
    assert(hash_rounds(base, 3) == sha256_hex(sha256_hex(sha256_hex(base))));
}

/// With the unsalted scheme and one iteration, the password is the hash of
/// the password with the challenge appended, not hashed again.
pub proof fn lemma_unsalted_one_iteration(username: Seq<char>, password: Seq<char>, setting: AuthSetting)
    requires
        !setting.is_irreversible,
        setting.iterations == 1,
    ensures
        derived_password(username, password, setting) == sha256_hex(password) + setting.challenge@,
{
}

} // verus!
