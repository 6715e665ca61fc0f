use crate::shared::decimal::{char_at, digit_value, lemma_number_grows, number_from};
use argon2::password_hash::{PasswordHash, PasswordHasher, PasswordVerifier, Salt, SaltString};
use argon2::Argon2;
use rand_core::OsRng;
use vstd::prelude::*;
use vstd::string::StrSliceExecFns;

verus! {

/// The greatest number of lanes that Argon2 admits.
pub const MAX_LANES: u64 = 16777215;

/// The digest in PHC string format that Argon2 with its default parameters
/// makes of a password under a salt in B64, or the text of the error where
/// it makes none.
pub uninterp spec fn argon2_digest(password: Seq<char>, salt: Seq<char>) -> Result<
    Seq<char>,
    Seq<char>,
>;

/// Why a text is no digest in PHC string format, where it is none.
pub uninterp spec fn phc_fault(digest: Seq<char>) -> Option<Seq<char>>;

/// What Argon2 finds when it holds a password against a digest in PHC
/// string format: whether the two match, or why the digest cannot be read.
pub uninterp spec fn argon2_verdict(password: Seq<char>, digest: Seq<char>) -> Result<
    bool,
    Seq<char>,
>;

/// A digest or an error, as text.
pub open spec fn digest_text(digest: Result<String, String>) -> Result<Seq<char>, Seq<char>> {
    match digest {
        Ok(d) => Ok(d@),
        Err(e) => Err(e@),
    }
}

/// A verdict with its error as text.
pub open spec fn verdict_text(verdict: Result<bool, String>) -> Result<bool, Seq<char>> {
    match verdict {
        Ok(b) => Ok(b),
        Err(e) => Err(e@),
    }
}

/// A fault, as text.
pub open spec fn fault_text(fault: Option<String>) -> Option<Seq<char>> {
    match fault {
        Some(e) => Some(e@),
        None => None,
    }
}

/// Where the last `p=` among the first `n` characters of a text begins;
/// -1 where there is none. In a digest in PHC string format this is where
/// the number of lanes is written.
pub open spec fn lanes_mark(s: Seq<char>, n: int) -> int
    decreases n,
{
    if n < 2 || n > s.len() {
        -1
    } else if s[n - 2] == 'p' && s[n - 1] == '=' {
        n - 2
    } else {
        lanes_mark(s, n - 1)
    }
}

/// The number of lanes that a digest asks for: the number written after the
/// last `p=` of the text; none where the text has no `p=`.
pub open spec fn lanes_asked(digest: Seq<char>) -> Option<nat> {
    let at = lanes_mark(digest, digest.len() as int);
    if at < 0 {
        None
    } else {
        Some(number_from(digest, at + 2, 0))
    }
}

/// The digest asks for no more lanes than Argon2 admits.
pub open spec fn parallelism_within_limit(digest: Seq<char>) -> bool {
    match lanes_asked(digest) {
        Some(lanes) => lanes <= MAX_LANES,
        None => true,
    }
}

/// What holding a password against a text gives. A text that is no digest
/// gives the reason as an error. A digest that asks for more lanes than
/// Argon2 admits matches no password. Any other digest gives what Argon2
/// finds.
pub open spec fn expected_verdict(password: Seq<char>, digest: Seq<char>) -> Result<
    bool,
    Seq<char>,
> {
    match phc_fault(digest) {
        Some(e) => Err(e),
        None => if parallelism_within_limit(digest) {
            argon2_verdict(password, digest)
        } else {
            Ok(false)
        },
    }
}

/// Where hashing gave a digest, the text reads as a digest, asks for no
/// more lanes than Argon2 admits, and Argon2 finds that the password
/// matches it.
pub open spec fn made_to_match(password: Seq<char>, digest: Result<Seq<char>, Seq<char>>) -> bool {
    match digest {
        Ok(d) => phc_fault(d) is None && parallelism_within_limit(d) && argon2_verdict(password, d)
            == Ok::<bool, Seq<char>>(true),
        Err(_) => true,
    }
}

/// Where hashing gave a digest, the password verifies against it.
pub open spec fn verifies(password: Seq<char>, digest: Result<Seq<char>, Seq<char>>) -> bool {
    match digest {
        Ok(d) => expected_verdict(password, d) == Ok::<bool, Seq<char>>(true),
        Err(_) => true,
    }
}

/// A salt from the random source of the operating system.
///
/// Calls `SaltString::generate` with `OsRng` and gives the salt as text in
/// B64. The salt differs from call to call, so nothing is stated of it.
#[verifier::external_body]
fn fresh_salt() -> (salt: String) {
    SaltString::generate(&mut OsRng).as_str().to_owned()
}

/// Hashes a password with Argon2 under the given salt.
///
/// Calls `Salt::from_b64` on the salt and, where that reads it,
/// `Argon2::default().hash_password`; gives the digest in PHC string format,
/// or the text of the error. The contract gives the outcome its name, which
/// depends on the two texts and on nothing else. Of a digest it also says
/// what the source of the two crates shows: it is written as
/// `$argon2id$v=19$m=19456,t=2,p=1$` with the salt and the output after it,
/// so it reads back as a digest and asks for one lane; and verification
/// computes the same output from the same password, salt and parameters, so
/// the password matches it.
#[verifier::external_body]
fn argon2_hash(password: &str, salt: &str) -> (digest: Result<String, String>)
    ensures
        digest_text(digest) == argon2_digest(password@, salt@),
        made_to_match(password@, digest_text(digest)),
{
    match Salt::from_b64(salt) {
        Ok(parsed) => match Argon2::default().hash_password(password.as_bytes(), parsed) {
            Ok(hash) => Ok(hash.to_string()),
            Err(e) => Err(e.to_string()),
        },
        Err(e) => Err(e.to_string()),
    }
}

/// Says why a text is no digest in PHC string format.
///
/// Calls `PasswordHash::new` and gives the text of its error, or nothing
/// where the text is read. The contract only gives the outcome its name: it
/// depends on the text and on nothing else.
#[verifier::external_body]
fn digest_fault(hash: &str) -> (fault: Option<String>)
    ensures
        fault_text(fault) == phc_fault(hash@),
{
    match PasswordHash::new(hash) {
        Ok(_) => None,
        Err(e) => Some(e.to_string()),
    }
}

/// Holds a password against a digest with Argon2.
///
/// Calls `PasswordHash::new` on the digest and, where that reads it,
/// `Argon2::default().verify_password`, which takes the parameters from the
/// digest. A digest that asks for more lanes than Argon2 admits is left
/// out: on some of them the outside code multiplies beyond 32 bits before it
/// refuses the number. The contract only gives the outcome its name: it
/// depends on the two texts and on nothing else.
#[verifier::external_body]
fn argon2_verify(password: &str, hash: &str) -> (verdict: Result<bool, String>)
    requires
        parallelism_within_limit(hash@),
    ensures
        verdict_text(verdict) == argon2_verdict(password@, hash@),
{
    match PasswordHash::new(hash) {
        Ok(parsed) => Ok(Argon2::default().verify_password(password.as_bytes(), &parsed).is_ok()),
        Err(e) => Err(e.to_string()),
    }
}

/// Whether a digest asks for no more lanes than Argon2 admits.
pub fn lanes_within_limit(hash: &str) -> (within: bool)
    ensures
        within == parallelism_within_limit(hash@),
{
    let ascii = hash.is_ascii();
    let len = hash.unicode_len();
    let mut n: usize = len;
    while n >= 2
        invariant
            n <= len,
            len == hash@.len(),
            ascii ==> hash.is_ascii(),
            lanes_mark(hash@, len as int) == lanes_mark(hash@, n as int),
        decreases n,
    {
        if char_at(hash, n - 2, ascii) == 'p' && char_at(hash, n - 1, ascii) == '=' {
            let mut i: usize = n;
            let mut lanes: u64 = 0;
            while i < len
                invariant
                    2 <= n <= i <= len,
                    len == hash@.len(),
                    ascii ==> hash.is_ascii(),
                    lanes_mark(hash@, len as int) == n - 2,
                    lanes <= MAX_LANES,
                    number_from(hash@, n as int, 0) == number_from(hash@, i as int, lanes as nat),
                decreases len - i,
            {
                match digit_value(char_at(hash, i, ascii)) {
                    Some(d) => {
                        lanes = lanes * 10 + d;
                        if lanes > MAX_LANES {
                            proof {
                                lemma_number_grows(hash@, i + 1, lanes as nat);
                            }
                            return false;
                        }
                    },
                    None => {
                        return true;
                    },
                }
                i = i + 1;
            }
            return true;
        }
        n = n - 1;
    }
    true
}

/// Hashes a password under a fresh random salt. What it gives is what
/// Argon2 makes of the password under some salt: a digest, against which the
/// password verifies, or an error.
pub fn hash_password(password: &str) -> (digest: Result<String, String>)
    ensures
        exists|salt: Seq<char>| digest_text(digest) == #[trigger] argon2_digest(password@, salt),
        verifies(password@, digest_text(digest)),
{
    let salt = fresh_salt();
    argon2_hash(password, salt.as_str())
}

/// Whether a password is the one that a digest was made from; an error
/// where the text is no digest. A digest that asks for more lanes than
/// Argon2 admits matches no password.
pub fn verify_password(password: &str, hash: &str) -> (verdict: Result<bool, String>)
    ensures
        verdict_text(verdict) == expected_verdict(password@, hash@),
{
    match digest_fault(hash) {
        Some(e) => Err(e),
        None => {
            if lanes_within_limit(hash) {
                argon2_verify(password, hash)
            } else {
                Ok(false)
            }
        },
    }
}

} // verus!
