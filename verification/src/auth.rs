//! The credential check that stands before the judge: a request is let in
//! for the first known user whose name it gives and whose password hash
//! accepts its password.
use vstd::prelude::*;
use crate::model::User;

verus! {

/// The error of the `bcrypt` crate, carried as it is.
#[verifier::external_type_specification]
#[verifier::external_body]
pub struct ExBcryptError(bcrypt::BcryptError);

/// What `bcrypt::verify` finds for a password and a hash: whether the hash
/// is that of the password, or nothing where the hash cannot be read.
pub uninterp spec fn bcrypt_verdict(password: Seq<char>, hash: Seq<char>) -> Option<bool>;

/// Calls `bcrypt::verify`. The result depends on the two texts alone: `Ok`
/// with the verdict that `bcrypt_verdict` names, or the crate's error where
/// the hash is malformed, and then `bcrypt_verdict` is `None`.
#[verifier::external_body]
fn verify_hash(password: &str, hash: &str) -> (r: Result<bool, bcrypt::BcryptError>)
    ensures
        match r {
            Ok(same) => bcrypt_verdict(password@, hash@) == Some(same),
            Err(_) => bcrypt_verdict(password@, hash@) is None,
        },
{
    bcrypt::verify(password, hash)
}

/// How one user stands to a pair of credentials.
#[derive(Clone, Copy, Debug, PartialEq, Eq, Structural)]
pub enum Check {
    /// The name is the user's and the hash accepts the password.
    Match,
    /// Another name, or a password that the hash does not accept.
    Mismatch,
    /// The name is the user's and the stored hash cannot be read.
    BadHash,
}

/// What the check of the credentials against all users comes to.
#[derive(Clone, Copy, Debug, PartialEq, Eq, Structural)]
pub enum Decision {
    /// The user at this place accepts the credentials.
    Accepted(usize),
    /// No user accepts them.
    Rejected,
    /// The hash of the user at this place had to be read and is malformed.
    BadHash(usize),
}

/// How a user of this name and hash stands to the credentials. The hash is
/// consulted only where the names agree.
pub open spec fn check_of(user_name: Seq<char>, hash: Seq<char>, name: Seq<char>, password: Seq<char>) -> Check {
    if user_name != name {
        Check::Mismatch
    } else {
        match bcrypt_verdict(password, hash) {
            Some(true) => Check::Match,
            Some(false) => Check::Mismatch,
            None => Check::BadHash,
        }
    }
}

/// The checks of the credentials against each user, in order.
pub open spec fn checks_of(users: Seq<User>, name: Seq<char>, password: Seq<char>) -> Seq<Check> {
    Seq::new(users.len(), |i: int| check_of(users[i].name@, users[i].password_hash@, name, password))
}

/// Whether place `i` holds the first check that is no mismatch.
pub open spec fn decisive(checks: Seq<Check>, i: int) -> bool {
    &&& 0 <= i < checks.len()
    &&& checks[i] != Check::Mismatch
    &&& forall|j: int| 0 <= j < i ==> checks[j] == Check::Mismatch
}

/// Whether `decision` is what `checks` come to: the first check that is no
/// mismatch decides, and without one the credentials are rejected.
pub open spec fn decides(checks: Seq<Check>, decision: Decision) -> bool {
    match decision {
        Decision::Accepted(i) => decisive(checks, i as int) && checks[i as int] == Check::Match,
        Decision::BadHash(i) => decisive(checks, i as int) && checks[i as int] == Check::BadHash,
        Decision::Rejected => forall|j: int| 0 <= j < checks.len() ==> checks[j] == Check::Mismatch,
    }
}

/// Holds the outcome of reading a hash against the names: the verdict
/// counts only where the names agree.
pub fn check_from(names_agree: bool, verdict: Option<bool>) -> (r: Check)
    ensures
        r == if !names_agree {
            Check::Mismatch
        } else {
            match verdict {
                Some(true) => Check::Match,
                Some(false) => Check::Mismatch,
                None => Check::BadHash,
            }
        },
{
    if !names_agree {
        Check::Mismatch
    } else {
        match verdict {
            Some(true) => Check::Match,
            Some(false) => Check::Mismatch,
            None => Check::BadHash,
        }
    }
}

/// How `user` stands to the credentials.
pub fn check_user(user: &User, name: &String, password: &String) -> (r: Check)
    ensures
        r == check_of(user.name@, user.password_hash@, name@, password@),
{
    if user.name == *name {
        let verdict = match verify_hash(password.as_str(), user.password_hash.as_str()) {
            Ok(same) => Some(same),
            Err(_) => None,
        };
        check_from(true, verdict)
    } else {
        check_from(false, None)
    }
}

/// Checks the credentials against the users in order and stops at the
/// first user that decides. Users behind that one are not looked at.
pub fn authenticate(users: &Vec<User>, name: &String, password: &String) -> (r: Decision)
    ensures
        decides(checks_of(users@, name@, password@), r),
{
    let mut i: usize = 0;
    while i < users.len()
        invariant
            i <= users.len(),
            forall|j: int|
                0 <= j < i ==> checks_of(users@, name@, password@)[j] == Check::Mismatch,
        decreases users.len() - i,
    {
        match check_user(&users[i], name, password) {
            Check::Match => {
                return Decision::Accepted(i);
            },
            Check::BadHash => {
                return Decision::BadHash(i);
            },
            Check::Mismatch => {},
        }
        i += 1;
    }
    Decision::Rejected
}

/// The place of the user that decided, or -1 where none did.
pub open spec fn place_of(decision: Decision) -> int {
    match decision {
        Decision::Accepted(i) => i as int,
        Decision::BadHash(i) => i as int,
        Decision::Rejected => -1,
    }
}

/// A row of checks comes to one decision only.
pub proof fn lemma_decision_is_unique(checks: Seq<Check>, a: Decision, b: Decision)
    requires
        decides(checks, a),
        decides(checks, b),
    ensures
        a == b,
{
    let pa = place_of(a);
    let pb = place_of(b);
    if pa >= 0 && pb >= 0 {
        if pa < pb {
            assert(checks[pa] == Check::Mismatch);
        } else if pb < pa {
            assert(checks[pb] == Check::Mismatch);
        }
    } else if pa >= 0 {
        assert(checks[pa] == Check::Mismatch);
    } else if pb >= 0 {
        assert(checks[pb] == Check::Mismatch);
    }
}

/// A user of another name never lets a request in, whatever the hash.
pub proof fn lemma_other_name_mismatch(user_name: Seq<char>, hash: Seq<char>, name: Seq<char>, password: Seq<char>)
    requires
        user_name != name,
    ensures
        check_of(user_name, hash, name, password) == Check::Mismatch,
{
}

} // verus!
