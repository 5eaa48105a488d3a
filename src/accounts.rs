//! Decisions about user accounts: the verdict on a password login, the seed
//! of a new account's principal, the username taken from an email address,
//! and how details from an outside identity provider update a profile.
use vstd::prelude::*;
use vstd::string::*;

use crate::credentials::{password_hash_text, verify_password};
use crate::text::{chars_of, slice_string};
use crate::tutors::is_blank;

verus! {

/// The big-endian bytes of `n`.
pub open spec fn be_bytes(n: u64) -> Seq<u8> {
    seq![
        #[verifier::truncate] ((n >> 56) as u8),
        #[verifier::truncate] ((n >> 48) as u8),
        #[verifier::truncate] ((n >> 40) as u8),
        #[verifier::truncate] ((n >> 32) as u8),
        #[verifier::truncate] ((n >> 24) as u8),
        #[verifier::truncate] ((n >> 16) as u8),
        #[verifier::truncate] ((n >> 8) as u8),
        #[verifier::truncate] (n as u8),
    ]
}

/// The seed of the principal of account `user_id`: its big-endian bytes,
/// four times over.
pub open spec fn seed_bytes(user_id: u64) -> Seq<u8> {
    be_bytes(user_id) + be_bytes(user_id) + be_bytes(user_id) + be_bytes(user_id)
}

/// Appends the big-endian bytes of `n` to `v`.
fn push_be_bytes(v: &mut Vec<u8>, n: u64)
    ensures
        final(v)@ == old(v)@ + be_bytes(n),
{
    v.push(#[verifier::truncate] ((n >> 56) as u8));
    v.push(#[verifier::truncate] ((n >> 48) as u8));
    v.push(#[verifier::truncate] ((n >> 40) as u8));
    v.push(#[verifier::truncate] ((n >> 32) as u8));
    v.push(#[verifier::truncate] ((n >> 24) as u8));
    v.push(#[verifier::truncate] ((n >> 16) as u8));
    v.push(#[verifier::truncate] ((n >> 8) as u8));
    v.push(#[verifier::truncate] (n as u8));
    assert(final(v)@ =~= old(v)@ + be_bytes(n));
}

/// The 32-byte seed from which the principal of account `user_id` is made.
pub fn principal_seed(user_id: u64) -> (r: Vec<u8>)
    ensures
        r@ == seed_bytes(user_id),
        r@.len() == 32,
{
    let mut r: Vec<u8> = Vec::new();
    push_be_bytes(&mut r, user_id);
    push_be_bytes(&mut r, user_id);
    push_be_bytes(&mut r, user_id);
    push_be_bytes(&mut r, user_id);
    assert(r@ =~= seed_bytes(user_id));
    r
}

/// `i` is the position of the first `'@'` of `e`.
pub open spec fn first_at(e: Seq<char>, i: int) -> bool {
    0 <= i < e.len() && e[i] == '@' && forall|k: int| 0 <= k < i ==> e[k] != '@'
}

/// The username for an address: what comes before its first `'@'`, or the
/// whole address where it has no `'@'` or starts with one.
pub open spec fn username_for(e: Seq<char>) -> Seq<char> {
    if exists|i: int| first_at(e, i) && i > 0 {
        let i = choose|i: int| first_at(e, i) && i > 0;
        e.subrange(0, i)
    } else {
        e
    }
}

/// The username for an email address.
pub fn username_from_email(email: &str) -> (r: String)
    ensures
        r@ == username_for(email@),
{
    let cs = chars_of(email);
    let mut i: usize = 0;
    while i < cs.len() && cs[i] != '@'
        invariant
            cs@ == email@,
            i <= cs@.len(),
            forall|k: int| 0 <= k < i ==> cs@[k] != '@',
        decreases cs@.len() - i,
    {
        i += 1;
    }
    if i < cs.len() && i > 0 {
        proof {
            assert(first_at(email@, i as int));
            let j = choose|j: int| first_at(email@, j) && j > 0;
            if j < i {
                assert(cs@[j] != '@');
            }
            if j > i {
                assert(email@[i as int] != '@');
            }
        }
        slice_string(email, 0, i)
    } else {
        proof {
            assert forall|j: int| !(first_at(email@, j) && j > 0) by {
                if first_at(email@, j) && j > 0 {
                    if j < i {
                        assert(cs@[j] != '@');
                    } else {
                        assert(i < cs@.len());
                        assert(email@[i as int] == '@');
                    }
                }
            }
        }
        String::from_str(email)
    }
}

/// The verdict on a password login: `stored` is `None` where no account has
/// the address, else the account's stored password hash, if it has one.
pub open spec fn login_verdict(stored: Option<Option<String>>, password: Seq<char>) -> Result<
    (),
    Seq<char>,
> {
    match stored {
        None => Err("User not found"@),
        Some(None) => Err("Account not set up for password authentication"@),
        Some(Some(h)) => if password_hash_text(password) == h@ {
            Ok(())
        } else {
            Err("Invalid password"@)
        },
    }
}

/// The verdict on a password login.
pub fn check_login(stored: Option<Option<String>>, password: &str) -> (r: Result<(), String>)
    ensures
        match r {
            Ok(()) => login_verdict(stored, password@) == Ok::<(), Seq<char>>(()),
            Err(e) => login_verdict(stored, password@) == Err::<(), Seq<char>>(e@),
        },
{
    match stored {
        None => Err(String::from_str("User not found")),
        Some(None) => Err(String::from_str("Account not set up for password authentication")),
        Some(Some(h)) => {
            if verify_password(password, h.as_str()) {
                Ok(())
            } else {
                Err(String::from_str("Invalid password"))
            }
        },
    }
}

/// A detail from an identity provider replaces the current one only where
/// it is given and not blank.
pub open spec fn merged(current: Seq<char>, given: Option<String>) -> Seq<char> {
    match given {
        Some(s) => if is_blank(s@) {
            current
        } else {
            s@
        },
        None => current,
    }
}

/// Whether a given detail is present and not blank.
fn usable(given: &Option<String>) -> (r: bool)
    ensures
        r == match *given {
            Some(s) => !is_blank(s@),
            None => false,
        },
{
    match given {
        Some(s) => crate::text::trim(s.as_str()).as_str().unicode_len() != 0,
        None => false,
    }
}

/// A required detail after an update from an identity provider.
pub fn merge_detail(current: String, given: Option<String>) -> (r: String)
    ensures
        r@ == merged(current@, given),
{
    if usable(&given) {
        match given {
            Some(s) => s,
            None => current,
        }
    } else {
        current
    }
}

/// An optional detail after an update from an identity provider.
pub fn merge_optional_detail(current: Option<String>, given: Option<String>) -> (r: Option<String>)
    ensures
        match given {
            Some(s) => if is_blank(s@) {
                r == current
            } else {
                r == Some(s)
            },
            None => r == current,
        },
{
    if usable(&given) {
        given
    } else {
        current
    }
}

} // verus!
