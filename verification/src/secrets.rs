//! Reading referenced secrets: looking a key up in a secret's data and
//! decoding its value as text. The secret itself is fetched by the
//! surrounding runtime; this module works on the fetched data.

use vstd::prelude::*;

use crate::error::Error;
use crate::text::str_eq;

verus! {

use vstd::string::StringExecFns;
use vstd::utf8::{encode_utf8, valid_utf8};

/// A fetched secret: its data entries, absent when the secret carries none.
#[derive(Clone, Debug)]
pub struct SecretObservation {
    pub data: Option<Vec<(String, Vec<u8>)>>,
}

/// The first value stored under a key, if any.
pub open spec fn secret_lookup(entries: Seq<(String, Vec<u8>)>, key: Seq<char>) -> Option<Seq<u8>>
    decreases entries.len(),
{
    if entries.len() == 0 {
        None
    } else if entries[0].0@ == key {
        Some(entries[0].1@)
    } else {
        secret_lookup(entries.drop_first(), key)
    }
}

/// The error message for a key a secret does not hold.
pub open spec fn key_not_found_view(key: Seq<char>) -> Seq<char> {
    "Key '"@ + key + "' not found in secret"@
}

/// The error message for a value that is not text.
pub open spec fn invalid_utf8_view(key: Seq<char>) -> Seq<char> {
    "Invalid UTF-8 in secret key '"@ + key + "'"@
}

/// Relies on String::from_utf8: succeeds exactly on valid UTF-8, returning
/// the string of exactly the given bytes.
#[verifier::external_body]
fn string_from_utf8(v: Vec<u8>) -> (r: Option<String>)
    ensures
        r is Some <==> valid_utf8(v@),
        r matches Some(s) ==> encode_utf8(s@) == v@,
{
    String::from_utf8(v).ok()
}

fn copy_bytes(v: &Vec<u8>) -> (r: Vec<u8>)
    ensures
        r@ == v@,
{
    let mut r: Vec<u8> = Vec::new();
    let mut i: usize = 0;
    proof {
        assert(r@ =~= v@.take(0));
    }
    while i < v.len()
        invariant
            i <= v@.len(),
            r@ == v@.take(i as int),
        decreases v@.len() - i,
    {
        r.push(v[i]);
        proof {
            assert(r@ =~= v@.take(i as int + 1));
        }
        i = i + 1;
    }
    proof {
        assert(v@.take(v@.len() as int) =~= v@);
    }
    r
}

fn key_not_found_message(key: &str) -> (m: String)
    ensures
        m@ == key_not_found_view(key@),
{
    let mut m = "Key '".to_owned();
    m.append(key);
    m.append("' not found in secret");
    proof {
        assert(m@ =~= key_not_found_view(key@));
    }
    m
}

fn invalid_utf8_message(key: &str) -> (m: String)
    ensures
        m@ == invalid_utf8_view(key@),
{
    let mut m = "Invalid UTF-8 in secret key '".to_owned();
    m.append(key);
    m.append("'");
    proof {
        assert(m@ =~= invalid_utf8_view(key@));
    }
    m
}

/// Get a key's value from a fetched secret as text. Fails when the secret
/// has no data, when the key is absent, or when the stored bytes are not
/// valid UTF-8 — each as a secret error naming what was missing.
pub fn get_secret_key(secret: &SecretObservation, key: &str) -> (r: Result<String, Error>)
    ensures
        secret.data is None ==> (r matches Err(Error::SecretError(m)) && m@
            == "Secret has no data"@),
        secret.data matches Some(entries) ==> (secret_lookup(entries@, key@) is None ==> (
        r matches Err(Error::SecretError(m)) && m@ == key_not_found_view(key@))),
        secret.data matches Some(entries) ==> (secret_lookup(entries@, key@) matches Some(bytes)
            ==> (valid_utf8(bytes) ==> (r matches Ok(s) && encode_utf8(s@) == bytes))),
        secret.data matches Some(entries) ==> (secret_lookup(entries@, key@) matches Some(bytes)
            ==> (!valid_utf8(bytes) ==> (r matches Err(Error::SecretError(m)) && m@
            == invalid_utf8_view(key@)))),
{
    let entries = match &secret.data {
        Some(entries) => entries,
        None => {
            return Err(Error::SecretError("Secret has no data".to_owned()));
        },
    };

    let mut i: usize = 0;
    proof {
        assert(entries@.skip(0) =~= entries@);
    }
    while i < entries.len()
        invariant
            i <= entries@.len(),
            secret.data == Some(*entries),
            secret_lookup(entries@, key@) == secret_lookup(entries@.skip(i as int), key@),
        decreases entries@.len() - i,
    {
        if str_eq(&entries[i].0, key) {
            proof {
                assert(entries@.skip(i as int)[0] == entries@[i as int]);
                assert(secret_lookup(entries@, key@) == Some(entries@[i as int].1@));
            }
            let bytes = copy_bytes(&entries[i].1);
            match string_from_utf8(bytes) {
                Some(s) => {
                    return Ok(s);
                },
                None => {
                    return Err(Error::SecretError(invalid_utf8_message(key)));
                },
            }
        }
        proof {
            assert(entries@.skip(i as int)[0] == entries@[i as int]);
            assert(entries@.skip(i as int).drop_first() =~= entries@.skip(i as int + 1));
        }
        i = i + 1;
    }
    proof {
        assert(entries@.skip(entries@.len() as int) =~= Seq::<(String, Vec<u8>)>::empty());
    }
    Err(Error::SecretError(key_not_found_message(key)))
}

} // verus!
