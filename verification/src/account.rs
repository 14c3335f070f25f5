//! Account identities and the access-control guard.
//!
//! An identity is either a named account or an "implicit" account derived
//! from a public key: the lower-case hex encoding of the key's bytes with
//! the first byte (a key-type tag) dropped. The guard accepts a caller
//! either under its explicit signer identity or under the implicit account
//! derived from its signing key.
use vstd::prelude::*;

use crate::errors::Error;

verus! {

/// The lower-case hex digit for a nibble.
pub open spec fn hex_digit(n: u8) -> char
    recommends
        n < 16,
{
    if n == 0 {
        '0'
    } else if n == 1 {
        '1'
    } else if n == 2 {
        '2'
    } else if n == 3 {
        '3'
    } else if n == 4 {
        '4'
    } else if n == 5 {
        '5'
    } else if n == 6 {
        '6'
    } else if n == 7 {
        '7'
    } else if n == 8 {
        '8'
    } else if n == 9 {
        '9'
    } else if n == 10 {
        'a'
    } else if n == 11 {
        'b'
    } else if n == 12 {
        'c'
    } else if n == 13 {
        'd'
    } else if n == 14 {
        'e'
    } else {
        'f'
    }
}

/// The lower-case hex encoding of a byte sequence: for each byte, the digit
/// of its high nibble and then the digit of its low nibble.
pub open spec fn hex_of(s: Seq<u8>) -> Seq<char>
    decreases s.len(),
{
    if s.len() == 0 {
        Seq::empty()
    } else {
        seq![hex_digit(s[0] / 16), hex_digit(s[0] % 16)] + hex_of(s.drop_first())
    }
}

/// The implicit account derived from a public key: the hex encoding of the
/// key bytes with the leading key-type tag dropped.
pub open spec fn implicit_account_view(pk: Seq<u8>) -> Seq<char> {
    hex_of(pk.drop_first())
}

/// Whether a caller, identified by its signer account and signing key, is
/// authorized for `required`: either the signer account is `required`
/// itself, or `required` is the implicit account derived from the key.
pub open spec fn is_authorized(signer_id: Seq<char>, signer_pk: Seq<u8>, required: Seq<char>) -> bool {
    signer_id == required || implicit_account_view(signer_pk) == required
}

/// Relies on hex::encode: per input byte, in order, the lower-case digit of
/// the high nibble and then of the low nibble.
#[verifier::external_body]
fn encode_hex(bytes: &Vec<u8>) -> (r: String)
    ensures
        r@ == hex_of(bytes@),
{
    hex::encode(bytes)
}

/// The implicit account string of a public key.
pub fn implicit_account_of(pk: &Vec<u8>) -> (r: String)
    requires
        pk@.len() >= 1,
    ensures
        r@ == implicit_account_view(pk@),
{
    let mut tail: Vec<u8> = Vec::new();
    let mut i: usize = 1;
    while i < pk.len()
        invariant
            1 <= i <= pk@.len(),
            tail@ == pk@.subrange(1, i as int),
        decreases pk@.len() - i,
    {
        tail.push(pk[i]);
        proof {
            assert(tail@ =~= pk@.subrange(1, i + 1 as int));
        }
        i = i + 1;
    }
    proof {
        assert(tail@ =~= pk@.drop_first());
    }
    encode_hex(&tail)
}

/// Checks that the caller is authorized for the account `required`,
/// either as that account itself or through the key-derived implicit
/// account; fails `Unauthorized` otherwise.
pub fn authorize_owner(signer_id: &String, signer_pk: &Vec<u8>, required: &String) -> (r: Result<
    (),
    Error,
>)
    requires
        signer_pk@.len() >= 1,
    ensures
        r is Ok <==> is_authorized(signer_id@, signer_pk@, required@),
        r is Err ==> r == Err::<(), Error>(Error::Unauthorized),
{
    if *signer_id == *required {
        Ok(())
    } else {
        let implicit = implicit_account_of(signer_pk);
        if implicit == *required {
            Ok(())
        } else {
            Err(Error::Unauthorized)
        }
    }
}

/// Checks that the caller is the contract owner; fails `Unauthorized`
/// otherwise.
pub fn authorize_contract_owner(signer_id: &String, contract_owner: &String) -> (r: Result<
    (),
    Error,
>)
    ensures
        r is Ok <==> signer_id@ == contract_owner@,
        r is Err ==> r == Err::<(), Error>(Error::Unauthorized),
{
    if *signer_id == *contract_owner {
        Ok(())
    } else {
        Err(Error::Unauthorized)
    }
}

} // verus!
