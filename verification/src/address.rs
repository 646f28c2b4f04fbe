//! The syntax of email addresses, through the `email_address` crate.
//! Nothing in this file is proved: each function states what the library
//! assumes of the call it makes.

use std::str::FromStr;
use vstd::prelude::*;

verus! {

/// A parsed email address. Opaque here: it is read through `domain_of`.
#[verifier::external_type_specification]
#[verifier::external_body]
pub struct ExEmailAddress(email_address::EmailAddress);

/// The address that `EmailAddress::from_str` reads from `text`, if it
/// accepts the text.
pub uninterp spec fn parsed_address(text: Seq<char>) -> Option<email_address::EmailAddress>;

/// The domain of an address: what `EmailAddress::domain` returns.
pub uninterp spec fn address_domain(address: email_address::EmailAddress) -> Seq<char>;

/// The domain of the address that `text` is, where it is one.
pub open spec fn email_domain(text: Seq<char>) -> Option<Seq<char>> {
    match parsed_address(text) {
        Some(address) => Some(address_domain(address)),
        None => None,
    }
}

/// Calls `EmailAddress::from_str`. Assumed: the outcome is a function of
/// the text alone, `None` standing for any error of the parser.
#[verifier::external_body]
pub(crate) fn parse_address(text: &str) -> (r: Option<email_address::EmailAddress>)
    ensures
        r == parsed_address(text@),
{
    match email_address::EmailAddress::from_str(text) {
        Ok(address) => Some(address),
        Err(_) => None,
    }
}

/// Calls `EmailAddress::domain`. Assumed: the result is a function of the
/// address alone.
#[verifier::external_body]
pub(crate) fn domain_of(address: &email_address::EmailAddress) -> (r: String)
    ensures
        r@ == address_domain(*address),
{
    address.domain().to_string()
}

} // verus!
