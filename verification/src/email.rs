//! Recipient addresses: which are accepted, and the screen that collects them.

use vstd::prelude::*;
use vstd::string::StringExecFns;
use crate::address::{domain_of, email_domain, parse_address};
use crate::config::Config;
use crate::text::texts;

verus! {

/// What the booth makes of a typed address.
#[derive(Clone, Copy, Debug, PartialEq, Eq, Structural)]
pub enum EmailAddressValidity {
    /// Not an address at all.
    Invalid,
    /// An address, at a domain that the policy refuses.
    DomainBlocked,
    /// An address that may be added.
    Valid,
}

/// Whether some entry of `entries` is `domain` itself or the wildcard `*`.
pub open spec fn listed(domain: Seq<char>, entries: Seq<Seq<char>>) -> bool {
    exists|i: int| 0 <= i < entries.len() && (#[trigger] entries[i] == domain || entries[i] == "*"@)
}

/// The policy: a domain on the whitelist is allowed whatever the blacklist
/// says; any other domain is allowed unless the blacklist has it.
pub open spec fn domain_permitted(
    domain: Seq<char>,
    whitelist: Seq<Seq<char>>,
    blacklist: Seq<Seq<char>>,
) -> bool {
    listed(domain, whitelist) || !listed(domain, blacklist)
}

/// What the policy makes of an address whose syntax check gave `domain`.
pub open spec fn validity_for(
    domain: Option<Seq<char>>,
    whitelist: Seq<Seq<char>>,
    blacklist: Seq<Seq<char>>,
) -> EmailAddressValidity {
    match domain {
        None => EmailAddressValidity::Invalid,
        Some(d) => if domain_permitted(d, whitelist, blacklist) {
            EmailAddressValidity::Valid
        } else {
            EmailAddressValidity::DomainBlocked
        },
    }
}

/// Whether some entry of the list is `domain` or the wildcard.
fn is_listed(domain: &String, entries: &Vec<String>) -> (b: bool)
    ensures
        b == listed(domain@, texts(entries@)),
{
    let wildcard = String::from_str("*");
    let mut i: usize = 0;
    while i < entries.len()
        invariant
            i <= entries@.len(),
            wildcard@ == "*"@,
            forall|j: int|
                0 <= j < i ==> !(#[trigger] texts(entries@)[j] == domain@ || texts(entries@)[j]
                    == "*"@),
        decreases entries@.len() - i,
    {
        if entries[i] == *domain || entries[i] == wildcard {
            assert(texts(entries@)[i as int] == entries@[i as int]@);
            return true;
        }
        assert(texts(entries@)[i as int] == entries@[i as int]@);
        i = i + 1;
    }
    false
}

/// Applies the domain policy of `config` to `domain`.
pub fn domain_allowed(domain: &str, config: &Config) -> (b: bool)
    ensures
        b == domain_permitted(
            domain@,
            texts(config.email_whitelisted_domains@),
            texts(config.email_blacklisted_domains@),
        ),
{
    let domain = String::from_str(domain);
    if is_listed(&domain, &config.email_whitelisted_domains) {
        true
    } else {
        !is_listed(&domain, &config.email_blacklisted_domains)
    }
}

/// Classifies an address from the outcome of its syntax check: no domain
/// means that the syntax was refused.
pub fn classify(domain: Option<String>, config: &Config) -> (v: EmailAddressValidity)
    ensures
        v == validity_for(
            match domain {
                Some(d) => Some(d@),
                None => None,
            },
            texts(config.email_whitelisted_domains@),
            texts(config.email_blacklisted_domains@),
        ),
{
    match domain {
        None => EmailAddressValidity::Invalid,
        Some(d) => {
            if domain_allowed(d.as_str(), config) {
                EmailAddressValidity::Valid
            } else {
                EmailAddressValidity::DomainBlocked
            }
        },
    }
}

/// Checks the syntax of `address` and applies the domain policy.
pub fn validate_address(address: &str, config: &Config) -> (v: EmailAddressValidity)
    ensures
        v == validity_for(
            email_domain(address@),
            texts(config.email_whitelisted_domains@),
            texts(config.email_blacklisted_domains@),
        ),
{
    match parse_address(address) {
        Some(parsed) => classify(Some(domain_of(&parsed)), config),
        None => classify(None, config),
    }
}

/// A whitelisted domain is allowed even where the blacklist names it too,
/// or holds the wildcard.
pub proof fn lemma_whitelist_wins(
    domain: Seq<char>,
    whitelist: Seq<Seq<char>>,
    blacklist: Seq<Seq<char>>,
)
    requires
        listed(domain, whitelist),
    ensures
        domain_permitted(domain, whitelist, blacklist),
{
}

/// With both lists empty every domain is allowed.
pub proof fn lemma_allowed_by_default(domain: Seq<char>)
    ensures
        domain_permitted(domain, Seq::empty(), Seq::empty()),
{
}

} // verus!
