//! Rulesets as JSON documents: what is written to the tool, and what it
//! lists.
use vstd::prelude::*;

use nftables::schema::Nftables;

use crate::error::{ExchangeError, ExchangeErrorView};

verus! {

#[verifier::external_type_specification]
#[verifier::external_body]
pub struct ExNftables<'a>(Nftables<'a>);

/// Whether `text` is a JSON document of an nftables ruleset.
pub uninterp spec fn is_ruleset_json(text: Seq<char>) -> bool;

/// Whether `text` is a JSON document that `serde_json::to_string` writes
/// for `ruleset`. It is a relation rather than a function: the order in
/// which the ruleset's flag sets are written depends on how they are walked.
pub uninterp spec fn ruleset_json_of(ruleset: Nftables, text: Seq<char>) -> bool;

/// Relies on `serde_json::from_str`, which reads an nftables document from
/// JSON text; whether it succeeds depends on the text alone.
#[verifier::external_body]
fn from_json(text: &str) -> (r: Result<Nftables<'static>, serde_json::Error>)
    ensures
        r is Ok <==> is_ruleset_json(text@),
{
    serde_json::from_str(text)
}

/// Relies on `serde_json::to_string`, which writes an nftables document as
/// JSON text. It fails only where a `Serialize` impl fails or a map has keys
/// that are not strings; the nftables types derive their impls and key
/// their maps by strings, so it succeeds.
#[verifier::external_body]
fn to_json(ruleset: &Nftables<'_>) -> (r: Result<String, serde_json::Error>)
    ensures
        r is Ok,
        ruleset_json_of(*ruleset, r->Ok_0@),
{
    serde_json::to_string(ruleset)
}

/// The payload that applies `ruleset`: its JSON document.
pub fn ruleset_payload(ruleset: &Nftables<'_>) -> (r: Result<String, ExchangeError>)
    ensures
        r is Ok,
        ruleset_json_of(*ruleset, r->Ok_0@),
{
    match to_json(ruleset) {
        Ok(text) => Ok(text),
        Err(inner) => Err(ExchangeError::InvalidJson(inner)),
    }
}

/// Reads the ruleset that the tool listed as `text`.
pub fn parse_ruleset(text: &str) -> (r: Result<Nftables<'static>, ExchangeError>)
    ensures
        r is Ok <==> is_ruleset_json(text@),
        r matches Err(e) ==> e@ is InvalidJson,
{
    match from_json(text) {
        Ok(ruleset) => Ok(ruleset),
        Err(inner) => Err(ExchangeError::InvalidJson(inner)),
    }
}

} // verus!
