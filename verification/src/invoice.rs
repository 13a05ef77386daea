//! The invoice classifier: decide what a user-supplied payment string is
//! before it is wrapped into an outbound message.
//!
//! A string is first tried as a resolvable payment address (a
//! human-readable `user@domain` identifier, resolved later by the
//! counterparty), then as a direct, self-contained payment request with a
//! structurally verifiable encoding.  If neither parse succeeds the input is
//! rejected and nothing is sent.

use core::str::FromStr;
use vstd::prelude::*;

verus! {

/// Whether `s` parses as a resolvable payment address.  Names the verdict of
/// `lnurl::lightning_address::LightningAddress::from_str`, which depends on
/// the characters of `s` alone.
pub uninterp spec fn is_payment_address(s: Seq<char>) -> bool;

/// The canonical re-serialization of `s` as a direct payment request, if `s`
/// parses as one.  Names the verdict of
/// `lightning_invoice::Bolt11Invoice::from_str` composed with its canonical
/// encoder, which depends on the characters of `s` alone.
pub uninterp spec fn canonical_payment_request(s: Seq<char>) -> Option<Seq<char>>;

/// What a user-supplied payment string turned out to be.
#[derive(Debug)]
pub enum InvoiceClass {
    /// A resolvable payment address, carried through unmodified; resolution
    /// is deferred to the counterparty.
    PaymentAddress(String),
    /// A structurally valid payment request, in canonical re-serialized
    /// form.
    PaymentRequest(String),
}

/// Why a payment string was rejected.
#[derive(Debug)]
pub enum InvoiceError {
    /// Neither parse succeeded; carries the payment-request parser's
    /// diagnostic, to be surfaced to the user.
    InvalidFormat(String),
}

/// Relies on `lnurl::lightning_address::LightningAddress::from_str`: a
/// purely syntactic check that `s` is a well-formed `user@domain` payment
/// address, depending on the characters of `s` alone.
#[verifier::external_body]
fn payment_address_parses(s: &str) -> (r: bool)
    ensures
        r == is_payment_address(s@),
{
    lnurl::lightning_address::LightningAddress::from_str(s).is_ok()
}

/// Relies on `lightning_invoice::Bolt11Invoice::from_str`, the structural
/// check of a payment request (bech32 checksum, network prefix, amounts,
/// signature), and on its `Display` impl, the canonical re-serialization.
/// Both depend on the characters of `s` alone.  The `Err` diagnostic is the
/// parser's own message, about which nothing is assumed.
#[verifier::external_body]
fn parse_payment_request(s: &str) -> (r: Result<String, String>)
    ensures
        r is Ok <==> canonical_payment_request(s@) is Some,
        r matches Ok(c) ==> canonical_payment_request(s@) == Some(c@),
{
    match lightning_invoice::Bolt11Invoice::from_str(s) {
        Ok(inv) => Ok(inv.to_string()),
        Err(e) => Err(format!("{e}")),
    }
}

/// Classify a user-supplied payment string.
///
/// A resolvable payment address is passed through unmodified; a direct
/// payment request is returned in canonical re-serialized form; anything
/// else is rejected with the parse diagnostic, and the caller sends no
/// message.
pub fn classify_invoice(input: &str) -> (r: Result<InvoiceClass, InvoiceError>)
    ensures
        is_payment_address(input@) ==> (r matches Ok(InvoiceClass::PaymentAddress(a)) && a@
            == input@),
        !is_payment_address(input@) && canonical_payment_request(input@) is Some ==> (r matches Ok(
            InvoiceClass::PaymentRequest(c),
        ) && canonical_payment_request(input@) == Some(c@)),
        !is_payment_address(input@) && canonical_payment_request(input@) is None ==> r is Err,
{
    if payment_address_parses(input) {
        Ok(InvoiceClass::PaymentAddress(input.to_owned()))
    } else {
        match parse_payment_request(input) {
            Ok(c) => Ok(InvoiceClass::PaymentRequest(c)),
            Err(d) => Err(InvoiceError::InvalidFormat(d)),
        }
    }
}

} // verus!
