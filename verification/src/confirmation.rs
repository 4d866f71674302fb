//! The payload of a confirmation event.

use vstd::prelude::*;
use crate::json::{member_of, parse_document, parsed_document, text_member, text_of};

verus! {

/// What a confirmation event carries: where to confirm, and the number that
/// the confirmation refers to. It is read from the bytes of one event and not
/// kept.
#[derive(Debug, PartialEq, Eq)]
pub struct ConfirmationPayload {
    pub confirmation_url: String,
    pub ref_number: String,
}

/// What a [`ConfirmationPayload`] holds, as sequences of characters.
pub ghost struct ConfirmationModel {
    pub confirmation_url: Seq<char>,
    pub ref_number: Seq<char>,
}

impl View for ConfirmationPayload {
    type V = ConfirmationModel;

    open spec fn view(&self) -> ConfirmationModel {
        ConfirmationModel {
            confirmation_url: self.confirmation_url@,
            ref_number: self.ref_number@,
        }
    }
}

impl DeepView for ConfirmationPayload {
    type V = ConfirmationModel;

    open spec fn deep_view(&self) -> ConfirmationModel {
        self@
    }
}

/// The payload with the given members, where both are strings.
pub open spec fn confirmation_with(
    confirmation_url: Option<Seq<char>>,
    ref_number: Option<Seq<char>>,
) -> Option<ConfirmationModel> {
    match (confirmation_url, ref_number) {
        (Some(confirmation_url), Some(ref_number)) => Some(
            ConfirmationModel { confirmation_url, ref_number },
        ),
        _ => None,
    }
}

/// Puts the two members of a payload together; `None` where one is missing.
pub fn accept_confirmation(confirmation_url: Option<String>, ref_number: Option<String>) -> (r:
    Option<ConfirmationPayload>)
    ensures
        r.deep_view() == confirmation_with(confirmation_url.deep_view(), ref_number.deep_view()),
{
    match (confirmation_url, ref_number) {
        (Some(confirmation_url), Some(ref_number)) => Some(
            ConfirmationPayload { confirmation_url, ref_number },
        ),
        _ => None,
    }
}

/// The payload that `bytes` hold: they are a JSON document whose members
/// `confirmation_url` and `ref_number` are strings.
pub open spec fn confirmation_of(bytes: Seq<u8>) -> Option<ConfirmationModel> {
    match parsed_document(bytes) {
        None => None,
        Some(document) => confirmation_with(
            text_of(member_of(document, "confirmation_url"@)),
            text_of(member_of(document, "ref_number"@)),
        ),
    }
}

/// Reads the payload of a confirmation event; `None` where the bytes are not
/// JSON or a member is missing or no string.
pub fn read_confirmation(bytes: &[u8]) -> (r: Option<ConfirmationPayload>)
    ensures
        r.deep_view() == confirmation_of(bytes@),
{
    match parse_document(bytes) {
        Err(_) => None,
        Ok(document) => {
            let confirmation_url = text_member(&document, "confirmation_url");
            let ref_number = text_member(&document, "ref_number");
            accept_confirmation(confirmation_url, ref_number)
        },
    }
}

} // verus!
