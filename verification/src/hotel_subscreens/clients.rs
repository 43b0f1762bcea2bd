//! The fields that every client must have.

use vstd::prelude::*;
use crate::models::{Client, ClientView};

verus! {

/// A client names its identity document type, its identity document, its
/// name and its country.
pub open spec fn has_required_fields(c: ClientView) -> bool {
    &&& c.identity_document_type_id is Some
    &&& c.identity_document.len() > 0
    &&& c.name.len() > 0
    &&& c.country.len() > 0
}

/// Checks that the client has every required field.
pub fn is_client_valid(client: &Client) -> (valid: bool)
    ensures
        valid == has_required_fields(client@),
        client@.identity_document_type_id is None ==> !valid,
        client@.identity_document.len() == 0 ==> !valid,
        client@.name.len() == 0 ==> !valid,
        client@.country.len() == 0 ==> !valid,
{
    if client.identity_document_type_id.is_none() {
        false
    } else if client.identity_document.as_str().is_empty() {
        false
    } else if client.name.as_str().is_empty() {
        false
    } else if client.country.as_str().is_empty() {
        false
    } else {
        true
    }
}

} // verus!
