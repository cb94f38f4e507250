//! Types of other crates that appear in this library's signatures.

use vstd::prelude::*;

verus! {

/// `agent_client_protocol::schema::v1::ToolKind`, the protocol's classification
/// of tools by effect. Nothing is assumed of it: Verus reads the enum's
/// variants, which carry no data, from the crate itself.
#[verifier::external_type_specification]
pub struct ExToolKind(agent_client_protocol::schema::v1::ToolKind);

/// `serde_json::Value`, an undecoded structured value. It is opaque here: the
/// library carries such a value and never looks inside.
#[verifier::external_type_specification]
#[verifier::external_body]
pub struct ExJsonValue(serde_json::Value);

} // verus!
