//! The wire protocol: its messages, the decoding of filter messages into
//! filters, and the envelopes of responses.

pub mod filter;
pub mod prisma;

use crate::ast::ConditionTree;
use crate::error::FilterError;
use crate::filter::Filter;
use crate::laws::failure::{law_compiles_when_resolved, law_decoded_filters_resolve};
use crate::protobuf::filter::IntoFilter;
use crate::query_arguments::IntoConditionTree;
use crate::schema::{ModelRef, Schema};
use crate::protobuf::prisma as pb;
use crate::protobuf::prisma::{
    ErrorValue, Header, NodesResult, ProtoError, Response, ResultMessage, ResultValue,
    RpcResponse, SelectedField, SelectedFieldKind,
};
use vstd::prelude::*;

verus! {

impl FilterError {
    /// The error as a response states it: the kind, and for an unknown
    /// field its name.
    pub open spec fn proto_value(self) -> ErrorValue {
        match self {
            FilterError::UnknownField { name } => ErrorValue::UnknownField(name),
            FilterError::UnsupportedFilter { .. } => ErrorValue::UnsupportedFilter(true),
            FilterError::MalformedCondition => ErrorValue::MalformedCondition(true),
        }
    }

    /// Converts the error into what a response carries.
    pub fn into_proto(self) -> (value: ErrorValue)
        ensures
            value == self.proto_value(),
    {
        match self {
            FilterError::UnknownField { name } => ErrorValue::UnknownField(name),
            FilterError::UnsupportedFilter { .. } => ErrorValue::UnsupportedFilter(true),
            FilterError::MalformedCondition => ErrorValue::MalformedCondition(true),
        }
    }
}

impl RpcResponse {
    /// The header of every response: it names the message type.
    pub fn header() -> (header: Header)
        ensures
            header.message_type@ == "RpcResponse"@,
    {
        Header { message_type: "RpcResponse".to_owned() }
    }

    /// A successful response without a payload.
    pub fn empty() -> (response: RpcResponse)
        ensures
            response.header.message_type@ == "RpcResponse"@,
            response.response == Some(Response::Result(ResultMessage { value: None })),
    {
        RpcResponse {
            header: Self::header(),
            response: Some(Response::Result(ResultMessage { value: None })),
        }
    }

    /// A successful response that carries the records found.
    pub fn ok(result: NodesResult) -> (response: RpcResponse)
        ensures
            response.header.message_type@ == "RpcResponse"@,
            response.response == Some(
                Response::Result(ResultMessage { value: Some(ResultValue::NodesResult(result)) }),
            ),
    {
        RpcResponse {
            header: Self::header(),
            response: Some(
                Response::Result(ResultMessage { value: Some(ResultValue::NodesResult(result)) }),
            ),
        }
    }

    /// A failed response that carries the error.
    pub fn error(error: FilterError) -> (response: RpcResponse)
        ensures
            response.header.message_type@ == "RpcResponse"@,
            response.response == Some(
                Response::Error(ProtoError { value: Some(error.proto_value()) }),
            ),
    {
        RpcResponse {
            header: Self::header(),
            response: Some(Response::Error(ProtoError { value: Some(error.into_proto()) })),
        }
    }
}

impl SelectedField {
    /// Whether the selection is of a scalar field.
    pub fn is_scalar(&self) -> (scalar: bool)
        ensures
            scalar == (self.field matches Some(SelectedFieldKind::Scalar(_))),
    {
        match self.field {
            Some(SelectedFieldKind::Scalar(_)) => true,
            _ => false,
        }
    }

    /// Whether the selection is of a relation field.
    pub fn is_relational(&self) -> (relational: bool)
        ensures
            relational == (self.field matches Some(SelectedFieldKind::Relational(_))),
    {
        match self.field {
            Some(SelectedFieldKind::Relational(_)) => true,
            _ => false,
        }
    }
}

/// Compiles a filter message against `model`: the message is decoded, and
/// the filter it says is compiled.
///
/// Where the message does not decode, the result is that failure. Where it
/// does, its field names have all resolved, so that the only failure left is
/// a subscription marker.
pub fn compile(message: pb::Filter, schema: &Schema, model: ModelRef) -> (tree: Result<
    ConditionTree,
    FilterError,
>)
    requires
        schema.wf(),
        model < schema.models@.len(),
    ensures
        match message.decode_failure(schema, model) {
            Some(e) => tree == Err::<ConditionTree, FilterError>(e),
            None => {
                &&& exists|filter: Filter| #[trigger]
                    filter.says(message, schema, model) && tree == filter.condition_tree(
                        schema,
                        model,
                    )
                &&& tree matches Err(e) ==> e is UnsupportedFilter
            },
        },
{
    match message.into_filter(schema, model) {
        Err(e) => Err(e),
        Ok(filter) => {
            proof {
                law_decoded_filters_resolve(filter, message, schema, model);
                law_compiles_when_resolved(filter, schema, model);
            }
            filter.into_condition_tree(schema, model)
        },
    }
}

} // verus!
