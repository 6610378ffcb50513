//! The request and response messages as they come off the wire: field names
//! instead of field handles, and every part of a message optional.

use vstd::prelude::*;

verus! {

/// A record identifier.
#[derive(Clone, Debug, PartialEq, Eq)]
pub struct GraphqlId {
    pub id_value: Option<IdValue>,
}

/// The two forms of a record identifier.
#[derive(Clone, Debug, PartialEq, Eq)]
pub enum IdValue {
    String(String),
    Int(i64),
}

/// A scalar value, or nothing where the sender left it out.
#[derive(Clone, Debug, PartialEq, Eq)]
pub struct ValueContainer {
    pub prisma_value: Option<Value>,
}

/// The scalar values of the protocol. `Float` carries the IEEE-754 bit
/// pattern of a single-precision number; the flag in `Null` has no meaning.
#[derive(Clone, Debug, PartialEq, Eq)]
pub enum Value {
    String(String),
    Float(u32),
    Boolean(bool),
    DateTime(String),
    Enum(String),
    Json(String),
    Int(i32),
    Relation(i64),
    Null(bool),
    Uuid(String),
    GraphqlId(GraphqlId),
}

/// A list of scalar values.
#[derive(Clone, Debug, PartialEq, Eq)]
pub struct MultiContainer {
    pub values: Vec<ValueContainer>,
}

/// A reference to a relation field by name.
#[derive(Clone, Debug, PartialEq, Eq)]
pub struct RelationalField {
    pub field: String,
}

/// A filter message.
#[derive(Debug, PartialEq, Eq)]
pub struct Filter {
    pub type_: Option<FilterType>,
}

/// The kinds of filter message. The flag in `NodeSubscription` has no
/// meaning.
#[derive(Debug, PartialEq, Eq)]
pub enum FilterType {
    And(AndFilter),
    Or(OrFilter),
    Not(NotFilter),
    Scalar(ScalarFilter),
    ScalarList(ScalarListFilter),
    OneRelationIsNull(RelationalField),
    Relation(Box<RelationFilter>),
    NodeSubscription(bool),
    BoolFilter(bool),
}

#[derive(Debug, PartialEq, Eq)]
pub struct AndFilter {
    pub filters: Vec<Filter>,
}

#[derive(Debug, PartialEq, Eq)]
pub struct OrFilter {
    pub filters: Vec<Filter>,
}

#[derive(Debug, PartialEq, Eq)]
pub struct NotFilter {
    pub filters: Vec<Filter>,
}

/// A comparison on the scalar field called `field`.
#[derive(Clone, Debug, PartialEq, Eq)]
pub struct ScalarFilter {
    pub field: String,
    pub condition: Option<ScalarCondition>,
}

#[derive(Clone, Debug, PartialEq, Eq)]
pub enum ScalarCondition {
    Equals(ValueContainer),
    NotEquals(ValueContainer),
    Contains(ValueContainer),
    NotContains(ValueContainer),
    StartsWith(ValueContainer),
    NotStartsWith(ValueContainer),
    EndsWith(ValueContainer),
    NotEndsWith(ValueContainer),
    LessThan(ValueContainer),
    LessThanOrEquals(ValueContainer),
    GreaterThan(ValueContainer),
    GreaterThanOrEquals(ValueContainer),
    In(MultiContainer),
    NotIn(MultiContainer),
}

/// A containment test on the list-valued field called `field`.
#[derive(Clone, Debug, PartialEq, Eq)]
pub struct ScalarListFilter {
    pub field: String,
    pub condition: Option<ScalarListCondition>,
}

#[derive(Clone, Debug, PartialEq, Eq)]
pub enum ScalarListCondition {
    Contains(ValueContainer),
    ContainsEvery(MultiContainer),
    ContainsSome(MultiContainer),
}

/// A quantified predicate over the records related through `field`.
#[derive(Debug, PartialEq, Eq)]
pub struct RelationFilter {
    pub field: RelationalField,
    pub nested_filter: Box<Filter>,
    pub condition: RelationCondition,
}

#[derive(Clone, Copy, Debug, PartialEq, Eq)]
pub enum RelationCondition {
    EveryRelatedNode,
    AtLeastOneRelatedNode,
    NoRelatedNode,
    ToOneRelatedNode,
}

/// A field that a query selects.
#[derive(Clone, Debug, PartialEq, Eq)]
pub struct SelectedField {
    pub field: Option<SelectedFieldKind>,
}

#[derive(Clone, Debug, PartialEq, Eq)]
pub enum SelectedFieldKind {
    Scalar(String),
    Relational(RelationalField),
}

/// Names the type of the message it heads.
#[derive(Clone, Debug, PartialEq, Eq)]
pub struct Header {
    pub message_type: String,
}

/// One record of a result: a value for each selected field.
#[derive(Clone, Debug, PartialEq, Eq)]
pub struct Node {
    pub values: Vec<ValueContainer>,
}

/// The records that a query found, with the names of their fields.
#[derive(Clone, Debug, PartialEq, Eq)]
pub struct NodesResult {
    pub nodes: Vec<Node>,
    pub fields: Vec<String>,
}

#[derive(Clone, Debug, PartialEq, Eq)]
pub enum ResultValue {
    NodesResult(NodesResult),
}

/// The payload of a successful response; empty where there is nothing to
/// return.
#[derive(Clone, Debug, PartialEq, Eq)]
pub struct ResultMessage {
    pub value: Option<ResultValue>,
}

/// What went wrong, as responses state it. The flags have no meaning.
#[derive(Clone, Debug, PartialEq, Eq)]
pub enum ErrorValue {
    UnknownField(String),
    UnsupportedFilter(bool),
    MalformedCondition(bool),
}

/// The payload of a failed response.
#[derive(Clone, Debug, PartialEq, Eq)]
pub struct ProtoError {
    pub value: Option<ErrorValue>,
}

#[derive(Clone, Debug, PartialEq, Eq)]
pub enum Response {
    Result(ResultMessage),
    Error(ProtoError),
}

/// The response to a remote call.
#[derive(Clone, Debug, PartialEq, Eq)]
pub struct RpcResponse {
    pub header: Header,
    pub response: Option<Response>,
}

} // verus!
