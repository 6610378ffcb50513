//! Decoding of filter messages: field names are resolved against the
//! catalog, and values are checked to be present and representable.

use crate::error::FilterError;
use crate::filter::{
    Filter, OneRelationIsNullFilter, RelationCondition, RelationFilter, ScalarCondition,
    ScalarFilter, ScalarListCondition, ScalarListFilter,
};
use crate::prisma_value::{GraphqlId, PrismaValue};
use crate::protobuf::prisma as pb;
use crate::schema::{ModelRef, Schema};
use vstd::prelude::*;

verus! {

/// A message that decodes into a filter over a model of a schema.
pub trait IntoFilter: Sized {
    /// Why the message does not decode, if it does not.
    spec fn failure(self, schema: &Schema, model: ModelRef) -> Option<FilterError>;

    /// Whether `filter` is what the message says.
    spec fn decodes_to(self, filter: Filter, schema: &Schema, model: ModelRef) -> bool;

    /// Decodes the message against `model`.
    fn into_filter(self, schema: &Schema, model: ModelRef) -> (filter: Result<Filter, FilterError>)
        requires
            schema.wf(),
            model < schema.models@.len(),
        ensures
            match filter {
                Ok(f) => self.failure(schema, model) is None && self.decodes_to(f, schema, model),
                Err(e) => self.failure(schema, model) == Some(e),
            },
    ;
}

/// Whether a wire integer is a value that an identifier can hold.
pub open spec fn fits_identifier(i: i64) -> bool {
    0 <= i <= usize::MAX
}

impl pb::GraphqlId {
    /// The identifier that the message states; malformed where it states
    /// none, or a number that no identifier holds.
    pub open spec fn decoded(self) -> Result<GraphqlId, FilterError> {
        match self.id_value {
            None => Err(FilterError::MalformedCondition),
            Some(pb::IdValue::String(s)) => Ok(GraphqlId::String(s)),
            Some(pb::IdValue::Int(i)) => if fits_identifier(i) {
                Ok(GraphqlId::Int(i as usize))
            } else {
                Err(FilterError::MalformedCondition)
            },
        }
    }

    /// Decodes the identifier.
    pub fn to_graphql_id(&self) -> (id: Result<GraphqlId, FilterError>)
        ensures
            id == self.decoded(),
    {
        match &self.id_value {
            None => Err(FilterError::MalformedCondition),
            Some(pb::IdValue::String(s)) => Ok(GraphqlId::String(s.clone())),
            Some(pb::IdValue::Int(i)) => {
                let i: i64 = *i;
                if 0 <= i && i as u64 <= usize::MAX as u64 {
                    Ok(GraphqlId::Int(i as usize))
                } else {
                    Err(FilterError::MalformedCondition)
                }
            },
        }
    }
}

impl pb::ValueContainer {
    /// The value that the container holds; malformed where it holds none,
    /// or one that no value can hold.
    pub open spec fn decoded(self) -> Result<PrismaValue, FilterError> {
        match self.prisma_value {
            None => Err(FilterError::MalformedCondition),
            Some(pb::Value::String(v)) => Ok(PrismaValue::String(v)),
            Some(pb::Value::Float(v)) => Ok(PrismaValue::Float(v)),
            Some(pb::Value::Boolean(v)) => Ok(PrismaValue::Boolean(v)),
            Some(pb::Value::DateTime(v)) => Ok(PrismaValue::DateTime(v)),
            Some(pb::Value::Enum(v)) => Ok(PrismaValue::Enum(v)),
            Some(pb::Value::Json(v)) => Ok(PrismaValue::Json(v)),
            Some(pb::Value::Int(v)) => Ok(PrismaValue::Int(v)),
            Some(pb::Value::Relation(v)) => if fits_identifier(v) {
                Ok(PrismaValue::Relation(v as usize))
            } else {
                Err(FilterError::MalformedCondition)
            },
            Some(pb::Value::Null(_)) => Ok(PrismaValue::Null),
            Some(pb::Value::Uuid(v)) => Ok(PrismaValue::Uuid(v)),
            Some(pb::Value::GraphqlId(v)) => match v.decoded() {
                Ok(id) => Ok(PrismaValue::GraphqlId(id)),
                Err(e) => Err(e),
            },
        }
    }

    /// Decodes the value.
    pub fn to_prisma_value(&self) -> (value: Result<PrismaValue, FilterError>)
        ensures
            value == self.decoded(),
    {
        match &self.prisma_value {
            None => Err(FilterError::MalformedCondition),
            Some(pb::Value::String(v)) => Ok(PrismaValue::String(v.clone())),
            Some(pb::Value::Float(v)) => Ok(PrismaValue::Float(*v)),
            Some(pb::Value::Boolean(v)) => Ok(PrismaValue::Boolean(*v)),
            Some(pb::Value::DateTime(v)) => Ok(PrismaValue::DateTime(v.clone())),
            Some(pb::Value::Enum(v)) => Ok(PrismaValue::Enum(v.clone())),
            Some(pb::Value::Json(v)) => Ok(PrismaValue::Json(v.clone())),
            Some(pb::Value::Int(v)) => Ok(PrismaValue::Int(*v)),
            Some(pb::Value::Relation(v)) => {
                let v: i64 = *v;
                if 0 <= v && v as u64 <= usize::MAX as u64 {
                    Ok(PrismaValue::Relation(v as usize))
                } else {
                    Err(FilterError::MalformedCondition)
                }
            },
            Some(pb::Value::Null(_)) => Ok(PrismaValue::Null),
            Some(pb::Value::Uuid(v)) => Ok(PrismaValue::Uuid(v.clone())),
            Some(pb::Value::GraphqlId(v)) => match v.to_graphql_id() {
                Ok(id) => Ok(PrismaValue::GraphqlId(id)),
                Err(e) => Err(e),
            },
        }
    }
}

/// Every container of the list holds a value.
pub open spec fn all_decode(values: Seq<pb::ValueContainer>) -> bool {
    forall|i: int| 0 <= i < values.len() ==> (#[trigger] values[i]).decoded() is Ok
}

/// The values that the containers hold, in order.
pub open spec fn decoded_values(values: Seq<pb::ValueContainer>) -> Seq<PrismaValue> {
    Seq::new(values.len(), |i: int| values[i].decoded()->Ok_0)
}

impl pb::MultiContainer {
    /// Decodes the values of the list, in order; malformed where one of
    /// them is.
    pub fn to_prisma_values(&self) -> (values: Result<Vec<PrismaValue>, FilterError>)
        ensures
            match values {
                Ok(v) => all_decode(self.values@) && v@ == decoded_values(self.values@),
                Err(e) => !all_decode(self.values@) && e == FilterError::MalformedCondition,
            },
    {
        let mut out: Vec<PrismaValue> = Vec::new();
        let mut i: usize = 0;
        while i < self.values.len()
            invariant
                i <= self.values.len(),
                out@.len() == i,
                forall|k: int| 0 <= k < i ==> (#[trigger] self.values@[k]).decoded() == Ok::<
                    PrismaValue,
                    FilterError,
                >(out@[k]),
            decreases self.values.len() - i,
        {
            match self.values[i].to_prisma_value() {
                Ok(value) => out.push(value),
                Err(e) => {
                    return Err(FilterError::MalformedCondition);
                },
            }
            i += 1;
        }
        Ok(out)
    }
}

impl pb::RelationCondition {
    /// The quantifier that the message names.
    pub open spec fn decoded(self) -> RelationCondition {
        match self {
            pb::RelationCondition::EveryRelatedNode => RelationCondition::EveryRelatedNode,
            pb::RelationCondition::AtLeastOneRelatedNode => RelationCondition::AtLeastOneRelatedNode,
            pb::RelationCondition::NoRelatedNode => RelationCondition::NoRelatedNode,
            pb::RelationCondition::ToOneRelatedNode => RelationCondition::ToOneRelatedNode,
        }
    }

    /// Decodes the quantifier.
    pub fn to_relation_condition(self) -> (condition: RelationCondition)
        ensures
            condition == self.decoded(),
    {
        match self {
            pb::RelationCondition::EveryRelatedNode => RelationCondition::EveryRelatedNode,
            pb::RelationCondition::AtLeastOneRelatedNode => RelationCondition::AtLeastOneRelatedNode,
            pb::RelationCondition::NoRelatedNode => RelationCondition::NoRelatedNode,
            pb::RelationCondition::ToOneRelatedNode => RelationCondition::ToOneRelatedNode,
        }
    }
}

impl pb::ScalarCondition {
    /// Whether every operand of the condition decodes.
    pub open spec fn well_formed(self) -> bool {
        match self {
            pb::ScalarCondition::Equals(v) => v.decoded() is Ok,
            pb::ScalarCondition::NotEquals(v) => v.decoded() is Ok,
            pb::ScalarCondition::Contains(v) => v.decoded() is Ok,
            pb::ScalarCondition::NotContains(v) => v.decoded() is Ok,
            pb::ScalarCondition::StartsWith(v) => v.decoded() is Ok,
            pb::ScalarCondition::NotStartsWith(v) => v.decoded() is Ok,
            pb::ScalarCondition::EndsWith(v) => v.decoded() is Ok,
            pb::ScalarCondition::NotEndsWith(v) => v.decoded() is Ok,
            pb::ScalarCondition::LessThan(v) => v.decoded() is Ok,
            pb::ScalarCondition::LessThanOrEquals(v) => v.decoded() is Ok,
            pb::ScalarCondition::GreaterThan(v) => v.decoded() is Ok,
            pb::ScalarCondition::GreaterThanOrEquals(v) => v.decoded() is Ok,
            pb::ScalarCondition::In(vs) => all_decode(vs.values@),
            pb::ScalarCondition::NotIn(vs) => all_decode(vs.values@),
        }
    }

    /// Whether `condition` is the same comparison, on the decoded operands.
    pub open spec fn decodes_to(self, condition: ScalarCondition) -> bool {
        match self {
            pb::ScalarCondition::Equals(v) => condition == ScalarCondition::Equals(
                v.decoded()->Ok_0,
            ),
            pb::ScalarCondition::NotEquals(v) => condition == ScalarCondition::NotEquals(
                v.decoded()->Ok_0,
            ),
            pb::ScalarCondition::Contains(v) => condition == ScalarCondition::Contains(
                v.decoded()->Ok_0,
            ),
            pb::ScalarCondition::NotContains(v) => condition == ScalarCondition::NotContains(
                v.decoded()->Ok_0,
            ),
            pb::ScalarCondition::StartsWith(v) => condition == ScalarCondition::StartsWith(
                v.decoded()->Ok_0,
            ),
            pb::ScalarCondition::NotStartsWith(v) => condition == ScalarCondition::NotStartsWith(
                v.decoded()->Ok_0,
            ),
            pb::ScalarCondition::EndsWith(v) => condition == ScalarCondition::EndsWith(
                v.decoded()->Ok_0,
            ),
            pb::ScalarCondition::NotEndsWith(v) => condition == ScalarCondition::NotEndsWith(
                v.decoded()->Ok_0,
            ),
            pb::ScalarCondition::LessThan(v) => condition == ScalarCondition::LessThan(
                v.decoded()->Ok_0,
            ),
            pb::ScalarCondition::LessThanOrEquals(v) => condition
                == ScalarCondition::LessThanOrEquals(v.decoded()->Ok_0),
            pb::ScalarCondition::GreaterThan(v) => condition == ScalarCondition::GreaterThan(
                v.decoded()->Ok_0,
            ),
            pb::ScalarCondition::GreaterThanOrEquals(v) => condition
                == ScalarCondition::GreaterThanOrEquals(v.decoded()->Ok_0),
            pb::ScalarCondition::In(vs) => condition matches ScalarCondition::In(values)
                && values@ == decoded_values(vs.values@),
            pb::ScalarCondition::NotIn(vs) => condition matches ScalarCondition::NotIn(values)
                && values@ == decoded_values(vs.values@),
        }
    }

    /// Decodes the condition; malformed where an operand is.
    pub fn to_scalar_condition(&self) -> (condition: Result<ScalarCondition, FilterError>)
        ensures
            match condition {
                Ok(c) => self.well_formed() && self.decodes_to(c),
                Err(e) => !self.well_formed() && e == FilterError::MalformedCondition,
            },
    {
        match self {
            pb::ScalarCondition::Equals(v) => match v.to_prisma_value() {
                Ok(value) => Ok(ScalarCondition::Equals(value)),
                Err(_) => Err(FilterError::MalformedCondition),
            },
            pb::ScalarCondition::NotEquals(v) => match v.to_prisma_value() {
                Ok(value) => Ok(ScalarCondition::NotEquals(value)),
                Err(_) => Err(FilterError::MalformedCondition),
            },
            pb::ScalarCondition::Contains(v) => match v.to_prisma_value() {
                Ok(value) => Ok(ScalarCondition::Contains(value)),
                Err(_) => Err(FilterError::MalformedCondition),
            },
            pb::ScalarCondition::NotContains(v) => match v.to_prisma_value() {
                Ok(value) => Ok(ScalarCondition::NotContains(value)),
                Err(_) => Err(FilterError::MalformedCondition),
            },
            pb::ScalarCondition::StartsWith(v) => match v.to_prisma_value() {
                Ok(value) => Ok(ScalarCondition::StartsWith(value)),
                Err(_) => Err(FilterError::MalformedCondition),
            },
            pb::ScalarCondition::NotStartsWith(v) => match v.to_prisma_value() {
                Ok(value) => Ok(ScalarCondition::NotStartsWith(value)),
                Err(_) => Err(FilterError::MalformedCondition),
            },
            pb::ScalarCondition::EndsWith(v) => match v.to_prisma_value() {
                Ok(value) => Ok(ScalarCondition::EndsWith(value)),
                Err(_) => Err(FilterError::MalformedCondition),
            },
            pb::ScalarCondition::NotEndsWith(v) => match v.to_prisma_value() {
                Ok(value) => Ok(ScalarCondition::NotEndsWith(value)),
                Err(_) => Err(FilterError::MalformedCondition),
            },
            pb::ScalarCondition::LessThan(v) => match v.to_prisma_value() {
                Ok(value) => Ok(ScalarCondition::LessThan(value)),
                Err(_) => Err(FilterError::MalformedCondition),
            },
            pb::ScalarCondition::LessThanOrEquals(v) => match v.to_prisma_value() {
                Ok(value) => Ok(ScalarCondition::LessThanOrEquals(value)),
                Err(_) => Err(FilterError::MalformedCondition),
            },
            pb::ScalarCondition::GreaterThan(v) => match v.to_prisma_value() {
                Ok(value) => Ok(ScalarCondition::GreaterThan(value)),
                Err(_) => Err(FilterError::MalformedCondition),
            },
            pb::ScalarCondition::GreaterThanOrEquals(v) => match v.to_prisma_value() {
                Ok(value) => Ok(ScalarCondition::GreaterThanOrEquals(value)),
                Err(_) => Err(FilterError::MalformedCondition),
            },
            pb::ScalarCondition::In(vs) => match vs.to_prisma_values() {
                Ok(values) => Ok(ScalarCondition::In(values)),
                Err(e) => Err(e),
            },
            pb::ScalarCondition::NotIn(vs) => match vs.to_prisma_values() {
                Ok(values) => Ok(ScalarCondition::NotIn(values)),
                Err(e) => Err(e),
            },
        }
    }
}

impl pb::ScalarListCondition {
    /// Whether every operand of the condition decodes.
    pub open spec fn well_formed(self) -> bool {
        match self {
            pb::ScalarListCondition::Contains(v) => v.decoded() is Ok,
            pb::ScalarListCondition::ContainsEvery(vs) => all_decode(vs.values@),
            pb::ScalarListCondition::ContainsSome(vs) => all_decode(vs.values@),
        }
    }

    /// Whether `condition` is the same test, on the decoded operands.
    pub open spec fn decodes_to(self, condition: ScalarListCondition) -> bool {
        match self {
            pb::ScalarListCondition::Contains(v) => condition == ScalarListCondition::Contains(
                v.decoded()->Ok_0,
            ),
            pb::ScalarListCondition::ContainsEvery(vs) => condition matches ScalarListCondition::ContainsEvery(
                values,
            ) && values@ == decoded_values(vs.values@),
            pb::ScalarListCondition::ContainsSome(vs) => condition matches ScalarListCondition::ContainsSome(
                values,
            ) && values@ == decoded_values(vs.values@),
        }
    }

    /// Decodes the condition; malformed where an operand is.
    pub fn to_scalar_list_condition(&self) -> (condition: Result<ScalarListCondition, FilterError>)
        ensures
            match condition {
                Ok(c) => self.well_formed() && self.decodes_to(c),
                Err(e) => !self.well_formed() && e == FilterError::MalformedCondition,
            },
    {
        match self {
            pb::ScalarListCondition::Contains(v) => match v.to_prisma_value() {
                Ok(value) => Ok(ScalarListCondition::Contains(value)),
                Err(_) => Err(FilterError::MalformedCondition),
            },
            pb::ScalarListCondition::ContainsEvery(vs) => match vs.to_prisma_values() {
                Ok(values) => Ok(ScalarListCondition::ContainsEvery(values)),
                Err(e) => Err(e),
            },
            pb::ScalarListCondition::ContainsSome(vs) => match vs.to_prisma_values() {
                Ok(values) => Ok(ScalarListCondition::ContainsSome(values)),
                Err(e) => Err(e),
            },
        }
    }
}

/// The first failure among `filters` from position `from` on, if any.
pub open spec fn first_failure(
    filters: Seq<pb::Filter>,
    from: nat,
    schema: &Schema,
    model: ModelRef,
) -> Option<FilterError>
    decreases filters, filters.len() - from,
{
    if from >= filters.len() {
        None
    } else {
        match filters[from as int].decode_failure(schema, model) {
            Some(e) => Some(e),
            None => first_failure(filters, from + 1, schema, model),
        }
    }
}

impl pb::Filter {
    /// Why the message does not decode against `model`, if it does not.
    ///
    /// A message without a kind is malformed. A field name that the model
    /// in scope does not have is an unknown field: for the filters below a
    /// relation filter, the model in scope is the one that the relation leads
    /// to. A condition that is missing, or has an operand that does not
    /// decode, is malformed. The name is looked at before the condition, the
    /// children of a combinator in order, and the first failure counts.
    pub open spec fn decode_failure(self, schema: &Schema, model: ModelRef) -> Option<FilterError>
        decreases self, 0nat,
    {
        match self.type_ {
            None => Some(FilterError::MalformedCondition),
            Some(pb::FilterType::And(and)) => first_failure(and.filters@, 0, schema, model),
            Some(pb::FilterType::Or(or)) => first_failure(or.filters@, 0, schema, model),
            Some(pb::FilterType::Not(not)) => first_failure(not.filters@, 0, schema, model),
            Some(pb::FilterType::Scalar(scalar)) => scalar.decode_failure(schema, model),
            Some(pb::FilterType::ScalarList(list)) => list.decode_failure(schema, model),
            Some(pb::FilterType::OneRelationIsNull(field)) => match schema.models@[model as int].relation_named(
                field.field@,
            ) {
                None => Some(FilterError::UnknownField { name: field.field }),
                Some(_) => None,
            },
            Some(pb::FilterType::Relation(relation)) => relation.decode_failure(schema, model),
            Some(pb::FilterType::NodeSubscription(_)) => None,
            Some(pb::FilterType::BoolFilter(_)) => None,
        }
    }
}

impl pb::RelationFilter {
    /// Why the message does not decode against `model`: its field is
    /// unknown, or else its nested filter does not decode against the model
    /// that the relation leads to.
    pub open spec fn decode_failure(self, schema: &Schema, model: ModelRef) -> Option<FilterError>
        decreases self, 0nat,
    {
        match schema.models@[model as int].relation_named(self.field.field@) {
            None => Some(FilterError::UnknownField { name: self.field.field }),
            Some(_) => self.nested_filter.decode_failure(
                schema,
                schema.related_through(model, self.field.field@),
            ),
        }
    }
}

/// Whether `filters` are what `messages` say, one for one.
pub open spec fn each_says(
    filters: Seq<Box<Filter>>,
    messages: Seq<pb::Filter>,
    schema: &Schema,
    model: ModelRef,
) -> bool {
    &&& filters.len() == messages.len()
    &&& forall|i: int|
        0 <= i < filters.len() ==> (#[trigger] filters[i]).says(messages[i], schema, model)
}

impl RelationFilter {
    /// Whether the filter is what `message` says against `model`: on the
    /// field that the message's name resolves to, with the same quantifier,
    /// and a nested filter that is what the message's nested filter says
    /// against the model that the relation leads to.
    pub open spec fn says(self, message: pb::RelationFilter, schema: &Schema, model: ModelRef) -> bool
        decreases self,
    {
        &&& schema.models@[model as int].relation_named(message.field.field@) == Some(self.field)
        &&& self.condition == message.condition.decoded()
        &&& self.nested_filter.says(
            *message.nested_filter,
            schema,
            schema.related_through(model, message.field.field@),
        )
    }
}

impl Filter {
    /// Whether the filter is what `message` says against `model`: of the
    /// same kind, with the fields that the message's names resolve to, the
    /// decoded operands, and children that are what the message's children
    /// say.
    pub open spec fn says(self, message: pb::Filter, schema: &Schema, model: ModelRef) -> bool
        decreases self,
    {
        match self {
            Filter::And(filters) => {
                &&& message.type_ matches Some(pb::FilterType::And(and))
                &&& filters@.len() == and.filters@.len()
                &&& forall|i: int|
                    0 <= i < filters@.len() ==> (#[trigger] filters@[i]).says(
                        and.filters@[i],
                        schema,
                        model,
                    )
            },
            Filter::Or(filters) => {
                &&& message.type_ matches Some(pb::FilterType::Or(or))
                &&& filters@.len() == or.filters@.len()
                &&& forall|i: int|
                    0 <= i < filters@.len() ==> (#[trigger] filters@[i]).says(
                        or.filters@[i],
                        schema,
                        model,
                    )
            },
            Filter::Not(filters) => {
                &&& message.type_ matches Some(pb::FilterType::Not(not))
                &&& filters@.len() == not.filters@.len()
                &&& forall|i: int|
                    0 <= i < filters@.len() ==> (#[trigger] filters@[i]).says(
                        not.filters@[i],
                        schema,
                        model,
                    )
            },
            Filter::Scalar(filter) => {
                &&& message.type_ matches Some(pb::FilterType::Scalar(scalar))
                &&& scalar.decodes_to(filter, schema, model)
            },
            Filter::ScalarList(filter) => {
                &&& message.type_ matches Some(pb::FilterType::ScalarList(list))
                &&& list.decodes_to(filter, schema, model)
            },
            Filter::OneRelationIsNull(filter) => {
                &&& message.type_ matches Some(pb::FilterType::OneRelationIsNull(field))
                &&& schema.models@[model as int].relation_named(field.field@) == Some(filter.field)
            },
            Filter::Relation(filter) => {
                &&& message.type_ matches Some(pb::FilterType::Relation(relation))
                &&& filter.says(*relation, schema, model)
            },
            Filter::NodeSubscription => message.type_ matches Some(
                pb::FilterType::NodeSubscription(_),
            ),
            Filter::BoolFilter(b) => message.type_ == Some(pb::FilterType::BoolFilter(b)),
        }
    }
}

/// Decodes a list of filter messages, in order.
fn decode_filters(messages: &Vec<pb::Filter>, schema: &Schema, model: ModelRef) -> (filters: Result<
    Vec<Box<Filter>>,
    FilterError,
>)
    requires
        schema.wf(),
        model < schema.models@.len(),
    ensures
        match filters {
            Ok(f) => first_failure(messages@, 0, schema, model) is None && each_says(
                f@,
                messages@,
                schema,
                model,
            ),
            Err(e) => first_failure(messages@, 0, schema, model) == Some(e),
        },
    decreases messages, messages@.len() + 1,
{
    let mut out: Vec<Box<Filter>> = Vec::new();
    let mut i: usize = 0;
    while i < messages.len()
        invariant
            schema.wf(),
            model < schema.models@.len(),
            i <= messages.len(),
            out@.len() == i,
            first_failure(messages@, 0, schema, model) == first_failure(
                messages@,
                i as nat,
                schema,
                model,
            ),
            forall|k: int|
                0 <= k < i ==> (#[trigger] out@[k]).says(messages@[k], schema, model),
        decreases messages.len() - i,
    {
        match decode_filter(&messages[i], schema, model) {
            Ok(filter) => out.push(Box::new(filter)),
            Err(e) => {
                return Err(e);
            },
        }
        i += 1;
    }
    Ok(out)
}

/// Decodes a relation filter message against `model`.
fn decode_relation(message: &pb::RelationFilter, schema: &Schema, model: ModelRef) -> (filter:
    Result<RelationFilter, FilterError>)
    requires
        schema.wf(),
        model < schema.models@.len(),
    ensures
        match filter {
            Ok(f) => message.decode_failure(schema, model) is None && f.says(
                *message,
                schema,
                model,
            ),
            Err(e) => message.decode_failure(schema, model) == Some(e),
        },
    decreases message, 0nat,
{
    let field = match schema.models[model].find_from_relation_fields(&message.field.field) {
        Ok(field) => field,
        Err(e) => {
            return Err(e);
        },
    };
    proof {
        schema.lemma_resolved_relation(model, message.field.field@);
    }
    let related = schema.related_model(&field);
    match decode_filter(&message.nested_filter, schema, related) {
        Ok(nested) => Ok(
            RelationFilter {
                field,
                nested_filter: Box::new(nested),
                condition: message.condition.to_relation_condition(),
            },
        ),
        Err(e) => Err(e),
    }
}

/// Decodes a filter message against `model`.
fn decode_filter(message: &pb::Filter, schema: &Schema, model: ModelRef) -> (filter: Result<
    Filter,
    FilterError,
>)
    requires
        schema.wf(),
        model < schema.models@.len(),
    ensures
        match filter {
            Ok(f) => message.decode_failure(schema, model) is None && f.says(
                *message,
                schema,
                model,
            ),
            Err(e) => message.decode_failure(schema, model) == Some(e),
        },
    decreases message, 0nat,
{
    match &message.type_ {
        None => Err(FilterError::MalformedCondition),
        Some(pb::FilterType::And(and)) => match decode_filters(&and.filters, schema, model) {
            Ok(filters) => Ok(Filter::And(filters)),
            Err(e) => Err(e),
        },
        Some(pb::FilterType::Or(or)) => match decode_filters(&or.filters, schema, model) {
            Ok(filters) => Ok(Filter::Or(filters)),
            Err(e) => Err(e),
        },
        Some(pb::FilterType::Not(not)) => match decode_filters(&not.filters, schema, model) {
            Ok(filters) => Ok(Filter::Not(filters)),
            Err(e) => Err(e),
        },
        Some(pb::FilterType::Scalar(scalar)) => match scalar.to_filter(schema, model) {
            Ok(filter) => Ok(Filter::Scalar(filter)),
            Err(e) => Err(e),
        },
        Some(pb::FilterType::ScalarList(list)) => match list.to_filter(schema, model) {
            Ok(filter) => Ok(Filter::ScalarList(filter)),
            Err(e) => Err(e),
        },
        Some(pb::FilterType::OneRelationIsNull(field)) => {
            match schema.models[model].find_from_relation_fields(&field.field) {
                Ok(field) => Ok(Filter::OneRelationIsNull(OneRelationIsNullFilter { field })),
                Err(e) => Err(e),
            }
        },
        Some(pb::FilterType::Relation(relation)) => match decode_relation(
            relation,
            schema,
            model,
        ) {
            Ok(filter) => Ok(Filter::Relation(filter)),
            Err(e) => Err(e),
        },
        Some(pb::FilterType::NodeSubscription(_)) => Ok(Filter::NodeSubscription),
        Some(pb::FilterType::BoolFilter(b)) => Ok(Filter::BoolFilter(*b)),
    }
}

impl pb::ScalarFilter {
    /// Why the message does not decode: the field is unknown, or else the
    /// condition is missing or has an operand that does not decode.
    pub open spec fn decode_failure(self, schema: &Schema, model: ModelRef) -> Option<
        FilterError,
    > {
        match schema.models@[model as int].scalar_named(self.field@) {
            None => Some(FilterError::UnknownField { name: self.field }),
            Some(_) => match self.condition {
                None => Some(FilterError::MalformedCondition),
                Some(condition) => if condition.well_formed() {
                    None
                } else {
                    Some(FilterError::MalformedCondition)
                },
            },
        }
    }

    /// Whether `filter` is the comparison that the message states, on the
    /// field that its name resolves to.
    pub open spec fn decodes_to(self, filter: ScalarFilter, schema: &Schema, model: ModelRef) -> bool {
        &&& schema.models@[model as int].scalar_named(self.field@) == Some(filter.field)
        &&& self.condition matches Some(condition)
        &&& condition.decodes_to(filter.condition)
    }

    /// Decodes the comparison against `model`: the field is resolved first,
    /// then the condition is decoded.
    pub fn to_filter(&self, schema: &Schema, model: ModelRef) -> (filter: Result<
        ScalarFilter,
        FilterError,
    >)
        requires
            model < schema.models@.len(),
        ensures
            match filter {
                Ok(f) => self.decode_failure(schema, model) is None && self.decodes_to(
                    f,
                    schema,
                    model,
                ),
                Err(e) => self.decode_failure(schema, model) == Some(e),
            },
    {
        let field = match schema.models[model].find_from_scalar(&self.field) {
            Ok(field) => field,
            Err(e) => {
                return Err(e);
            },
        };
        match &self.condition {
            None => Err(FilterError::MalformedCondition),
            Some(condition) => match condition.to_scalar_condition() {
                Ok(condition) => Ok(ScalarFilter { field, condition }),
                Err(e) => Err(e),
            },
        }
    }
}

impl pb::ScalarListFilter {
    /// Why the message does not decode: the field is unknown, or else the
    /// condition is missing or has an operand that does not decode.
    pub open spec fn decode_failure(self, schema: &Schema, model: ModelRef) -> Option<
        FilterError,
    > {
        match schema.models@[model as int].scalar_named(self.field@) {
            None => Some(FilterError::UnknownField { name: self.field }),
            Some(_) => match self.condition {
                None => Some(FilterError::MalformedCondition),
                Some(condition) => if condition.well_formed() {
                    None
                } else {
                    Some(FilterError::MalformedCondition)
                },
            },
        }
    }

    /// Whether `filter` is the containment test that the message states, on
    /// the field that its name resolves to.
    pub open spec fn decodes_to(
        self,
        filter: ScalarListFilter,
        schema: &Schema,
        model: ModelRef,
    ) -> bool {
        &&& schema.models@[model as int].scalar_named(self.field@) == Some(filter.field)
        &&& self.condition matches Some(condition)
        &&& condition.decodes_to(filter.condition)
    }

    /// Decodes the containment test against `model`: the field is resolved
    /// first, then the condition is decoded.
    pub fn to_filter(&self, schema: &Schema, model: ModelRef) -> (filter: Result<
        ScalarListFilter,
        FilterError,
    >)
        requires
            model < schema.models@.len(),
        ensures
            match filter {
                Ok(f) => self.decode_failure(schema, model) is None && self.decodes_to(
                    f,
                    schema,
                    model,
                ),
                Err(e) => self.decode_failure(schema, model) == Some(e),
            },
    {
        let field = match schema.models[model].find_from_scalar(&self.field) {
            Ok(field) => field,
            Err(e) => {
                return Err(e);
            },
        };
        match &self.condition {
            None => Err(FilterError::MalformedCondition),
            Some(condition) => match condition.to_scalar_list_condition() {
                Ok(condition) => Ok(ScalarListFilter { field, condition }),
                Err(e) => Err(e),
            },
        }
    }
}

impl IntoFilter for pb::ScalarFilter {
    open spec fn failure(self, schema: &Schema, model: ModelRef) -> Option<FilterError> {
        self.decode_failure(schema, model)
    }

    open spec fn decodes_to(self, filter: Filter, schema: &Schema, model: ModelRef) -> bool {
        filter matches Filter::Scalar(scalar) && self.decodes_to(scalar, schema, model)
    }

    fn into_filter(self, schema: &Schema, model: ModelRef) -> (filter: Result<
        Filter,
        FilterError,
    >) {
        match self.to_filter(schema, model) {
            Ok(filter) => Ok(Filter::Scalar(filter)),
            Err(e) => Err(e),
        }
    }
}

impl IntoFilter for pb::ScalarListFilter {
    open spec fn failure(self, schema: &Schema, model: ModelRef) -> Option<FilterError> {
        self.decode_failure(schema, model)
    }

    open spec fn decodes_to(self, filter: Filter, schema: &Schema, model: ModelRef) -> bool {
        filter matches Filter::ScalarList(list) && self.decodes_to(list, schema, model)
    }

    fn into_filter(self, schema: &Schema, model: ModelRef) -> (filter: Result<
        Filter,
        FilterError,
    >) {
        match self.to_filter(schema, model) {
            Ok(filter) => Ok(Filter::ScalarList(filter)),
            Err(e) => Err(e),
        }
    }
}

impl IntoFilter for pb::RelationFilter {
    open spec fn failure(self, schema: &Schema, model: ModelRef) -> Option<FilterError> {
        self.decode_failure(schema, model)
    }

    open spec fn decodes_to(self, filter: Filter, schema: &Schema, model: ModelRef) -> bool {
        filter matches Filter::Relation(relation) && relation.says(self, schema, model)
    }

    fn into_filter(self, schema: &Schema, model: ModelRef) -> (filter: Result<
        Filter,
        FilterError,
    >) {
        match decode_relation(&self, schema, model) {
            Ok(filter) => Ok(Filter::Relation(filter)),
            Err(e) => Err(e),
        }
    }
}

impl IntoFilter for pb::Filter {
    open spec fn failure(self, schema: &Schema, model: ModelRef) -> Option<FilterError> {
        self.decode_failure(schema, model)
    }

    open spec fn decodes_to(self, filter: Filter, schema: &Schema, model: ModelRef) -> bool {
        filter.says(self, schema, model)
    }

    fn into_filter(self, schema: &Schema, model: ModelRef) -> (filter: Result<
        Filter,
        FilterError,
    >) {
        decode_filter(&self, schema, model)
    }
}

} // verus!
