//! When compilation succeeds, and how it fails.

use crate::error::FilterError;
use crate::filter::{Filter, RelationFilter};
use crate::laws::combinators::{child_compiles, child_fails, lemma_combined};
use crate::protobuf::prisma as pb;
use crate::protobuf::filter::first_failure;
use crate::query_arguments::combined;
use crate::schema::{
    lemma_first_relation_named, lemma_first_scalar_named, ModelRef, Schema,
};
use vstd::prelude::*;

verus! {

impl Filter {
    /// No subscription marker occurs anywhere in the filter.
    pub open spec fn supported(self) -> bool
        decreases self,
    {
        match self {
            Filter::And(filters) => forall|i: int|
                0 <= i < filters@.len() ==> (#[trigger] filters@[i]).supported(),
            Filter::Or(filters) => forall|i: int|
                0 <= i < filters@.len() ==> (#[trigger] filters@[i]).supported(),
            Filter::Not(filters) => forall|i: int|
                0 <= i < filters@.len() ==> (#[trigger] filters@[i]).supported(),
            Filter::Relation(filter) => filter.nested_filter.supported(),
            Filter::NodeSubscription => false,
            _ => true,
        }
    }

    /// Every field name in the filter resolves: those of the filter itself
    /// against `model`, those below a relation filter against the model that
    /// the relation leads to.
    pub open spec fn resolves(self, schema: &Schema, model: ModelRef) -> bool
        decreases self,
    {
        match self {
            Filter::And(filters) => forall|i: int|
                0 <= i < filters@.len() ==> (#[trigger] filters@[i]).resolves(schema, model),
            Filter::Or(filters) => forall|i: int|
                0 <= i < filters@.len() ==> (#[trigger] filters@[i]).resolves(schema, model),
            Filter::Not(filters) => forall|i: int|
                0 <= i < filters@.len() ==> (#[trigger] filters@[i]).resolves(schema, model),
            Filter::Scalar(filter) => schema.models@[model as int].scalar_named(
                filter.field.name@,
            ) is Some,
            Filter::ScalarList(filter) => schema.models@[model as int].scalar_named(
                filter.field.name@,
            ) is Some,
            Filter::OneRelationIsNull(filter) => schema.models@[model as int].relation_named(
                filter.field.name@,
            ) is Some,
            Filter::Relation(filter) => match schema.models@[model as int].relation_named(
                filter.field.name@,
            ) {
                Some(field) => filter.nested_filter.resolves(
                    schema,
                    schema.related_model_of(*field),
                ),
                None => false,
            },
            Filter::NodeSubscription => true,
            Filter::BoolFilter(_) => true,
        }
    }
}

/// Every one of `filters` resolves against `model`.
pub open spec fn all_resolve(filters: Seq<Box<Filter>>, schema: &Schema, model: ModelRef) -> bool {
    forall|i: int| 0 <= i < filters.len() ==> (#[trigger] filters[i]).resolves(schema, model)
}

/// No subscription marker occurs in any of `filters`.
pub open spec fn all_supported(filters: Seq<Box<Filter>>) -> bool {
    forall|i: int| 0 <= i < filters.len() ==> (#[trigger] filters[i]).supported()
}

impl FilterError {
    /// Whether the error is admissible for a filter: an unknown field only
    /// where some name does not resolve, an unsupported filter only where a
    /// subscription marker occurs, and nothing else.
    pub open spec fn explains(self, resolves: bool, supported: bool) -> bool {
        match self {
            FilterError::UnknownField { .. } => !resolves,
            FilterError::UnsupportedFilter { .. } => !supported,
            FilterError::MalformedCondition => false,
        }
    }
}

/// The sub-select of a relation filter exists exactly when the filter's
/// field resolves, every field below it resolves against the related model,
/// and no subscription marker occurs below it.
pub proof fn lemma_sub_select_succeeds(filter: RelationFilter, schema: &Schema, model: ModelRef)
    ensures
        filter.sub_select(schema, model) is Ok <==> Filter::Relation(filter).resolves(
            schema,
            model,
        ) && Filter::Relation(filter).supported(),
        filter.sub_select(schema, model) matches Err(e) ==> e.explains(
            Filter::Relation(filter).resolves(schema, model),
            Filter::Relation(filter).supported(),
        ),
    decreases filter, 0nat,
{
    if schema.models@[model as int].relation_named(filter.field.name@) is Some {
        let related = schema.related_through(model, filter.field.name@);
        match *filter.nested_filter {
            Filter::Relation(nested) => {
                lemma_sub_select_succeeds(nested, schema, related);
            },
            nested => {
                law_compiles_when_resolved(nested, schema, related);
            },
        }
    }
}

/// Compilation succeeds exactly when every field name in the filter
/// resolves and no subscription marker occurs in it. It fails with an
/// unknown field only where some name does not resolve, with an unsupported
/// filter only where a marker occurs, and in no other way.
pub proof fn law_compiles_when_resolved(filter: Filter, schema: &Schema, model: ModelRef)
    ensures
        filter.condition_tree(schema, model) is Ok <==> filter.resolves(schema, model)
            && filter.supported(),
        filter.condition_tree(schema, model) matches Err(e) ==> e.explains(
            filter.resolves(schema, model),
            filter.supported(),
        ),
    decreases filter, 0nat,
{
    match filter {
        Filter::And(filters) => {
            lemma_children_compile(filters@, false, schema, model);
        },
        Filter::Or(filters) => {
            lemma_children_compile(filters@, true, schema, model);
        },
        Filter::Not(filters) => {
            lemma_children_compile(filters@, false, schema, model);
        },
        Filter::Relation(relation) => {
            lemma_sub_select_succeeds(relation, schema, model);
        },
        _ => {},
    }
}

/// The statement of [`law_compiles_when_resolved`] for the children of a
/// combinator, put together.
proof fn lemma_children_compile(
    filters: Seq<Box<Filter>>,
    or: bool,
    schema: &Schema,
    model: ModelRef,
)
    ensures
        combined(filters, or, schema, model) is Ok <==> all_resolve(filters, schema, model)
            && all_supported(filters),
        combined(filters, or, schema, model) matches Err(e) ==> e.explains(
            all_resolve(filters, schema, model),
            all_supported(filters),
        ),
    decreases filters, 0nat,
{
    lemma_combined(filters, or, schema, model);
    assert forall|i: int| 0 <= i < filters.len() implies (child_compiles(filters, i, schema, model)
        <==> (#[trigger] filters[i]).resolves(schema, model) && filters[i].supported()) && (
    filters[i].condition_tree(schema, model) matches Err(e) ==> e.explains(
        filters[i].resolves(schema, model),
        filters[i].supported(),
    )) by {
        law_compiles_when_resolved(*filters[i], schema, model);
    }
    match combined(filters, or, schema, model) {
        Ok(tree) => {
            assert forall|i: int| 0 <= i < filters.len() implies (#[trigger] filters[i]).resolves(
                schema,
                model,
            ) && filters[i].supported() by {
                assert(child_compiles(filters, i, schema, model));
            }
        },
        Err(error) => {
            let i = choose|i: int|
                0 <= i < filters.len() && #[trigger] child_fails(filters, i, error, schema, model);
            assert(!child_compiles(filters, i, schema, model));
        },
    }
}

/// A filter that a message decodes to resolves against the model it was
/// decoded against: its fields are the catalog's own, found by the names in
/// the message.
pub proof fn law_decoded_filters_resolve(
    filter: Filter,
    message: pb::Filter,
    schema: &Schema,
    model: ModelRef,
)
    requires
        filter.says(message, schema, model),
    ensures
        filter.resolves(schema, model),
    decreases filter,
{
    reveal_with_fuel(Filter::says, 2);
    reveal_with_fuel(RelationFilter::says, 2);
    let fields = schema.models@[model as int];
    match filter {
        Filter::And(filters) => {
            let children = message.type_->Some_0->And_0.filters@;
            assert forall|i: int| 0 <= i < filters@.len() implies (#[trigger] filters@[i]).resolves(
                schema,
                model,
            ) by {
                law_decoded_filters_resolve(*filters@[i], children[i], schema, model);
            }
        },
        Filter::Or(filters) => {
            let children = message.type_->Some_0->Or_0.filters@;
            assert forall|i: int| 0 <= i < filters@.len() implies (#[trigger] filters@[i]).resolves(
                schema,
                model,
            ) by {
                law_decoded_filters_resolve(*filters@[i], children[i], schema, model);
            }
        },
        Filter::Not(filters) => {
            let children = message.type_->Some_0->Not_0.filters@;
            assert forall|i: int| 0 <= i < filters@.len() implies (#[trigger] filters@[i]).resolves(
                schema,
                model,
            ) by {
                law_decoded_filters_resolve(*filters@[i], children[i], schema, model);
            }
        },
        Filter::Scalar(scalar) => {
            lemma_first_scalar_named(
                fields.scalar_fields@,
                message.type_->Some_0->Scalar_0.field@,
            );
        },
        Filter::ScalarList(list) => {
            lemma_first_scalar_named(
                fields.scalar_fields@,
                message.type_->Some_0->ScalarList_0.field@,
            );
        },
        Filter::OneRelationIsNull(relation) => {
            lemma_first_relation_named(
                fields.relation_fields@,
                message.type_->Some_0->OneRelationIsNull_0.field@,
            );
        },
        Filter::Relation(relation) => {
            let said = *message.type_->Some_0->Relation_0;
            let name = said.field.field@;
            lemma_first_relation_named(fields.relation_fields@, name);
            law_decoded_filters_resolve(
                *relation.nested_filter,
                *said.nested_filter,
                schema,
                schema.related_through(model, name),
            );
        },
        _ => {},
    }
}

impl pb::Filter {
    /// Nothing that the protocol mandates is missing from the message, at
    /// any depth: every filter has a kind, every comparison a condition, and
    /// every operand decodes.
    pub open spec fn complete(self) -> bool
        decreases self,
    {
        match self.type_ {
            None => false,
            Some(pb::FilterType::And(and)) => forall|i: int|
                0 <= i < and.filters@.len() ==> (#[trigger] and.filters@[i]).complete(),
            Some(pb::FilterType::Or(or)) => forall|i: int|
                0 <= i < or.filters@.len() ==> (#[trigger] or.filters@[i]).complete(),
            Some(pb::FilterType::Not(not)) => forall|i: int|
                0 <= i < not.filters@.len() ==> (#[trigger] not.filters@[i]).complete(),
            Some(pb::FilterType::Scalar(scalar)) => scalar.condition matches Some(condition)
                && condition.well_formed(),
            Some(pb::FilterType::ScalarList(list)) => list.condition matches Some(condition)
                && condition.well_formed(),
            Some(pb::FilterType::Relation(relation)) => relation.nested_filter.complete(),
            _ => true,
        }
    }

    /// Every field name in the message resolves, at any depth: those of
    /// the message itself against `model`, those below a relation filter
    /// against the model that the relation leads to.
    pub open spec fn names_resolve(self, schema: &Schema, model: ModelRef) -> bool
        decreases self,
    {
        match self.type_ {
            Some(pb::FilterType::And(and)) => forall|i: int|
                0 <= i < and.filters@.len() ==> (#[trigger] and.filters@[i]).names_resolve(
                    schema,
                    model,
                ),
            Some(pb::FilterType::Or(or)) => forall|i: int|
                0 <= i < or.filters@.len() ==> (#[trigger] or.filters@[i]).names_resolve(
                    schema,
                    model,
                ),
            Some(pb::FilterType::Not(not)) => forall|i: int|
                0 <= i < not.filters@.len() ==> (#[trigger] not.filters@[i]).names_resolve(
                    schema,
                    model,
                ),
            Some(pb::FilterType::Scalar(scalar)) => schema.models@[model as int].scalar_named(
                scalar.field@,
            ) is Some,
            Some(pb::FilterType::ScalarList(list)) => schema.models@[model as int].scalar_named(
                list.field@,
            ) is Some,
            Some(pb::FilterType::OneRelationIsNull(field)) => schema.models@[model as int].relation_named(
                field.field@,
            ) is Some,
            Some(pb::FilterType::Relation(relation)) => schema.models@[model as int].relation_named(
                relation.field.field@,
            ) is Some && relation.nested_filter.names_resolve(
                schema,
                schema.related_through(model, relation.field.field@),
            ),
            _ => true,
        }
    }
}

impl FilterError {
    /// Whether the error is admissible for a message: an unknown field only
    /// where some name does not resolve, a malformed condition only where
    /// something mandatory is missing, and nothing else.
    pub open spec fn explains_decoding(self, resolve: bool, complete: bool) -> bool {
        match self {
            FilterError::UnknownField { .. } => !resolve,
            FilterError::MalformedCondition => !complete,
            FilterError::UnsupportedFilter { .. } => false,
        }
    }
}

/// A list of messages has no failure from `from` on exactly when none of
/// them from there on has one, and its failure is that of one of them.
proof fn lemma_first_failure(
    messages: Seq<pb::Filter>,
    from: nat,
    schema: &Schema,
    model: ModelRef,
)
    ensures
        first_failure(messages, from, schema, model) is None <==> forall|i: int|
            from <= i < messages.len() ==> (#[trigger] messages[i]).decode_failure(schema, model)
                is None,
        first_failure(messages, from, schema, model) matches Some(e) ==> exists|i: int|
            from <= i < messages.len() && (#[trigger] messages[i]).decode_failure(schema, model)
                == Some(e),
    decreases messages.len() - from,
{
    if from < messages.len() {
        lemma_first_failure(messages, from + 1, schema, model);
    }
}

/// The statement of [`law_messages_fail_where_they_must`] for the children
/// of a combinator, put together.
proof fn lemma_children_decode(messages: Seq<pb::Filter>, schema: &Schema, model: ModelRef)
    ensures
        first_failure(messages, 0, schema, model) is None <==> (forall|i: int|
            0 <= i < messages.len() ==> (#[trigger] messages[i]).names_resolve(schema, model))
            && (forall|i: int| 0 <= i < messages.len() ==> (#[trigger] messages[i]).complete()),
        first_failure(messages, 0, schema, model) matches Some(e) ==> e.explains_decoding(
            forall|i: int|
                0 <= i < messages.len() ==> (#[trigger] messages[i]).names_resolve(schema, model),
            forall|i: int| 0 <= i < messages.len() ==> (#[trigger] messages[i]).complete(),
        ),
    decreases messages, 0nat,
{
    lemma_first_failure(messages, 0, schema, model);
    assert forall|i: int| 0 <= i < messages.len() implies ((#[trigger] messages[i]).decode_failure(
        schema,
        model,
    ) is None <==> messages[i].names_resolve(schema, model) && messages[i].complete()) && (
    messages[i].decode_failure(schema, model) matches Some(e) ==> e.explains_decoding(
        messages[i].names_resolve(schema, model),
        messages[i].complete(),
    )) by {
        law_messages_fail_where_they_must(messages[i], schema, model);
    }
    if let Some(e) = first_failure(messages, 0, schema, model) {
        let i = choose|i: int|
            0 <= i < messages.len() && (#[trigger] messages[i]).decode_failure(schema, model)
                == Some(e);
        assert(!(messages[i].names_resolve(schema, model) && messages[i].complete()));
    }
}

/// A message decodes exactly when every field name in it resolves and
/// nothing mandatory is missing from it, at whatever depth. It fails with an
/// unknown field only where some name does not resolve, with a malformed
/// condition only where something is missing, and in no other way: so a
/// message that is complete but names an unknown field anywhere below its
/// combinators and relation filters fails with `UnknownField` as a whole.
pub proof fn law_messages_fail_where_they_must(
    message: pb::Filter,
    schema: &Schema,
    model: ModelRef,
)
    ensures
        message.decode_failure(schema, model) is None <==> message.names_resolve(schema, model)
            && message.complete(),
        message.decode_failure(schema, model) matches Some(e) ==> e.explains_decoding(
            message.names_resolve(schema, model),
            message.complete(),
        ),
        message.complete() && !message.names_resolve(schema, model) ==> message.decode_failure(
            schema,
            model,
        ) is Some && message.decode_failure(schema, model)->Some_0 is UnknownField,
    decreases message, 0nat,
{
    reveal_with_fuel(pb::Filter::decode_failure, 2);
    reveal_with_fuel(pb::RelationFilter::decode_failure, 2);
    match message.type_ {
        Some(pb::FilterType::And(and)) => {
            lemma_children_decode(and.filters@, schema, model);
        },
        Some(pb::FilterType::Or(or)) => {
            lemma_children_decode(or.filters@, schema, model);
        },
        Some(pb::FilterType::Not(not)) => {
            lemma_children_decode(not.filters@, schema, model);
        },
        Some(pb::FilterType::Relation(relation)) => {
            law_messages_fail_where_they_must(
                *relation.nested_filter,
                schema,
                schema.related_through(model, relation.field.field@),
            );
        },
        _ => {},
    }
}

} // verus!
