//! The names that most users of the library need, in one place.

pub use crate::ast::{Column, Compare, ConditionTree, Join, Order, Select, Table};
pub use crate::error::{FilterError, FilterPath};
pub use crate::filter::{
    Filter, Membership, OneRelationIsNullFilter, RelationCondition, RelationFilter,
    ScalarCondition, ScalarFilter, ScalarListCondition, ScalarListFilter,
};
pub use crate::prisma_value::{DatabaseValue, GraphqlId, PrismaValue};
pub use crate::protobuf::filter::IntoFilter;
pub use crate::query_arguments::{IntoConditionTree, SortOrder};
pub use crate::schema::{
    Model, ModelRef, Relation, RelationField, RelationSide, ScalarField, Schema, TypeIdentifier,
};
