//! The catalog: models, their scalar and relation fields, and the relations
//! that link models through join tables.

use crate::ast::{Column, Table};
use crate::error::FilterError;
use std::sync::Arc;
use vstd::prelude::*;

verus! {

/// The storage type of a scalar field.
#[derive(Clone, Copy, Debug, PartialEq, Eq)]
pub enum TypeIdentifier {
    String,
    Float,
    Boolean,
    Enum,
    Json,
    DateTime,
    GraphQLID,
    UUID,
    Int,
    Relation,
}

/// One of the two ends of a relation.
#[derive(Clone, Copy, Debug, PartialEq, Eq)]
pub enum RelationSide {
    A,
    B,
}

impl RelationSide {
    /// The other end.
    pub open spec fn flipped(self) -> RelationSide {
        match self {
            RelationSide::A => RelationSide::B,
            RelationSide::B => RelationSide::A,
        }
    }

    /// Returns the other end of the relation.
    pub fn opposite(self) -> (side: RelationSide)
        ensures
            side == self.flipped(),
    {
        match self {
            RelationSide::A => RelationSide::B,
            RelationSide::B => RelationSide::A,
        }
    }
}

/// A scalar field of a model.
#[derive(Clone, Debug, PartialEq, Eq)]
pub struct ScalarField {
    /// The name filters refer to the field by.
    pub name: String,
    /// The column that stores the field.
    pub db_name: String,
    pub type_identifier: TypeIdentifier,
    pub is_list: bool,
}

/// A relation field of a model: one end of a relation.
#[derive(Clone, Debug, PartialEq, Eq)]
pub struct RelationField {
    /// The name filters refer to the field by.
    pub name: String,
    /// Position of the relation in [`Schema::relations`].
    pub relation: usize,
    /// The end of the relation that the owning model sits on.
    pub relation_side: RelationSide,
}

/// A relation between two models, stored in a join table with one column per
/// end.
#[derive(Clone, Debug, PartialEq, Eq)]
pub struct Relation {
    pub name: String,
    /// The join table.
    pub table_name: String,
    /// Join column holding the identifier of the record on side `A`.
    pub column_a: String,
    /// Join column holding the identifier of the record on side `B`.
    pub column_b: String,
    /// Position in [`Schema::models`] of the model on side `A`.
    pub model_a: usize,
    /// Position in [`Schema::models`] of the model on side `B`.
    pub model_b: usize,
}

/// A model: a table with an identifier column and a list of fields.
#[derive(Clone, Debug, PartialEq, Eq)]
pub struct Model {
    pub name: String,
    /// The table that stores the model's records.
    pub db_name: String,
    /// The column that stores a record's identifier.
    pub id_column: String,
    pub scalar_fields: Vec<Arc<ScalarField>>,
    pub relation_fields: Vec<Arc<RelationField>>,
}

/// The whole catalog of one database.
#[derive(Clone, Debug, PartialEq, Eq)]
pub struct Schema {
    /// The database that holds every table of the schema.
    pub db_name: String,
    pub models: Vec<Model>,
    pub relations: Vec<Relation>,
}

/// Position in [`Schema::models`] of the model a filter is read against.
pub type ModelRef = usize;

/// `Arc::clone`: a second handle to the same shared value.
#[verifier::external_body]
pub(crate) fn share<T>(handle: &Arc<T>) -> (shared: Arc<T>)
    ensures
        shared == *handle,
{
    Arc::clone(handle)
}

/// The first of `fields` called `name`, if there is one.
pub open spec fn first_scalar_named(fields: Seq<Arc<ScalarField>>, name: Seq<char>) -> Option<
    Arc<ScalarField>,
>
    decreases fields.len(),
{
    if fields.len() == 0 {
        None
    } else if fields[0].name@ == name {
        Some(fields[0])
    } else {
        first_scalar_named(fields.skip(1), name)
    }
}

/// The first of `fields` called `name`, if there is one.
pub open spec fn first_relation_named(fields: Seq<Arc<RelationField>>, name: Seq<char>) -> Option<
    Arc<RelationField>,
>
    decreases fields.len(),
{
    if fields.len() == 0 {
        None
    } else if fields[0].name@ == name {
        Some(fields[0])
    } else {
        first_relation_named(fields.skip(1), name)
    }
}

/// `first_scalar_named` finds a field exactly when some field has the name,
/// and what it finds has the name and is one of the fields.
pub proof fn lemma_first_scalar_named(fields: Seq<Arc<ScalarField>>, name: Seq<char>)
    ensures
        first_scalar_named(fields, name) is None <==> forall|i: int|
            0 <= i < fields.len() ==> (#[trigger] fields[i]).name@ != name,
        first_scalar_named(fields, name) matches Some(f) ==> f.name@ == name && fields.contains(f),
    decreases fields.len(),
{
    if fields.len() > 0 {
        let rest = fields.skip(1);
        lemma_first_scalar_named(rest, name);
        assert forall|i: int| 0 <= i < rest.len() implies rest[i] == fields[i + 1] by {}
        if fields[0].name@ != name {
            if first_scalar_named(rest, name) is None {
                assert forall|i: int| 0 <= i < fields.len() implies (#[trigger] fields[i]).name@
                    != name by {
                    if i > 0 {
                        assert(rest[i - 1] == fields[i]);
                    }
                }
            } else {
                let f = first_scalar_named(rest, name)->Some_0;
                let k = choose|k: int| 0 <= k < rest.len() && rest[k] == f;
                assert(fields[k + 1] == f);
            }
        }
    }
}

/// `first_relation_named` finds a field exactly when some field has the
/// name, and what it finds has the name and is one of the fields.
pub proof fn lemma_first_relation_named(fields: Seq<Arc<RelationField>>, name: Seq<char>)
    ensures
        first_relation_named(fields, name) is None <==> forall|i: int|
            0 <= i < fields.len() ==> (#[trigger] fields[i]).name@ != name,
        first_relation_named(fields, name) matches Some(f) ==> f.name@ == name && fields.contains(
            f,
        ),
    decreases fields.len(),
{
    if fields.len() > 0 {
        let rest = fields.skip(1);
        lemma_first_relation_named(rest, name);
        assert forall|i: int| 0 <= i < rest.len() implies rest[i] == fields[i + 1] by {}
        if fields[0].name@ != name {
            if first_relation_named(rest, name) is None {
                assert forall|i: int| 0 <= i < fields.len() implies (#[trigger] fields[i]).name@
                    != name by {
                    if i > 0 {
                        assert(rest[i - 1] == fields[i]);
                    }
                }
            } else {
                let f = first_relation_named(rest, name)->Some_0;
                let k = choose|k: int| 0 <= k < rest.len() && rest[k] == f;
                assert(fields[k + 1] == f);
            }
        }
    }
}

impl Relation {
    /// The join column of the given end.
    pub open spec fn column_name(self, side: RelationSide) -> String {
        match side {
            RelationSide::A => self.column_a,
            RelationSide::B => self.column_b,
        }
    }

    /// The model on the given end.
    pub open spec fn model_on(self, side: RelationSide) -> usize {
        match side {
            RelationSide::A => self.model_a,
            RelationSide::B => self.model_b,
        }
    }

    /// Name of the join column that holds identifiers of the given end.
    pub fn column_for_relation_side(&self, side: RelationSide) -> (column: &String)
        ensures
            *column == self.column_name(side),
    {
        match side {
            RelationSide::A => &self.column_a,
            RelationSide::B => &self.column_b,
        }
    }

    /// Position of the model that sits on the given end.
    pub fn model_for_relation_side(&self, side: RelationSide) -> (model: usize)
        ensures
            model == self.model_on(side),
    {
        match side {
            RelationSide::A => self.model_a,
            RelationSide::B => self.model_b,
        }
    }
}

impl Model {
    /// The scalar field that `name` resolves to: the first one so called.
    pub open spec fn scalar_named(self, name: Seq<char>) -> Option<Arc<ScalarField>> {
        first_scalar_named(self.scalar_fields@, name)
    }

    /// The relation field that `name` resolves to: the first one so called.
    pub open spec fn relation_named(self, name: Seq<char>) -> Option<Arc<RelationField>> {
        first_relation_named(self.relation_fields@, name)
    }

    /// Looks a scalar field up by name.
    pub fn find_scalar(&self, name: &String) -> (found: Option<&Arc<ScalarField>>)
        ensures
            found matches Some(f) ==> self.scalar_named(name@) == Some(*f),
            found is None ==> self.scalar_named(name@) is None,
    {
        let mut i: usize = 0;
        assert(self.scalar_fields@.skip(0) =~= self.scalar_fields@);
        while i < self.scalar_fields.len()
            invariant
                i <= self.scalar_fields.len(),
                self.scalar_named(name@) == first_scalar_named(
                    self.scalar_fields@.skip(i as int),
                    name@,
                ),
            decreases self.scalar_fields.len() - i,
        {
            let field = &self.scalar_fields[i];
            proof {
                let rest = self.scalar_fields@.skip(i as int);
                assert(rest.skip(1) =~= self.scalar_fields@.skip(i + 1));
            }
            if field.name == *name {
                return Some(field);
            }
            i += 1;
        }
        None
    }

    /// Looks a relation field up by name.
    pub fn find_relation(&self, name: &String) -> (found: Option<&Arc<RelationField>>)
        ensures
            found matches Some(f) ==> self.relation_named(name@) == Some(*f),
            found is None ==> self.relation_named(name@) is None,
    {
        let mut i: usize = 0;
        assert(self.relation_fields@.skip(0) =~= self.relation_fields@);
        while i < self.relation_fields.len()
            invariant
                i <= self.relation_fields.len(),
                self.relation_named(name@) == first_relation_named(
                    self.relation_fields@.skip(i as int),
                    name@,
                ),
            decreases self.relation_fields.len() - i,
        {
            let field = &self.relation_fields[i];
            proof {
                let rest = self.relation_fields@.skip(i as int);
                assert(rest.skip(1) =~= self.relation_fields@.skip(i + 1));
            }
            if field.name == *name {
                return Some(field);
            }
            i += 1;
        }
        None
    }

    /// Resolves a scalar field name to a handle on the catalog's entry, or
    /// reports the name as unknown.
    pub fn find_from_scalar(&self, name: &String) -> (found: Result<Arc<ScalarField>, FilterError>)
        ensures
            found == match self.scalar_named(name@) {
                Some(f) => Ok::<Arc<ScalarField>, FilterError>(f),
                None => Err(FilterError::UnknownField { name: *name }),
            },
    {
        match self.find_scalar(name) {
            Some(field) => Ok(share(field)),
            None => Err(FilterError::UnknownField { name: name.clone() }),
        }
    }

    /// Resolves a relation field name to a handle on the catalog's entry, or
    /// reports the name as unknown.
    pub fn find_from_relation_fields(&self, name: &String) -> (found: Result<
        Arc<RelationField>,
        FilterError,
    >)
        ensures
            found == match self.relation_named(name@) {
                Some(f) => Ok::<Arc<RelationField>, FilterError>(f),
                None => Err(FilterError::UnknownField { name: *name }),
            },
    {
        match self.find_relation(name) {
            Some(field) => Ok(share(field)),
            None => Err(FilterError::UnknownField { name: name.clone() }),
        }
    }
}

impl Schema {
    /// Whether a relation field points at a relation of the schema.
    pub open spec fn knows_relation_of(self, field: RelationField) -> bool {
        field.relation < self.relations@.len()
    }

    /// Whether both ends of a relation are models of the schema.
    pub open spec fn knows_models_of(self, relation: Relation) -> bool {
        relation.model_a < self.models@.len() && relation.model_b < self.models@.len()
    }

    /// Whether every relation field of a model points at a relation of the
    /// schema.
    pub open spec fn knows_relations_of(self, model: Model) -> bool {
        forall|f: int|
            0 <= f < model.relation_fields@.len() ==> self.knows_relation_of(
                *#[trigger] model.relation_fields@[f],
            )
    }

    /// The schema is consistent: every relation field points at one of its
    /// relations, and every relation links two of its models.
    pub open spec fn wf(self) -> bool {
        &&& forall|m: int|
            0 <= m < self.models@.len() ==> self.knows_relations_of(#[trigger] self.models@[m])
        &&& forall|r: int|
            0 <= r < self.relations@.len() ==> self.knows_models_of(#[trigger] self.relations@[r])
    }

    /// The table of a model.
    pub open spec fn table_of(self, model: ModelRef) -> Table {
        Table { database: self.db_name, name: self.models@[model as int].db_name }
    }

    /// The identifier column of a model.
    pub open spec fn id_column_of(self, model: ModelRef) -> Column {
        Column { table: self.table_of(model), name: self.models@[model as int].id_column }
    }

    /// The column of a model's table with the given name.
    pub open spec fn column_of(self, model: ModelRef, name: String) -> Column {
        Column { table: self.table_of(model), name }
    }

    /// The join table of the relation that a field is an end of.
    pub open spec fn join_table_of(self, field: RelationField) -> Table {
        Table { database: self.db_name, name: self.relations@[field.relation as int].table_name }
    }

    /// The join column of the given end of a field's relation.
    pub open spec fn join_column_of(self, field: RelationField, side: RelationSide) -> Column {
        Column {
            table: self.join_table_of(field),
            name: self.relations@[field.relation as int].column_name(side),
        }
    }

    /// The model at the other end of a field's relation.
    pub open spec fn related_model_of(self, field: RelationField) -> ModelRef {
        self.relations@[field.relation as int].model_on(field.relation_side.flipped())
    }

    /// The model that the relation field called `name` of `model` leads to;
    /// `model` itself where it has no such field.
    pub open spec fn related_through(self, model: ModelRef, name: Seq<char>) -> ModelRef {
        match self.models@[model as int].relation_named(name) {
            Some(field) => self.related_model_of(*field),
            None => model,
        }
    }

    /// In a consistent schema, the fields that a model's names resolve to
    /// point at relations of the schema, and their related models exist.
    pub proof fn lemma_resolved_relation(self, model: ModelRef, name: Seq<char>)
        requires
            self.wf(),
            model < self.models@.len(),
        ensures
            self.models@[model as int].relation_named(name) matches Some(field) ==> {
                &&& self.knows_relation_of(*field)
                &&& self.related_model_of(*field) < self.models@.len()
            },
    {
        let m = self.models@[model as int];
        lemma_first_relation_named(m.relation_fields@, name);
        if let Some(field) = m.relation_named(name) {
            let k = choose|k: int|
                0 <= k < m.relation_fields@.len() && m.relation_fields@[k] == field;
            assert(self.knows_relation_of(*m.relation_fields@[k]));
        }
    }

    /// Checks that the schema is consistent.
    pub fn is_consistent(&self) -> (consistent: bool)
        ensures
            consistent == self.wf(),
    {
        let mut m: usize = 0;
        while m < self.models.len()
            invariant
                m <= self.models.len(),
                forall|k: int| 0 <= k < m ==> self.knows_relations_of(#[trigger] self.models@[k]),
            decreases self.models.len() - m,
        {
            let model = &self.models[m];
            let mut f: usize = 0;
            while f < model.relation_fields.len()
                invariant
                    m < self.models.len(),
                    *model == self.models@[m as int],
                    f <= model.relation_fields.len(),
                    forall|k: int|
                        0 <= k < f ==> self.knows_relation_of(
                            *#[trigger] model.relation_fields@[k],
                        ),
                decreases model.relation_fields.len() - f,
            {
                if model.relation_fields[f].relation >= self.relations.len() {
                    return false;
                }
                f += 1;
            }
            m += 1;
        }
        let mut r: usize = 0;
        while r < self.relations.len()
            invariant
                r <= self.relations.len(),
                forall|k: int| 0 <= k < r ==> self.knows_models_of(#[trigger] self.relations@[k]),
            decreases self.relations.len() - r,
        {
            let relation = &self.relations[r];
            if relation.model_a >= self.models.len() || relation.model_b >= self.models.len() {
                return false;
            }
            r += 1;
        }
        true
    }

    /// Position of the first model with the given name.
    pub fn find_model(&self, name: &String) -> (found: Option<ModelRef>)
        ensures
            match found {
                Some(m) => {
                    &&& m < self.models@.len()
                    &&& self.models@[m as int].name@ == name@
                    &&& forall|k: int| 0 <= k < m ==> (#[trigger] self.models@[k]).name@ != name@
                },
                None => forall|k: int|
                    0 <= k < self.models@.len() ==> (#[trigger] self.models@[k]).name@ != name@,
            },
    {
        let mut m: usize = 0;
        while m < self.models.len()
            invariant
                m <= self.models.len(),
                forall|k: int| 0 <= k < m ==> (#[trigger] self.models@[k]).name@ != name@,
            decreases self.models.len() - m,
        {
            if self.models[m].name == *name {
                return Some(m);
            }
            m += 1;
        }
        None
    }

    /// The table that stores a model's records.
    pub fn table(&self, model: ModelRef) -> (table: Table)
        requires
            model < self.models@.len(),
        ensures
            table == self.table_of(model),
    {
        Table { database: self.db_name.clone(), name: self.models[model].db_name.clone() }
    }

    /// The column that stores the identifier of a model's records.
    pub fn id_column(&self, model: ModelRef) -> (column: Column)
        requires
            model < self.models@.len(),
        ensures
            column == self.id_column_of(model),
    {
        Column { table: self.table(model), name: self.models[model].id_column.clone() }
    }

    /// The column called `name` in the table of a model.
    pub fn model_column(&self, model: ModelRef, name: &String) -> (column: Column)
        requires
            model < self.models@.len(),
        ensures
            column == self.column_of(model, *name),
    {
        Column { table: self.table(model), name: name.clone() }
    }

    /// The join table of the relation that `field` is an end of.
    pub fn relation_table(&self, field: &RelationField) -> (table: Table)
        requires
            self.knows_relation_of(*field),
        ensures
            table == self.join_table_of(*field),
    {
        Table {
            database: self.db_name.clone(),
            name: self.relations[field.relation].table_name.clone(),
        }
    }

    /// The join column of the given end of the relation of `field`.
    pub fn relation_column(&self, field: &RelationField, side: RelationSide) -> (column: Column)
        requires
            self.knows_relation_of(*field),
        ensures
            column == self.join_column_of(*field, side),
    {
        Column {
            table: self.relation_table(field),
            name: self.relations[field.relation].column_for_relation_side(side).clone(),
        }
    }

    /// Position of the model at the other end of the relation of `field`.
    pub fn related_model(&self, field: &RelationField) -> (model: ModelRef)
        requires
            self.knows_relation_of(*field),
        ensures
            model == self.related_model_of(*field),
    {
        self.relations[field.relation].model_for_relation_side(field.relation_side.opposite())
    }
}

} // verus!
