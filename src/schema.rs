//! The entity schema compiler: from a declared field list and naming overrides
//! to a schema with resolved names, labels, identity fields and stamp roles,
//! and its identifier restriction.
use vstd::prelude::*;
use crate::format::same_text;
use crate::stamps::{
    created_at_name, created_field, created_name, has_name, lemma_stamp_names_distinct,
    updated_at_name, updated_field, updated_name, StampType,
};
use crate::values::FieldType;

verus! {

/// Whether a record shape is a node or a relationship.
#[derive(Clone, Copy, Debug, PartialEq, Eq, Structural)]
pub enum EntityType {
    Node,
    Relation,
}

/// One declared field.
#[derive(Clone, Debug, PartialEq, Eq)]
pub struct FieldDecl {
    /// The name in the declaration.
    pub declared_name: String,
    pub field_type: FieldType,
    /// The name used in queries instead of the declared one.
    pub rename: Option<String>,
    /// Marked as an identity field.
    pub is_id: bool,
}

/// A declared record shape with its entity-level overrides.
#[derive(Clone, Debug, PartialEq, Eq)]
pub struct EntityDecl {
    pub struct_name: String,
    pub entity_type: EntityType,
    /// An explicit type name.
    pub name: Option<String>,
    /// An explicit label list; the first label is the type name.
    pub labels: Option<Vec<String>>,
    pub fields: Vec<FieldDecl>,
}

/// One compiled field.
#[derive(Clone, Debug, PartialEq, Eq)]
pub struct FieldSchema {
    /// The name used in queries.
    pub name: String,
    pub declared_name: String,
    pub field_type: FieldType,
    pub is_id: bool,
    pub stamp: Option<StampType>,
}

/// A compiled record shape: type name, labels and fields in declaration order.
#[derive(Clone, Debug, PartialEq, Eq)]
pub struct EntitySchema {
    pub typename: String,
    pub labels: Vec<String>,
    pub fields: Vec<FieldSchema>,
}

/// Why a declaration does not compile.
#[derive(Clone, Debug, PartialEq, Eq)]
pub enum SchemaError {
    /// Both an explicit name and explicit labels were given.
    NameAndLabels,
    /// A relationship was given more than one label.
    RelationLabels,
    /// The named identity field (declared name) is optional.
    OptionalId(String),
    /// The named stamp field (query name) is not a UTC date-time.
    StampType(String),
    /// The stamp name occurs on more than one field.
    DuplicateStamp(String),
}

pub struct FieldModel {
    pub name: Seq<char>,
    pub declared_name: Seq<char>,
    pub field_type: FieldType,
    pub is_id: bool,
    pub stamp: Option<StampType>,
}

pub struct SchemaView {
    pub typename: Seq<char>,
    pub labels: Seq<Seq<char>>,
    pub fields: Seq<FieldModel>,
}

pub enum SchemaErrorView {
    NameAndLabels,
    RelationLabels,
    OptionalId(Seq<char>),
    StampType(Seq<char>),
    DuplicateStamp(Seq<char>),
}

impl View for FieldSchema {
    type V = FieldModel;

    open spec fn view(&self) -> FieldModel {
        FieldModel {
            name: self.name@,
            declared_name: self.declared_name@,
            field_type: self.field_type,
            is_id: self.is_id,
            stamp: self.stamp,
        }
    }
}

pub open spec fn strings_view(v: Seq<String>) -> Seq<Seq<char>> {
    v.map_values(|s: String| s@)
}

pub open spec fn field_models(v: Seq<FieldSchema>) -> Seq<FieldModel> {
    v.map_values(|f: FieldSchema| f@)
}

impl View for EntitySchema {
    type V = SchemaView;

    open spec fn view(&self) -> SchemaView {
        SchemaView {
            typename: self.typename@,
            labels: strings_view(self.labels@),
            fields: field_models(self.fields@),
        }
    }
}

impl View for SchemaError {
    type V = SchemaErrorView;

    open spec fn view(&self) -> SchemaErrorView {
        match self {
            SchemaError::NameAndLabels => SchemaErrorView::NameAndLabels,
            SchemaError::RelationLabels => SchemaErrorView::RelationLabels,
            SchemaError::OptionalId(n) => SchemaErrorView::OptionalId(n@),
            SchemaError::StampType(n) => SchemaErrorView::StampType(n@),
            SchemaError::DuplicateStamp(n) => SchemaErrorView::DuplicateStamp(n@),
        }
    }
}

/// The SCREAMING_SNAKE_CASE form of a text, as convert_case computes it.
pub uninterp spec fn screaming_snake_of(s: Seq<char>) -> Seq<char>;

/// Relies on convert_case's `Casing::to_case` with `Case::ScreamingSnake`, whose
/// result depends on the text alone.
#[verifier::external_body]
fn screaming_snake(s: &str) -> (r: String)
    ensures
        r@ == screaming_snake_of(s@),
{
    convert_case::Casing::to_case(&s, convert_case::Case::ScreamingSnake)
}

pub open spec fn id_name() -> Seq<char> {
    "id"@
}

/// The name a declared field is queried by.
pub open spec fn wire_name(f: FieldDecl) -> Seq<char> {
    match f.rename {
        Some(r) => r@,
        None => f.declared_name@,
    }
}

pub open spec fn wire_names(fields: Seq<FieldDecl>) -> Seq<Seq<char>> {
    fields.map_values(|f: FieldDecl| wire_name(f))
}

pub open spec fn has_explicit_id(fields: Seq<FieldDecl>) -> bool {
    exists|i: int| 0 <= i < fields.len() && #[trigger] fields[i].is_id
}

pub open spec fn has_id_named(fields: Seq<FieldDecl>) -> bool {
    exists|i: int| 0 <= i < fields.len() && wire_name(#[trigger] fields[i]) == id_name()
}

/// Identity inference: explicit markers win; else a field named `id`; else all
/// fields of a node and none of a relationship.
pub open spec fn in_identity(fields: Seq<FieldDecl>, t: EntityType, i: int) -> bool {
    if has_explicit_id(fields) {
        fields[i].is_id
    } else if has_id_named(fields) {
        wire_name(fields[i]) == id_name()
    } else {
        t == EntityType::Node
    }
}

/// The stamp role of the field named `n` among `names`.
pub open spec fn stamp_role(names: Seq<Seq<char>>, n: Seq<char>) -> Option<StampType> {
    if created_field(names) == Some(n) {
        Some(StampType::Created)
    } else if updated_field(names) == Some(n) {
        Some(StampType::Updated)
    } else {
        None
    }
}

/// The explicit labels, when a non-empty list was given.
pub open spec fn explicit_labels(decl: EntityDecl) -> Option<Seq<Seq<char>>> {
    match decl.labels {
        Some(l) if l@.len() > 0 => Some(strings_view(l@)),
        _ => None,
    }
}

pub open spec fn typename_of(decl: EntityDecl) -> Seq<char> {
    match explicit_labels(decl) {
        Some(l) => l[0],
        None => match decl.name {
            Some(n) => n@,
            None => match decl.entity_type {
                EntityType::Node => decl.struct_name@,
                EntityType::Relation => screaming_snake_of(decl.struct_name@),
            },
        },
    }
}

pub open spec fn labels_of(decl: EntityDecl) -> Seq<Seq<char>> {
    match explicit_labels(decl) {
        Some(l) => l,
        None => seq![typename_of(decl)],
    }
}

pub open spec fn field_model(decl: EntityDecl, i: int) -> FieldModel {
    let f = decl.fields@[i];
    FieldModel {
        name: wire_name(f),
        declared_name: f.declared_name@,
        field_type: f.field_type,
        is_id: in_identity(decl.fields@, decl.entity_type, i),
        stamp: stamp_role(wire_names(decl.fields@), wire_name(f)),
    }
}

/// The schema a declaration compiles to.
pub open spec fn entity_view(decl: EntityDecl) -> SchemaView {
    SchemaView {
        typename: typename_of(decl),
        labels: labels_of(decl),
        fields: Seq::new(decl.fields@.len(), |i: int| field_model(decl, i)),
    }
}

/// The identity fields, in order, no longer marked as identity.
pub open spec fn id_fields(fields: Seq<FieldModel>) -> Seq<FieldModel>
    decreases fields.len(),
{
    if fields.len() == 0 {
        Seq::empty()
    } else {
        let rest = id_fields(fields.drop_last());
        let f = fields.last();
        if f.is_id {
            rest.push(FieldModel { is_id: false, ..f })
        } else {
            rest
        }
    }
}

/// The identifier restriction of a schema.
pub open spec fn identifier_view(s: SchemaView) -> SchemaView {
    SchemaView { typename: s.typename, labels: s.labels, fields: id_fields(s.fields) }
}

pub open spec fn names_conflict(decl: EntityDecl) -> bool {
    decl.name is Some && decl.labels is Some
}

pub open spec fn relation_labels(decl: EntityDecl) -> bool {
    decl.entity_type == EntityType::Relation && match decl.labels {
        Some(l) => l@.len() > 1,
        None => false,
    }
}

pub open spec fn optional_id(f: FieldDecl) -> bool {
    f.is_id && f.field_type.optional
}

pub open spec fn appears_twice(names: Seq<Seq<char>>, x: Seq<char>) -> bool {
    exists|i: int, j: int| 0 <= i < j < names.len() && names[i] == x && names[j] == x
}

pub open spec fn duplicate_role(names: Seq<Seq<char>>, role: Option<Seq<char>>) -> bool {
    match role {
        Some(x) => appears_twice(names, x),
        None => false,
    }
}

/// A field with a stamp role whose type is not a (possibly optional) UTC date-time.
pub open spec fn bad_stamp(fields: Seq<FieldDecl>, i: int) -> bool {
    stamp_role(wire_names(fields), wire_name(fields[i])) is Some
        && fields[i].field_type.kind != crate::values::Kind::DateTimeUtc
}

/// Whether the declaration compiles.
pub open spec fn compiles(decl: EntityDecl) -> bool {
    let fields = decl.fields@;
    let names = wire_names(fields);
    &&& !names_conflict(decl)
    &&& !relation_labels(decl)
    &&& forall|i: int| 0 <= i < fields.len() ==> !optional_id(#[trigger] fields[i])
    &&& !duplicate_role(names, created_field(names))
    &&& !duplicate_role(names, updated_field(names))
    &&& forall|i: int| 0 <= i < fields.len() ==> !#[trigger] bad_stamp(fields, i)
}

/// The error a declaration that does not compile is rejected with: checks run
/// in the order of the clauses, and within one check the first field counts.
pub open spec fn rejects_with(decl: EntityDecl, e: SchemaErrorView) -> bool {
    let fields = decl.fields@;
    let names = wire_names(fields);
    if names_conflict(decl) {
        e == SchemaErrorView::NameAndLabels
    } else if relation_labels(decl) {
        e == SchemaErrorView::RelationLabels
    } else if exists|i: int| 0 <= i < fields.len() && optional_id(#[trigger] fields[i]) {
        exists|i: int|
            0 <= i < fields.len() && optional_id(#[trigger] fields[i]) && (forall|j: int|
                0 <= j < i ==> !optional_id(#[trigger] fields[j])) && e
                == SchemaErrorView::OptionalId(fields[i].declared_name@)
    } else if duplicate_role(names, created_field(names)) {
        e == SchemaErrorView::DuplicateStamp(created_field(names).unwrap())
    } else if duplicate_role(names, updated_field(names)) {
        e == SchemaErrorView::DuplicateStamp(updated_field(names).unwrap())
    } else {
        exists|i: int|
            0 <= i < fields.len() && #[trigger] bad_stamp(fields, i) && (forall|j: int|
                0 <= j < i ==> !#[trigger] bad_stamp(fields, j)) && e == SchemaErrorView::StampType(
                wire_name(fields[i]),
            )
    }
}

/// In a declaration that compiles, no two fields share a stamp role.
pub proof fn lemma_single_stamp_roles(decl: EntityDecl)
    requires
        compiles(decl),
    ensures
        forall|i: int, j: int|
            0 <= i < j < entity_view(decl).fields.len() && (#[trigger] entity_view(decl).fields[i]).stamp is Some
                ==> entity_view(decl).fields[i].stamp != (#[trigger] entity_view(decl).fields[j]).stamp,
{
    let fields = decl.fields@;
    let nv = wire_names(fields);
    assert forall|i: int, j: int|
        0 <= i < j < entity_view(decl).fields.len() && (#[trigger] entity_view(decl).fields[i]).stamp is Some
            implies entity_view(decl).fields[i].stamp != (#[trigger] entity_view(decl).fields[j]).stamp by {
        assert(nv[i] == wire_name(fields[i]));
        assert(nv[j] == wire_name(fields[j]));
        if entity_view(decl).fields[i].stamp == entity_view(decl).fields[j].stamp {
            if entity_view(decl).fields[i].stamp == Some(StampType::Created) {
                assert(appears_twice(nv, created_field(nv).unwrap()));
            } else {
                assert(appears_twice(nv, updated_field(nv).unwrap()));
            }
        }
    }
}

/// Identity inference is decided by priority, not by position: explicit
/// markers win whenever one is present; otherwise the fields named `id` form
/// the identity; otherwise every field of a node and no field of a
/// relationship. Reordering the fields (`reordered[i] == fields[perm[i]]`, with
/// `inv` undoing `perm`) moves each field's identity status with it.
pub proof fn lemma_identity_inference(
    fields: Seq<FieldDecl>,
    t: EntityType,
    reordered: Seq<FieldDecl>,
    perm: Seq<int>,
    inv: Seq<int>,
)
    requires
        reordered.len() == fields.len(),
        perm.len() == fields.len(),
        inv.len() == fields.len(),
        forall|i: int| 0 <= i < fields.len() ==> 0 <= #[trigger] perm[i] < fields.len() && reordered[i] == fields[perm[i]],
        forall|j: int| 0 <= j < fields.len() ==> 0 <= #[trigger] inv[j] < fields.len() && perm[inv[j]] == j,
    ensures
        has_explicit_id(fields) ==> forall|i: int| 0 <= i < fields.len() ==> in_identity(fields, t, i) == #[trigger] fields[i].is_id,
        !has_explicit_id(fields) && has_id_named(fields) ==> forall|i: int|
            0 <= i < fields.len() ==> in_identity(fields, t, i) == (wire_name(#[trigger] fields[i]) == id_name()),
        !has_explicit_id(fields) && !has_id_named(fields) ==> forall|i: int|
            0 <= i < fields.len() ==> #[trigger] in_identity(fields, t, i) == (t == EntityType::Node),
        forall|i: int| 0 <= i < fields.len() ==> #[trigger] in_identity(reordered, t, i) == in_identity(fields, t, perm[i]),
{
    assert(has_explicit_id(reordered) == has_explicit_id(fields)) by {
        if has_explicit_id(fields) {
            let j = choose|j: int| 0 <= j < fields.len() && #[trigger] fields[j].is_id;
            assert(reordered[inv[j]] == fields[j]);
            assert(reordered[inv[j]].is_id);
        }
        if has_explicit_id(reordered) {
            let i = choose|i: int| 0 <= i < reordered.len() && #[trigger] reordered[i].is_id;
            assert(fields[perm[i]].is_id);
        }
    }
    assert(has_id_named(reordered) == has_id_named(fields)) by {
        if has_id_named(fields) {
            let j = choose|j: int| 0 <= j < fields.len() && wire_name(#[trigger] fields[j]) == id_name();
            assert(reordered[inv[j]] == fields[j]);
            assert(wire_name(reordered[inv[j]]) == id_name());
        }
        if has_id_named(reordered) {
            let i = choose|i: int| 0 <= i < reordered.len() && wire_name(#[trigger] reordered[i]) == id_name();
            assert(wire_name(fields[perm[i]]) == id_name());
        }
    }
}

/// With both `created_at` and `created` present, `created_at` takes the
/// created role and `created` stays an ordinary field: it renders as a
/// placeholder in every mode, and the stamp designation keeps it among the
/// ordinary fields.
pub proof fn lemma_stamp_promotion(names: Seq<Seq<char>>, prefix: Option<Seq<char>>, mode: crate::stamps::StampMode)
    requires
        has_name(names, created_at_name()),
        has_name(names, created_name()),
    ensures
        stamp_role(names, created_at_name()) == Some(StampType::Created),
        stamp_role(names, created_name()) is None,
        crate::stamps::role_fragment(created_name(), stamp_role(names, created_name()), prefix, mode)
            == crate::format::placeholder_text(created_name(), prefix),
        created_field(names) == Some(created_at_name()),
        crate::stamps::non_stamp_fields(names).contains(created_name()),
{
    lemma_stamp_names_distinct();
    reveal_strlit("created");
    let ns = crate::stamps::non_stamp_fields(names);
    let p = crate::stamps::plain_names(names);
    assert(ns[p.len() as int] == created_name());
}

/// Which timestamp fields to add to a declaration.
#[derive(Clone, Copy, Debug, PartialEq, Eq, Structural)]
pub enum StampFields {
    /// `created_at` and `updated_at`.
    Full,
    /// `created` and `updated`.
    Short,
    CreatedAt,
    UpdatedAt,
    Created,
    Updated,
}

/// The names of the fields a [`StampFields`] adds, created first.
pub open spec fn stamp_field_names(s: StampFields) -> Seq<Seq<char>> {
    match s {
        StampFields::Full => seq![created_at_name(), updated_at_name()],
        StampFields::Short => seq![created_name(), updated_name()],
        StampFields::CreatedAt => seq![created_at_name()],
        StampFields::UpdatedAt => seq![updated_at_name()],
        StampFields::Created => seq![created_name()],
        StampFields::Updated => seq![updated_name()],
    }
}

/// A field as a timestamp field is added: an optional UTC date-time, not renamed, not an identity.
pub open spec fn is_added_stamp(f: FieldDecl, name: Seq<char>) -> bool {
    &&& f.declared_name@ == name
    &&& f.field_type == (FieldType { kind: crate::values::Kind::DateTimeUtc, optional: true })
    &&& f.rename is None
    &&& !f.is_id
}

fn stamp_decl(name: &str) -> (r: FieldDecl)
    ensures
        is_added_stamp(r, name@),
{
    FieldDecl {
        declared_name: String::from_str(name),
        field_type: FieldType { kind: crate::values::Kind::DateTimeUtc, optional: true },
        rename: None,
        is_id: false,
    }
}

impl StampFields {
    /// Reads an argument: `full`, `short`, `created_at`, `updated_at`,
    /// `created` or `updated`; anything else is refused.
    pub fn parse(arg: &str) -> (r: Option<StampFields>)
        ensures
            r == (if arg@ == "full"@ {
                Some(StampFields::Full)
            } else if arg@ == "short"@ {
                Some(StampFields::Short)
            } else if arg@ == created_at_name() {
                Some(StampFields::CreatedAt)
            } else if arg@ == updated_at_name() {
                Some(StampFields::UpdatedAt)
            } else if arg@ == created_name() {
                Some(StampFields::Created)
            } else if arg@ == updated_name() {
                Some(StampFields::Updated)
            } else {
                None::<StampFields>
            }),
    {
        if same_text(arg, "full") {
            Some(StampFields::Full)
        } else if same_text(arg, "short") {
            Some(StampFields::Short)
        } else if same_text(arg, "created_at") {
            Some(StampFields::CreatedAt)
        } else if same_text(arg, "updated_at") {
            Some(StampFields::UpdatedAt)
        } else if same_text(arg, "created") {
            Some(StampFields::Created)
        } else if same_text(arg, "updated") {
            Some(StampFields::Updated)
        } else {
            None
        }
    }

    /// The fields to add, each an optional UTC date-time, created first.
    pub fn into_fields(self) -> (r: Vec<FieldDecl>)
        ensures
            r@.len() == stamp_field_names(self).len(),
            forall|i: int| 0 <= i < r@.len() ==> is_added_stamp(#[trigger] r@[i], stamp_field_names(self)[i]),
    {
        let mut out: Vec<FieldDecl> = Vec::new();
        match self {
            StampFields::Full => {
                out.push(stamp_decl("created_at"));
                out.push(stamp_decl("updated_at"));
            },
            StampFields::Short => {
                out.push(stamp_decl("created"));
                out.push(stamp_decl("updated"));
            },
            StampFields::CreatedAt => out.push(stamp_decl("created_at")),
            StampFields::UpdatedAt => out.push(stamp_decl("updated_at")),
            StampFields::Created => out.push(stamp_decl("created")),
            StampFields::Updated => out.push(stamp_decl("updated")),
        }
        out
    }
}

impl EntityDecl {
    /// The declaration with the timestamp fields of `stamps` appended.
    pub fn with_timestamps(self, stamps: StampFields) -> (r: EntityDecl)
        ensures
            r.struct_name == self.struct_name,
            r.entity_type == self.entity_type,
            r.name == self.name,
            r.labels == self.labels,
            r.fields@.len() == self.fields@.len() + stamp_field_names(stamps).len(),
            forall|i: int| 0 <= i < self.fields@.len() ==> #[trigger] r.fields@[i] == self.fields@[i],
            forall|i: int|
                0 <= i < stamp_field_names(stamps).len() ==> is_added_stamp(
                    #[trigger] r.fields@[self.fields@.len() + i],
                    stamp_field_names(stamps)[i],
                ),
    {
        let EntityDecl { struct_name, entity_type, name, labels, fields } = self;
        let mut fields = fields;
        let mut added = stamps.into_fields();
        fields.append(&mut added);
        EntityDecl { struct_name, entity_type, name, labels, fields }
    }
}

/// A copy of a list of texts.
pub(crate) fn copy_strings(v: &Vec<String>) -> (r: Vec<String>)
    ensures
        strings_view(r@) == strings_view(v@),
{
    let mut out: Vec<String> = Vec::new();
    let mut i: usize = 0;
    while i < v.len()
        invariant
            i <= v.len(),
            strings_view(out@) == strings_view(v@.take(i as int)),
        decreases v.len() - i,
    {
        let ghost before = out@;
        out.push(v[i].clone());
        assert(v@.take(i as int + 1) =~= v@.take(i as int).push(v@[i as int]));
        assert(strings_view(out@) =~= strings_view(before).push(v@[i as int]@));
        assert(strings_view(v@.take(i as int + 1)) =~= strings_view(v@.take(i as int)).push(
            v@[i as int]@,
        ));
        i = i + 1;
    }
    assert(v@.take(v.len() as int) =~= v@);
    out
}

/// The name a declared field is queried by.
fn wire_name_of(f: &FieldDecl) -> (r: String)
    ensures
        r@ == wire_name(*f),
{
    match &f.rename {
        Some(n) => n.clone(),
        None => f.declared_name.clone(),
    }
}

fn wire_names_of(fields: &Vec<FieldDecl>) -> (r: Vec<String>)
    ensures
        strings_view(r@) == wire_names(fields@),
{
    let mut out: Vec<String> = Vec::new();
    let mut i: usize = 0;
    while i < fields.len()
        invariant
            i <= fields.len(),
            out@.len() == i,
            forall|j: int| 0 <= j < i ==> #[trigger] out@[j]@ == wire_name(fields@[j]),
        decreases fields.len() - i,
    {
        out.push(wire_name_of(&fields[i]));
        i = i + 1;
    }
    assert(strings_view(out@) =~= wire_names(fields@));
    out
}

/// Whether `x` is among `names`.
fn contains_text(names: &Vec<String>, x: &str) -> (r: bool)
    ensures
        r == has_name(strings_view(names@), x@),
{
    let ghost views = strings_view(names@);
    let mut i: usize = 0;
    while i < names.len()
        invariant
            i <= names.len(),
            views == strings_view(names@),
            forall|j: int| 0 <= j < i ==> views[j] != x@,
        decreases names.len() - i,
    {
        if same_text(names[i].as_str(), x) {
            assert(views[i as int] == x@);
            return true;
        }
        i = i + 1;
    }
    false
}

/// Whether `x` occurs at least twice among `names`.
fn occurs_twice(names: &Vec<String>, x: &str) -> (r: bool)
    ensures
        r == appears_twice(strings_view(names@), x@),
{
    let ghost views = strings_view(names@);
    let mut seen = false;
    let mut i: usize = 0;
    while i < names.len()
        invariant
            i <= names.len(),
            views == strings_view(names@),
            seen == (exists|j: int| 0 <= j < i && views[j] == x@),
            forall|a: int, b: int| 0 <= a < b < i ==> !(views[a] == x@ && views[b] == x@),
        decreases names.len() - i,
    {
        if same_text(names[i].as_str(), x) {
            if seen {
                let ghost a = choose|j: int| 0 <= j < i && views[j] == x@;
                assert(views[a] == x@ && views[i as int] == x@);
                return true;
            }
            seen = true;
            assert(views[i as int] == x@);
        }
        i = i + 1;
    }
    false
}

/// The created stamp among the query names.
fn created_role(names: &Vec<String>) -> (r: Option<String>)
    ensures
        match r {
            Some(n) => created_field(strings_view(names@)) == Some(n@),
            None => created_field(strings_view(names@)) is None,
        },
{
    if contains_text(names, "created_at") {
        Some(String::from_str("created_at"))
    } else if contains_text(names, "created") {
        Some(String::from_str("created"))
    } else {
        None
    }
}

/// The updated stamp among the query names.
fn updated_role(names: &Vec<String>) -> (r: Option<String>)
    ensures
        match r {
            Some(n) => updated_field(strings_view(names@)) == Some(n@),
            None => updated_field(strings_view(names@)) is None,
        },
{
    if contains_text(names, "updated_at") {
        Some(String::from_str("updated_at"))
    } else if contains_text(names, "updated") {
        Some(String::from_str("updated"))
    } else {
        None
    }
}

pub open spec fn opt_string_view(o: Option<String>) -> Option<Seq<char>> {
    match o {
        Some(s) => Some(s@),
        None => None,
    }
}

/// The stamp role of the field named `n`, given the two role names.
fn role_of(created: &Option<String>, updated: &Option<String>, n: &str) -> (r: Option<StampType>)
    ensures
        r == (if opt_string_view(*created) == Some(n@) {
            Some(StampType::Created)
        } else if opt_string_view(*updated) == Some(n@) {
            Some(StampType::Updated)
        } else {
            None::<StampType>
        }),
{
    if let Some(c) = created {
        if same_text(c.as_str(), n) {
            return Some(StampType::Created);
        }
    }
    if let Some(u) = updated {
        if same_text(u.as_str(), n) {
            return Some(StampType::Updated);
        }
    }
    None
}

impl FieldSchema {
    /// A copy of this field.
    pub fn copy(&self) -> (r: FieldSchema)
        ensures
            r@ == self@,
    {
        FieldSchema {
            name: self.name.clone(),
            declared_name: self.declared_name.clone(),
            field_type: self.field_type,
            is_id: self.is_id,
            stamp: self.stamp,
        }
    }
}

impl EntitySchema {
    /// The identifier schema: the same names and labels, and only the identity
    /// fields, which are not identity fields of the identifier in turn.
    pub fn identifier(&self) -> (r: EntitySchema)
        ensures
            r@ == identifier_view(self@),
    {
        let ghost models = field_models(self.fields@);
        let mut out: Vec<FieldSchema> = Vec::new();
        let mut i: usize = 0;
        while i < self.fields.len()
            invariant
                i <= self.fields.len(),
                models == field_models(self.fields@),
                field_models(out@) == id_fields(models.take(i as int)),
            decreases self.fields.len() - i,
        {
            let f = &self.fields[i];
            let ghost before = out@;
            assert(models.take(i as int + 1).drop_last() =~= models.take(i as int));
            assert(models.take(i as int + 1).last() == f@);
            if f.is_id {
                let mut g = f.copy();
                g.is_id = false;
                out.push(g);
                assert(field_models(out@) =~= field_models(before).push(g@));
            }
            i = i + 1;
        }
        assert(models.take(self.fields.len() as int) =~= models);
        let r = EntitySchema {
            typename: self.typename.clone(),
            labels: copy_strings(&self.labels),
            fields: out,
        };
        assert(r@.fields == identifier_view(self@).fields);
        r
    }
}

/// Compiles a declaration into its entity schema and identifier schema.
///
/// Fails, in this order, on: an explicit name together with explicit labels; a
/// relationship with more than one label; an optional identity field; a stamp
/// name on two fields; a stamp field that is not a UTC date-time.
pub fn compile(decl: &EntityDecl) -> (r: Result<(EntitySchema, EntitySchema), SchemaError>)
    ensures
        r is Ok <==> compiles(*decl),
        match r {
            Ok((e, id)) => e@ == entity_view(*decl) && id@ == identifier_view(e@) && forall|i: int, j: int|
                0 <= i < j < e@.fields.len() && (#[trigger] e@.fields[i]).stamp is Some ==> e@.fields[i].stamp
                    != (#[trigger] e@.fields[j]).stamp,
            Err(err) => rejects_with(*decl, err@),
        },
{
    let ghost fields = decl.fields@;
    if decl.name.is_some() && decl.labels.is_some() {
        return Err(SchemaError::NameAndLabels);
    }
    if decl.entity_type == EntityType::Relation {
        if let Some(l) = &decl.labels {
            if l.len() > 1 {
                return Err(SchemaError::RelationLabels);
            }
        }
    }
    let mut i: usize = 0;
    while i < decl.fields.len()
        invariant
            i <= decl.fields.len(),
            fields == decl.fields@,
            !names_conflict(*decl),
            !relation_labels(*decl),
            forall|j: int| 0 <= j < i ==> !optional_id(#[trigger] fields[j]),
        decreases decl.fields.len() - i,
    {
        let f = &decl.fields[i];
        if f.is_id && f.field_type.optional {
            assert(optional_id(fields[i as int]));
            assert(rejects_with(*decl, SchemaErrorView::OptionalId(f.declared_name@)));
            return Err(SchemaError::OptionalId(f.declared_name.clone()));
        }
        i = i + 1;
    }
    let names = wire_names_of(&decl.fields);
    let ghost nv = wire_names(fields);
    let created = created_role(&names);
    let updated = updated_role(&names);
    if let Some(c) = &created {
        if occurs_twice(&names, c.as_str()) {
            return Err(SchemaError::DuplicateStamp(c.clone()));
        }
    }
    if let Some(u) = &updated {
        if occurs_twice(&names, u.as_str()) {
            return Err(SchemaError::DuplicateStamp(u.clone()));
        }
    }
    let mut roles: Vec<Option<StampType>> = Vec::new();
    let mut i: usize = 0;
    while i < decl.fields.len()
        invariant
            i <= decl.fields.len(),
            fields == decl.fields@,
            nv == wire_names(fields),
            strings_view(names@) == nv,
            nv.len() == fields.len(),
            opt_string_view(created) == created_field(nv),
            opt_string_view(updated) == updated_field(nv),
            roles@.len() == i,
            forall|j: int| 0 <= j < i ==> #[trigger] roles@[j] == stamp_role(nv, nv[j]),
            forall|j: int| 0 <= j < i ==> !#[trigger] bad_stamp(fields, j),
            forall|j: int| 0 <= j < fields.len() ==> !optional_id(#[trigger] fields[j]),
            !duplicate_role(nv, created_field(nv)),
            !duplicate_role(nv, updated_field(nv)),
            !names_conflict(*decl),
            !relation_labels(*decl),
        decreases decl.fields.len() - i,
    {
        assert(names@[i as int]@ == nv[i as int]);
        let role = role_of(&created, &updated, names[i].as_str());
        assert(nv[i as int] == wire_name(fields[i as int]));
        if role.is_some() && decl.fields[i].field_type.kind != crate::values::Kind::DateTimeUtc {
            assert(bad_stamp(fields, i as int));
            assert(rejects_with(*decl, SchemaErrorView::StampType(names@[i as int]@)));
            return Err(SchemaError::StampType(names[i].clone()));
        }
        roles.push(role);
        i = i + 1;
    }
    let mut explicit = false;
    let mut i: usize = 0;
    while i < decl.fields.len()
        invariant
            i <= decl.fields.len(),
            fields == decl.fields@,
            explicit == (exists|j: int| 0 <= j < i && #[trigger] fields[j].is_id),
        decreases decl.fields.len() - i,
    {
        if decl.fields[i].is_id {
            explicit = true;
        }
        i = i + 1;
    }
    let named_id = contains_text(&names, "id");
    assert(named_id == has_id_named(fields)) by {
        if named_id {
            let j = choose|j: int| 0 <= j < nv.len() && nv[j] == id_name();
            assert(wire_name(fields[j]) == id_name());
        }
        if has_id_named(fields) {
            let j = choose|j: int| 0 <= j < fields.len() && wire_name(#[trigger] fields[j]) == id_name();
            assert(nv[j] == id_name());
        }
    }
    let mut out: Vec<FieldSchema> = Vec::new();
    let mut i: usize = 0;
    while i < decl.fields.len()
        invariant
            i <= decl.fields.len(),
            fields == decl.fields@,
            nv == wire_names(fields),
            strings_view(names@) == nv,
            nv.len() == fields.len(),
            roles@.len() == fields.len(),
            forall|j: int| 0 <= j < fields.len() ==> #[trigger] roles@[j] == stamp_role(nv, nv[j]),
            explicit == has_explicit_id(fields),
            named_id == has_id_named(fields),
            out@.len() == i,
            forall|j: int| 0 <= j < i ==> #[trigger] out@[j]@ == field_model(*decl, j),
        decreases decl.fields.len() - i,
    {
        let f = &decl.fields[i];
        let is_id = if explicit {
            f.is_id
        } else if named_id {
            same_text(names[i].as_str(), "id")
        } else {
            decl.entity_type == EntityType::Node
        };
        assert(names@[i as int]@ == nv[i as int]);
        assert(nv[i as int] == wire_name(fields[i as int]));
        out.push(
            FieldSchema {
                name: names[i].clone(),
                declared_name: f.declared_name.clone(),
                field_type: f.field_type,
                is_id: is_id,
                stamp: roles[i],
            },
        );
        i = i + 1;
    }
    let typename: String;
    let labels: Vec<String>;
    let explicit_list = match &decl.labels {
        Some(l) => l.len() > 0,
        None => false,
    };
    if explicit_list {
        let l = decl.labels.as_ref().unwrap();
        typename = l[0].clone();
        labels = copy_strings(l);
    } else {
        typename = match &decl.name {
            Some(n) => n.clone(),
            None => match decl.entity_type {
                EntityType::Node => decl.struct_name.clone(),
                EntityType::Relation => screaming_snake(decl.struct_name.as_str()),
            },
        };
        let mut single: Vec<String> = Vec::new();
        single.push(typename.clone());
        labels = single;
        assert(strings_view(labels@) =~= seq![typename@]);
    }
    let entity = EntitySchema { typename, labels, fields: out };
    assert(entity@.fields =~= entity_view(*decl).fields);
    let id = entity.identifier();
    proof {
        lemma_single_stamp_roles(*decl);
    }
    Ok((entity, id))
}

} // verus!
