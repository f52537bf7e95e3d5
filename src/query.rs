//! Whole statements: statement text composed from object patterns, with the
//! parameter bindings of each record that takes part.
use vstd::prelude::*;
use crate::error::{Error, ErrorView};
use crate::format::opt_view;
use crate::record::{bound_params, params_view, Record};
use crate::render::{fields_text, object_of};
use crate::schema::{id_fields, identifier_view, EntitySchema, SchemaView};
use crate::stamps::StampMode;
use crate::values::{field_values_view, Value, ValueView};

verus! {

/// A statement to run: its text and its parameters.
#[derive(Clone, Debug, PartialEq, Eq)]
pub struct Statement {
    pub text: String,
    pub params: Vec<(String, Value)>,
}

pub struct StatementView {
    pub text: Seq<char>,
    pub params: Seq<(Seq<char>, ValueView)>,
}

impl View for Statement {
    type V = StatementView;

    open spec fn view(&self) -> StatementView {
        StatementView { text: self.text@, params: params_view(self.params@) }
    }
}

/// How a node enters a relationship-creation statement.
pub enum RelationBound<'a> {
    /// The node does not exist yet: create it from its full record.
    Create(&'a Record),
    /// The node exists: match it by its identifier record.
    Match(&'a Record),
}

/// The parameters a record contributes under `prefix` and `mode`.
pub open spec fn record_params(r: Record, prefix: Option<Seq<char>>, mode: StampMode) -> Seq<(Seq<char>, ValueView)> {
    bound_params(r.schema@.fields, field_values_view(r.values@), prefix, mode)
}

/// `(alias:<object>)`.
pub open spec fn pattern_text(alias: Seq<char>, s: SchemaView, prefix: Option<Seq<char>>, mode: StampMode) -> Seq<char> {
    "("@ + alias + ":"@ + object_of(s, prefix, mode) + ")"@
}

/// The clause that brings an endpoint into a relationship-creation statement
/// under `alias`, which also prefixes its placeholders.
pub open spec fn bound_clause(b: RelationBound, alias: Seq<char>) -> Seq<char> {
    match b {
        RelationBound::Create(r) => "CREATE "@ + pattern_text(alias, r.schema@, Some(alias), StampMode::Create),
        RelationBound::Match(r) => "MATCH "@ + pattern_text(alias, r.schema@, Some(alias), StampMode::Read),
    }
}

/// The parameters an endpoint contributes: a created node's full record in
/// `Create` mode, a matched node's identifier in `Read` mode.
pub open spec fn bound_clause_params(b: RelationBound, alias: Seq<char>) -> Seq<(Seq<char>, ValueView)> {
    match b {
        RelationBound::Create(r) => record_params(*r, Some(alias), StampMode::Create),
        RelationBound::Match(r) => record_params(*r, Some(alias), StampMode::Read),
    }
}

pub open spec fn bound_wf(b: RelationBound) -> bool {
    match b {
        RelationBound::Create(r) => r.wf(),
        RelationBound::Match(r) => r.wf(),
    }
}

/// `(alias:<object>)` for a schema.
fn pattern(alias: &str, s: &EntitySchema, prefix: Option<&str>, mode: StampMode) -> (r: String)
    ensures
        r@ == pattern_text(alias@, s@, opt_view(prefix), mode),
{
    let obj = s.to_query_obj(prefix, mode);
    let mut t = String::from_str("(");
    t.append(alias);
    t.append(":");
    t.append(obj.as_str());
    t.append(")");
    t
}

/// Both parameter lists, the first one first.
fn concat_params(a: Vec<(String, Value)>, b: Vec<(String, Value)>) -> (r: Vec<(String, Value)>)
    ensures
        params_view(r@) == params_view(a@) + params_view(b@),
{
    let mut a = a;
    let mut b = b;
    let ghost av = a@;
    let ghost bv = b@;
    a.append(&mut b);
    assert(params_view(a@) =~= params_view(av) + params_view(bv));
    a
}

impl<'a> RelationBound<'a> {
    /// The `CREATE (alias:...)` or `MATCH (alias:...)` clause of this endpoint.
    pub fn to_query_clause(&self, prefix: &str) -> (r: String)
        ensures
            r@ == bound_clause(*self, prefix@),
    {
        match self {
            RelationBound::Create(rec) => {
                let p = pattern(prefix, &rec.schema, Some(prefix), StampMode::Create);
                let mut t = String::from_str("CREATE ");
                t.append(p.as_str());
                t
            },
            RelationBound::Match(rec) => {
                let p = pattern(prefix, &rec.schema, Some(prefix), StampMode::Read);
                let mut t = String::from_str("MATCH ");
                t.append(p.as_str());
                t
            },
        }
    }

    /// The parameters of this endpoint under `prefix`.
    pub fn add_params(&self, prefix: &str) -> (r: Vec<(String, Value)>)
        requires
            bound_wf(*self),
        ensures
            params_view(r@) == bound_clause_params(*self, prefix@),
    {
        match self {
            RelationBound::Create(rec) => rec.bind_params(Some(prefix), StampMode::Create),
            RelationBound::Match(rec) => rec.bind_params(Some(prefix), StampMode::Read),
        }
    }
}

/// `CREATE (n:<object>)` for a new node, its fields bound in `Create` mode.
pub fn create_node(node: &Record) -> (r: Statement)
    requires
        node.wf(),
    ensures
        r@.text == "CREATE "@ + pattern_text("n"@, node.schema@, None, StampMode::Create),
        r@.params == record_params(*node, None, StampMode::Create),
{
    let p = pattern("n", &node.schema, None, StampMode::Create);
    let mut text = String::from_str("CREATE ");
    text.append(p.as_str());
    Statement { text, params: node.bind_params(None, StampMode::Create) }
}

/// Reads a node by its identifier: `MATCH (n:<identifier object>) RETURN n`.
pub fn read_node(id: &Record) -> (r: Statement)
    requires
        id.wf(),
    ensures
        r@.text == "MATCH "@ + pattern_text("n"@, id.schema@, None, StampMode::Read) + " RETURN n"@,
        r@.params == record_params(*id, None, StampMode::Read),
{
    let p = pattern("n", &id.schema, None, StampMode::Read);
    let mut text = String::from_str("MATCH ");
    text.append(p.as_str());
    text.append(" RETURN n");
    Statement { text, params: id.bind_params(None, StampMode::Read) }
}

/// Deletes a node by its identifier: `MATCH (n:<identifier object>) DETACH DELETE n`.
pub fn delete_node(id: &Record) -> (r: Statement)
    requires
        id.wf(),
    ensures
        r@.text == "MATCH "@ + pattern_text("n"@, id.schema@, None, StampMode::Read) + " DETACH DELETE n"@,
        r@.params == record_params(*id, None, StampMode::Read),
{
    let p = pattern("n", &id.schema, None, StampMode::Read);
    let mut text = String::from_str("MATCH ");
    text.append(p.as_str());
    text.append(" DETACH DELETE n");
    Statement { text, params: id.bind_params(None, StampMode::Read) }
}

/// Merges the record's values into the node its identity fields select:
/// `MATCH (n:<identifier object>) SET n += { <fields in Update mode> }`.
pub fn update_node(node: &Record) -> (r: Statement)
    requires
        node.wf(),
    ensures
        r@.text == "MATCH "@ + pattern_text("n"@, identifier_view(node.schema@), None, StampMode::Read)
            + " SET n += { "@ + fields_text(node.schema@.fields, None, StampMode::Update) + " }"@,
        r@.params == record_params(*node, None, StampMode::Update),
{
    let id = node.schema.identifier();
    let p = pattern("n", &id, None, StampMode::Read);
    let f = node.schema.to_query_fields(None, StampMode::Update);
    let mut text = String::from_str("MATCH ");
    text.append(p.as_str());
    text.append(" SET n += { ");
    text.append(f.as_str());
    text.append(" }");
    Statement { text, params: node.bind_params(None, StampMode::Update) }
}

/// Creates a relationship between two endpoints, each created or matched:
/// the endpoint clauses under aliases `s` and `e`, then
/// `CREATE (s)-[:<relationship object>]->(e)`, one per line. Parameters come
/// from the start endpoint, the end endpoint, then the relationship in
/// `Create` mode.
pub fn create_relation(rel: &Record, start: &RelationBound, end: &RelationBound) -> (r: Statement)
    requires
        rel.wf(),
        bound_wf(*start),
        bound_wf(*end),
    ensures
        r@.text == bound_clause(*start, "s"@) + "\n"@ + bound_clause(*end, "e"@) + "\nCREATE (s)-[:"@
            + object_of(rel.schema@, None, StampMode::Create) + "]->(e)"@,
        r@.params == bound_clause_params(*start, "s"@) + bound_clause_params(*end, "e"@)
            + record_params(*rel, None, StampMode::Create),
{
    let s = start.to_query_clause("s");
    let e = end.to_query_clause("e");
    let obj = rel.schema.to_query_obj(None, StampMode::Create);
    let mut text = s;
    text.append("\n");
    text.append(e.as_str());
    text.append("\nCREATE (s)-[:");
    text.append(obj.as_str());
    text.append("]->(e)");
    let params = concat_params(
        concat_params(start.add_params("s"), end.add_params("e")),
        rel.bind_params(None, StampMode::Create),
    );
    Statement { text, params }
}

/// Whether a schema's identifier has no fields.
fn identity_empty(s: &EntitySchema) -> (r: bool)
    ensures
        r == (id_fields(s@.fields).len() == 0),
{
    let id = s.identifier();
    id.fields.len() == 0
}

/// The error for a relationship type without identity fields.
fn empty_identity(s: &EntitySchema) -> (r: Error)
    ensures
        r@ == ErrorView::EmptyIdentity(s@.typename),
{
    Error::EmptyIdentity(s.typename.clone())
}

/// Merges the record's values into the one relationship its identity fields
/// select: `MATCH ()-[r:<identifier object>]-() SET r += { <fields in Update mode> }`.
/// Fails when the relationship type has no identity fields, since no single
/// relationship is then selected.
pub fn update_relation(rel: &Record) -> (r: Result<Statement, Error>)
    requires
        rel.wf(),
    ensures
        r is Err <==> id_fields(rel.schema@.fields).len() == 0,
        match r {
            Ok(st) => st@.text == "MATCH ()-[r:"@ + object_of(identifier_view(rel.schema@), None, StampMode::Read)
                + "]-() SET r += { "@ + fields_text(rel.schema@.fields, None, StampMode::Update) + " }"@
                && st@.params == record_params(*rel, None, StampMode::Update),
            Err(e) => e@ == ErrorView::EmptyIdentity(rel.schema@.typename),
        },
{
    if identity_empty(&rel.schema) {
        return Err(empty_identity(&rel.schema));
    }
    let id = rel.schema.identifier();
    let obj = id.to_query_obj(None, StampMode::Read);
    let f = rel.schema.to_query_fields(None, StampMode::Update);
    let mut text = String::from_str("MATCH ()-[r:");
    text.append(obj.as_str());
    text.append("]-() SET r += { ");
    text.append(f.as_str());
    text.append(" }");
    Ok(Statement { text, params: rel.bind_params(None, StampMode::Update) })
}

/// Merges the record's values into the relationships of its identity that
/// touch the node `from` identifies:
/// `MATCH (n:<from object>)-[r:<identifier object>]-() SET r += { ... }`.
pub fn update_relation_from(rel: &Record, from: &Record) -> (r: Statement)
    requires
        rel.wf(),
        from.wf(),
    ensures
        r@.text == "MATCH "@ + pattern_text("n"@, from.schema@, Some("n"@), StampMode::Read) + "-[r:"@
            + object_of(identifier_view(rel.schema@), None, StampMode::Read) + "]-() SET r += { "@
            + fields_text(rel.schema@.fields, None, StampMode::Update) + " }"@,
        r@.params == record_params(*from, Some("n"@), StampMode::Read) + record_params(*rel, None, StampMode::Update),
{
    let p = pattern("n", &from.schema, Some("n"), StampMode::Read);
    let id = rel.schema.identifier();
    let obj = id.to_query_obj(None, StampMode::Read);
    let f = rel.schema.to_query_fields(None, StampMode::Update);
    let mut text = String::from_str("MATCH ");
    text.append(p.as_str());
    text.append("-[r:");
    text.append(obj.as_str());
    text.append("]-() SET r += { ");
    text.append(f.as_str());
    text.append(" }");
    let params = concat_params(from.bind_params(Some("n"), StampMode::Read), rel.bind_params(None, StampMode::Update));
    Statement { text, params }
}

/// Merges the record's values into the relationships of its identity between
/// the nodes `start` and `end` identify:
/// `MATCH (s:<start object>)-[r:<identifier object>]-(e:<end object>) SET r += { ... }`.
pub fn update_relation_between(rel: &Record, start: &Record, end: &Record) -> (r: Statement)
    requires
        rel.wf(),
        start.wf(),
        end.wf(),
    ensures
        r@.text == "MATCH "@ + pattern_text("s"@, start.schema@, Some("s"@), StampMode::Read) + "-[r:"@
            + object_of(identifier_view(rel.schema@), None, StampMode::Read) + "]-"@ + pattern_text(
            "e"@,
            end.schema@,
            Some("e"@),
            StampMode::Read,
        ) + " SET r += { "@ + fields_text(rel.schema@.fields, None, StampMode::Update) + " }"@,
        r@.params == record_params(*start, Some("s"@), StampMode::Read) + record_params(*end, Some("e"@), StampMode::Read)
            + record_params(*rel, None, StampMode::Update),
{
    let ps = pattern("s", &start.schema, Some("s"), StampMode::Read);
    let pe = pattern("e", &end.schema, Some("e"), StampMode::Read);
    let id = rel.schema.identifier();
    let obj = id.to_query_obj(None, StampMode::Read);
    let f = rel.schema.to_query_fields(None, StampMode::Update);
    let mut text = String::from_str("MATCH ");
    text.append(ps.as_str());
    text.append("-[r:");
    text.append(obj.as_str());
    text.append("]-");
    text.append(pe.as_str());
    text.append(" SET r += { ");
    text.append(f.as_str());
    text.append(" }");
    let params = concat_params(
        concat_params(start.bind_params(Some("s"), StampMode::Read), end.bind_params(Some("e"), StampMode::Read)),
        rel.bind_params(None, StampMode::Update),
    );
    Statement { text, params }
}

/// `MATCH [r:<object>] <action>` for one relationship selected by its
/// identifier record; fails when the identifier has no fields.
fn relation_by_id(id: &Record, action: &str) -> (r: Result<Statement, Error>)
    requires
        id.wf(),
    ensures
        r is Err <==> id.schema@.fields.len() == 0,
        match r {
            Ok(st) => st@.text == "MATCH [r:"@ + object_of(id.schema@, None, StampMode::Read) + "] "@ + action@
                && st@.params == record_params(*id, None, StampMode::Read),
            Err(e) => e@ == ErrorView::EmptyIdentity(id.schema@.typename),
        },
{
    if id.schema.fields.len() == 0 {
        return Err(empty_identity(&id.schema));
    }
    let obj = id.schema.to_query_obj(None, StampMode::Read);
    let mut text = String::from_str("MATCH [r:");
    text.append(obj.as_str());
    text.append("] ");
    text.append(action);
    Ok(Statement { text, params: id.bind_params(None, StampMode::Read) })
}

/// Reads the one relationship an identifier selects: `MATCH [r:<object>] RETURN r`.
/// Fails when the identifier has no fields; use [`read_relation_from`] or
/// [`read_relation_between`] for relationships of such a type.
pub fn read_relation(id: &Record) -> (r: Result<Statement, Error>)
    requires
        id.wf(),
    ensures
        r is Err <==> id.schema@.fields.len() == 0,
        match r {
            Ok(st) => st@.text == "MATCH [r:"@ + object_of(id.schema@, None, StampMode::Read) + "] "@ + "RETURN r"@
                && st@.params == record_params(*id, None, StampMode::Read),
            Err(e) => e@ == ErrorView::EmptyIdentity(id.schema@.typename),
        },
{
    relation_by_id(id, "RETURN r")
}

/// Deletes the one relationship an identifier selects: `MATCH [r:<object>] DELETE r`.
/// Fails when the identifier has no fields.
pub fn delete_relation(id: &Record) -> (r: Result<Statement, Error>)
    requires
        id.wf(),
    ensures
        r is Err <==> id.schema@.fields.len() == 0,
        match r {
            Ok(st) => st@.text == "MATCH [r:"@ + object_of(id.schema@, None, StampMode::Read) + "] "@ + "DELETE r"@
                && st@.params == record_params(*id, None, StampMode::Read),
            Err(e) => e@ == ErrorView::EmptyIdentity(id.schema@.typename),
        },
{
    relation_by_id(id, "DELETE r")
}

/// `MATCH (n:<from object>)-[r:<object>]-() <action>`.
fn relation_from(id: &Record, from: &Record, action: &str) -> (r: Statement)
    requires
        id.wf(),
        from.wf(),
    ensures
        r@.text == "MATCH "@ + pattern_text("n"@, from.schema@, Some("n"@), StampMode::Read) + "-[r:"@
            + object_of(id.schema@, None, StampMode::Read) + "]-() "@ + action@,
        r@.params == record_params(*from, Some("n"@), StampMode::Read) + record_params(*id, None, StampMode::Read),
{
    let p = pattern("n", &from.schema, Some("n"), StampMode::Read);
    let obj = id.schema.to_query_obj(None, StampMode::Read);
    let mut text = String::from_str("MATCH ");
    text.append(p.as_str());
    text.append("-[r:");
    text.append(obj.as_str());
    text.append("]-() ");
    text.append(action);
    let params = concat_params(from.bind_params(Some("n"), StampMode::Read), id.bind_params(None, StampMode::Read));
    Statement { text, params }
}

/// `MATCH (s:<start object>)-[r:<object>]-(e:<end object>) <action>`.
fn relation_between(id: &Record, start: &Record, end: &Record, action: &str) -> (r: Statement)
    requires
        id.wf(),
        start.wf(),
        end.wf(),
    ensures
        r@.text == "MATCH "@ + pattern_text("s"@, start.schema@, Some("s"@), StampMode::Read) + "-[r:"@
            + object_of(id.schema@, None, StampMode::Read) + "]-"@ + pattern_text("e"@, end.schema@, Some("e"@), StampMode::Read)
            + " "@ + action@,
        r@.params == record_params(*start, Some("s"@), StampMode::Read) + record_params(*end, Some("e"@), StampMode::Read)
            + record_params(*id, None, StampMode::Read),
{
    let ps = pattern("s", &start.schema, Some("s"), StampMode::Read);
    let pe = pattern("e", &end.schema, Some("e"), StampMode::Read);
    let obj = id.schema.to_query_obj(None, StampMode::Read);
    let mut text = String::from_str("MATCH ");
    text.append(ps.as_str());
    text.append("-[r:");
    text.append(obj.as_str());
    text.append("]-");
    text.append(pe.as_str());
    text.append(" ");
    text.append(action);
    let params = concat_params(
        concat_params(start.bind_params(Some("s"), StampMode::Read), end.bind_params(Some("e"), StampMode::Read)),
        id.bind_params(None, StampMode::Read),
    );
    Statement { text, params }
}

/// Reads the relationships an identifier matches that touch the node `from`
/// identifies; with an empty identifier, all of that type at the node.
pub fn read_relation_from(id: &Record, from: &Record) -> (r: Statement)
    requires
        id.wf(),
        from.wf(),
    ensures
        r@.text == "MATCH "@ + pattern_text("n"@, from.schema@, Some("n"@), StampMode::Read) + "-[r:"@
            + object_of(id.schema@, None, StampMode::Read) + "]-() "@ + "RETURN r"@,
        r@.params == record_params(*from, Some("n"@), StampMode::Read) + record_params(*id, None, StampMode::Read),
{
    relation_from(id, from, "RETURN r")
}

/// Reads the relationships an identifier matches between the nodes `start`
/// and `end` identify.
pub fn read_relation_between(id: &Record, start: &Record, end: &Record) -> (r: Statement)
    requires
        id.wf(),
        start.wf(),
        end.wf(),
    ensures
        r@.text == "MATCH "@ + pattern_text("s"@, start.schema@, Some("s"@), StampMode::Read) + "-[r:"@
            + object_of(id.schema@, None, StampMode::Read) + "]-"@ + pattern_text("e"@, end.schema@, Some("e"@), StampMode::Read)
            + " "@ + "RETURN r"@,
        r@.params == record_params(*start, Some("s"@), StampMode::Read) + record_params(*end, Some("e"@), StampMode::Read)
            + record_params(*id, None, StampMode::Read),
{
    relation_between(id, start, end, "RETURN r")
}

/// Deletes the relationships an identifier matches that touch the node `from` identifies.
pub fn delete_relation_from(id: &Record, from: &Record) -> (r: Statement)
    requires
        id.wf(),
        from.wf(),
    ensures
        r@.text == "MATCH "@ + pattern_text("n"@, from.schema@, Some("n"@), StampMode::Read) + "-[r:"@
            + object_of(id.schema@, None, StampMode::Read) + "]-() "@ + "DELETE r"@,
        r@.params == record_params(*from, Some("n"@), StampMode::Read) + record_params(*id, None, StampMode::Read),
{
    relation_from(id, from, "DELETE r")
}

/// Deletes the relationships an identifier matches between the nodes `start`
/// and `end` identify.
pub fn delete_relation_between(id: &Record, start: &Record, end: &Record) -> (r: Statement)
    requires
        id.wf(),
        start.wf(),
        end.wf(),
    ensures
        r@.text == "MATCH "@ + pattern_text("s"@, start.schema@, Some("s"@), StampMode::Read) + "-[r:"@
            + object_of(id.schema@, None, StampMode::Read) + "]-"@ + pattern_text("e"@, end.schema@, Some("e"@), StampMode::Read)
            + " "@ + "DELETE r"@,
        r@.params == record_params(*start, Some("s"@), StampMode::Read) + record_params(*end, Some("e"@), StampMode::Read)
            + record_params(*id, None, StampMode::Read),
{
    relation_between(id, start, end, "DELETE r")
}

impl Statement {
    /// Whether some parameter is named `key`.
    pub fn has_param_key(&self, key: &str) -> (r: bool)
        ensures
            r == exists|i: int| 0 <= i < self@.params.len() && (#[trigger] self@.params[i]).0 == key@,
    {
        let mut i: usize = 0;
        while i < self.params.len()
            invariant
                i <= self.params.len(),
                forall|j: int| 0 <= j < i ==> (#[trigger] self@.params[j]).0 != key@,
            decreases self.params.len() - i,
        {
            if crate::format::same_text(self.params[i].0.as_str(), key) {
                assert(self@.params[i as int].0 == key@);
                return true;
            }
            i = i + 1;
        }
        false
    }
}

} // verus!
