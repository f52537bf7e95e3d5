//! Rendering a schema into query fragments: `name: $param` lists and object
//! patterns, under a name prefix and a [`StampMode`].
use vstd::prelude::*;
use crate::format::{join_nonempty, join_parts, object_text, opt_view, prefix_text, wrap_object};
use crate::schema::{field_models, strings_view, EntitySchema, FieldModel, SchemaView};
use crate::stamps::{now_text, render_role, role_fragment, StampMode};

verus! {

/// How one field renders.
pub open spec fn field_fragment(f: FieldModel, prefix: Option<Seq<char>>, mode: StampMode) -> Seq<char> {
    role_fragment(f.name, f.stamp, prefix, mode)
}

/// The rendered fields, non-empty fragments joined with `", "`.
pub open spec fn fields_text(fields: Seq<FieldModel>, prefix: Option<Seq<char>>, mode: StampMode) -> Seq<char> {
    join_nonempty(fields.map_values(|f: FieldModel| field_fragment(f, prefix, mode)))
}

/// Labels joined with `:`.
pub open spec fn colon_join(labels: Seq<Seq<char>>) -> Seq<char>
    decreases labels.len(),
{
    if labels.len() == 0 {
        Seq::empty()
    } else if labels.len() == 1 {
        labels[0]
    } else {
        colon_join(labels.drop_last()) + seq![':'] + labels.last()
    }
}

/// The object pattern of a schema: `A:B { fields }`, or the labels alone when
/// no field renders.
pub open spec fn object_of(s: SchemaView, prefix: Option<Seq<char>>, mode: StampMode) -> Seq<char> {
    object_text(colon_join(s.labels), fields_text(s.fields, prefix, mode))
}

/// Whether no field of a schema has a stamp role.
pub open spec fn without_stamps(fields: Seq<FieldModel>) -> bool {
    forall|i: int| 0 <= i < fields.len() ==> (#[trigger] fields[i]).stamp is None
}

/// Without stamp fields the mode changes nothing: every mode renders the
/// fields as `Read` does.
pub proof fn lemma_mode_needs_stamps(fields: Seq<FieldModel>, prefix: Option<Seq<char>>, mode: StampMode)
    requires
        without_stamps(fields),
    ensures
        fields_text(fields, prefix, mode) == fields_text(fields, prefix, StampMode::Read),
{
    assert(fields.map_values(|f: FieldModel| field_fragment(f, prefix, mode)) =~= fields.map_values(
        |f: FieldModel| field_fragment(f, prefix, StampMode::Read),
    ));
}

/// A prefix reaches placeholders only: a field renders to nothing, to
/// `name: datetime()`, or to `name: $<prefix_>name`; the text before the
/// placeholder is the bare field name under every prefix, and dropping the
/// prefix leaves the same fragment with an unprefixed placeholder.
pub proof fn lemma_prefix_isolation(f: FieldModel, prefix: Option<Seq<char>>, mode: StampMode)
    ensures
        field_fragment(f, prefix, mode).len() == 0
            || field_fragment(f, prefix, mode) == f.name + now_text()
            || field_fragment(f, prefix, mode) == f.name + seq![':', ' ', '$'] + prefix_text(prefix) + f.name,
        field_fragment(f, prefix, mode).len() == 0 <==> field_fragment(f, None, mode).len() == 0,
        field_fragment(f, prefix, mode) == f.name + now_text() <==> field_fragment(f, None, mode)
            == f.name + now_text(),
        field_fragment(f, None, mode) == f.name + seq![':', ' ', '$'] + f.name ==> field_fragment(
            f,
            prefix,
            mode,
        ) == f.name + seq![':', ' ', '$'] + prefix_text(prefix) + f.name,
{
    assert(prefix_text(None) =~= Seq::<char>::empty());
    assert(f.name + seq![':', ' ', '$'] + prefix_text(None) + f.name =~= f.name + seq![':', ' ', '$'] + f.name);
    if f.name.len() > 0 {
        reveal_strlit(": datetime()");
        let a = f.name + now_text();
        let b = f.name + seq![':', ' ', '$'] + prefix_text(prefix) + f.name;
        let c = f.name + seq![':', ' ', '$'] + f.name;
        assert(a[f.name.len() as int + 2] == 'd');
        assert(b[f.name.len() as int + 2] == '$');
        assert(c[f.name.len() as int + 2] == '$');
    }
}

/// Joins labels with `:`.
fn join_labels(labels: &Vec<String>) -> (r: String)
    ensures
        r@ == colon_join(strings_view(labels@)),
{
    let ghost views = strings_view(labels@);
    let mut out = String::new();
    let mut i: usize = 0;
    while i < labels.len()
        invariant
            i <= labels.len(),
            views == strings_view(labels@),
            out@ == colon_join(views.take(i as int)),
        decreases labels.len() - i,
    {
        assert(views.take(i as int + 1).drop_last() =~= views.take(i as int));
        if i > 0 {
            out.append(":");
            proof {
                reveal_strlit(":");
            }
        }
        out.append(labels[i].as_str());
        i = i + 1;
    }
    assert(views.take(labels.len() as int) =~= views);
    out
}

impl EntitySchema {
    /// The primary label of a node, or the type of a relationship.
    pub fn typename(&self) -> (r: &str)
        ensures
            r@ == self@.typename,
    {
        self.typename.as_str()
    }

    /// The labels, primary label first.
    pub fn labels(&self) -> (r: &Vec<String>)
        ensures
            strings_view(r@) == self@.labels,
    {
        &self.labels
    }

    /// The query names of the fields, in order.
    pub fn field_names(&self) -> (r: Vec<String>)
        ensures
            strings_view(r@) == self@.fields.map_values(|f: FieldModel| f.name),
    {
        let mut out: Vec<String> = Vec::new();
        let mut i: usize = 0;
        while i < self.fields.len()
            invariant
                i <= self.fields.len(),
                out@.len() == i,
                forall|j: int| 0 <= j < i ==> #[trigger] out@[j]@ == self.fields@[j].name@,
            decreases self.fields.len() - i,
        {
            out.push(self.fields[i].name.clone());
            i = i + 1;
        }
        assert(strings_view(out@) =~= self@.fields.map_values(|f: FieldModel| f.name));
        out
    }

    /// The fields as a query string, `bar: $bar, ...`. The prefix applies to
    /// placeholders only (`bar: $prefix_bar`); stamp fields follow `mode`.
    pub fn to_query_fields(&self, prefix: Option<&str>, mode: StampMode) -> (r: String)
        ensures
            r@ == fields_text(self@.fields, opt_view(prefix), mode),
    {
        let ghost models = field_models(self.fields@);
        let mut parts: Vec<String> = Vec::new();
        let mut i: usize = 0;
        while i < self.fields.len()
            invariant
                i <= self.fields.len(),
                models == field_models(self.fields@),
                parts@.len() == i,
                forall|j: int| 0 <= j < i ==> #[trigger] parts@[j]@ == field_fragment(models[j], opt_view(prefix), mode),
            decreases self.fields.len() - i,
        {
            let f = &self.fields[i];
            parts.push(render_role(f.name.as_str(), f.stamp, prefix, mode));
            i = i + 1;
        }
        let r = join_parts(&parts);
        assert(parts@.map_values(|s: String| s@) =~= models.map_values(
            |f: FieldModel| field_fragment(f, opt_view(prefix), mode),
        ));
        r
    }

    /// The object pattern `A:B { fields }`, or the labels alone when no field renders.
    pub fn to_query_obj(&self, prefix: Option<&str>, mode: StampMode) -> (r: String)
        ensures
            r@ == object_of(self@, opt_view(prefix), mode),
    {
        let labels = join_labels(&self.labels);
        let fields = self.to_query_fields(prefix, mode);
        wrap_object(labels.as_str(), fields.as_str())
    }

    /// The fields with unprefixed placeholders, in `Read` mode: `bar: $bar`.
    pub fn as_query_fields(&self) -> (r: String)
        ensures
            r@ == fields_text(self@.fields, None, StampMode::Read),
    {
        self.to_query_fields(None, StampMode::Read)
    }

    /// The object pattern with unprefixed placeholders, in `Read` mode: `Foo { bar: $bar }`.
    pub fn as_query_obj(&self) -> (r: String)
        ensures
            r@ == object_of(self@, None, StampMode::Read),
    {
        self.to_query_obj(None, StampMode::Read)
    }
}

} // verus!
