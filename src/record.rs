//! Record values checked against a schema: conformance, the parameter
//! bindings they contribute to a statement, their identifier, and
//! reconstruction from what the store returned.
use vstd::prelude::*;
use crate::error::{Error, ErrorView};
use crate::format::{format_param, opt_view, prefix_text};
use crate::schema::{copy_strings, field_models, id_fields, identifier_view, EntitySchema, FieldModel, FieldSchema, SchemaView};
use crate::stamps::{StampMode, StampType};
use crate::values::{
    decode, encode, encode_field, field_values_view, fits, named, opt_value_view, read_field,
    value_fits, FieldValue, FieldValueView, ReadFailure, Value, ValueView,
};

verus! {

/// The values of one record, one per field of its schema, in field order.
#[derive(Clone, Debug, PartialEq, Eq)]
pub struct Record {
    pub schema: EntitySchema,
    pub values: Vec<FieldValue>,
}

/// Whether values match a schema: one per field, each of the field's type.
pub open spec fn conforms(s: SchemaView, vs: Seq<FieldValueView>) -> bool {
    &&& vs.len() == s.fields.len()
    &&& forall|i: int| 0 <= i < vs.len() ==> fits(s.fields[i].field_type, #[trigger] vs[i])
}

/// Whether a field takes part in the parameters under `mode`: every named
/// field does, but a created stamp not when creating, and an updated stamp
/// only when reading.
pub open spec fn binds(f: FieldModel, mode: StampMode) -> bool {
    f.name.len() > 0 && match f.stamp {
        None => true,
        Some(StampType::Created) => mode != StampMode::Create,
        Some(StampType::Updated) => mode == StampMode::Read,
    }
}

/// The parameters a record contributes: for each field that binds, its
/// prefixed parameter name and its value as the store takes it.
pub open spec fn bound_params(
    fields: Seq<FieldModel>,
    vs: Seq<FieldValueView>,
    prefix: Option<Seq<char>>,
    mode: StampMode,
) -> Seq<(Seq<char>, ValueView)>
    decreases fields.len(),
{
    if fields.len() == 0 || vs.len() == 0 {
        Seq::empty()
    } else {
        let rest = bound_params(fields.drop_last(), vs.drop_last(), prefix, mode);
        let f = fields.last();
        if binds(f, mode) {
            rest.push((prefix_text(prefix) + f.name, encode(vs.last())))
        } else {
            rest
        }
    }
}

/// The values of the identity fields, in order.
pub open spec fn id_values(fields: Seq<FieldModel>, vs: Seq<FieldValueView>) -> Seq<FieldValueView>
    decreases fields.len(),
{
    if fields.len() == 0 || vs.len() == 0 {
        Seq::empty()
    } else {
        let rest = id_values(fields.drop_last(), vs.drop_last());
        if fields.last().is_id {
            rest.push(vs.last())
        } else {
            rest
        }
    }
}

/// A field contributes a parameter exactly when it renders as a placeholder,
/// and the parameter's name is the placeholder's token.
pub proof fn lemma_bindings_match_placeholders(f: FieldModel, prefix: Option<Seq<char>>, mode: StampMode)
    ensures
        binds(f, mode) <==> (f.name.len() > 0 && crate::render::field_fragment(f, prefix, mode)
            == crate::format::placeholder_text(f.name, prefix)),
        binds(f, mode) ==> crate::format::placeholder_text(f.name, prefix) == f.name + seq![':', ' ', '$']
            + (prefix_text(prefix) + f.name),
{
    let ph = crate::format::placeholder_text(f.name, prefix);
    assert(ph =~= f.name + seq![':', ' ', '$'] + (prefix_text(prefix) + f.name));
    if f.name.len() > 0 {
        reveal_strlit(": datetime()");
        let now = f.name + crate::stamps::now_text();
        assert(now[f.name.len() as int + 2] == 'd');
        assert(ph[f.name.len() as int + 2] == '$');
        assert(ph.len() > 0);
    }
}

pub open spec fn params_view(p: Seq<(String, Value)>) -> Seq<(Seq<char>, ValueView)> {
    p.map_values(|x: (String, Value)| (x.0@, x.1@))
}

pub open spec fn got_view(got: Seq<Option<Value>>) -> Seq<Option<ValueView>> {
    got.map_values(|g: Option<Value>| opt_value_view(g))
}

/// What reading field `i` of `s` from `got` gives.
pub open spec fn read_at(s: SchemaView, got: Seq<Option<ValueView>>, i: int) -> Result<FieldValueView, ReadFailure> {
    decode(s.fields[i].field_type, got[i])
}

/// A value that reads back successfully is one its type declares.
pub proof fn lemma_decoded_fits(t: crate::values::FieldType, got: Option<ValueView>)
    ensures
        decode(t, got) is Ok ==> fits(t, decode(t, got)->Ok_0),
{
}

impl Record {
    pub open spec fn wf(&self) -> bool {
        conforms(self.schema@, field_values_view(self.values@))
    }

    /// Pairs values with a schema; `None` when they do not conform to it.
    pub fn new(schema: EntitySchema, values: Vec<FieldValue>) -> (r: Option<Record>)
        ensures
            r is Some <==> conforms(schema@, field_values_view(values@)),
            r matches Some(rec) ==> rec.schema == schema && rec.values == values && rec.wf(),
    {
        if values.len() != schema.fields.len() {
            return None;
        }
        let mut i: usize = 0;
        while i < values.len()
            invariant
                i <= values.len(),
                values.len() == schema.fields.len(),
                forall|j: int| 0 <= j < i ==> fits(schema@.fields[j].field_type, #[trigger] field_values_view(values@)[j]),
            decreases values.len() - i,
        {
            if !value_fits(schema.fields[i].field_type, &values[i]) {
                assert(!fits(schema@.fields[i as int].field_type, field_values_view(values@)[i as int]));
                return None;
            }
            i = i + 1;
        }
        Some(Record { schema, values })
    }

    /// The parameters this record contributes to a statement under `prefix` and `mode`.
    pub fn bind_params(&self, prefix: Option<&str>, mode: StampMode) -> (r: Vec<(String, Value)>)
        requires
            self.wf(),
        ensures
            params_view(r@) == bound_params(
                self.schema@.fields,
                field_values_view(self.values@),
                opt_view(prefix),
                mode,
            ),
    {
        let ghost fs = self.schema@.fields;
        let ghost vs = field_values_view(self.values@);
        let mut out: Vec<(String, Value)> = Vec::new();
        let mut i: usize = 0;
        while i < self.values.len()
            invariant
                i <= self.values.len(),
                self.wf(),
                fs == self.schema@.fields,
                vs == field_values_view(self.values@),
                params_view(out@) == bound_params(fs.take(i as int), vs.take(i as int), opt_view(prefix), mode),
            decreases self.values.len() - i,
        {
            let f = &self.schema.fields[i];
            assert(fs.take(i as int + 1).drop_last() =~= fs.take(i as int));
            assert(vs.take(i as int + 1).drop_last() =~= vs.take(i as int));
            assert(fs.take(i as int + 1).last() == f@);
            assert(vs.take(i as int + 1).last() == self.values@[i as int]@);
            let takes_part = !f.name.as_str().is_empty() && match f.stamp {
                None => true,
                Some(StampType::Created) => mode != StampMode::Create,
                Some(StampType::Updated) => mode == StampMode::Read,
            };
            if takes_part {
                let key = format_param(f.name.as_str(), prefix);
                let v = encode_field(&self.values[i]);
                let ghost before = out@;
                out.push((key, v));
                assert(params_view(out@) =~= params_view(before).push((key@, v@)));
            }
            i = i + 1;
        }
        assert(fs.take(self.values.len() as int) =~= fs);
        assert(vs.take(self.values.len() as int) =~= vs);
        out
    }

    /// The identifier record: the identity fields and their values.
    pub fn identifier(&self) -> (r: Record)
        requires
            self.wf(),
        ensures
            r.schema@ == identifier_view(self.schema@),
            field_values_view(r.values@) == id_values(self.schema@.fields, field_values_view(self.values@)),
            r.wf(),
    {
        let ghost fs = self.schema@.fields;
        let ghost vs = field_values_view(self.values@);
        let mut out_f: Vec<FieldSchema> = Vec::new();
        let mut out_v: Vec<FieldValue> = Vec::new();
        let mut i: usize = 0;
        while i < self.values.len()
            invariant
                i <= self.values.len(),
                self.wf(),
                fs == self.schema@.fields,
                vs == field_values_view(self.values@),
                field_models(out_f@) == id_fields(fs.take(i as int)),
                field_values_view(out_v@) == id_values(fs.take(i as int), vs.take(i as int)),
                out_f@.len() == out_v@.len(),
                forall|j: int| 0 <= j < out_v@.len() ==> fits(#[trigger] out_f@[j].field_type, out_v@[j]@),
            decreases self.values.len() - i,
        {
            let f = &self.schema.fields[i];
            assert(fs.take(i as int + 1).drop_last() =~= fs.take(i as int));
            assert(vs.take(i as int + 1).drop_last() =~= vs.take(i as int));
            assert(fs.take(i as int + 1).last() == f@);
            assert(vs.take(i as int + 1).last() == self.values@[i as int]@);
            if f.is_id {
                let ghost bf = out_f@;
                let ghost bv = out_v@;
                let mut g = f.copy();
                g.is_id = false;
                assert(fits(f.field_type, vs[i as int]));
                out_f.push(g);
                out_v.push(self.values[i].copy());
                assert(field_models(out_f@) =~= field_models(bf).push(g@));
                assert(field_values_view(out_v@) =~= field_values_view(bv).push(vs[i as int]));
            }
            i = i + 1;
        }
        assert(fs.take(self.values.len() as int) =~= fs);
        assert(vs.take(self.values.len() as int) =~= vs);
        let schema = EntitySchema {
            typename: self.schema.typename.clone(),
            labels: copy_strings(&self.schema.labels),
            fields: out_f,
        };
        let r = Record { schema, values: out_v };
        assert(field_models(r.schema.fields@).len() == r.values@.len());
        assert(forall|j: int| 0 <= j < r.values@.len() ==> field_models(r.schema.fields@)[j].field_type == r.schema.fields@[j].field_type);
        r
    }

    /// Reconstructs a record of `schema` from what the store returned for each
    /// field, in field order (`None` where it returned nothing). The first field
    /// that cannot be read decides the error.
    pub fn read(schema: EntitySchema, got: Vec<Option<Value>>) -> (r: Result<Record, Error>)
        requires
            got@.len() == schema@.fields.len(),
        ensures
            r is Ok <==> forall|i: int| 0 <= i < got@.len() ==> #[trigger] read_at(schema@, got_view(got@), i) is Ok,
            match r {
                Ok(rec) => rec.schema == schema && rec.wf() && forall|i: int|
                    0 <= i < got@.len() ==> read_at(schema@, got_view(got@), i) == Ok::<FieldValueView, ReadFailure>(
                        #[trigger] rec.values@[i]@,
                    ),
                Err(e) => exists|i: int|
                    0 <= i < got@.len() && (forall|j: int| 0 <= j < i ==> #[trigger] read_at(schema@, got_view(got@), j) is Ok)
                        && named(#[trigger] read_at(schema@, got_view(got@), i), schema@.fields[i].name) == Err::<FieldValueView, ErrorView>(e@),
            },
    {
        let ghost gv = got_view(got@);
        let ghost n = got@.len();
        let mut rest = got;
        let mut values: Vec<FieldValue> = Vec::new();
        let mut i: usize = 0;
        while i < schema.fields.len()
            invariant
                i <= schema.fields.len(),
                n == schema.fields.len(),
                gv.len() == n,
                gv == got_view(got@),
                rest@.len() == n - i,
                got_view(rest@) == gv.subrange(i as int, n as int),
                values@.len() == i,
                forall|j: int| 0 <= j < i ==> #[trigger] read_at(schema@, gv, j) == Ok::<FieldValueView, ReadFailure>(values@[j]@),
            decreases schema.fields.len() - i,
        {
            let ghost before = rest@;
            let g = rest.remove(0);
            assert(got_view(before)[0] == gv[i as int]);
            assert(opt_value_view(g) == gv[i as int]);
            assert(got_view(rest@) =~= gv.subrange(i as int + 1, n as int)) by {
                assert forall|k: int| 0 <= k < rest@.len() implies #[trigger] got_view(rest@)[k] == gv[i + 1 + k] by {
                    assert(rest@[k] == before[k + 1]);
                    assert(got_view(before)[k + 1] == gv[i + 1 + k]);
                }
            }
            let f = &schema.fields[i];
            let x = read_field(f.field_type, f.name.as_str(), g);
            match x {
                Ok(v) => {
                    values.push(v);
                },
                Err(e) => {
                    assert(named(read_at(schema@, gv, i as int), schema@.fields[i as int].name) == Err::<FieldValueView, ErrorView>(e@));
                    assert(forall|j: int| 0 <= j < i ==> #[trigger] read_at(schema@, gv, j) is Ok);
                    assert(read_at(schema@, gv, i as int) is Err);
                    return Err(e);
                },
            }
            i = i + 1;
        }
        proof {
            assert forall|j: int| 0 <= j < n implies fits(schema@.fields[j].field_type, #[trigger] field_values_view(values@)[j]) by {
                lemma_decoded_fits(schema@.fields[j].field_type, gv[j]);
                assert(read_at(schema@, gv, j) == Ok::<FieldValueView, ReadFailure>(values@[j]@));
            }
        }
        Ok(Record { schema, values })
    }
}

} // verus!
