//! An accumulator for a record: one slot per field, filled by setters in any
//! order and checked when the record is built.
use vstd::prelude::*;
use crate::error::{Error, ErrorView};
use crate::format::same_text;
use crate::record::Record;
use crate::schema::{EntitySchema, FieldModel};
use crate::values::{field_values_view, fits, value_fits, FieldValue, FieldValueView};

verus! {

/// A record under construction: `slots` holds one entry per field of `schema`,
/// `None` where the field was not set.
#[derive(Clone, Debug, PartialEq, Eq)]
pub struct Builder {
    pub schema: EntitySchema,
    pub slots: Vec<Option<FieldValue>>,
}

pub open spec fn slot_view(s: Option<FieldValue>) -> Option<FieldValueView> {
    match s {
        Some(v) => Some(v@),
        None => None,
    }
}

pub open spec fn slots_view(s: Seq<Option<FieldValue>>) -> Seq<Option<FieldValueView>> {
    s.map_values(|x: Option<FieldValue>| slot_view(x))
}

/// Whether a slot can finish: set to a value of the field's type, or unset on an optional field.
pub open spec fn slot_ok(f: FieldModel, s: Option<FieldValueView>) -> bool {
    match s {
        Some(v) => fits(f.field_type, v),
        None => f.field_type.optional,
    }
}

/// The value a finished slot gives: an unset optional field is absent.
pub open spec fn slot_value(s: Option<FieldValueView>) -> FieldValueView {
    match s {
        Some(v) => v,
        None => FieldValueView::Absent,
    }
}

/// Why a slot cannot finish: a required field never set, or a value of another type.
pub open spec fn slot_error(typename: Seq<char>, f: FieldModel, s: Option<FieldValueView>) -> ErrorView {
    match s {
        Some(_) => ErrorView::TypeMismatch(f.name),
        None => ErrorView::BuilderError(typename, f.declared_name),
    }
}

impl Builder {
    pub open spec fn wf(&self) -> bool {
        self.slots@.len() == self.schema@.fields.len()
    }

    /// An accumulator with every slot unset.
    pub fn new(schema: EntitySchema) -> (r: Builder)
        ensures
            r.schema == schema,
            r.wf(),
            forall|i: int| 0 <= i < r.slots@.len() ==> #[trigger] r.slots@[i] is None,
    {
        let mut slots: Vec<Option<FieldValue>> = Vec::new();
        let mut i: usize = 0;
        while i < schema.fields.len()
            invariant
                i <= schema.fields.len(),
                slots@.len() == i,
                forall|j: int| 0 <= j < i ==> #[trigger] slots@[j] is None,
            decreases schema.fields.len() - i,
        {
            slots.push(None);
            i = i + 1;
        }
        Builder { schema, slots }
    }

    /// An accumulator holding every value of a record.
    pub fn from_record(rec: Record) -> (r: Builder)
        requires
            rec.wf(),
        ensures
            r.schema == rec.schema,
            r.wf(),
            forall|i: int| 0 <= i < r.slots@.len() ==> #[trigger] slot_view(r.slots@[i]) == Some(rec.values@[i]@),
    {
        let Record { schema, values } = rec;
        let ghost vs = field_values_view(values@);
        let n = values.len();
        let mut rest = values;
        let mut slots: Vec<Option<FieldValue>> = Vec::new();
        let mut i: usize = 0;
        while i < n
            invariant
                i <= n,
                n == vs.len(),
                n == schema@.fields.len(),
                rest@.len() == n - i,
                field_values_view(rest@) == vs.subrange(i as int, n as int),
                slots@.len() == i,
                forall|j: int| 0 <= j < i ==> #[trigger] slot_view(slots@[j]) == Some(vs[j]),
            decreases n - i,
        {
            let ghost before = rest@;
            let v = rest.remove(0);
            assert(field_values_view(before)[0] == vs[i as int]);
            assert(field_values_view(rest@) =~= vs.subrange(i as int + 1, n as int)) by {
                assert forall|k: int| 0 <= k < rest@.len() implies #[trigger] field_values_view(rest@)[k] == vs[i + 1 + k] by {
                    assert(rest@[k] == before[k + 1]);
                    assert(field_values_view(before)[k + 1] == vs[i + 1 + k]);
                }
            }
            slots.push(Some(v));
            i = i + 1;
        }
        Builder { schema, slots }
    }

    /// Sets every field declared as `name` to `value`; the last write wins.
    pub fn set(self, name: &str, value: FieldValue) -> (r: Builder)
        requires
            self.wf(),
        ensures
            r.schema == self.schema,
            r.wf(),
            forall|i: int|
                0 <= i < r.slots@.len() ==> #[trigger] slot_view(r.slots@[i]) == if self.schema@.fields[i].declared_name
                    == name@ {
                    Some(value@)
                } else {
                    slot_view(self.slots@[i])
                },
    {
        let Builder { schema, slots } = self;
        let ghost old_slots = slots@;
        let mut slots = slots;
        let mut i: usize = 0;
        while i < slots.len()
            invariant
                i <= slots.len(),
                slots@.len() == old_slots.len(),
                old_slots.len() == schema@.fields.len(),
                forall|j: int|
                    0 <= j < i ==> #[trigger] slot_view(slots@[j]) == if schema@.fields[j].declared_name == name@ {
                        Some(value@)
                    } else {
                        slot_view(old_slots[j])
                    },
                forall|j: int| i <= j < slots@.len() ==> #[trigger] slots@[j] == old_slots[j],
            decreases slots.len() - i,
        {
            if same_text(schema.fields[i].declared_name.as_str(), name) {
                slots.set(i, Some(value.copy()));
            }
            i = i + 1;
        }
        Builder { schema, slots }
    }

    /// Finishes the record. Fails at the first field that is required and
    /// unset (`BuilderError` naming the entity type and the field) or holds a
    /// value of another type (`TypeMismatch`); an unset optional field is absent.
    pub fn build(self) -> (r: Result<Record, Error>)
        requires
            self.wf(),
        ensures
            r is Ok <==> forall|i: int|
                0 <= i < self.slots@.len() ==> slot_ok(self.schema@.fields[i], #[trigger] slots_view(self.slots@)[i]),
            match r {
                Ok(rec) => rec.schema == self.schema && rec.wf() && forall|i: int|
                    0 <= i < self.slots@.len() ==> #[trigger] rec.values@[i]@ == slot_value(slots_view(self.slots@)[i]),
                Err(e) => exists|i: int|
                    0 <= i < self.slots@.len() && (forall|j: int|
                        0 <= j < i ==> slot_ok(self.schema@.fields[j], #[trigger] slots_view(self.slots@)[j]))
                        && !slot_ok(self.schema@.fields[i], #[trigger] slots_view(self.slots@)[i]) && e@ == slot_error(
                        self.schema@.typename,
                        self.schema@.fields[i],
                        slots_view(self.slots@)[i],
                    ),
            },
    {
        let ghost sv = slots_view(self.slots@);
        let ghost orig = self;
        let Builder { schema, slots } = self;
        let n = slots.len();
        let mut rest = slots;
        let mut values: Vec<FieldValue> = Vec::new();
        let mut i: usize = 0;
        while i < n
            invariant
                i <= n,
                n == sv.len(),
                n == schema@.fields.len(),
                orig == self,
                orig.schema == schema,
                sv == slots_view(orig.slots@),
                rest@.len() == n - i,
                slots_view(rest@) == sv.subrange(i as int, n as int),
                values@.len() == i,
                forall|j: int| 0 <= j < i ==> slot_ok(schema@.fields[j], #[trigger] sv[j]),
                forall|j: int| 0 <= j < i ==> #[trigger] values@[j]@ == slot_value(sv[j]),
                forall|j: int| 0 <= j < i ==> fits(schema@.fields[j].field_type, #[trigger] field_values_view(values@)[j]),
            decreases n - i,
        {
            let ghost before = rest@;
            let s = rest.remove(0);
            assert(slots_view(before)[0] == sv[i as int]);
            assert(slots_view(rest@) =~= sv.subrange(i as int + 1, n as int)) by {
                assert forall|k: int| 0 <= k < rest@.len() implies #[trigger] slots_view(rest@)[k] == sv[i + 1 + k] by {
                    assert(rest@[k] == before[k + 1]);
                    assert(slots_view(before)[k + 1] == sv[i + 1 + k]);
                }
            }
            let f = &schema.fields[i];
            assert(f@ == schema@.fields[i as int]);
            match s {
                Some(v) => {
                    if !value_fits(f.field_type, &v) {
                        let e = Error::TypeMismatch(f.name.clone());
                        assert(!slot_ok(schema@.fields[i as int], sv[i as int]));
                        assert(e@ == slot_error(schema@.typename, schema@.fields[i as int], sv[i as int]));
                        return Err(e);
                    }
                    values.push(v);
                },
                None => {
                    if !f.field_type.optional {
                        let e = Error::BuilderError(schema.typename.clone(), f.declared_name.clone());
                        assert(!slot_ok(schema@.fields[i as int], sv[i as int]));
                        assert(e@ == slot_error(schema@.typename, schema@.fields[i as int], sv[i as int]));
                        return Err(e);
                    }
                    values.push(FieldValue::Absent);
                },
            }
            i = i + 1;
        }
        Ok(Record { schema, values })
    }
}

impl Record {
    /// An accumulator holding this record's values.
    pub fn into_builder(self) -> (r: Builder)
        requires
            self.wf(),
        ensures
            r.schema == self.schema,
            r.wf(),
            forall|i: int| 0 <= i < r.slots@.len() ==> #[trigger] slot_view(r.slots@[i]) == Some(self.values@[i]@),
    {
        Builder::from_record(self)
    }
}

} // verus!
