//! The stamp policy: which fields hold the created/updated timestamps, and how
//! they render under each [`StampMode`].
use vstd::prelude::*;
use crate::format::{
    join_nonempty, join_parts, opt_view, placeholder, placeholder_text, same_text, str_views,
};

verus! {

/// Why a statement is being built; decides how timestamp fields render.
#[derive(Clone, Copy, Debug, PartialEq, Eq, Structural)]
pub enum StampMode {
    /// Timestamps are ordinary values with placeholders (`$created`, `$updated`).
    Read,
    /// Timestamps are left out: the store assigns them.
    Create,
    /// The created stamp keeps its placeholder; the updated stamp becomes `datetime()`.
    Update,
}

/// The role of a timestamp field.
#[derive(Clone, Copy, Debug, PartialEq, Eq, Structural)]
pub enum StampType {
    Created,
    Updated,
}

pub open spec fn created_at_name() -> Seq<char> {
    "created_at"@
}

pub open spec fn created_name() -> Seq<char> {
    "created"@
}

pub open spec fn updated_at_name() -> Seq<char> {
    "updated_at"@
}

pub open spec fn updated_name() -> Seq<char> {
    "updated"@
}

/// The store-side expression for "now".
pub open spec fn now_text() -> Seq<char> {
    ": datetime()"@
}

/// The four stamp names differ from one another.
pub proof fn lemma_stamp_names_distinct()
    ensures
        created_at_name() != created_name(),
        created_at_name() != updated_at_name(),
        created_at_name() != updated_name(),
        created_name() != updated_at_name(),
        created_name() != updated_name(),
        updated_at_name() != updated_name(),
{
    reveal_strlit("created_at");
    reveal_strlit("created");
    reveal_strlit("updated_at");
    reveal_strlit("updated");
    assert(created_at_name().len() != created_name().len());
    assert(created_at_name()[0] != updated_at_name()[0]);
    assert(created_at_name().len() != updated_name().len());
    assert(created_name().len() != updated_at_name().len());
    assert(created_name()[0] != updated_name()[0]);
    assert(updated_at_name().len() != updated_name().len());
}

pub open spec fn has_name(names: Seq<Seq<char>>, x: Seq<char>) -> bool {
    exists|j: int| 0 <= j < names.len() && names[j] == x
}

/// One of the four names that the stamp policy looks at.
pub open spec fn is_stamp_name(n: Seq<char>) -> bool {
    n == created_at_name() || n == created_name() || n == updated_at_name() || n == updated_name()
}

/// The created stamp of a name list: `created_at` beats `created`.
pub open spec fn created_field(names: Seq<Seq<char>>) -> Option<Seq<char>> {
    if has_name(names, created_at_name()) {
        Some(created_at_name())
    } else if has_name(names, created_name()) {
        Some(created_name())
    } else {
        None
    }
}

/// The updated stamp of a name list: `updated_at` beats `updated`.
pub open spec fn updated_field(names: Seq<Seq<char>>) -> Option<Seq<char>> {
    if has_name(names, updated_at_name()) {
        Some(updated_at_name())
    } else if has_name(names, updated_name()) {
        Some(updated_name())
    } else {
        None
    }
}

/// The names that are none of the four stamp names, in order.
pub open spec fn plain_names(names: Seq<Seq<char>>) -> Seq<Seq<char>>
    decreases names.len(),
{
    if names.len() == 0 {
        Seq::empty()
    } else {
        let rest = plain_names(names.drop_last());
        if is_stamp_name(names.last()) {
            rest
        } else {
            rest.push(names.last())
        }
    }
}

/// The fields left as ordinary values: the plain names, then a demoted bare
/// `created` and a demoted bare `updated`.
pub open spec fn non_stamp_fields(names: Seq<Seq<char>>) -> Seq<Seq<char>> {
    let demoted_created = if has_name(names, created_at_name()) && has_name(names, created_name()) {
        seq![created_name()]
    } else {
        Seq::empty()
    };
    let demoted_updated = if has_name(names, updated_at_name()) && has_name(names, updated_name()) {
        seq![updated_name()]
    } else {
        Seq::empty()
    };
    plain_names(names) + demoted_created + demoted_updated
}

/// How one field renders, given its stamp role and the mode. An empty name renders nothing.
pub open spec fn role_fragment(
    name: Seq<char>,
    role: Option<StampType>,
    prefix: Option<Seq<char>>,
    mode: StampMode,
) -> Seq<char> {
    if name.len() == 0 {
        Seq::empty()
    } else {
        match role {
            None => placeholder_text(name, prefix),
            Some(StampType::Created) => match mode {
                StampMode::Create => Seq::empty(),
                _ => placeholder_text(name, prefix),
            },
            Some(StampType::Updated) => match mode {
                StampMode::Read => placeholder_text(name, prefix),
                StampMode::Create => Seq::empty(),
                StampMode::Update => name + now_text(),
            },
        }
    }
}

/// Renders one field by [`role_fragment`].
pub(crate) fn render_role(name: &str, role: Option<StampType>, prefix: Option<&str>, mode: StampMode) -> (r:
    String)
    ensures
        r@ == role_fragment(name@, role, opt_view(prefix), mode),
{
    if name.is_empty() {
        return String::new();
    }
    let as_placeholder = match role {
        None => true,
        Some(StampType::Created) => mode != StampMode::Create,
        Some(StampType::Updated) => mode == StampMode::Read,
    };
    if as_placeholder {
        placeholder(name, prefix)
    } else if mode == StampMode::Create {
        String::new()
    } else {
        let mut s = String::from_str(name);
        s.append(": datetime()");
        s
    }
}

/// The standard timestamps an object uses, and their field names.
#[derive(Clone, Debug, PartialEq, Eq)]
pub enum Stamps {
    Neither,
    Created(String),
    Updated(String),
    Both(String, String),
}

impl View for Stamps {
    /// The created and the updated field name, each if present.
    type V = (Option<Seq<char>>, Option<Seq<char>>);

    open spec fn view(&self) -> Self::V {
        match self {
            Stamps::Neither => (None, None),
            Stamps::Created(c) => (Some(c@), None),
            Stamps::Updated(u) => (None, Some(u@)),
            Stamps::Both(c, u) => (Some(c@), Some(u@)),
        }
    }
}

pub open spec fn name_or_empty(n: Option<Seq<char>>) -> Seq<char> {
    match n {
        Some(x) => x,
        None => Seq::empty(),
    }
}

/// The stamp fields of `s` rendered under `mode`, created first.
pub open spec fn stamps_text(s: (Option<Seq<char>>, Option<Seq<char>>), prefix: Option<Seq<char>>, mode: StampMode) -> Seq<char> {
    join_nonempty(
        seq![
            role_fragment(name_or_empty(s.0), Some(StampType::Created), prefix, mode),
            role_fragment(name_or_empty(s.1), Some(StampType::Updated), prefix, mode),
        ],
    )
}

impl Stamps {
    /// Reads the stamp designation off a list of field names.
    ///
    /// `created_at` and `updated_at` have priority over `created` and `updated`;
    /// a bare name that loses to its `_at` form stays an ordinary field.
    pub fn from_fields(fields: &[&str]) -> (r: (Stamps, Vec<String>))
        ensures
            r.0@ == (created_field(str_views(fields@)), updated_field(str_views(fields@))),
            r.1@.map_values(|s: String| s@) == non_stamp_fields(str_views(fields@)),
    {
        let ghost names = str_views(fields@);
        let mut has_created_at = false;
        let mut has_updated_at = false;
        let mut has_created = false;
        let mut has_updated = false;
        let mut plain: Vec<String> = Vec::new();
        let mut i: usize = 0;
        while i < fields.len()
            invariant
                i <= fields.len(),
                names == str_views(fields@),
                has_created_at == has_name(names.take(i as int), created_at_name()),
                has_updated_at == has_name(names.take(i as int), updated_at_name()),
                has_created == has_name(names.take(i as int), created_name()),
                has_updated == has_name(names.take(i as int), updated_name()),
                plain@.map_values(|s: String| s@) == plain_names(names.take(i as int)),
            decreases fields.len() - i,
        {
            let field: &str = fields[i];
            let ghost before = names.take(i as int);
            let ghost after = names.take(i as int + 1);
            assert(after.drop_last() =~= before);
            assert(after.last() == field@);
            assert forall|x: Seq<char>| has_name(after, x) == (has_name(before, x) || field@ == x) by {
                if has_name(after, x) && field@ != x {
                    let j = choose|j: int| 0 <= j < after.len() && after[j] == x;
                    assert(before[j] == x);
                }
                if has_name(before, x) {
                    let j = choose|j: int| 0 <= j < before.len() && before[j] == x;
                    assert(after[j] == x);
                }
                if field@ == x {
                    assert(after[i as int] == x);
                }
            }
            proof {
                lemma_stamp_names_distinct();
            }
            let is_ca = same_text(field, "created_at");
            let is_ua = same_text(field, "updated_at");
            let is_c = same_text(field, "created");
            let is_u = same_text(field, "updated");
            if is_ca {
                has_created_at = true;
            } else if is_ua {
                has_updated_at = true;
            } else if is_c {
                has_created = true;
            } else if is_u {
                has_updated = true;
            } else {
                plain.push(String::from_str(field));
                assert(plain@.map_values(|s: String| s@) =~= plain_names(before).push(field@));
            }
            i = i + 1;
        }
        assert(names.take(fields.len() as int) =~= names);
        let ghost plain_view = plain@.map_values(|s: String| s@);
        let created: Option<String> = if has_created_at {
            if has_created {
                plain.push(String::from_str("created"));
            }
            Some(String::from_str("created_at"))
        } else if has_created {
            Some(String::from_str("created"))
        } else {
            None
        };
        let ghost mid_view = plain@.map_values(|s: String| s@);
        let updated: Option<String> = if has_updated_at {
            if has_updated {
                plain.push(String::from_str("updated"));
            }
            Some(String::from_str("updated_at"))
        } else if has_updated {
            Some(String::from_str("updated"))
        } else {
            None
        };
        assert(plain@.map_values(|s: String| s@) =~= non_stamp_fields(names));
        let stamps = match (created, updated) {
            (Some(c), Some(u)) => Stamps::Both(c, u),
            (Some(c), None) => Stamps::Created(c),
            (None, Some(u)) => Stamps::Updated(u),
            (None, None) => Stamps::Neither,
        };
        (stamps, plain)
    }

    /// These timestamp fields as a query string, depending on the [`StampMode`].
    pub fn as_query_fields(&self, prefix: Option<&str>, mode: StampMode) -> (r: String)
        ensures
            r@ == stamps_text(self@, opt_view(prefix), mode),
    {
        let (created, updated) = self.field_names();
        let mut parts: Vec<String> = Vec::new();
        parts.push(render_role(created.as_str(), Some(StampType::Created), prefix, mode));
        parts.push(render_role(updated.as_str(), Some(StampType::Updated), prefix, mode));
        let r = join_parts(&parts);
        assert(parts@.map_values(|s: String| s@) =~= seq![
            role_fragment(name_or_empty(self@.0), Some(StampType::Created), opt_view(prefix), mode),
            role_fragment(name_or_empty(self@.1), Some(StampType::Updated), opt_view(prefix), mode),
        ]);
        r
    }

    /// The created and updated field names; an absent one is empty.
    pub fn field_names(&self) -> (r: (String, String))
        ensures
            r.0@ == name_or_empty(self@.0),
            r.1@ == name_or_empty(self@.1),
    {
        match self {
            Stamps::Neither => (String::new(), String::new()),
            Stamps::Created(name) => (name.clone(), String::new()),
            Stamps::Updated(name) => (String::new(), name.clone()),
            Stamps::Both(created, updated) => (created.clone(), updated.clone()),
        }
    }
}

} // verus!
