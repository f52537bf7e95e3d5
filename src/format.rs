//! Text building blocks: parameter names, `name: $param` fragments and their
//! comma-separated joins.
use vstd::prelude::*;

verus! {

/// What a prefix contributes to a placeholder: `p_` for `Some(p)`, nothing otherwise.
pub open spec fn prefix_text(prefix: Option<Seq<char>>) -> Seq<char> {
    match prefix {
        Some(p) => p + seq!['_'],
        None => Seq::empty(),
    }
}

/// The parameter name of `name` under `prefix`; an empty name stays empty.
pub open spec fn param_text(name: Seq<char>, prefix: Option<Seq<char>>) -> Seq<char> {
    if name.len() == 0 {
        Seq::empty()
    } else {
        prefix_text(prefix) + name
    }
}

/// The fragment `name: $<prefix_>name`; the prefix never touches the field name.
pub open spec fn placeholder_text(name: Seq<char>, prefix: Option<Seq<char>>) -> Seq<char> {
    name + seq![':', ' ', '$'] + prefix_text(prefix) + name
}

/// The separator between fragments.
pub open spec fn sep_text() -> Seq<char> {
    seq![',', ' ']
}

/// Joins the non-empty parts with `", "`, skipping the empty ones.
pub open spec fn join_nonempty(parts: Seq<Seq<char>>) -> Seq<char>
    decreases parts.len(),
{
    if parts.len() == 0 {
        Seq::empty()
    } else {
        let rest = join_nonempty(parts.drop_last());
        let last = parts.last();
        if last.len() == 0 {
            rest
        } else if rest.len() == 0 {
            last
        } else {
            rest + sep_text() + last
        }
    }
}

/// The views of a sequence of string slices.
pub open spec fn str_views(names: Seq<&str>) -> Seq<Seq<char>> {
    names.map_values(|s: &str| s@)
}

/// The fragment of one field name as `format_query_fields` writes it.
pub open spec fn name_fragment(name: Seq<char>, prefix: Option<Seq<char>>) -> Seq<char> {
    if name.len() == 0 {
        Seq::empty()
    } else {
        placeholder_text(name, prefix)
    }
}

/// `name: $<prefix_>name` for each non-empty name, joined with `", "`.
pub open spec fn query_fields_text(names: Seq<Seq<char>>, prefix: Option<Seq<char>>) -> Seq<char> {
    join_nonempty(names.map_values(|n: Seq<char>| name_fragment(n, prefix)))
}

/// `name { fields }`, or the bare name when there are no fields.
pub open spec fn object_text(name: Seq<char>, fields: Seq<char>) -> Seq<char> {
    if fields.len() == 0 {
        name
    } else {
        name + seq![' ', '{', ' '] + fields + seq![' ', '}']
    }
}

pub open spec fn opt_view(prefix: Option<&str>) -> Option<Seq<char>> {
    match prefix {
        Some(p) => Some(p@),
        None => None,
    }
}

/// Whether two texts are equal.
pub(crate) fn same_text(a: &str, b: &str) -> (r: bool)
    ensures
        r == (a@ == b@),
{
    String::from_str(a) == String::from_str(b)
}

pub(crate) fn prefix_str(prefix: Option<&str>) -> (r: String)
    ensures
        r@ == prefix_text(opt_view(prefix)),
{
    match prefix {
        Some(p) => {
            let mut s = String::from_str(p);
            s.append("_");
            proof {
                reveal_strlit("_");
            }
            assert(s@ =~= p@ + seq!['_']);
            s
        },
        None => String::new(),
    }
}

/// Formats a parameter name with or without a prefix: `foo` becomes `prefix_foo`.
/// An empty name gives an empty parameter name.
pub fn format_param(name: &str, prefix: Option<&str>) -> (r: String)
    ensures
        r@ == param_text(name@, opt_view(prefix)),
{
    if name.is_empty() {
        return String::new();
    }
    let mut s = prefix_str(prefix);
    s.append(name);
    s
}

/// The fragment `name: $<prefix_>name` of one non-empty field name.
pub(crate) fn placeholder(name: &str, prefix: Option<&str>) -> (r: String)
    ensures
        r@ == placeholder_text(name@, opt_view(prefix)),
{
    let mut s = String::from_str(name);
    s.append(": $");
    let p = prefix_str(prefix);
    s.append(p.as_str());
    s.append(name);
    proof {
        reveal_strlit(": $");
    }
    assert(s@ =~= placeholder_text(name@, opt_view(prefix)));
    s
}

/// Joins the non-empty parts with `", "`.
pub(crate) fn join_parts(parts: &Vec<String>) -> (r: String)
    ensures
        r@ == join_nonempty(parts@.map_values(|s: String| s@)),
{
    let ghost views = parts@.map_values(|s: String| s@);
    let mut out = String::new();
    let mut i: usize = 0;
    while i < parts.len()
        invariant
            i <= parts.len(),
            views == parts@.map_values(|s: String| s@),
            out@ == join_nonempty(views.take(i as int)),
        decreases parts.len() - i,
    {
        let part = &parts[i];
        assert(views.take(i as int + 1).drop_last() =~= views.take(i as int));
        if !part.as_str().is_empty() {
            if !out.as_str().is_empty() {
                out.append(", ");
                proof {
                    reveal_strlit(", ");
                }
            }
            out.append(part.as_str());
        }
        i = i + 1;
    }
    assert(views.take(parts.len() as int) =~= views);
    out
}

/// Formats field names as `foo: $foo, bar: $bar`, skipping empty names.
///
/// The prefix applies to the placeholders only: `foo: $foo` becomes `foo: $prefix_foo`.
pub fn format_query_fields(fields: &[&str], prefix: Option<&str>) -> (r: String)
    ensures
        r@ == query_fields_text(str_views(fields@), opt_view(prefix)),
{
    let ghost names = str_views(fields@);
    let ghost frag = |n: Seq<char>| name_fragment(n, opt_view(prefix));
    let mut parts: Vec<String> = Vec::new();
    let mut i: usize = 0;
    while i < fields.len()
        invariant
            i <= fields.len(),
            names == str_views(fields@),
            parts@.len() == i,
            forall|j: int| 0 <= j < i ==> #[trigger] parts@[j]@ == name_fragment(names[j], opt_view(prefix)),
        decreases fields.len() - i,
    {
        let name: &str = fields[i];
        if name.is_empty() {
            parts.push(String::new());
        } else {
            parts.push(placeholder(name, prefix));
        }
        i = i + 1;
    }
    let r = join_parts(&parts);
    assert(parts@.map_values(|s: String| s@) =~= names.map_values(frag));
    r
}

/// Wraps formatted fields in `name { ... }`; with no fields only the name is left.
pub fn format_query_obj(name: &str, fields: &[&str], prefix: Option<&str>) -> (r: String)
    ensures
        r@ == object_text(name@, query_fields_text(str_views(fields@), opt_view(prefix))),
{
    let f = format_query_fields(fields, prefix);
    wrap_object(name, f.as_str())
}

/// `name { fields }`, or `name` alone when `fields` is empty.
pub(crate) fn wrap_object(name: &str, fields: &str) -> (r: String)
    ensures
        r@ == object_text(name@, fields@),
{
    let mut s = String::from_str(name);
    if fields.is_empty() {
        return s;
    }
    s.append(" { ");
    s.append(fields);
    s.append(" }");
    proof {
        reveal_strlit(" { ");
        reveal_strlit(" }");
    }
    assert(s@ =~= object_text(name@, fields@));
    s
}

} // verus!
