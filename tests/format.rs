use cypher_dto::{format_param, format_query_fields, format_query_obj};

#[test]
fn format_params() {
    assert_eq!(format_param("foo", None), "foo");
    assert_eq!(format_param("foo", Some("n")), "n_foo");
    assert_eq!(format_param("", Some("n")), "");
}

#[test]
fn fields() {
    assert_eq!(
        format_query_fields(&["foo", "bar"], None),
        "foo: $foo, bar: $bar"
    );
    assert_eq!(
        format_query_fields(&["foo", "bar"], Some("n")),
        "foo: $n_foo, bar: $n_bar"
    );
    assert_eq!(format_query_fields(&["foo"], None), "foo: $foo");
    assert_eq!(format_query_fields(&[], None), "");
    assert_eq!(format_query_fields(&[], Some("n")), "");
    assert_eq!(format_query_fields(&["", ""], Some("n")), "");
}

#[test]
fn obj() {
    assert_eq!(
        format_query_obj("Foo", &["foo", "bar"], None),
        "Foo { foo: $foo, bar: $bar }"
    );
    assert_eq!(
        format_query_obj("Foo", &["foo", "bar"], Some("n")),
        "Foo { foo: $n_foo, bar: $n_bar }"
    );
    assert_eq!(format_query_obj("Foo", &["foo"], None), "Foo { foo: $foo }");
    assert_eq!(format_query_obj("Foo", &[], None), "Foo");
    assert_eq!(format_query_obj("FOO", &[], Some("n")), "FOO");
}

#[test]
fn empty_names_are_skipped_between_others() {
    assert_eq!(
        format_query_fields(&["a", "", "b"], Some("p")),
        "a: $p_a, b: $p_b"
    );
}
