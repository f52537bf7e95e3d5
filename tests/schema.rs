use cypher_dto::{
    compile, EntityDecl, EntitySchema, EntityType, FieldDecl, FieldType, Kind, Num, SchemaError,
    StampFields, StampMode, StampType,
};

fn field(name: &str, kind: Kind, optional: bool) -> FieldDecl {
    FieldDecl {
        declared_name: name.to_owned(),
        field_type: FieldType { kind, optional },
        rename: None,
        is_id: false,
    }
}

fn id_field(name: &str, kind: Kind) -> FieldDecl {
    FieldDecl {
        is_id: true,
        ..field(name, kind, false)
    }
}

fn decl(name: &str, entity_type: EntityType, fields: Vec<FieldDecl>) -> EntityDecl {
    EntityDecl {
        struct_name: name.to_owned(),
        entity_type,
        name: None,
        labels: None,
        fields,
    }
}

fn schemas(d: &EntityDecl) -> (EntitySchema, EntitySchema) {
    compile(d).expect("declaration compiles")
}

fn id_names(s: &EntitySchema) -> Vec<String> {
    s.fields
        .iter()
        .filter(|f| f.is_id)
        .map(|f| f.name.clone())
        .collect()
}

#[test]
fn as_obj() {
    let foo = decl(
        "Foo",
        EntityType::Node,
        vec![
            field("name", Kind::Text, false),
            field("age", Kind::Number(Num::U8), false),
        ],
    );
    let (foo, _) = schemas(&foo);
    assert_eq!(
        foo.to_query_obj(None, StampMode::Read),
        "Foo { name: $name, age: $age }"
    );
    let bar = decl(
        "Bar",
        EntityType::Node,
        vec![
            field("created", Kind::DateTimeUtc, false),
            field("updated", Kind::DateTimeUtc, false),
        ],
    );
    let (bar, _) = schemas(&bar);
    assert_eq!(
        bar.to_query_obj(None, StampMode::Read),
        "Bar { created: $created, updated: $updated }"
    );
    // Create mode leaves both stamps to the store.
    assert_eq!(bar.to_query_obj(None, StampMode::Create), "Bar");
    assert_eq!(
        bar.to_query_obj(None, StampMode::Update),
        "Bar { created: $created, updated: datetime() }"
    );
    let baz = decl("Baz", EntityType::Relation, vec![]);
    let (baz, _) = schemas(&baz);
    assert_eq!(baz.to_query_obj(None, StampMode::Read), "BAZ");
}

#[test]
fn rename() {
    let mut until = id_field("until", Kind::DateTimeUtc);
    until.rename = Some("foo".to_owned());
    let worked_at = decl("WorkedAt", EntityType::Relation, vec![until]);
    let (s, id) = schemas(&worked_at);
    assert_eq!(s.to_query_fields(None, StampMode::Read), "foo: $foo");
    assert_eq!(s.typename(), "WORKED_AT");
    assert_eq!(id.as_query_obj(), "WORKED_AT { foo: $foo }");
}

#[test]
fn node_defaults() {
    let (s, _) = schemas(&decl(
        "Person",
        EntityType::Node,
        vec![field("name", Kind::Text, false)],
    ));
    assert_eq!(s.typename(), "Person");
    assert_eq!(s.labels(), &vec!["Person".to_owned()]);
    assert_eq!(
        s.to_query_obj(None, StampMode::Read),
        "Person { name: $name }"
    );
}

#[test]
fn explicit_name_and_rename() {
    let mut name = field("name", Kind::Text, false);
    name.rename = Some("name2".to_owned());
    let mut d = decl("Person", EntityType::Node, vec![name]);
    d.name = Some("Person2".to_owned());
    let (s, _) = schemas(&d);
    assert_eq!(s.as_query_fields(), "name2: $name2");
    assert_eq!(s.as_query_obj(), "Person2 { name2: $name2 }");
    assert_eq!(s.field_names(), vec!["name2".to_owned()]);
    assert_eq!(s.fields[0].declared_name, "name");
}

#[test]
fn explicit_identity_schema() {
    let d = decl(
        "Person",
        EntityType::Node,
        vec![id_field("ssn", Kind::Text), field("name", Kind::Text, false)],
    );
    let (s, id) = schemas(&d);
    assert_eq!(s.as_query_obj(), "Person { ssn: $ssn, name: $name }");
    assert_eq!(id.as_query_obj(), "Person { ssn: $ssn }");
    assert!(id.fields.iter().all(|f| !f.is_id));
}

#[test]
fn relationship_screaming_snake_name() {
    let d = decl(
        "Knows",
        EntityType::Relation,
        vec![field("since", Kind::Number(Num::U16), false)],
    );
    let (s, id) = schemas(&d);
    assert_eq!(s.typename(), "KNOWS");
    assert_eq!(s.as_query_obj(), "KNOWS { since: $since }");
    assert!(id.fields.is_empty());
    assert_eq!(id.as_query_obj(), "KNOWS");
    let (works, _) = schemas(&decl("WorksAt", EntityType::Relation, vec![]));
    assert_eq!(works.typename(), "WORKS_AT");
}

#[test]
fn explicit_labels_join_with_colons() {
    let mut d = decl(
        "Person",
        EntityType::Node,
        vec![field("id", Kind::Text, false)],
    );
    d.labels = Some(vec!["Person2".to_owned(), "PersonExtraLabel".to_owned()]);
    let (s, id) = schemas(&d);
    assert_eq!(s.typename(), "Person2");
    assert_eq!(
        s.labels(),
        &vec!["Person2".to_owned(), "PersonExtraLabel".to_owned()]
    );
    assert_eq!(s.as_query_obj(), "Person2:PersonExtraLabel { id: $id }");
    assert_eq!(id.as_query_obj(), "Person2:PersonExtraLabel { id: $id }");
}

#[test]
fn identity_priority() {
    let fields = vec![
        field("id", Kind::Text, false),
        id_field("ssn", Kind::Text),
        field("name", Kind::Text, false),
    ];
    let (s, _) = schemas(&decl("P", EntityType::Node, fields.clone()));
    assert_eq!(id_names(&s), vec!["ssn".to_owned()]);
    let mut reversed = fields.clone();
    reversed.reverse();
    let (s, _) = schemas(&decl("P", EntityType::Node, reversed));
    assert_eq!(id_names(&s), vec!["ssn".to_owned()]);

    let (s, _) = schemas(&decl(
        "P",
        EntityType::Node,
        vec![field("name", Kind::Text, false), field("id", Kind::Text, false)],
    ));
    assert_eq!(id_names(&s), vec!["id".to_owned()]);

    let (s, _) = schemas(&decl(
        "P",
        EntityType::Node,
        vec![field("a", Kind::Text, false), field("b", Kind::Boolean, true)],
    ));
    assert_eq!(id_names(&s), vec!["a".to_owned(), "b".to_owned()]);

    let (s, id) = schemas(&decl(
        "R",
        EntityType::Relation,
        vec![field("a", Kind::Text, false)],
    ));
    assert!(id_names(&s).is_empty());
    assert!(id.fields.is_empty());
}

#[test]
fn stamp_promotion() {
    let d = decl(
        "Bar",
        EntityType::Node,
        vec![
            field("created", Kind::Text, false),
            field("created_at", Kind::DateTimeUtc, true),
        ],
    );
    let (s, _) = schemas(&d);
    assert_eq!(s.fields[0].stamp, None);
    assert_eq!(s.fields[1].stamp, Some(StampType::Created));
    assert_eq!(
        s.to_query_fields(None, StampMode::Create),
        "created: $created"
    );
    assert_eq!(
        s.to_query_fields(Some("n"), StampMode::Update),
        "created: $n_created, created_at: $n_created_at"
    );
}

#[test]
fn both_stamps_by_mode() {
    let d = decl(
        "Bar",
        EntityType::Node,
        vec![
            field("created", Kind::DateTimeUtc, false),
            field("updated", Kind::DateTimeUtc, false),
        ],
    );
    let (s, _) = schemas(&d);
    assert_eq!(
        s.to_query_fields(None, StampMode::Update),
        "created: $created, updated: datetime()"
    );
    assert_eq!(s.to_query_fields(None, StampMode::Create), "");
}

#[test]
fn mode_is_irrelevant_without_stamps() {
    let d = decl(
        "Foo",
        EntityType::Node,
        vec![
            field("name", Kind::Text, false),
            field("age", Kind::Number(Num::U8), true),
        ],
    );
    let (s, _) = schemas(&d);
    let read = s.to_query_fields(Some("p"), StampMode::Read);
    assert_eq!(read, "name: $p_name, age: $p_age");
    assert_eq!(s.to_query_fields(Some("p"), StampMode::Create), read);
    assert_eq!(s.to_query_fields(Some("p"), StampMode::Update), read);
}

#[test]
fn prefix_reaches_placeholders_only() {
    let d = decl(
        "Foo",
        EntityType::Node,
        vec![
            field("name", Kind::Text, false),
            field("updated_at", Kind::DateTimeUtc, false),
        ],
    );
    let (s, _) = schemas(&d);
    assert_eq!(
        s.to_query_obj(Some("s"), StampMode::Read),
        "Foo { name: $s_name, updated_at: $s_updated_at }"
    );
    assert_eq!(
        s.to_query_obj(Some("s"), StampMode::Update),
        "Foo { name: $s_name, updated_at: datetime() }"
    );
}

#[test]
fn schema_errors() {
    let mut d = decl("P", EntityType::Node, vec![field("a", Kind::Text, false)]);
    d.name = Some("X".to_owned());
    d.labels = Some(vec!["Y".to_owned()]);
    assert_eq!(compile(&d), Err(SchemaError::NameAndLabels));

    let mut d = decl("R", EntityType::Relation, vec![]);
    d.labels = Some(vec!["A".to_owned(), "B".to_owned()]);
    assert_eq!(compile(&d), Err(SchemaError::RelationLabels));

    let mut opt_id = id_field("key", Kind::Text);
    opt_id.field_type.optional = true;
    let d = decl("P", EntityType::Node, vec![field("a", Kind::Text, false), opt_id]);
    assert_eq!(
        compile(&d),
        Err(SchemaError::OptionalId("key".to_owned()))
    );

    let d = decl(
        "P",
        EntityType::Node,
        vec![field("name", Kind::Text, false), field("updated", Kind::Text, false)],
    );
    assert_eq!(
        compile(&d),
        Err(SchemaError::StampType("updated".to_owned()))
    );

    let mut renamed = field("when", Kind::DateTimeUtc, false);
    renamed.rename = Some("created_at".to_owned());
    let d = decl(
        "P",
        EntityType::Node,
        vec![field("created_at", Kind::DateTimeUtc, false), renamed],
    );
    assert_eq!(
        compile(&d),
        Err(SchemaError::DuplicateStamp("created_at".to_owned()))
    );
}

#[test]
fn empty_label_list_falls_back_to_defaults() {
    let mut d = decl("Thing", EntityType::Node, vec![]);
    d.labels = Some(vec![]);
    let (s, _) = schemas(&d);
    assert_eq!(s.typename(), "Thing");
    assert_eq!(s.as_query_obj(), "Thing");
}

#[test]
fn timestamp_fields_are_appended() {
    assert_eq!(StampFields::parse("full"), Some(StampFields::Full));
    assert_eq!(StampFields::parse("short"), Some(StampFields::Short));
    assert_eq!(StampFields::parse("created_at"), Some(StampFields::CreatedAt));
    assert_eq!(StampFields::parse("updated"), Some(StampFields::Updated));
    assert_eq!(StampFields::parse("later"), None);

    let d = decl("Person", EntityType::Node, vec![field("id", Kind::Text, false)])
        .with_timestamps(StampFields::Full);
    let names: Vec<&str> = d.fields.iter().map(|f| f.declared_name.as_str()).collect();
    assert_eq!(names, ["id", "created_at", "updated_at"]);
    assert!(d.fields[1].field_type.optional);
    let (s, id) = schemas(&d);
    assert_eq!(s.fields[1].stamp, Some(StampType::Created));
    assert_eq!(s.fields[2].stamp, Some(StampType::Updated));
    assert_eq!(
        s.to_query_obj(None, StampMode::Update),
        "Person { id: $id, created_at: $created_at, updated_at: datetime() }"
    );
    assert_eq!(id.as_query_obj(), "Person { id: $id }");

    let d = decl("Thing", EntityType::Node, vec![]).with_timestamps(StampFields::Created);
    assert_eq!(d.fields.len(), 1);
    assert_eq!(d.fields[0].declared_name, "created");
}

#[test]
fn numeric_type_names() {
    assert_eq!(Num::from_name("u128"), Some(Num::U128));
    assert_eq!(Num::from_name("isize"), Some(Num::Isize));
    assert_eq!(Num::from_name("f32"), Some(Num::F32));
    assert_eq!(Num::from_name("String"), None);
    assert_eq!(Num::I16.name(), "i16");
    assert_eq!(Num::Usize.name(), "usize");
}
