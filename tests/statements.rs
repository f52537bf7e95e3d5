use cypher_dto::{
    compile, create_node, create_relation, delete_node, delete_relation, delete_relation_between,
    read_node, read_relation, read_relation_between, read_relation_from, update_node,
    update_relation, update_relation_from, Builder, EntityDecl, EntitySchema, EntityType, Error,
    FieldDecl, FieldType, FieldValue, Kind, Num, Number, Record, RelationBound, Scalar, StampMode,
    Statement, Timestamp, Value,
};

fn field(name: &str, kind: Kind, optional: bool) -> FieldDecl {
    FieldDecl {
        declared_name: name.to_owned(),
        field_type: FieldType { kind, optional },
        rename: None,
        is_id: false,
    }
}

fn decl(name: &str, entity_type: EntityType, fields: Vec<FieldDecl>) -> EntityDecl {
    EntityDecl {
        struct_name: name.to_owned(),
        entity_type,
        name: None,
        labels: None,
        fields,
    }
}

fn schemas(d: &EntityDecl) -> (EntitySchema, EntitySchema) {
    compile(d).expect("declaration compiles")
}

fn record(schema: &EntitySchema, values: Vec<FieldValue>) -> Record {
    Record::new(schema.clone(), values).expect("values conform")
}

fn text(s: &str) -> FieldValue {
    FieldValue::Text(s.to_owned())
}

fn now() -> Timestamp {
    Timestamp {
        secs: 1_690_000_000,
        nanos: 0,
    }
}

fn foo_schema() -> EntitySchema {
    schemas(&decl(
        "Foo",
        EntityType::Node,
        vec![
            field("name", Kind::Text, false),
            field("age", Kind::Number(Num::U8), false),
        ],
    ))
    .0
}

fn bar_schema() -> EntitySchema {
    schemas(&decl(
        "Bar",
        EntityType::Node,
        vec![
            field("created", Kind::DateTimeUtc, false),
            field("updated", Kind::DateTimeUtc, false),
        ],
    ))
    .0
}

fn with_params(text: String, params: Vec<(String, Value)>) -> Statement {
    Statement { text, params }
}

#[test]
fn entity_params() {
    let foo_s = foo_schema();
    let bar_s = bar_schema();
    let (baz_s, _) = schemas(&decl("Baz", EntityType::Relation, vec![]));
    let foo = record(&foo_s, vec![text("foo"), FieldValue::Number(Number::U8(42))]);
    let bar = record(
        &bar_s,
        vec![FieldValue::DateTime(now()), FieldValue::DateTime(now())],
    );
    let baz = record(&baz_s, vec![]);

    // Foo
    let q = with_params(
        format!("CREATE (n:{})", foo_s.to_query_obj(None, StampMode::Create)),
        foo.bind_params(None, StampMode::Create),
    );
    assert!(q.has_param_key("name"));
    assert!(q.has_param_key("age"));

    // Bar
    let q = with_params(
        format!("MATCH (n:{})", bar_s.to_query_obj(None, StampMode::Read)),
        bar.bind_params(None, StampMode::Read),
    );
    assert!(q.has_param_key("created"));
    assert!(q.has_param_key("updated"));

    let q = with_params(
        format!("CREATE (n:{})", bar_s.to_query_obj(None, StampMode::Create)),
        bar.bind_params(None, StampMode::Create),
    );
    assert!(!q.has_param_key("created"));
    assert!(!q.has_param_key("updated"));

    let q = with_params(
        format!("MERGE (n:{})", bar_s.to_query_obj(None, StampMode::Update)),
        bar.bind_params(None, StampMode::Update),
    );
    assert!(q.has_param_key("created"));
    assert!(!q.has_param_key("updated"));

    // Baz
    let mut params = foo.bind_params(Some("s"), StampMode::Read);
    params.extend(bar.bind_params(Some("e"), StampMode::Read));
    params.extend(baz.bind_params(None, StampMode::Create));
    let q = with_params(
        format!(
            "MATCH (s:{})\n            MATCH (e:{})\n            CREATE (s)-[r:{}]->(e)",
            foo_s.to_query_obj(Some("s"), StampMode::Read),
            bar_s.to_query_obj(Some("e"), StampMode::Read),
            baz_s.to_query_obj(None, StampMode::Create),
        ),
        params,
    );
    assert!(q.has_param_key("s_name"));
    assert!(q.has_param_key("s_age"));
    assert!(q.has_param_key("e_created"));
}

#[test]
fn number_types() {
    let kinds = [
        ("usize_num", Num::Usize, Number::Usize(1)),
        ("isize_num", Num::Isize, Number::Isize(2)),
        ("u8_num", Num::U8, Number::U8(3)),
        ("u16_num", Num::U16, Number::U16(4)),
        ("u32_num", Num::U32, Number::U32(5)),
        ("u64_num", Num::U64, Number::U64(6)),
        ("u128_num", Num::U128, Number::U128(7)),
        ("i8_num", Num::I8, Number::I8(8)),
        ("i16_num", Num::I16, Number::I16(9)),
        ("i32_num", Num::I32, Number::I32(10)),
        ("i64_num", Num::I64, Number::I64(11)),
        ("i128_num", Num::I128, Number::I128(12)),
    ];
    let mut fields = Vec::new();
    let mut values = Vec::new();
    for (name, kind, n) in kinds {
        fields.push(field(name, Kind::Number(kind), false));
        values.push(FieldValue::Number(n));
        let opt = name.replace("_num", "_opt");
        fields.push(field(&opt, Kind::Number(kind), true));
        values.push(FieldValue::Number(n));
    }
    let floats = [
        ("f32_num", Num::F32, (13.0f32 as f64).to_bits()),
        ("f64_num", Num::F64, 14.0f64.to_bits()),
    ];
    for (name, kind, bits) in floats {
        fields.push(field(name, Kind::Number(kind), false));
        values.push(FieldValue::Float(bits));
        let opt = name.replace("_num", "_opt");
        fields.push(field(&opt, Kind::Number(kind), true));
        values.push(FieldValue::Float(bits));
    }
    let (s, _) = schemas(&decl("NumTypes", EntityType::Node, fields));
    let rec = record(&s, values);
    let q = create_node(&rec);
    assert!(q.text.starts_with("CREATE (n:NumTypes { usize_num: $usize_num, usize_opt: $usize_opt"));
    for (name, _, n) in kinds {
        assert!(q.has_param_key(name));
        let opt = name.replace("_num", "_opt");
        assert!(q.has_param_key(&opt));
        let stored = q.params.iter().find(|p| p.0 == name).unwrap().1.clone();
        assert_eq!(stored, Value::Int(cypher_dto::bind_number(n)));
    }
    for (name, _, bits) in floats {
        assert!(q.has_param_key(name));
        let stored = q.params.iter().find(|p| p.0 == name).unwrap().1.clone();
        assert_eq!(stored, Value::Float(bits));
    }
    let got: Vec<Option<Value>> = q.params.iter().map(|p| Some(p.1.clone())).collect();
    assert_eq!(Record::read(s.clone(), got), Ok(rec));
}

fn person_schemas() -> (EntitySchema, EntitySchema) {
    let mut name = field("name", Kind::Text, false);
    name.rename = Some("name2".to_owned());
    let mut d = decl(
        "Person",
        EntityType::Node,
        vec![
            field("id", Kind::Text, false),
            name,
            field("age", Kind::Number(Num::U8), true),
            field("colors", Kind::Collection, false),
            field("photo_url", Kind::Text, true),
            field("created_at", Kind::DateTimeUtc, true),
            field("updated_at", Kind::DateTimeUtc, true),
        ],
    );
    d.labels = Some(vec!["Person2".to_owned(), "PersonExtraLabel".to_owned()]);
    schemas(&d)
}

#[test]
fn person() {
    let (person, person_id) = person_schemas();
    assert_eq!(person.typename(), "Person2");
    assert_eq!(
        person.labels(),
        &vec!["Person2".to_owned(), "PersonExtraLabel".to_owned()]
    );
    assert_eq!(
        person.field_names(),
        [
            "id",
            "name2",
            "age",
            "colors",
            "photo_url",
            "created_at",
            "updated_at"
        ]
    );
    assert_eq!(
        person.as_query_fields(),
        "id: $id, name2: $name2, age: $age, colors: $colors, photo_url: $photo_url, created_at: $created_at, updated_at: $updated_at"
    );
    assert_eq!(
        person.as_query_obj(),
        format!(
            "{} {{ {} }}",
            person.labels().join(":"),
            person.as_query_fields()
        )
    );
    assert_eq!(
        person.as_query_obj(),
        person.to_query_obj(None, StampMode::Read)
    );
    let p = Builder::new(person.clone())
        .set("id", text("id"))
        .set("name", text("name"))
        .set("age", FieldValue::Number(Number::U8(42)))
        .set(
            "colors",
            FieldValue::List(vec![
                Scalar::Text("red".to_owned()),
                Scalar::Text("blue".to_owned()),
            ]),
        )
        .build()
        .unwrap();
    assert_eq!(p.values[0], text("id"));
    let p = p.into_builder().set("name", text("name2")).build().unwrap();
    assert_eq!(p.values[1], text("name2"));
    assert_eq!(
        p.values[3],
        FieldValue::List(vec![
            Scalar::Text("red".to_owned()),
            Scalar::Text("blue".to_owned())
        ])
    );
    assert_eq!(p.values[2], FieldValue::Number(Number::U8(42)));
    assert_eq!(p.values[5], FieldValue::Absent);
    let stamped = p
        .clone()
        .into_builder()
        .set("created_at", FieldValue::DateTime(now()))
        .build()
        .unwrap();
    assert_eq!(stamped.values[5], FieldValue::DateTime(now()));

    let id = p.identifier();
    assert_eq!(id.schema, person_id);
    assert_eq!(id.values, vec![text("id")]);
    let (knows, _) = schemas(&decl("Knows", EntityType::Relation, vec![]));
    let k = record(&knows, vec![]);
    let q = create_relation(&k, &RelationBound::Create(&p), &RelationBound::Match(&id));
    assert_eq!(
        q.text,
        "CREATE (s:Person2:PersonExtraLabel { id: $s_id, name2: $s_name2, age: $s_age, colors: $s_colors, photo_url: $s_photo_url })\n\
         MATCH (e:Person2:PersonExtraLabel { id: $e_id })\n\
         CREATE (s)-[:KNOWS]->(e)"
    );
    let keys: Vec<&str> = q.params.iter().map(|p| p.0.as_str()).collect();
    assert_eq!(
        keys,
        ["s_id", "s_name2", "s_age", "s_colors", "s_photo_url", "e_id"]
    );
}

#[test]
fn builder_errors() {
    let (person, _) = person_schemas();
    let err = Builder::new(person.clone())
        .set("name", text("n"))
        .build()
        .unwrap_err();
    assert_eq!(
        err,
        Error::BuilderError("Person2".to_owned(), "id".to_owned())
    );
    let err = Builder::new(person)
        .set("id", FieldValue::Bool(true))
        .build()
        .unwrap_err();
    assert_eq!(err, Error::TypeMismatch("id".to_owned()));
}

#[test]
fn node_statements() {
    let d = decl(
        "Company",
        EntityType::Node,
        vec![
            FieldDecl {
                is_id: true,
                ..field("name", Kind::Text, false)
            },
            field("created", Kind::DateTimeUtc, false),
            field("updated", Kind::DateTimeUtc, false),
        ],
    );
    let (s, _) = schemas(&d);
    let c = record(
        &s,
        vec![
            text("Acme"),
            FieldValue::DateTime(now()),
            FieldValue::DateTime(now()),
        ],
    );
    let q = create_node(&c);
    assert_eq!(q.text, "CREATE (n:Company { name: $name })");
    assert_eq!(
        q.params,
        vec![("name".to_owned(), Value::Text("Acme".to_owned()))]
    );
    let q = update_node(&c);
    assert_eq!(
        q.text,
        "MATCH (n:Company { name: $name }) SET n += { name: $name, created: $created, updated: datetime() }"
    );
    assert!(q.has_param_key("created"));
    assert!(!q.has_param_key("updated"));
    let id = c.identifier();
    let q = read_node(&id);
    assert_eq!(q.text, "MATCH (n:Company { name: $name }) RETURN n");
    let q = delete_node(&id);
    assert_eq!(q.text, "MATCH (n:Company { name: $name }) DETACH DELETE n");
    assert_eq!(q.params.len(), 1);
}

#[test]
fn relation_without_identity_is_refused() {
    let (rel, rel_id) = schemas(&decl("Knows", EntityType::Relation, vec![]));
    let r = record(&rel, vec![]);
    let id = r.identifier();
    assert_eq!(id.schema, rel_id);
    assert_eq!(
        read_relation(&id),
        Err(Error::EmptyIdentity("KNOWS".to_owned()))
    );
    assert_eq!(
        delete_relation(&id),
        Err(Error::EmptyIdentity("KNOWS".to_owned()))
    );
    assert_eq!(
        update_relation(&r),
        Err(Error::EmptyIdentity("KNOWS".to_owned()))
    );
    let foo = record(&foo_schema(), vec![text("a"), FieldValue::Number(Number::U8(1))]);
    let q = read_relation_from(&id, &foo);
    assert_eq!(
        q.text,
        "MATCH (n:Foo { name: $n_name, age: $n_age })-[r:KNOWS]-() RETURN r"
    );
    let q = delete_relation_between(&id, &foo, &foo);
    assert_eq!(
        q.text,
        "MATCH (s:Foo { name: $s_name, age: $s_age })-[r:KNOWS]-(e:Foo { name: $e_name, age: $e_age }) DELETE r"
    );
    assert_eq!(q.params.len(), 4);
}

#[test]
fn relation_with_identity() {
    let d = decl(
        "WorkedAt",
        EntityType::Relation,
        vec![
            FieldDecl {
                is_id: true,
                ..field("until", Kind::DateTimeUtc, false)
            },
            field("role", Kind::Text, true),
        ],
    );
    let (s, _) = schemas(&d);
    let r = record(&s, vec![FieldValue::DateTime(now()), FieldValue::Absent]);
    let id = r.identifier();
    let q = read_relation(&id).unwrap();
    assert_eq!(q.text, "MATCH [r:WORKED_AT { until: $until }] RETURN r");
    let q = update_relation(&r).unwrap();
    assert_eq!(
        q.text,
        "MATCH ()-[r:WORKED_AT { until: $until }]-() SET r += { until: $until, role: $role }"
    );
    assert_eq!(
        q.params,
        vec![
            ("until".to_owned(), Value::DateTime(now())),
            ("role".to_owned(), Value::Null)
        ]
    );
    let foo = record(&foo_schema(), vec![text("a"), FieldValue::Number(Number::U8(1))]);
    let q = update_relation_from(&r, &foo);
    assert_eq!(
        q.text,
        "MATCH (n:Foo { name: $n_name, age: $n_age })-[r:WORKED_AT { until: $until }]-() SET r += { until: $until, role: $role }"
    );
    let q = read_relation_between(&id, &foo, &foo);
    assert_eq!(q.params.len(), 5);
}

#[test]
fn read_record_reports_first_failure() {
    let s = foo_schema();
    let got = vec![None, Some(Value::Text("x".to_owned()))];
    assert_eq!(
        Record::read(s.clone(), got),
        Err(Error::MissingField("name".to_owned()))
    );
    let got = vec![Some(Value::Text("x".to_owned())), Some(Value::Int(-1))];
    assert_eq!(
        Record::read(s.clone(), got),
        Err(Error::TypeMismatch("age".to_owned()))
    );
    assert!(Record::new(s, vec![text("x")]).is_none());
}
