use rs_utils::doc::Doc;
use rs_utils::migration::{
    chain_from, do_migrate, run_migrations, Migration, MigrationError, SchemaStep,
};
use rs_utils::schema::{Schema, Typed, Versioned};

fn schema(version: u32, field: &str) -> Schema {
    Schema { version, field: field.to_string() }
}

fn lenient(source: Schema, target: Schema) -> SchemaStep {
    SchemaStep { source, target, strict: false, message: "" }
}

/// The three-revision chain: normalize to the first shape, then carry the
/// data field from `a` to `b` to `c`, stamping versions 1, 2, 3.
fn chain_v1_v2_v3() -> Vec<Migration<SchemaStep>> {
    vec![
        Migration { version: 1, migrate: lenient(schema(1, "a"), schema(1, "a")) },
        Migration { version: 2, migrate: lenient(schema(1, "a"), schema(2, "b")) },
        Migration { version: 3, migrate: lenient(schema(2, "b"), schema(3, "c")) },
    ]
}

#[test]
fn migration_migrate_configuration() {
    let data = Doc::new_obj().with_int("version", 1).with_int("a", 32);

    let data = do_migrate(data, chain_v1_v2_v3(), &schema(3, "c")).unwrap();

    assert_eq!(data.value, 32);
    assert_eq!(data.version, 3);
}

#[test]
fn migrate_from_middle() {
    let data = Doc::new_obj().with_int("version", 2).with_int("b", 33);

    let data = do_migrate(data, chain_v1_v2_v3(), &schema(3, "c")).unwrap();

    assert_eq!(data.value, 33);
    assert_eq!(data.version, 3);
}

#[test]
fn migrate_with_corrupt_data() {
    let corrupt_data = Doc::new_obj().with_int("a", 32);

    let data = do_migrate(corrupt_data, chain_v1_v2_v3(), &schema(3, "c")).unwrap();

    assert_eq!(data.value, 0);
    assert_eq!(data.version, 3);
}

#[test]
fn lib_migrate_configuration() {
    let v1 = Doc::new_obj().with_int("version", 1).with_int("a", 32);

    let migrations = vec![Migration {
        version: 2,
        migrate: lenient(schema(1, "a"), schema(2, "b")),
    }];

    let v2: Typed = do_migrate(v1, migrations, &schema(2, "b")).unwrap();

    assert_eq!(v2.value, 32);
}

#[test]
fn single_step_produces_expected_document() {
    let data = Doc::new_obj().with_int("version", 1).with_int("a", 32);
    let steps = vec![Migration {
        version: 2,
        migrate: lenient(schema(1, "a"), schema(2, "b")),
    }];

    let out = run_migrations(data, &steps).unwrap();

    assert_eq!(out.get_version(), 2);
    assert_eq!(out.get_int("b"), Some(32));
}

#[test]
fn empty_document_recovers_to_default() {
    let data = Doc::new_obj();
    let steps = vec![Migration {
        version: 2,
        migrate: lenient(schema(1, "a"), schema(2, "b")),
    }];

    let out = do_migrate(data, steps, &schema(2, "b")).unwrap();

    assert_eq!(out.version, 2);
    assert_eq!(out.value, 0);
}

#[test]
fn missing_version_reads_as_zero() {
    let data = Doc::new_obj().with_int("a", 7);
    assert_eq!(data.get_version(), 0);

    // A step targeting version 1 therefore runs on it.
    let steps = vec![Migration {
        version: 1,
        migrate: lenient(schema(1, "a"), schema(1, "a")),
    }];
    let out = run_migrations(data, &steps).unwrap();
    assert_eq!(out.get_version(), 1);
}

#[test]
fn malformed_version_reads_as_zero() {
    let text_version = Doc::new_obj().with_field("version", Doc::Text("two".to_string()));
    assert_eq!(text_version.get_version(), 0);

    let negative = Doc::new_obj().with_int("version", -3);
    assert_eq!(negative.get_version(), 0);

    let too_large = Doc::new_obj().with_int("version", (u32::MAX as i64) + 1);
    assert_eq!(too_large.get_version(), 0);

    let not_an_object = Doc::Int(4);
    assert_eq!(not_an_object.get_version(), 0);
}

#[test]
fn terminal_version_runs_no_step() {
    let data = Doc::new_obj().with_int("version", 3).with_int("c", 99);

    let out = run_migrations(data, &chain_v1_v2_v3()).unwrap();
    assert_eq!(out.get_version(), 3);
    assert_eq!(out.get_int("c"), Some(99));

    let data = Doc::new_obj().with_int("version", 3).with_int("c", 99);
    let typed = do_migrate(data, chain_v1_v2_v3(), &schema(3, "c")).unwrap();
    assert_eq!(typed, Typed { version: 3, value: 99 });
}

#[test]
fn strict_step_failure_is_reported() {
    let data = Doc::new_obj();
    let steps = vec![Migration {
        version: 2,
        migrate: SchemaStep {
            source: schema(1, "a"),
            target: schema(2, "b"),
            strict: true,
            message: "document does not fit revision 1",
        },
    }];

    let out = do_migrate(data, steps, &schema(2, "b"));
    assert_eq!(out, Err(MigrationError::Failed("document does not fit revision 1")));
}

#[test]
fn strict_step_passes_fitting_document() {
    let data = Doc::new_obj().with_int("version", 1).with_int("a", 5);
    let steps = vec![Migration {
        version: 2,
        migrate: SchemaStep {
            source: schema(1, "a"),
            target: schema(2, "b"),
            strict: true,
            message: "document does not fit revision 1",
        },
    }];

    let out = do_migrate(data, steps, &schema(2, "b"));
    assert_eq!(out, Ok(Typed { version: 2, value: 5 }));
}

#[test]
fn empty_chain_only_converts() {
    let data = Doc::new_obj().with_int("version", 5).with_int("x", 11);
    let steps: Vec<Migration<SchemaStep>> = Vec::new();

    let out = do_migrate(data, steps, &schema(5, "x")).unwrap();
    assert_eq!(out, Typed { version: 5, value: 11 });
}

#[test]
fn chain_from_macro() {
    let corrupt_data = Doc::new_obj();

    let v2 = chain_from(corrupt_data, &vec![lenient(schema(1, "a"), schema(2, "b"))]).unwrap();

    assert_eq!(v2.get_int("b"), Some(0));
}

#[test]
fn chain_from_applies_every_transform() {
    let data = Doc::new_obj().with_int("version", 1).with_int("a", 32);
    let transforms = vec![
        lenient(schema(1, "a"), schema(2, "b")),
        lenient(schema(2, "b"), schema(3, "c")),
    ];

    let out = chain_from(data, &transforms).unwrap();

    assert_eq!(out.get_version(), 3);
    assert_eq!(out.get_int("c"), Some(32));
}

#[test]
fn later_insert_shadows_earlier() {
    let d = Doc::new_obj().with_int("a", 1).with_int("a", 2);
    assert_eq!(d.get_int("a"), Some(2));
}

#[test]
fn get_int_on_non_object_is_none() {
    assert_eq!(Doc::Null.get_int("a"), None);
    assert_eq!(Doc::Int(3).get_int("a"), None);
    let d = Doc::new_obj().with_field("a", Doc::Text("x".to_string()));
    assert_eq!(d.get_int("a"), None);
}

#[test]
fn schema_document_round_trip() {
    let s = schema(2, "b");
    let d = s.to_doc(7);
    assert_eq!(d.get_version(), 2);
    assert_eq!(d.get_int("b"), Some(7));
    assert_eq!(s.from_doc(&d), Some(Typed { version: 2, value: 7 }));
    assert_eq!(s.from_doc_or_default(&d), Typed { version: 2, value: 7 });
}

#[test]
fn from_doc_rejects_missing_field() {
    let s = schema(2, "b");
    let missing_field = Doc::new_obj().with_int("version", 2);
    assert_eq!(s.from_doc(&missing_field), None);
    assert_eq!(s.from_doc_or_default(&missing_field), Typed { version: 2, value: 0 });

    let missing_version = Doc::new_obj().with_int("b", 4);
    assert_eq!(s.from_doc(&missing_version), None);
    assert_eq!(s.from_doc_or_default(&missing_version), Typed { version: 2, value: 0 });
}

#[test]
fn non_scalar_fields_are_not_integers() {
    let d = Doc::new_obj()
        .with_field("items", Doc::Arr(vec![Doc::Int(1), Doc::Int(2)]))
        .with_int("version", 1);
    assert_eq!(d.get_version(), 1);
    assert_eq!(d.get_int("items"), None);

    let nested = Doc::new_obj().with_field("inner", Doc::new_obj().with_int("version", 9));
    assert_eq!(nested.get_version(), 0);
    assert_eq!(nested.get_int("inner"), None);
}

#[test]
fn typed_reports_its_version() {
    let t = Typed { version: 4, value: 9 };
    assert_eq!(t.get_version(), 4);
}
