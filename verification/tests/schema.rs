use dash::api::model_storage_binding::{
    ModelStorageBindingState, ModelStorageBindingSyncPolicy, ModelStorageBindingSyncPolicyPull, ModelStorageBindingSyncPolicyPush,
};
use dash::api::model_user::ModelUserAccessTokenSecretRefSpec;
use dash::api::storage::db::{ModelStorageDatabaseBorrowedSpec, ModelStorageDatabaseSpec};
use dash::api::storage::kubernetes::ModelStorageKubernetesSpec;
use dash::api::storage::object::{
    ModelStorageObjectBorrowedSpec, ModelStorageObjectOwnedSpec, ModelStorageObjectRefSpec, ModelStorageObjectSpec,
};
use dash::api::storage::{ModelStorageKind, ModelStorageKindSpec};
use dash::schema::{ArrayValidation, DataType, FieldKind, InstanceType, InstanceTypes, ObjectValidation, PrimitiveType, RootSchema, Schema, SchemaError, SchemaItems, SchemaObject, SubschemaValidation};
use dash::sidecar::{build_nginx_conf, Args, BindingRoute, RouteStatus};
use dash::url::Url;

fn obj(t: InstanceType) -> Schema {
    Schema::Object(Box::new(SchemaObject {
        reference: None,
        instance_type: Some(InstanceTypes::Single(t)),
        array: None,
        object: None,
        subschemas: None,
    }))
}

fn reference(name: &str) -> Schema {
    Schema::Object(Box::new(SchemaObject {
        reference: Some(format!("#/definitions/{name}")),
        instance_type: None,
        array: None,
        object: None,
        subschemas: None,
    }))
}

fn root(properties: Vec<(String, Schema)>, required: Vec<String>, definitions: Vec<(String, Schema)>) -> RootSchema {
    RootSchema {
        meta_schema: None,
        schema: SchemaObject {
            reference: None,
            instance_type: Some(InstanceTypes::Single(InstanceType::Object)),
            array: None,
            object: Some(Box::new(ObjectValidation { properties, required })),
            subschemas: None,
        },
        definitions,
    }
}

#[test]
fn primitive_columns() {
    let r = root(
        vec![
            ("a".into(), obj(InstanceType::Boolean)),
            ("b".into(), obj(InstanceType::Integer)),
            ("c".into(), obj(InstanceType::Null)),
            (
                "d".into(),
                Schema::Object(Box::new(SchemaObject {
                    reference: None,
                    instance_type: Some(InstanceTypes::Vec(vec![InstanceType::String, InstanceType::Null])),
                    array: None,
                    object: None,
                    subschemas: None,
                })),
            ),
        ],
        vec!["a".into(), "d".into()],
        vec![],
    );
    let cols = r.to_data_columns().unwrap();
    assert_eq!(cols.len(), 3);
    assert_eq!(cols[0].name, "a");
    assert!(!cols[0].nullable);
    assert!(matches!(cols[0].data_type, DataType::Primitive(PrimitiveType::Boolean)));
    assert!(cols[1].nullable);
    assert!(matches!(cols[1].data_type, DataType::Primitive(PrimitiveType::Long)));
    assert_eq!(cols[2].name, "d");
    assert!(cols[2].nullable);
    assert_eq!(cols[2].kind, FieldKind::String);
    assert_eq!(r.api_version(), "http://json-schema.org/");
}

#[test]
fn references_arrays_and_errors() {
    let items = Schema::Object(Box::new(SchemaObject {
        reference: None,
        instance_type: Some(InstanceTypes::Single(InstanceType::Array)),
        array: Some(Box::new(ArrayValidation { items: Some(SchemaItems::Single(Box::new(reference("num")))) })),
        object: None,
        subschemas: None,
    }));
    let r = root(
        vec![("xs".into(), items), ("n".into(), reference("num"))],
        vec![],
        vec![("num".into(), obj(InstanceType::Number))],
    );
    let cols = r.to_data_columns().unwrap();
    assert_eq!(cols.len(), 2);
    match &cols[0].data_type {
        DataType::Array(a) => {
            assert!(matches!(a.element_type, DataType::Primitive(PrimitiveType::Double)));
            assert!(!a.contains_null);
        }
        _ => panic!("expected an array"),
    }
    assert!(matches!(cols[1].data_type, DataType::Primitive(PrimitiveType::Double)));

    let missing = root(vec![("n".into(), reference("nope"))], vec![], vec![]);
    match missing.to_data_columns() {
        Err(SchemaError::NoSuchReference(r)) => assert_eq!(r, "#/definitions/nope"),
        _ => panic!("expected a missing reference"),
    }
    let dynamic = root(vec![("n".into(), Schema::Bool(true))], vec![], vec![]);
    assert!(matches!(dynamic.to_data_columns(), Err(SchemaError::DynamicObject)));
    let value = root(vec![("value".into(), Schema::Bool(true))], vec![], vec![]);
    assert!(value.to_data_columns().unwrap().is_empty());
    let cyclic = root(vec![("n".into(), reference("a"))], vec![], vec![("a".into(), reference("a"))]);
    assert!(matches!(cyclic.to_data_columns(), Err(SchemaError::TooDeep)));
    let union = root(
        vec![(
            "u".into(),
            Schema::Object(Box::new(SchemaObject {
                reference: None,
                instance_type: Some(InstanceTypes::Vec(vec![InstanceType::String, InstanceType::Integer])),
                array: None,
                object: None,
                subschemas: None,
            })),
        )],
        vec![],
        vec![],
    );
    assert!(matches!(union.to_data_columns(), Err(SchemaError::UnionObject)));
}

#[test]
fn nested_objects_and_any_of() {
    let inner = Schema::Object(Box::new(SchemaObject {
        reference: None,
        instance_type: Some(InstanceTypes::Single(InstanceType::Object)),
        array: None,
        object: Some(Box::new(ObjectValidation { properties: vec![("x".into(), obj(InstanceType::Integer))], required: vec!["x".into()] })),
        subschemas: None,
    }));
    let any_of = Schema::Object(Box::new(SchemaObject {
        reference: None,
        instance_type: None,
        array: None,
        object: None,
        subschemas: Some(Box::new(SubschemaValidation { any_of: Some(vec![obj(InstanceType::Null), reference("inner")]) })),
    }));
    let r = root(vec![("o".into(), any_of)], vec!["o".into()], vec![("inner".into(), inner)]);
    let cols = r.to_data_columns().unwrap();
    assert_eq!(cols.len(), 1);
    assert_eq!(cols[0].kind, FieldKind::Object);
    match &cols[0].data_type {
        DataType::Struct(fields) => {
            assert_eq!(fields.len(), 1);
            assert_eq!(fields[0].name, "x");
            assert!(!fields[0].nullable);
        }
        _ => panic!("expected a struct"),
    }
}

fn sync(pull: ModelStorageBindingSyncPolicyPull, push: ModelStorageBindingSyncPolicyPush) -> ModelStorageBindingSyncPolicy {
    ModelStorageBindingSyncPolicy { pull, push }
}

#[test]
fn endpoints_of_storage_kinds() {
    let db = ModelStorageKindSpec::Database(ModelStorageDatabaseSpec::Borrowed(ModelStorageDatabaseBorrowedSpec {
        url: Url::parse("postgres://db:5432/x").unwrap(),
    }));
    assert_eq!(db.endpoint("ns").unwrap().as_str(), "postgres://db:5432/x");
    assert!(!db.is_unique());
    assert_eq!(db.to_kind(), ModelStorageKind::Database);
    let k = ModelStorageKindSpec::Kubernetes(ModelStorageKubernetesSpec::default());
    assert!(k.endpoint("ns").is_none());
    assert!(k.is_unique());
    let owned = ModelStorageKindSpec::ObjectStorage(ModelStorageObjectSpec::Owned(ModelStorageObjectOwnedSpec::new_default()));
    assert_eq!(owned.endpoint("ns").unwrap().as_str(), "http://object-storage.ns.svc/");
    assert!(owned.is_unique());
    assert_eq!(ModelStorageKind::ObjectStorage.as_str(), "ObjectStorage");
}

#[test]
fn nginx_routes_ready_object_bindings() {
    let borrowed = ModelStorageKindSpec::ObjectStorage(ModelStorageObjectSpec::Borrowed(ModelStorageObjectBorrowedSpec {
        reference: ModelStorageObjectRefSpec {
            endpoint: Url::parse("http://remote:9000/").unwrap(),
            secret_ref: ModelUserAccessTokenSecretRefSpec::new_default(),
        },
    }));
    let owned = || ModelStorageKindSpec::ObjectStorage(ModelStorageObjectSpec::Owned(ModelStorageObjectOwnedSpec::new_default()));
    let bindings = vec![
        BindingRoute {
            name: "a".into(),
            namespace: None,
            status: Some(RouteStatus {
                state: ModelStorageBindingState::Ready,
                storage_source: None,
                storage_sync_policy: None,
                storage_target: Some(owned()),
            }),
        },
        BindingRoute {
            name: "b".into(),
            namespace: Some("other".into()),
            status: Some(RouteStatus {
                state: ModelStorageBindingState::Ready,
                storage_source: Some(borrowed),
                storage_sync_policy: Some(sync(ModelStorageBindingSyncPolicyPull::Never, ModelStorageBindingSyncPolicyPush::Never)),
                storage_target: Some(owned()),
            }),
        },
        BindingRoute {
            name: "c".into(),
            namespace: None,
            status: Some(RouteStatus {
                state: ModelStorageBindingState::Pending,
                storage_source: None,
                storage_sync_policy: None,
                storage_target: Some(owned()),
            }),
        },
        BindingRoute { name: "d".into(), namespace: None, status: None },
    ];
    let conf = build_nginx_conf("dash", &bindings);
    assert!(conf.contains("location /a {\n            proxy_pass http://object-storage.dash.svc;\n        }\n        location /b {\n            proxy_pass http://remote:9000;\n        }\n    }\n}"));
    assert!(!conf.contains("location /c"));
    assert!(conf.starts_with("\nevents {"));
    assert!(conf.contains("proxy_pass http://minio;"));
    assert_eq!(Args::default_path(), "/etc/nginx/nginx.conf.new");
}
