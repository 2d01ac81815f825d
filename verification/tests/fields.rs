use dash::schema::fields::{
    model_fields_to_columns, ColumnPrimitive, ColumnType, FieldsError, ModelFieldKindNativeSpec, ModelFieldKindObjectSpec,
    ModelFieldNativeSpec,
};

fn field(name: &str, kind: ModelFieldKindNativeSpec, optional: bool) -> ModelFieldNativeSpec {
    ModelFieldNativeSpec { name: name.to_string(), kind, optional }
}

#[test]
fn model_fields_become_nested_columns() {
    let fields = vec![
        field("/", ModelFieldKindNativeSpec::Object(ModelFieldKindObjectSpec::Static), false),
        field("/b/", ModelFieldKindNativeSpec::Integer, false),
        field("/a/", ModelFieldKindNativeSpec::Object(ModelFieldKindObjectSpec::Static), true),
        field("/a/x/", ModelFieldKindNativeSpec::DateTime, false),
        field("/a/tags/", ModelFieldKindNativeSpec::StringArray, true),
        field("/c/", ModelFieldKindNativeSpec::Unset, false),
    ];
    let cols = model_fields_to_columns(&fields).unwrap();
    assert_eq!(cols.len(), 2);
    assert_eq!(cols[0].name, "a");
    assert!(cols[0].nullable);
    assert_eq!(cols[0].source, 2);
    match &cols[0].ty {
        ColumnType::Struct(children) => {
            assert_eq!(children.len(), 2);
            assert_eq!(children[0].name, "tags");
            assert!(matches!(children[0].ty, ColumnType::Array(ColumnPrimitive::String, true)));
            assert_eq!(children[1].name, "x");
            assert!(matches!(children[1].ty, ColumnType::Primitive(ColumnPrimitive::Timestamp)));
        }
        _ => panic!("expected a struct"),
    }
    assert_eq!(cols[1].name, "b");
    assert!(matches!(cols[1].ty, ColumnType::Primitive(ColumnPrimitive::Long)));
}

#[test]
fn model_fields_errors() {
    assert!(model_fields_to_columns(&vec![]).unwrap().is_empty());
    let fields = vec![
        field("/", ModelFieldKindNativeSpec::Object(ModelFieldKindObjectSpec::Static), false),
        field("/a/", ModelFieldKindNativeSpec::Integer, false),
        field("/a/b/", ModelFieldKindNativeSpec::Integer, false),
    ];
    assert_eq!(model_fields_to_columns(&fields).unwrap_err(), FieldsError::ParentNotObject);
    let fields = vec![
        field("/", ModelFieldKindNativeSpec::Object(ModelFieldKindObjectSpec::Static), false),
        field("/a/", ModelFieldKindNativeSpec::ObjectArray, false),
    ];
    assert_eq!(model_fields_to_columns(&fields).unwrap_err(), FieldsError::ObjectArray);
    let fields = vec![
        field("/", ModelFieldKindNativeSpec::Object(ModelFieldKindObjectSpec::Static), false),
        field("/d/", ModelFieldKindNativeSpec::Object(ModelFieldKindObjectSpec::Dynamic), false),
    ];
    assert_eq!(model_fields_to_columns(&fields).unwrap_err(), FieldsError::Dynamic);
    // an intermediate object is made where missing, taking the nullability of the field below it
    let fields = vec![
        field("/", ModelFieldKindNativeSpec::Object(ModelFieldKindObjectSpec::Static), false),
        field("/p/q/", ModelFieldKindNativeSpec::Boolean, true),
    ];
    let cols = model_fields_to_columns(&fields).unwrap();
    assert_eq!(cols[0].name, "p");
    assert!(cols[0].nullable);
}
