use dash::schema::arrow::{
    arrow_schema_to_columns, to_arrow_field, to_arrow_fields, to_delta_type, ArrowDataType, ArrowField, ArrowSchemaError,
    DeltaField, DeltaType, FieldColumns, TimeUnit, ToDataType, ToField,
};
use dash::schema::PrimitiveType;

fn field(name: &str, data_type: ArrowDataType, nullable: bool) -> ArrowField {
    ArrowField { name: name.into(), data_type, nullable, metadata: vec![] }
}

fn prim(t: &DeltaType) -> Option<PrimitiveType> {
    match t {
        DeltaType::Primitive(p) => Some(*p),
        _ => None,
    }
}

#[test]
fn arrow_primitives_become_column_types() {
    let cases = vec![
        (ArrowDataType::Boolean, PrimitiveType::Boolean),
        (ArrowDataType::UInt8, PrimitiveType::Byte),
        (ArrowDataType::Int16, PrimitiveType::Short),
        (ArrowDataType::UInt32, PrimitiveType::Integer),
        (ArrowDataType::Int64, PrimitiveType::Long),
        (ArrowDataType::Float32, PrimitiveType::Float),
        (ArrowDataType::Float64, PrimitiveType::Double),
        (ArrowDataType::FixedSizeBinary(4), PrimitiveType::Binary),
        (ArrowDataType::LargeUtf8, PrimitiveType::String),
        (ArrowDataType::Date64, PrimitiveType::Date),
        (ArrowDataType::Timestamp(TimeUnit::Second, Some("UTC".into())), PrimitiveType::Timestamp),
        (ArrowDataType::Decimal128(10, 2), PrimitiveType::Decimal(10, 2)),
    ];
    for (arrow, delta) in cases {
        let t = to_delta_type(&arrow, "v").unwrap().unwrap();
        assert_eq!(prim(&t), Some(delta));
    }
    assert!(to_delta_type(&ArrowDataType::Null, "v").unwrap().is_none());
    assert!(matches!(to_delta_type(&ArrowDataType::Union, "v"), Err(ArrowSchemaError::Union)));
    assert!(matches!(
        to_delta_type(&ArrowDataType::Other("Float16".into()), "v"),
        Err(ArrowSchemaError::UnsupportedArrow(ref s)) if s == "Float16"
    ));
}

#[test]
fn arrow_schema_columns_skip_nulls_and_carry_metadata() {
    let mut with_meta = field("id", ArrowDataType::Int64, false);
    with_meta.metadata.push(("unit".into(), "count".into()));
    let fields = vec![
        with_meta,
        field("nothing", ArrowDataType::Null, true),
        field("tags", ArrowDataType::List(Box::new(field("item", ArrowDataType::Utf8, true))), true),
        field("nulls", ArrowDataType::List(Box::new(field("item", ArrowDataType::Null, true))), true),
        field("inner", ArrowDataType::Struct(vec![field("x", ArrowDataType::Float64, false)]), false),
    ];
    let columns = arrow_schema_to_columns(&fields).unwrap();
    let names: Vec<&str> = columns.iter().map(|c| c.name.as_str()).collect();
    assert_eq!(names, vec!["id", "tags", "inner"]);
    assert_eq!(
        columns[0].metadata,
        vec![("unit".to_string(), "count".to_string()), ("apiVersion".to_string(), "http://arrow.apache.org/".to_string())]
    );
    match &columns[1].data_type {
        DeltaType::Array(e, contains_null) => {
            assert_eq!(prim(e), Some(PrimitiveType::String));
            assert!(*contains_null);
        },
        _ => panic!("expected an array"),
    }
    match &columns[2].data_type {
        DeltaType::Struct(cs) => {
            assert_eq!(cs.len(), 1);
            assert_eq!(cs[0].metadata, vec![("apiVersion".to_string(), "http://arrow.apache.org/".to_string())]);
        },
        _ => panic!("expected a struct"),
    }
    let bad = vec![field("a", ArrowDataType::Int8, true), field("u", ArrowDataType::Union, true)];
    assert!(matches!(arrow_schema_to_columns(&bad), Err(ArrowSchemaError::Union)));
}

#[test]
fn columns_go_back_to_arrow_and_return() {
    let column = DeltaField {
        name: "tags".into(),
        data_type: DeltaType::Array(Box::new(DeltaType::Primitive(PrimitiveType::TimestampNtz)), false),
        nullable: true,
        metadata: vec![("apiVersion".into(), "x".into())],
    };
    let f = to_arrow_field(&column).unwrap();
    assert_eq!(f.name, "tags");
    assert!(f.metadata.is_empty());
    match &f.data_type {
        ArrowDataType::List(item) => {
            assert_eq!(item.name, "tags");
            assert!(!item.nullable);
            assert!(matches!(item.data_type, ArrowDataType::Timestamp(TimeUnit::Microsecond, None)));
        },
        _ => panic!("expected a list"),
    }
    let decimal = DeltaField {
        name: "d".into(),
        data_type: DeltaType::Primitive(PrimitiveType::Decimal(5, 1)),
        nullable: true,
        metadata: vec![],
    };
    assert!(matches!(to_arrow_field(&decimal), Err(ArrowSchemaError::UnsupportedDecimal)));
    let map = DeltaField { name: "m".into(), data_type: DeltaType::KeyValueMap, nullable: true, metadata: vec![] };
    assert!(matches!(to_arrow_fields(&vec![map]), Err(ArrowSchemaError::UnsupportedMap)));

    // a column of a round-tripping type comes back the same
    let column = DeltaField {
        name: "n".into(),
        data_type: DeltaType::Struct(vec![DeltaField {
            name: "b".into(),
            data_type: DeltaType::Primitive(PrimitiveType::Short),
            nullable: false,
            metadata: vec![],
        }]),
        nullable: true,
        metadata: vec![],
    };
    let back = to_delta_type(&to_arrow_field(&column).unwrap().data_type, "v").unwrap().unwrap();
    match back {
        DeltaType::Struct(cs) => {
            assert_eq!(cs[0].name, "b");
            assert_eq!(prim(&cs[0].data_type), Some(PrimitiveType::Short));
            assert_eq!(cs[0].metadata, vec![("apiVersion".to_string(), "v".to_string())]);
        },
        _ => panic!("expected a struct"),
    }
}

#[test]
fn conversions_through_traits() {
    let fields = vec![field("a", ArrowDataType::Int32, false)];
    let columns = FieldColumns::to_data_columns(&fields).unwrap();
    assert_eq!(columns.len(), 1);
    let f = columns[0].to_field().unwrap();
    assert!(matches!(f.data_type, ArrowDataType::Int32));
    assert!(matches!(PrimitiveType::Date.to_data_type(), Ok(ArrowDataType::Date32)));
    assert!(matches!(PrimitiveType::Decimal(3, 1).to_data_type(), Err(ArrowSchemaError::UnsupportedDecimal)));
    match columns.to_data_type() {
        Ok(ArrowDataType::Struct(fs)) => assert_eq!(fs[0].name, "a"),
        _ => panic!("expected a struct"),
    }
}
