//! The columns of a table derived from an Arrow schema, and the Arrow
//! fields of such columns.

use vstd::prelude::*;
use crate::schema::{PrimitiveType, RootSchema, SchemaError, StructField, cols_res, spec_root_columns};

verus! {

/// The unit of an Arrow timestamp.
#[derive(Copy, Clone, Debug, PartialEq, Eq, Structural)]
pub enum TimeUnit {
    Second,
    Millisecond,
    Microsecond,
    Nanosecond,
}

/// The Arrow data types that columns are made from; `Other` stands for any
/// other type, by its debug text.
#[derive(Debug)]
pub enum ArrowDataType {
    Null,
    Boolean,
    Int8,
    Int16,
    Int32,
    Int64,
    UInt8,
    UInt16,
    UInt32,
    UInt64,
    Float32,
    Float64,
    /// A decimal of the given precision and scale.
    Decimal128(u8, i8),
    /// A decimal of the given precision and scale.
    Decimal256(u8, i8),
    Binary,
    FixedSizeBinary(i32),
    LargeBinary,
    Utf8,
    LargeUtf8,
    Date32,
    Date64,
    /// A timestamp in the given unit, in the given time zone if any.
    Timestamp(TimeUnit, Option<String>),
    Union,
    List(Box<ArrowField>),
    FixedSizeList(Box<ArrowField>, i32),
    LargeList(Box<ArrowField>),
    Struct(Vec<ArrowField>),
    Other(String),
}

/// An Arrow field: its name, type, nullability and metadata.
#[derive(Debug)]
pub struct ArrowField {
    pub name: String,
    pub data_type: ArrowDataType,
    pub nullable: bool,
    pub metadata: Vec<(String, String)>,
}

/// The type of a column: a primitive, an array of elements that may or
/// may not be null, a struct of columns, or a map.
#[derive(Debug)]
pub enum DeltaType {
    Primitive(PrimitiveType),
    Array(Box<DeltaType>, bool),
    Struct(Vec<DeltaField>),
    KeyValueMap,
}

/// A column: its name, type, nullability and metadata.
#[derive(Debug)]
pub struct DeltaField {
    pub name: String,
    pub data_type: DeltaType,
    pub nullable: bool,
    pub metadata: Vec<(String, String)>,
}

/// Why an Arrow type has no column type, or a column type no Arrow type.
#[derive(Debug)]
pub enum ArrowSchemaError {
    /// Union types are not supported.
    Union,
    /// The Arrow type, by its debug text, is not supported.
    UnsupportedArrow(String),
    /// Decimal columns have no Arrow type here.
    UnsupportedDecimal,
    /// Map columns have no Arrow type here.
    UnsupportedMap,
}

/// An error as a value.
pub enum ArrowSchemaErr {
    Union,
    UnsupportedArrow(Seq<char>),
    UnsupportedDecimal,
    UnsupportedMap,
}

pub open spec fn arrow_err_view(e: ArrowSchemaError) -> ArrowSchemaErr {
    match e {
        ArrowSchemaError::Union => ArrowSchemaErr::Union,
        ArrowSchemaError::UnsupportedArrow(s) => ArrowSchemaErr::UnsupportedArrow(s@),
        ArrowSchemaError::UnsupportedDecimal => ArrowSchemaErr::UnsupportedDecimal,
        ArrowSchemaError::UnsupportedMap => ArrowSchemaErr::UnsupportedMap,
    }
}

/// Metadata as plain values.
pub open spec fn metadata_view(m: Seq<(String, String)>) -> Seq<(Seq<char>, Seq<char>)> {
    m.map_values(|e: (String, String)| (e.0@, e.1@))
}

/// A column type as a value.
pub enum DeltaTypeView {
    Primitive(PrimitiveType),
    Array(Box<DeltaTypeView>, bool),
    Struct(Seq<DeltaFieldView>),
    KeyValueMap,
}

/// A column as a value.
pub struct DeltaFieldView {
    pub name: Seq<char>,
    pub data_type: DeltaTypeView,
    pub nullable: bool,
    pub metadata: Seq<(Seq<char>, Seq<char>)>,
}

pub open spec fn delta_type_view(t: DeltaType) -> DeltaTypeView
    decreases t,
{
    match t {
        DeltaType::Primitive(p) => DeltaTypeView::Primitive(p),
        DeltaType::Array(e, n) => DeltaTypeView::Array(Box::new(delta_type_view(*e)), n),
        DeltaType::Struct(v) => DeltaTypeView::Struct(delta_fields_view(v@)),
        DeltaType::KeyValueMap => DeltaTypeView::KeyValueMap,
    }
}

pub open spec fn delta_fields_view(s: Seq<DeltaField>) -> Seq<DeltaFieldView>
    decreases s,
{
    if s.len() == 0 {
        Seq::empty()
    } else {
        delta_fields_view(s.drop_last()).push(
            DeltaFieldView {
                name: s.last().name@,
                data_type: delta_type_view(s.last().data_type),
                nullable: s.last().nullable,
                metadata: metadata_view(s.last().metadata@),
            },
        )
    }
}

/// An Arrow type as a value.
pub enum ArrowTypeView {
    Null,
    Boolean,
    Int8,
    Int16,
    Int32,
    Int64,
    UInt8,
    UInt16,
    UInt32,
    UInt64,
    Float32,
    Float64,
    Decimal128(u8, i8),
    Decimal256(u8, i8),
    Binary,
    FixedSizeBinary(i32),
    LargeBinary,
    Utf8,
    LargeUtf8,
    Date32,
    Date64,
    Timestamp(TimeUnit, Option<Seq<char>>),
    Union,
    List(Box<ArrowFieldView>),
    FixedSizeList(Box<ArrowFieldView>, i32),
    LargeList(Box<ArrowFieldView>),
    Struct(Seq<ArrowFieldView>),
    Other(Seq<char>),
}

/// An Arrow field as a value.
pub struct ArrowFieldView {
    pub name: Seq<char>,
    pub data_type: ArrowTypeView,
    pub nullable: bool,
    pub metadata: Seq<(Seq<char>, Seq<char>)>,
}

pub open spec fn arrow_view(t: ArrowDataType) -> ArrowTypeView
    decreases t,
{
    match t {
        ArrowDataType::Null => ArrowTypeView::Null,
        ArrowDataType::Boolean => ArrowTypeView::Boolean,
        ArrowDataType::Int8 => ArrowTypeView::Int8,
        ArrowDataType::Int16 => ArrowTypeView::Int16,
        ArrowDataType::Int32 => ArrowTypeView::Int32,
        ArrowDataType::Int64 => ArrowTypeView::Int64,
        ArrowDataType::UInt8 => ArrowTypeView::UInt8,
        ArrowDataType::UInt16 => ArrowTypeView::UInt16,
        ArrowDataType::UInt32 => ArrowTypeView::UInt32,
        ArrowDataType::UInt64 => ArrowTypeView::UInt64,
        ArrowDataType::Float32 => ArrowTypeView::Float32,
        ArrowDataType::Float64 => ArrowTypeView::Float64,
        ArrowDataType::Decimal128(p, s) => ArrowTypeView::Decimal128(p, s),
        ArrowDataType::Decimal256(p, s) => ArrowTypeView::Decimal256(p, s),
        ArrowDataType::Binary => ArrowTypeView::Binary,
        ArrowDataType::FixedSizeBinary(n) => ArrowTypeView::FixedSizeBinary(n),
        ArrowDataType::LargeBinary => ArrowTypeView::LargeBinary,
        ArrowDataType::Utf8 => ArrowTypeView::Utf8,
        ArrowDataType::LargeUtf8 => ArrowTypeView::LargeUtf8,
        ArrowDataType::Date32 => ArrowTypeView::Date32,
        ArrowDataType::Date64 => ArrowTypeView::Date64,
        ArrowDataType::Timestamp(u, z) => ArrowTypeView::Timestamp(
            u,
            match z {
                Some(z) => Some(z@),
                None => None,
            },
        ),
        ArrowDataType::Union => ArrowTypeView::Union,
        ArrowDataType::List(f) => ArrowTypeView::List(Box::new(arrow_field_view(*f))),
        ArrowDataType::FixedSizeList(f, n) => ArrowTypeView::FixedSizeList(Box::new(arrow_field_view(*f)), n),
        ArrowDataType::LargeList(f) => ArrowTypeView::LargeList(Box::new(arrow_field_view(*f))),
        ArrowDataType::Struct(fs) => ArrowTypeView::Struct(arrow_fields_view(fs@)),
        ArrowDataType::Other(s) => ArrowTypeView::Other(s@),
    }
}

pub open spec fn arrow_field_view(f: ArrowField) -> ArrowFieldView
    decreases f,
{
    ArrowFieldView {
        name: f.name@,
        data_type: arrow_view(f.data_type),
        nullable: f.nullable,
        metadata: metadata_view(f.metadata@),
    }
}

pub open spec fn arrow_fields_view(s: Seq<ArrowField>) -> Seq<ArrowFieldView>
    decreases s,
{
    if s.len() == 0 {
        Seq::empty()
    } else {
        arrow_fields_view(s.drop_last()).push(arrow_field_view(s.last()))
    }
}

/// The primitive column type of an Arrow type that has one.
pub open spec fn spec_primitive(t: ArrowTypeView) -> Option<PrimitiveType> {
    match t {
        ArrowTypeView::Boolean => Some(PrimitiveType::Boolean),
        ArrowTypeView::Int8 | ArrowTypeView::UInt8 => Some(PrimitiveType::Byte),
        ArrowTypeView::Int16 | ArrowTypeView::UInt16 => Some(PrimitiveType::Short),
        ArrowTypeView::Int32 | ArrowTypeView::UInt32 => Some(PrimitiveType::Integer),
        ArrowTypeView::Int64 | ArrowTypeView::UInt64 => Some(PrimitiveType::Long),
        ArrowTypeView::Float32 => Some(PrimitiveType::Float),
        ArrowTypeView::Float64 => Some(PrimitiveType::Double),
        ArrowTypeView::Decimal128(p, s) | ArrowTypeView::Decimal256(p, s) => Some(PrimitiveType::Decimal(p, s)),
        ArrowTypeView::Binary | ArrowTypeView::FixedSizeBinary(_) | ArrowTypeView::LargeBinary => Some(
            PrimitiveType::Binary,
        ),
        ArrowTypeView::Utf8 | ArrowTypeView::LargeUtf8 => Some(PrimitiveType::String),
        ArrowTypeView::Date32 | ArrowTypeView::Date64 => Some(PrimitiveType::Date),
        ArrowTypeView::Timestamp(_, _) => Some(PrimitiveType::Timestamp),
        _ => None,
    }
}

/// The column type of an Arrow type: none for the null type, which makes
/// no column; the element type of a list whose elements have one; the
/// columns of a struct; an error for unions and other types.
pub open spec fn spec_delta_type(t: ArrowTypeView, api_version: Seq<char>) -> Result<Option<DeltaTypeView>, ArrowSchemaErr>
    decreases t,
{
    match t {
        ArrowTypeView::Null => Ok(None),
        ArrowTypeView::Union => Err(ArrowSchemaErr::Union),
        ArrowTypeView::Other(s) => Err(ArrowSchemaErr::UnsupportedArrow(s)),
        ArrowTypeView::List(f) | ArrowTypeView::FixedSizeList(f, _) | ArrowTypeView::LargeList(f) => {
            match spec_delta_type(f.data_type, api_version) {
                Ok(Some(e)) => Ok(Some(DeltaTypeView::Array(Box::new(e), f.nullable))),
                Ok(None) => Ok(None),
                Err(e) => Err(e),
            }
        },
        ArrowTypeView::Struct(fs) => match spec_delta_fields(fs, api_version) {
            Ok(cs) => Ok(Some(DeltaTypeView::Struct(cs))),
            Err(e) => Err(e),
        },
        _ => match spec_primitive(t) {
            Some(p) => Ok(Some(DeltaTypeView::Primitive(p))),
            None => Ok(None),
        },
    }
}

/// The columns of Arrow fields, in order: each field whose type makes a
/// column, with the field's metadata followed by the API version; the
/// first error, if any.
pub open spec fn spec_delta_fields(fs: Seq<ArrowFieldView>, api_version: Seq<char>) -> Result<Seq<DeltaFieldView>, ArrowSchemaErr>
    decreases fs,
{
    if fs.len() == 0 {
        Ok(Seq::empty())
    } else {
        match spec_delta_fields(fs.drop_last(), api_version) {
            Err(e) => Err(e),
            Ok(rest) => {
                let f = fs.last();
                match spec_delta_type(f.data_type, api_version) {
                    Err(e) => Err(e),
                    Ok(None) => Ok(rest),
                    Ok(Some(t)) => Ok(
                        rest.push(
                            DeltaFieldView {
                                name: f.name,
                                data_type: t,
                                nullable: f.nullable,
                                metadata: f.metadata.push(("apiVersion"@, api_version)),
                            },
                        ),
                    ),
                }
            },
        }
    }
}

proof fn lemma_arrow_fields_view_take(s: Seq<ArrowField>, k: int)
    requires
        0 <= k <= s.len(),
    ensures
        arrow_fields_view(s.take(k)) == arrow_fields_view(s).take(k),
        arrow_fields_view(s).len() == s.len(),
    decreases s.len(),
{
    if s.len() > 0 {
        if k < s.len() {
            assert(s.drop_last().take(k) =~= s.take(k));
            lemma_arrow_fields_view_take(s.drop_last(), k);
        } else {
            assert(s.take(k) =~= s);
            lemma_arrow_fields_view_take(s.drop_last(), 0);
        }
        assert(arrow_fields_view(s).take(k) =~= arrow_fields_view(s.take(k)));
    }
}

proof fn lemma_fields_err_prefix(fs: Seq<ArrowFieldView>, api_version: Seq<char>, k: int)
    requires
        0 <= k <= fs.len(),
        spec_delta_fields(fs.take(k), api_version) is Err,
    ensures
        spec_delta_fields(fs, api_version) == spec_delta_fields(fs.take(k), api_version),
    decreases fs.len() - k,
{
    if k < fs.len() {
        assert(fs.take(k + 1).drop_last() =~= fs.take(k));
        lemma_fields_err_prefix(fs, api_version, k + 1);
    } else {
        assert(fs.take(k) =~= fs);
    }
}

/// The API version that columns made from an Arrow schema carry.
pub open spec fn arrow_api_version() -> Seq<char> {
    "http://arrow.apache.org/"@
}

fn primitive(t: &ArrowDataType) -> (r: Option<PrimitiveType>)
    ensures
        r == spec_primitive(arrow_view(*t)),
{
    match t {
        ArrowDataType::Boolean => Some(PrimitiveType::Boolean),
        ArrowDataType::Int8 | ArrowDataType::UInt8 => Some(PrimitiveType::Byte),
        ArrowDataType::Int16 | ArrowDataType::UInt16 => Some(PrimitiveType::Short),
        ArrowDataType::Int32 | ArrowDataType::UInt32 => Some(PrimitiveType::Integer),
        ArrowDataType::Int64 | ArrowDataType::UInt64 => Some(PrimitiveType::Long),
        ArrowDataType::Float32 => Some(PrimitiveType::Float),
        ArrowDataType::Float64 => Some(PrimitiveType::Double),
        ArrowDataType::Decimal128(p, s) | ArrowDataType::Decimal256(p, s) => Some(PrimitiveType::Decimal(*p, *s)),
        ArrowDataType::Binary | ArrowDataType::FixedSizeBinary(_) | ArrowDataType::LargeBinary => Some(
            PrimitiveType::Binary,
        ),
        ArrowDataType::Utf8 | ArrowDataType::LargeUtf8 => Some(PrimitiveType::String),
        ArrowDataType::Date32 | ArrowDataType::Date64 => Some(PrimitiveType::Date),
        ArrowDataType::Timestamp(_, _) => Some(PrimitiveType::Timestamp),
        _ => None,
    }
}

fn copy_metadata(m: &Vec<(String, String)>) -> (r: Vec<(String, String)>)
    ensures
        metadata_view(r@) == metadata_view(m@),
{
    let mut r: Vec<(String, String)> = Vec::new();
    let mut i: usize = 0;
    while i < m.len()
        invariant
            i <= m@.len(),
            r@.len() == i,
            forall|j: int| 0 <= j < i ==> (#[trigger] r@[j]).0@ == m@[j].0@ && r@[j].1@ == m@[j].1@,
        decreases m@.len() - i,
    {
        let k = m[i].0.clone();
        let v = m[i].1.clone();
        r.push((k, v));
        i = i + 1;
    }
    proof {
        assert(metadata_view(r@) =~= metadata_view(m@));
    }
    r
}

/// The column type of an Arrow type; see `spec_delta_type`.
pub fn to_delta_type(t: &ArrowDataType, api_version: &str) -> (r: Result<Option<DeltaType>, ArrowSchemaError>)
    ensures
        match (r, spec_delta_type(arrow_view(*t), api_version@)) {
            (Ok(Some(a)), Ok(Some(b))) => delta_type_view(a) == b,
            (Ok(None), Ok(None)) => true,
            (Err(a), Err(b)) => arrow_err_view(a) == b,
            _ => false,
        },
    decreases t,
{
    match t {
        ArrowDataType::Null => Ok(None),
        ArrowDataType::Union => Err(ArrowSchemaError::Union),
        ArrowDataType::Other(s) => Err(ArrowSchemaError::UnsupportedArrow(s.clone())),
        ArrowDataType::List(f) | ArrowDataType::FixedSizeList(f, _) | ArrowDataType::LargeList(f) => {
            match to_delta_type(&f.data_type, api_version) {
                Ok(Some(e)) => Ok(Some(DeltaType::Array(Box::new(e), f.nullable))),
                Ok(None) => Ok(None),
                Err(e) => Err(e),
            }
        },
        ArrowDataType::Struct(fs) => match to_delta_fields(fs, api_version) {
            Ok(cs) => Ok(Some(DeltaType::Struct(cs))),
            Err(e) => Err(e),
        },
        _ => match primitive(t) {
            Some(p) => Ok(Some(DeltaType::Primitive(p))),
            None => Ok(None),
        },
    }
}

/// The columns of Arrow fields; see `spec_delta_fields`.
pub fn to_delta_fields(fs: &Vec<ArrowField>, api_version: &str) -> (r: Result<Vec<DeltaField>, ArrowSchemaError>)
    ensures
        match (r, spec_delta_fields(arrow_fields_view(fs@), api_version@)) {
            (Ok(a), Ok(b)) => delta_fields_view(a@) == b,
            (Err(a), Err(b)) => arrow_err_view(a) == b,
            _ => false,
        },
    decreases fs,
{
    let mut out: Vec<DeltaField> = Vec::new();
    let mut i: usize = 0;
    while i < fs.len()
        invariant
            i <= fs@.len(),
            spec_delta_fields(arrow_fields_view(fs@.take(i as int)), api_version@) == Ok::<Seq<DeltaFieldView>, ArrowSchemaErr>(
                delta_fields_view(out@),
            ),
        decreases fs@.len() - i,
    {
        proof {
            assert(fs@.take(i + 1).drop_last() =~= fs@.take(i as int));
            assert(fs@.take(i + 1).last() == fs@[i as int]);
            lemma_arrow_fields_view_take(fs@, i + 1);
            let v = arrow_fields_view(fs@.take(i + 1));
            assert(v.drop_last() =~= arrow_fields_view(fs@.take(i as int)));
            assert(v.last() == arrow_field_view(fs@[i as int]));
            assert(decreases_to!(fs => fs@[i as int]));
        }
        let f = &fs[i];
        match to_delta_type(&f.data_type, api_version) {
            Err(e) => {
                proof {
                    lemma_fields_err_prefix(arrow_fields_view(fs@), api_version@, i + 1);
                }
                return Err(e);
            },
            Ok(None) => {},
            Ok(Some(t)) => {
                let ghost before = out@;
                let mut metadata = copy_metadata(&f.metadata);
                metadata.push(("apiVersion".to_owned(), api_version.to_owned()));
                proof {
                    assert(metadata_view(metadata@) =~= metadata_view(f.metadata@).push(("apiVersion"@, api_version@)));
                }
                out.push(DeltaField { name: f.name.clone(), data_type: t, nullable: f.nullable, metadata });
                proof {
                    assert(out@.drop_last() =~= before);
                }
            },
        }
        i = i + 1;
    }
    proof {
        assert(fs@.take(i as int) =~= fs@);
    }
    Ok(out)
}

/// The columns of an Arrow schema, which carry its API version.
pub fn arrow_schema_to_columns(fields: &Vec<ArrowField>) -> (r: Result<Vec<DeltaField>, ArrowSchemaError>)
    ensures
        match (r, spec_delta_fields(arrow_fields_view(fields@), arrow_api_version())) {
            (Ok(a), Ok(b)) => delta_fields_view(a@) == b,
            (Err(a), Err(b)) => arrow_err_view(a) == b,
            _ => false,
        },
{
    to_delta_fields(fields, "http://arrow.apache.org/")
}

// ---------------------------------------------------------------------
// From columns back to Arrow
// ---------------------------------------------------------------------

/// The Arrow type of a primitive column type: timestamps of either kind
/// become timestamps in microseconds without a time zone; decimals have
/// none.
pub open spec fn spec_arrow_primitive(p: PrimitiveType) -> Result<ArrowTypeView, ArrowSchemaErr> {
    match p {
        PrimitiveType::Boolean => Ok(ArrowTypeView::Boolean),
        PrimitiveType::Byte => Ok(ArrowTypeView::Int8),
        PrimitiveType::Short => Ok(ArrowTypeView::Int16),
        PrimitiveType::Integer => Ok(ArrowTypeView::Int32),
        PrimitiveType::Long => Ok(ArrowTypeView::Int64),
        PrimitiveType::Float => Ok(ArrowTypeView::Float32),
        PrimitiveType::Double => Ok(ArrowTypeView::Float64),
        PrimitiveType::Binary => Ok(ArrowTypeView::Binary),
        PrimitiveType::String => Ok(ArrowTypeView::Utf8),
        PrimitiveType::Date => Ok(ArrowTypeView::Date32),
        PrimitiveType::Timestamp | PrimitiveType::TimestampNtz => Ok(
            ArrowTypeView::Timestamp(TimeUnit::Microsecond, None),
        ),
        PrimitiveType::Decimal(_, _) => Err(ArrowSchemaErr::UnsupportedDecimal),
    }
}

/// The Arrow field of a column of type `t`, named `name`: a list's element
/// field has the list's name and may be null where the array's elements
/// may; the fields carry no metadata; maps and decimals have none.
pub open spec fn spec_arrow_field(t: DeltaTypeView, name: Seq<char>, nullable: bool) -> Result<ArrowFieldView, ArrowSchemaErr>
    decreases t,
{
    match t {
        DeltaTypeView::Primitive(p) => match spec_arrow_primitive(p) {
            Ok(a) => Ok(ArrowFieldView { name, data_type: a, nullable, metadata: Seq::empty() }),
            Err(e) => Err(e),
        },
        DeltaTypeView::Array(e, contains_null) => match spec_arrow_field(*e, name, contains_null) {
            Ok(inner) => Ok(
                ArrowFieldView {
                    name,
                    data_type: ArrowTypeView::List(Box::new(inner)),
                    nullable,
                    metadata: Seq::empty(),
                },
            ),
            Err(x) => Err(x),
        },
        DeltaTypeView::Struct(fs) => match spec_arrow_fields(fs) {
            Ok(afs) => Ok(
                ArrowFieldView { name, data_type: ArrowTypeView::Struct(afs), nullable, metadata: Seq::empty() },
            ),
            Err(x) => Err(x),
        },
        DeltaTypeView::KeyValueMap => Err(ArrowSchemaErr::UnsupportedMap),
    }
}

/// The Arrow fields of columns, in order; the first error, if any.
pub open spec fn spec_arrow_fields(fs: Seq<DeltaFieldView>) -> Result<Seq<ArrowFieldView>, ArrowSchemaErr>
    decreases fs,
{
    if fs.len() == 0 {
        Ok(Seq::empty())
    } else {
        match spec_arrow_fields(fs.drop_last()) {
            Err(e) => Err(e),
            Ok(rest) => match spec_arrow_field(fs.last().data_type, fs.last().name, fs.last().nullable) {
                Ok(f) => Ok(rest.push(f)),
                Err(e) => Err(e),
            },
        }
    }
}

fn arrow_primitive(p: PrimitiveType) -> (r: Result<ArrowDataType, ArrowSchemaError>)
    ensures
        match (r, spec_arrow_primitive(p)) {
            (Ok(a), Ok(b)) => arrow_view(a) == b,
            (Err(a), Err(b)) => arrow_err_view(a) == b,
            _ => false,
        },
{
    match p {
        PrimitiveType::Boolean => Ok(ArrowDataType::Boolean),
        PrimitiveType::Byte => Ok(ArrowDataType::Int8),
        PrimitiveType::Short => Ok(ArrowDataType::Int16),
        PrimitiveType::Integer => Ok(ArrowDataType::Int32),
        PrimitiveType::Long => Ok(ArrowDataType::Int64),
        PrimitiveType::Float => Ok(ArrowDataType::Float32),
        PrimitiveType::Double => Ok(ArrowDataType::Float64),
        PrimitiveType::Binary => Ok(ArrowDataType::Binary),
        PrimitiveType::String => Ok(ArrowDataType::Utf8),
        PrimitiveType::Date => Ok(ArrowDataType::Date32),
        PrimitiveType::Timestamp | PrimitiveType::TimestampNtz => Ok(
            ArrowDataType::Timestamp(TimeUnit::Microsecond, None),
        ),
        PrimitiveType::Decimal(_, _) => Err(ArrowSchemaError::UnsupportedDecimal),
    }
}

/// The Arrow field of a column of type `t`; see `spec_arrow_field`.
pub fn arrow_field_of(t: &DeltaType, name: &str, nullable: bool) -> (r: Result<ArrowField, ArrowSchemaError>)
    ensures
        match (r, spec_arrow_field(delta_type_view(*t), name@, nullable)) {
            (Ok(a), Ok(b)) => arrow_field_view(a) == b,
            (Err(a), Err(b)) => arrow_err_view(a) == b,
            _ => false,
        },
    decreases t,
{
    match t {
        DeltaType::Primitive(p) => match arrow_primitive(*p) {
            Ok(a) => {
                let f = ArrowField { name: name.to_owned(), data_type: a, nullable, metadata: Vec::new() };
                proof {
                    assert(metadata_view(f.metadata@) =~= Seq::empty());
                }
                Ok(f)
            },
            Err(e) => Err(e),
        },
        DeltaType::Array(e, contains_null) => match arrow_field_of(e, name, *contains_null) {
            Ok(inner) => {
                let f = ArrowField {
                    name: name.to_owned(),
                    data_type: ArrowDataType::List(Box::new(inner)),
                    nullable,
                    metadata: Vec::new(),
                };
                proof {
                    assert(metadata_view(f.metadata@) =~= Seq::empty());
                }
                Ok(f)
            },
            Err(x) => Err(x),
        },
        DeltaType::Struct(fs) => match to_arrow_fields(fs) {
            Ok(afs) => {
                let f = ArrowField {
                    name: name.to_owned(),
                    data_type: ArrowDataType::Struct(afs),
                    nullable,
                    metadata: Vec::new(),
                };
                proof {
                    assert(metadata_view(f.metadata@) =~= Seq::empty());
                }
                Ok(f)
            },
            Err(x) => Err(x),
        },
        DeltaType::KeyValueMap => Err(ArrowSchemaError::UnsupportedMap),
    }
}

proof fn lemma_delta_fields_view_take(s: Seq<DeltaField>, k: int)
    requires
        0 <= k <= s.len(),
    ensures
        delta_fields_view(s.take(k)) == delta_fields_view(s).take(k),
        delta_fields_view(s).len() == s.len(),
    decreases s.len(),
{
    if s.len() > 0 {
        if k < s.len() {
            assert(s.drop_last().take(k) =~= s.take(k));
            lemma_delta_fields_view_take(s.drop_last(), k);
        } else {
            assert(s.take(k) =~= s);
            lemma_delta_fields_view_take(s.drop_last(), 0);
        }
        assert(delta_fields_view(s).take(k) =~= delta_fields_view(s.take(k)));
    }
}

proof fn lemma_arrow_fields_err_prefix(fs: Seq<DeltaFieldView>, k: int)
    requires
        0 <= k <= fs.len(),
        spec_arrow_fields(fs.take(k)) is Err,
    ensures
        spec_arrow_fields(fs) == spec_arrow_fields(fs.take(k)),
    decreases fs.len() - k,
{
    if k < fs.len() {
        assert(fs.take(k + 1).drop_last() =~= fs.take(k));
        lemma_arrow_fields_err_prefix(fs, k + 1);
    } else {
        assert(fs.take(k) =~= fs);
    }
}

/// The Arrow fields of columns; see `spec_arrow_fields`.
pub fn to_arrow_fields(fs: &Vec<DeltaField>) -> (r: Result<Vec<ArrowField>, ArrowSchemaError>)
    ensures
        match (r, spec_arrow_fields(delta_fields_view(fs@))) {
            (Ok(a), Ok(b)) => arrow_fields_view(a@) == b,
            (Err(a), Err(b)) => arrow_err_view(a) == b,
            _ => false,
        },
    decreases fs,
{
    let mut out: Vec<ArrowField> = Vec::new();
    let mut i: usize = 0;
    while i < fs.len()
        invariant
            i <= fs@.len(),
            spec_arrow_fields(delta_fields_view(fs@.take(i as int))) == Ok::<Seq<ArrowFieldView>, ArrowSchemaErr>(
                arrow_fields_view(out@),
            ),
        decreases fs@.len() - i,
    {
        proof {
            lemma_delta_fields_view_take(fs@, i + 1);
            let v = delta_fields_view(fs@.take(i + 1));
            assert(fs@.take(i + 1).drop_last() =~= fs@.take(i as int));
            assert(fs@.take(i + 1).last() == fs@[i as int]);
            assert(v.drop_last() =~= delta_fields_view(fs@.take(i as int)));
            assert(decreases_to!(fs => fs@[i as int]));
        }
        let f = &fs[i];
        match arrow_field_of(&f.data_type, f.name.as_str(), f.nullable) {
            Err(e) => {
                proof {
                    lemma_arrow_fields_err_prefix(delta_fields_view(fs@), i + 1);
                }
                return Err(e);
            },
            Ok(a) => {
                let ghost before = out@;
                out.push(a);
                proof {
                    assert(out@.drop_last() =~= before);
                }
            },
        }
        i = i + 1;
    }
    proof {
        assert(fs@.take(i as int) =~= fs@);
    }
    Ok(out)
}

/// The Arrow field of a column.
pub fn to_arrow_field(f: &DeltaField) -> (r: Result<ArrowField, ArrowSchemaError>)
    ensures
        match (r, spec_arrow_field(delta_type_view(f.data_type), f.name@, f.nullable)) {
            (Ok(a), Ok(b)) => arrow_field_view(a) == b,
            (Err(a), Err(b)) => arrow_err_view(a) == b,
            _ => false,
        },
{
    arrow_field_of(&f.data_type, f.name.as_str(), f.nullable)
}

// ---------------------------------------------------------------------
// The conversions as traits
// ---------------------------------------------------------------------

/// What has an Arrow field.
pub trait ToField {
    fn to_field(&self) -> Result<ArrowField, ArrowSchemaError>;
}

impl ToField for DeltaField {
    /// The Arrow field of a column; see `spec_arrow_field`.
    fn to_field(&self) -> (r: Result<ArrowField, ArrowSchemaError>)
        ensures
            match (r, spec_arrow_field(delta_type_view(self.data_type), self.name@, self.nullable)) {
                (Ok(a), Ok(b)) => arrow_field_view(a) == b,
                (Err(a), Err(b)) => arrow_err_view(a) == b,
                _ => false,
            },
    {
        to_arrow_field(self)
    }
}

/// What has an Arrow type.
pub trait ToDataType {
    fn to_data_type(&self) -> Result<ArrowDataType, ArrowSchemaError>;
}

impl ToDataType for PrimitiveType {
    /// The Arrow type of a primitive column type; see
    /// `spec_arrow_primitive`.
    fn to_data_type(&self) -> (r: Result<ArrowDataType, ArrowSchemaError>)
        ensures
            match (r, spec_arrow_primitive(*self)) {
                (Ok(a), Ok(b)) => arrow_view(a) == b,
                (Err(a), Err(b)) => arrow_err_view(a) == b,
                _ => false,
            },
    {
        arrow_primitive(*self)
    }
}

impl ToDataType for Vec<DeltaField> {
    /// The Arrow struct type of the columns of a struct.
    fn to_data_type(&self) -> (r: Result<ArrowDataType, ArrowSchemaError>)
        ensures
            match (r, spec_arrow_fields(delta_fields_view(self@))) {
                (Ok(a), Ok(b)) => arrow_view(a) == ArrowTypeView::Struct(b),
                (Err(a), Err(b)) => arrow_err_view(a) == b,
                _ => false,
            },
    {
        match to_arrow_fields(self) {
            Ok(fs) => Ok(ArrowDataType::Struct(fs)),
            Err(e) => Err(e),
        }
    }
}

/// What has columns.
pub trait FieldColumns {
    type Columns;
    type Error;

    fn to_data_columns(&self) -> Result<Self::Columns, Self::Error>;
}

impl FieldColumns for Vec<ArrowField> {
    type Columns = Vec<DeltaField>;
    type Error = ArrowSchemaError;

    /// The columns of the fields of an Arrow schema; see
    /// `arrow_schema_to_columns`.
    fn to_data_columns(&self) -> (r: Result<Vec<DeltaField>, ArrowSchemaError>)
        ensures
            match (r, spec_delta_fields(arrow_fields_view(self@), arrow_api_version())) {
                (Ok(a), Ok(b)) => delta_fields_view(a@) == b,
                (Err(a), Err(b)) => arrow_err_view(a) == b,
                _ => false,
            },
    {
        arrow_schema_to_columns(self)
    }
}

impl FieldColumns for RootSchema {
    type Columns = Vec<StructField>;
    type Error = SchemaError;

    /// The columns of the rows that a JSON schema describes; see
    /// `RootSchema::to_data_columns`.
    fn to_data_columns(&self) -> (r: Result<Vec<StructField>, SchemaError>)
        ensures
            cols_res(r) == spec_root_columns(*self, self.definitions@.len()),
    {
        RootSchema::to_data_columns(self)
    }
}

// ---------------------------------------------------------------------
// Round trips
// ---------------------------------------------------------------------

/// Does a column type come back the same from Arrow: no decimals, maps or
/// timestamps without a time zone anywhere in it?
pub open spec fn round_trips(t: DeltaTypeView) -> bool
    decreases t,
{
    match t {
        DeltaTypeView::Primitive(p) => !(p is Decimal) && p != PrimitiveType::TimestampNtz,
        DeltaTypeView::Array(e, _) => round_trips(*e),
        DeltaTypeView::Struct(fs) => fields_round_trip(fs),
        DeltaTypeView::KeyValueMap => false,
    }
}

pub open spec fn fields_round_trip(fs: Seq<DeltaFieldView>) -> bool
    decreases fs,
{
    if fs.len() == 0 {
        true
    } else {
        fields_round_trip(fs.drop_last()) && round_trips(fs.last().data_type)
    }
}

/// A column type whose struct columns, at every depth, carry only the API
/// version as metadata.
pub open spec fn with_api_version(t: DeltaTypeView, api_version: Seq<char>) -> DeltaTypeView
    decreases t,
{
    match t {
        DeltaTypeView::Array(e, n) => DeltaTypeView::Array(Box::new(with_api_version(*e, api_version)), n),
        DeltaTypeView::Struct(fs) => DeltaTypeView::Struct(fields_with_api_version(fs, api_version)),
        _ => t,
    }
}

pub open spec fn fields_with_api_version(fs: Seq<DeltaFieldView>, api_version: Seq<char>) -> Seq<DeltaFieldView>
    decreases fs,
{
    if fs.len() == 0 {
        Seq::empty()
    } else {
        let f = fs.last();
        fields_with_api_version(fs.drop_last(), api_version).push(
            DeltaFieldView {
                name: f.name,
                data_type: with_api_version(f.data_type, api_version),
                nullable: f.nullable,
                metadata: seq![("apiVersion"@, api_version)],
            },
        )
    }
}

/// A column type that round-trips has an Arrow field, and that field's
/// type comes back as the same column type, with only the API version as
/// the metadata of struct columns.
pub proof fn lemma_arrow_round_trip(t: DeltaTypeView, name: Seq<char>, nullable: bool, api_version: Seq<char>)
    requires
        round_trips(t),
    ensures
        spec_arrow_field(t, name, nullable) matches Ok(a) && a.name == name && a.nullable == nullable
            && spec_delta_type(a.data_type, api_version) == Ok::<Option<DeltaTypeView>, ArrowSchemaErr>(
            Some(with_api_version(t, api_version)),
        ),
    decreases t,
{
    match t {
        DeltaTypeView::Primitive(p) => {},
        DeltaTypeView::Array(e, n) => {
            lemma_arrow_round_trip(*e, name, n, api_version);
        },
        DeltaTypeView::Struct(fs) => {
            lemma_arrow_fields_round_trip(fs, api_version);
        },
        DeltaTypeView::KeyValueMap => {},
    }
}

/// Columns that round-trip have Arrow fields, and those come back as the
/// same columns, each with only the API version as its metadata.
pub proof fn lemma_arrow_fields_round_trip(fs: Seq<DeltaFieldView>, api_version: Seq<char>)
    requires
        fields_round_trip(fs),
    ensures
        spec_arrow_fields(fs) matches Ok(afs) && spec_delta_fields(afs, api_version) == Ok::<
            Seq<DeltaFieldView>,
            ArrowSchemaErr,
        >(fields_with_api_version(fs, api_version)),
    decreases fs,
{
    if fs.len() > 0 {
        let f = fs.last();
        lemma_arrow_fields_round_trip(fs.drop_last(), api_version);
        lemma_arrow_round_trip(f.data_type, f.name, f.nullable, api_version);
        let rest = spec_arrow_fields(fs.drop_last())->Ok_0;
        let a = spec_arrow_field(f.data_type, f.name, f.nullable)->Ok_0;
        assert(rest.push(a).drop_last() =~= rest);
        assert(a.metadata.push(("apiVersion"@, api_version)) =~= seq![("apiVersion"@, api_version)]);
    }
}

/// The Arrow type of a primitive column type comes back as the same
/// primitive, for every primitive but decimals (which have no Arrow type
/// here) and timestamps without a time zone (which come back as
/// timestamps).
pub proof fn lemma_primitive_round_trip(p: PrimitiveType, api_version: Seq<char>)
    requires
        !(p is Decimal),
        p != PrimitiveType::TimestampNtz,
    ensures
        spec_arrow_primitive(p) matches Ok(a) && spec_delta_type(a, api_version) == Ok::<
            Option<DeltaTypeView>,
            ArrowSchemaErr,
        >(Some(DeltaTypeView::Primitive(p))),
{
}

/// The width in bits of an Arrow integer type, signed or not.
pub open spec fn arrow_int_width(t: ArrowTypeView) -> Option<nat> {
    match t {
        ArrowTypeView::Int8 | ArrowTypeView::UInt8 => Some(8),
        ArrowTypeView::Int16 | ArrowTypeView::UInt16 => Some(16),
        ArrowTypeView::Int32 | ArrowTypeView::UInt32 => Some(32),
        ArrowTypeView::Int64 | ArrowTypeView::UInt64 => Some(64),
        _ => None,
    }
}

/// The width in bits of an integer column type.
pub open spec fn column_int_width(p: PrimitiveType) -> Option<nat> {
    match p {
        PrimitiveType::Byte => Some(8),
        PrimitiveType::Short => Some(16),
        PrimitiveType::Integer => Some(32),
        PrimitiveType::Long => Some(64),
        _ => None,
    }
}

/// Every Arrow integer type, signed or not, becomes the integer column
/// type of its own width, never a narrower one; in particular both 64-bit
/// Arrow integers become long columns. Floating-point types keep their
/// width as well.
pub proof fn lemma_arrow_numbers_keep_width(t: ArrowTypeView, api_version: Seq<char>)
    ensures
        arrow_int_width(t) matches Some(w) ==> (spec_delta_type(t, api_version) matches Ok(
            Some(DeltaTypeView::Primitive(p)),
        ) && column_int_width(p) == Some(w)),
        (t is Int64 || t is UInt64) ==> spec_delta_type(t, api_version) == Ok::<
            Option<DeltaTypeView>,
            ArrowSchemaErr,
        >(Some(DeltaTypeView::Primitive(PrimitiveType::Long))),
        t is Float32 ==> spec_delta_type(t, api_version) == Ok::<Option<DeltaTypeView>, ArrowSchemaErr>(
            Some(DeltaTypeView::Primitive(PrimitiveType::Float)),
        ),
        t is Float64 ==> spec_delta_type(t, api_version) == Ok::<Option<DeltaTypeView>, ArrowSchemaErr>(
            Some(DeltaTypeView::Primitive(PrimitiveType::Double)),
        ),
{
}

} // verus!
