//! The columns of a table, derived from the JSON schema of its rows.

pub mod arrow;
pub mod fields;

use vstd::prelude::*;
use crate::text::{seq_lt, str_eq, str_starts_with};

verus! {

// ---------------------------------------------------------------------
// JSON schemas
// ---------------------------------------------------------------------

/// The primitive types of JSON schema.
#[derive(Copy, Clone, Debug, PartialEq, Eq, Structural)]
pub enum InstanceType {
    Null,
    Boolean,
    Object,
    Array,
    Number,
    String,
    Integer,
}

/// One instance type, or a list of them.
#[derive(Debug)]
pub enum InstanceTypes {
    Single(InstanceType),
    Vec(Vec<InstanceType>),
}

/// A JSON schema: `true` (anything), `false` (nothing), or an object.
#[derive(Debug)]
pub enum Schema {
    Bool(bool),
    Object(Box<SchemaObject>),
}

/// The parts of a schema object that decide the columns: a reference to
/// a definition, the instance types, and the validations of arrays,
/// objects and subschemas.
#[derive(Debug)]
pub struct SchemaObject {
    pub reference: Option<String>,
    pub instance_type: Option<InstanceTypes>,
    pub array: Option<Box<ArrayValidation>>,
    pub object: Option<Box<ObjectValidation>>,
    pub subschemas: Option<Box<SubschemaValidation>>,
}

/// The schema of the items of an array: one for all, or one per position.
#[derive(Debug)]
pub enum SchemaItems {
    Single(Box<Schema>),
    Vec(Vec<Schema>),
}

/// The validation of an array.
#[derive(Debug)]
pub struct ArrayValidation {
    pub items: Option<SchemaItems>,
}

/// The validation of an object: its properties, in the order of their
/// names, and the names of those that are required.
#[derive(Debug)]
pub struct ObjectValidation {
    pub properties: Vec<(String, Schema)>,
    pub required: Vec<String>,
}

/// The subschemas of a schema, of which only `anyOf` is read.
#[derive(Debug)]
pub struct SubschemaValidation {
    pub any_of: Option<Vec<Schema>>,
}

/// A root schema: its meta-schema, its schema and its named definitions,
/// in the order of their names.
#[derive(Debug)]
pub struct RootSchema {
    pub meta_schema: Option<String>,
    pub schema: SchemaObject,
    pub definitions: Vec<(String, Schema)>,
}

// ---------------------------------------------------------------------
// Table columns
// ---------------------------------------------------------------------

/// The primitive types of a column.
#[derive(Copy, Clone, Debug, PartialEq, Eq, Structural)]
pub enum PrimitiveType {
    Boolean,
    Byte,
    Short,
    Integer,
    Long,
    Float,
    Double,
    Binary,
    String,
    Date,
    Timestamp,
    TimestampNtz,
    /// A decimal of the given precision and scale.
    Decimal(u8, i8),
}

/// The JSON kind a column was made from.
#[derive(Copy, Clone, Debug, PartialEq, Eq, Structural)]
pub enum FieldKind {
    Boolean,
    Integer,
    Number,
    String,
    Array,
    Object,
}

/// The type of a column.
#[derive(Debug)]
pub enum DataType {
    Primitive(PrimitiveType),
    Array(Box<ArrayType>),
    Struct(Vec<StructField>),
}

/// The type of an array column: its elements, and whether they may be
/// null.
#[derive(Debug)]
pub struct ArrayType {
    pub element_type: DataType,
    pub contains_null: bool,
}

/// A column: its name, type and nullability, and the JSON kind it came
/// from.
#[derive(Debug)]
pub struct StructField {
    pub name: String,
    pub data_type: DataType,
    pub nullable: bool,
    pub kind: FieldKind,
}

/// A column type as a value.
pub enum DataTypeView {
    Primitive(PrimitiveType),
    Array(Box<DataTypeView>, bool),
    Struct(Seq<FieldView>),
}

/// A column as a value.
pub struct FieldView {
    pub name: Seq<char>,
    pub data_type: DataTypeView,
    pub nullable: bool,
    pub kind: FieldKind,
}

pub open spec fn dt_view(d: DataType) -> DataTypeView
    decreases d,
{
    match d {
        DataType::Primitive(p) => DataTypeView::Primitive(p),
        DataType::Array(a) => DataTypeView::Array(Box::new(dt_view(a.element_type)), a.contains_null),
        DataType::Struct(v) => DataTypeView::Struct(fields_view(v@)),
    }
}

pub open spec fn field_view(f: StructField) -> FieldView {
    FieldView { name: f.name@, data_type: dt_view(f.data_type), nullable: f.nullable, kind: f.kind }
}

pub open spec fn fields_view(s: Seq<StructField>) -> Seq<FieldView>
    decreases s,
{
    if s.len() == 0 {
        Seq::empty()
    } else {
        fields_view(s.drop_last()).push(
            FieldView {
                name: s.last().name@,
                data_type: dt_view(s.last().data_type),
                nullable: s.last().nullable,
                kind: s.last().kind,
            },
        )
    }
}

/// Why a schema has no columns.
#[derive(Debug)]
pub enum SchemaError {
    /// A property may hold anything.
    DynamicObject,
    /// An array may hold anything.
    DynamicArray,
    /// A reference names no definition.
    NoSuchReference(String),
    /// A reference is not into the definitions.
    RelativeReference(String),
    /// A property may be of several types.
    UnionObject,
    /// A property may match several schemas.
    UnionEnum,
    /// An array may hold items of several types.
    UnionArray,
    /// The definitions refer to each other without end.
    TooDeep,
}

/// Why a schema has no columns, as a value.
pub enum SchemaErr {
    DynamicObject,
    DynamicArray,
    NoSuchReference(Seq<char>),
    RelativeReference(Seq<char>),
    UnionObject,
    UnionEnum,
    UnionArray,
    TooDeep,
}

pub open spec fn err_view(e: SchemaError) -> SchemaErr {
    match e {
        SchemaError::DynamicObject => SchemaErr::DynamicObject,
        SchemaError::DynamicArray => SchemaErr::DynamicArray,
        SchemaError::NoSuchReference(r) => SchemaErr::NoSuchReference(r@),
        SchemaError::RelativeReference(r) => SchemaErr::RelativeReference(r@),
        SchemaError::UnionObject => SchemaErr::UnionObject,
        SchemaError::UnionEnum => SchemaErr::UnionEnum,
        SchemaError::UnionArray => SchemaErr::UnionArray,
        SchemaError::TooDeep => SchemaErr::TooDeep,
    }
}

// ---------------------------------------------------------------------
// The translation, as values
// ---------------------------------------------------------------------

/// Where references into the definitions start.
pub open spec fn reference_root() -> Seq<char> {
    "#/definitions/"@
}

/// The first definition of a given name.
pub open spec fn spec_lookup(defs: Seq<(String, Schema)>, name: Seq<char>) -> Option<int>
    decreases defs.len(),
{
    if defs.len() == 0 {
        None
    } else {
        match spec_lookup(defs.drop_last(), name) {
            Some(i) => Some(i),
            None => if defs.last().0@ == name {
                Some(defs.len() - 1)
            } else {
                None
            },
        }
    }
}

/// The definition that a schema object refers to, if any: a reference
/// must be into the definitions and name one of them.
pub open spec fn spec_resolve(defs: Seq<(String, Schema)>, o: SchemaObject) -> Result<Option<int>, SchemaErr> {
    match o.reference {
        None => Ok(None),
        Some(r) => if reference_root().len() <= r@.len() && r@.take(reference_root().len() as int)
            == reference_root() {
            match spec_lookup(defs, r@.skip(reference_root().len() as int)) {
                Some(i) => Ok(Some(i)),
                None => Err(SchemaErr::NoSuchReference(r@)),
            }
        } else {
            Err(SchemaErr::RelativeReference(r@))
        },
    }
}

/// Is a schema an object of the single instance type `null`?
pub open spec fn spec_is_null_schema(s: Schema) -> bool {
    match s {
        Schema::Object(o) => match o.instance_type {
            Some(InstanceTypes::Single(t)) => t == InstanceType::Null,
            _ => false,
        },
        _ => false,
    }
}

/// A column of a primitive type.
pub open spec fn prim_field(name: Seq<char>, p: PrimitiveType, nullable: bool, kind: FieldKind) -> FieldView {
    FieldView { name, data_type: DataTypeView::Primitive(p), nullable, kind }
}

/// The column of a property: see the cases below. `fuel` bounds how many
/// references are followed in a row.
pub open spec fn spec_column(
    defs: Seq<(String, Schema)>,
    s: Schema,
    name: Seq<char>,
    nullable: bool,
    fuel: nat,
) -> Result<Option<FieldView>, SchemaErr>
    decreases fuel, s, 2int,
{
    match s {
        Schema::Bool(b) => if b {
            Err(SchemaErr::DynamicObject)
        } else {
            Ok(None)
        },
        Schema::Object(o) => match spec_resolve(defs, *o) {
            Err(e) => Err(e),
            Ok(Some(i)) => if fuel == 0 {
                Err(SchemaErr::TooDeep)
            } else {
                spec_column(defs, defs[i].1, name, nullable, (fuel - 1) as nat)
            },
            Ok(None) => match o.instance_type {
                Some(InstanceTypes::Single(t)) => spec_parse(defs, *o, t, name, nullable, fuel),
                Some(InstanceTypes::Vec(ts)) => if ts@.len() == 0 {
                    Ok(None)
                } else if ts@.len() == 1 {
                    spec_parse(defs, *o, ts@[0], name, nullable, fuel)
                } else if ts@.len() == 2 {
                    if ts@[0] == InstanceType::Null {
                        spec_parse(defs, *o, ts@[1], name, true, fuel)
                    } else if ts@[1] == InstanceType::Null {
                        spec_parse(defs, *o, ts@[0], name, true, fuel)
                    } else {
                        Err(SchemaErr::UnionObject)
                    }
                } else {
                    Err(SchemaErr::UnionObject)
                },
                None => match o.subschemas {
                    Some(sub) => spec_enum(defs, sub.any_of, name, nullable, fuel),
                    None => Ok(None),
                },
            },
        },
    }
}

/// The column of a property of one instance type.
pub open spec fn spec_parse(
    defs: Seq<(String, Schema)>,
    o: SchemaObject,
    t: InstanceType,
    name: Seq<char>,
    nullable: bool,
    fuel: nat,
) -> Result<Option<FieldView>, SchemaErr>
    decreases fuel, o, 1int,
{
    match t {
        InstanceType::Null => Ok(None),
        InstanceType::Boolean => Ok(Some(prim_field(name, PrimitiveType::Boolean, nullable, FieldKind::Boolean))),
        InstanceType::Integer => Ok(Some(prim_field(name, PrimitiveType::Long, nullable, FieldKind::Integer))),
        InstanceType::Number => Ok(Some(prim_field(name, PrimitiveType::Double, nullable, FieldKind::Number))),
        InstanceType::String => Ok(Some(prim_field(name, PrimitiveType::String, nullable, FieldKind::String))),
        InstanceType::Array => match spec_items(defs, o.array, fuel) {
            Err(e) => Err(e),
            Ok(None) => Ok(None),
            Ok(Some((element, contains_null))) => Ok(
                Some(
                    FieldView {
                        name,
                        data_type: DataTypeView::Array(Box::new(element), contains_null),
                        nullable,
                        kind: FieldKind::Array,
                    },
                ),
            ),
        },
        InstanceType::Object => match spec_columns_opt(defs, o.object, fuel) {
            Err(e) => Err(e),
            Ok(cols) => Ok(
                Some(FieldView { name, data_type: DataTypeView::Struct(cols), nullable, kind: FieldKind::Object }),
            ),
        },
    }
}

/// The column of a property that matches one of `anyOf`: none where
/// `anyOf` is empty, that of its one schema, or that of the one that is
/// not `null` among two.
pub open spec fn spec_enum(
    defs: Seq<(String, Schema)>,
    any_of: Option<Vec<Schema>>,
    name: Seq<char>,
    nullable: bool,
    fuel: nat,
) -> Result<Option<FieldView>, SchemaErr>
    decreases fuel, any_of, 3int,
{
    match any_of {
        None => Ok(None),
        Some(v) => if v@.len() == 0 {
            Ok(None)
        } else if v@.len() == 1 {
            spec_enum_one(defs, v@[0], name, nullable, fuel)
        } else if v@.len() == 2 {
            if spec_is_null_schema(v@[0]) {
                spec_enum_one(defs, v@[1], name, nullable, fuel)
            } else if spec_is_null_schema(v@[1]) {
                spec_enum_one(defs, v@[0], name, nullable, fuel)
            } else {
                Err(SchemaErr::UnionEnum)
            }
        } else {
            Err(SchemaErr::UnionEnum)
        },
    }
}

/// The column of one schema of `anyOf`, through its definition where it
/// refers to one.
pub open spec fn spec_enum_one(
    defs: Seq<(String, Schema)>,
    s: Schema,
    name: Seq<char>,
    nullable: bool,
    fuel: nat,
) -> Result<Option<FieldView>, SchemaErr>
    decreases fuel, s, 3int,
{
    match s {
        Schema::Object(o) => match spec_resolve(defs, *o) {
            Err(e) => Err(e),
            Ok(Some(i)) => if fuel == 0 {
                Err(SchemaErr::TooDeep)
            } else {
                spec_column(defs, defs[i].1, name, nullable, (fuel - 1) as nat)
            },
            Ok(None) => spec_column(defs, s, name, nullable, fuel),
        },
        Schema::Bool(_) => spec_column(defs, s, name, nullable, fuel),
    }
}

/// The element type of an array, from the schema of its items.
pub open spec fn spec_items(defs: Seq<(String, Schema)>, a: Option<Box<ArrayValidation>>, fuel: nat) -> Result<
    Option<(DataTypeView, bool)>,
    SchemaErr,
>
    decreases fuel, a, 3int,
{
    match a {
        None => Ok(None),
        Some(av) => match av.items {
            None => Ok(None),
            Some(SchemaItems::Vec(_)) => Err(SchemaErr::UnionArray),
            Some(SchemaItems::Single(b)) => spec_array(defs, *b, fuel),
        },
    }
}

/// The element type of an array whose items have schema `s`.
pub open spec fn spec_array(defs: Seq<(String, Schema)>, s: Schema, fuel: nat) -> Result<Option<(DataTypeView, bool)>, SchemaErr>
    decreases fuel, s, 2int,
{
    match s {
        Schema::Bool(b) => if b {
            Err(SchemaErr::DynamicArray)
        } else {
            Ok(None)
        },
        Schema::Object(o) => match spec_resolve(defs, *o) {
            Err(e) => Err(e),
            Ok(Some(i)) => if fuel == 0 {
                Err(SchemaErr::TooDeep)
            } else {
                spec_array(defs, defs[i].1, (fuel - 1) as nat)
            },
            Ok(None) => match o.instance_type {
                Some(InstanceTypes::Single(t)) => spec_parse_array(defs, *o, t, false, fuel),
                Some(InstanceTypes::Vec(ts)) => if ts@.len() == 0 {
                    Ok(None)
                } else if ts@.len() == 1 {
                    spec_parse_array(defs, *o, ts@[0], false, fuel)
                } else if ts@.len() == 2 {
                    if ts@[0] == InstanceType::Null {
                        spec_parse_array(defs, *o, ts@[1], true, fuel)
                    } else if ts@[1] == InstanceType::Null {
                        spec_parse_array(defs, *o, ts@[0], true, fuel)
                    } else {
                        Err(SchemaErr::UnionArray)
                    }
                } else {
                    Err(SchemaErr::UnionArray)
                },
                None => Ok(None),
            },
        },
    }
}

/// The element type of an array whose items are of one instance type.
pub open spec fn spec_parse_array(
    defs: Seq<(String, Schema)>,
    o: SchemaObject,
    t: InstanceType,
    nullable: bool,
    fuel: nat,
) -> Result<Option<(DataTypeView, bool)>, SchemaErr>
    decreases fuel, o, 1int,
{
    match t {
        InstanceType::Null => Ok(None),
        InstanceType::Boolean => Ok(Some((DataTypeView::Primitive(PrimitiveType::Boolean), nullable))),
        InstanceType::Integer => Ok(Some((DataTypeView::Primitive(PrimitiveType::Long), nullable))),
        InstanceType::Number => Ok(Some((DataTypeView::Primitive(PrimitiveType::Double), nullable))),
        InstanceType::String => Ok(Some((DataTypeView::Primitive(PrimitiveType::String), nullable))),
        InstanceType::Array => match spec_items(defs, o.array, fuel) {
            Err(e) => Err(e),
            Ok(None) => Ok(None),
            Ok(Some((element, contains_null))) => Ok(
                Some((DataTypeView::Array(Box::new(element), contains_null), nullable)),
            ),
        },
        InstanceType::Object => match spec_columns_opt(defs, o.object, fuel) {
            Err(e) => Err(e),
            Ok(cols) => Ok(Some((DataTypeView::Struct(cols), nullable))),
        },
    }
}

/// Is `name` among the required names?
pub open spec fn spec_required(required: Seq<String>, name: Seq<char>) -> bool {
    exists|i: int| 0 <= i < required.len() && #[trigger] required[i]@ == name
}

/// The columns of the properties of an object, in order, each nullable
/// unless required, skipping those without a column; the first error of
/// a property fails the whole.
pub open spec fn spec_columns(
    defs: Seq<(String, Schema)>,
    props: Seq<(String, Schema)>,
    required: Seq<String>,
    fuel: nat,
) -> Result<Seq<FieldView>, SchemaErr>
    decreases fuel, props, 0int,
{
    if props.len() == 0 {
        Ok(Seq::empty())
    } else {
        match spec_columns(defs, props.drop_last(), required, fuel) {
            Err(e) => Err(e),
            Ok(cols) => match spec_column(
                defs,
                props.last().1,
                props.last().0@,
                !spec_required(required, props.last().0@),
                fuel,
            ) {
                Err(e) => Err(e),
                Ok(None) => Ok(cols),
                Ok(Some(f)) => Ok(cols.push(f)),
            },
        }
    }
}

/// The columns of an object's properties, or none without them.
pub open spec fn spec_columns_opt(
    defs: Seq<(String, Schema)>,
    ov: Option<Box<ObjectValidation>>,
    fuel: nat,
) -> Result<Seq<FieldView>, SchemaErr>
    decreases fuel, ov, 3int,
{
    match ov {
        None => Ok(Seq::empty()),
        Some(o) => spec_columns(defs, o.properties@, o.required@, fuel),
    }
}

// ---------------------------------------------------------------------
// The translation
// ---------------------------------------------------------------------

pub open spec fn col_res(r: Result<Option<StructField>, SchemaError>) -> Result<Option<FieldView>, SchemaErr> {
    match r {
        Ok(Some(f)) => Ok(Some(field_view(f))),
        Ok(None) => Ok(None),
        Err(e) => Err(err_view(e)),
    }
}

pub open spec fn arr_res(r: Result<Option<(DataType, bool)>, SchemaError>) -> Result<Option<(DataTypeView, bool)>, SchemaErr> {
    match r {
        Ok(Some((d, n))) => Ok(Some((dt_view(d), n))),
        Ok(None) => Ok(None),
        Err(e) => Err(err_view(e)),
    }
}

pub open spec fn cols_res(r: Result<Vec<StructField>, SchemaError>) -> Result<Seq<FieldView>, SchemaErr> {
    match r {
        Ok(v) => Ok(fields_view(v@)),
        Err(e) => Err(err_view(e)),
    }
}

/// A definition found in a prefix of the definitions is the one found in
/// all of them.
proof fn lemma_lookup_prefix(defs: Seq<(String, Schema)>, name: Seq<char>, k: int)
    requires
        0 <= k <= defs.len(),
        spec_lookup(defs.take(k), name) is Some,
    ensures
        spec_lookup(defs, name) == spec_lookup(defs.take(k), name),
    decreases defs.len() - k,
{
    if k < defs.len() {
        assert(defs.take(k + 1).drop_last() =~= defs.take(k));
        lemma_lookup_prefix(defs, name, k + 1);
    } else {
        assert(defs.take(k) =~= defs);
    }
}

fn lookup(defs: &Vec<(String, Schema)>, name: &str) -> (r: Option<usize>)
    ensures
        match r {
            Some(i) => spec_lookup(defs@, name@) == Some(i as int) && i < defs@.len(),
            None => spec_lookup(defs@, name@) is None,
        },
{
    let mut i: usize = 0;
    while i < defs.len()
        invariant
            i <= defs@.len(),
            spec_lookup(defs@.take(i as int), name@) is None,
        decreases defs@.len() - i,
    {
        proof {
            assert(defs@.take(i + 1).drop_last() =~= defs@.take(i as int));
        }
        if str_eq(defs[i].0.as_str(), name) {
            proof {
                lemma_lookup_prefix(defs@, name@, i + 1);
            }
            return Some(i);
        }
        i = i + 1;
    }
    proof {
        assert(defs@.take(defs@.len() as int) =~= defs@);
    }
    None
}

fn resolve(defs: &Vec<(String, Schema)>, o: &SchemaObject) -> (r: Result<Option<usize>, SchemaError>)
    ensures
        match r {
            Ok(Some(i)) => spec_resolve(defs@, *o) == Ok::<Option<int>, SchemaErr>(Some(i as int)) && i < defs@.len(),
            Ok(None) => spec_resolve(defs@, *o) == Ok::<Option<int>, SchemaErr>(None),
            Err(e) => spec_resolve(defs@, *o) == Err::<Option<int>, SchemaErr>(err_view(e)),
        },
{
    match &o.reference {
        None => Ok(None),
        Some(r) => {
            let root = "#/definitions/";
            proof {
                reveal_strlit("#/definitions/");
            }
            if str_starts_with(r.as_str(), root) {
                let n = r.as_str().unicode_len();
                let name = r.as_str().substring_char(14, n);
                proof {
                    assert(name@ =~= r@.skip(reference_root().len() as int));
                }
                match lookup(defs, name) {
                    Some(i) => Ok(Some(i)),
                    None => Err(SchemaError::NoSuchReference(r.clone())),
                }
            } else {
                Err(SchemaError::RelativeReference(r.clone()))
            }
        },
    }
}

fn is_null_schema(s: &Schema) -> (r: bool)
    ensures
        r == spec_is_null_schema(*s),
{
    match s {
        Schema::Object(o) => match &o.instance_type {
            Some(InstanceTypes::Single(t)) => *t == InstanceType::Null,
            _ => false,
        },
        _ => false,
    }
}

fn is_required(required: &Vec<String>, name: &str) -> (r: bool)
    ensures
        r == spec_required(required@, name@),
{
    let mut i: usize = 0;
    while i < required.len()
        invariant
            i <= required@.len(),
            forall|j: int| 0 <= j < i ==> (#[trigger] required@[j])@ != name@,
        decreases required@.len() - i,
    {
        if str_eq(required[i].as_str(), name) {
            return true;
        }
        i = i + 1;
    }
    false
}

fn prim(name: &str, p: PrimitiveType, nullable: bool, kind: FieldKind) -> (f: StructField)
    ensures
        field_view(f) == prim_field(name@, p, nullable, kind),
{
    StructField { name: name.to_owned(), data_type: DataType::Primitive(p), nullable, kind }
}

fn column(defs: &Vec<(String, Schema)>, s: &Schema, name: &str, nullable: bool, fuel: u64) -> (r: Result<
    Option<StructField>,
    SchemaError,
>)
    ensures
        col_res(r) == spec_column(defs@, *s, name@, nullable, fuel as nat),
    decreases fuel, s, 2int,
{
    match s {
        Schema::Bool(b) => if *b {
            Err(SchemaError::DynamicObject)
        } else {
            Ok(None)
        },
        Schema::Object(o) => {
            match resolve(defs, o) {
                Err(e) => Err(e),
                Ok(Some(i)) => if fuel == 0 {
                    Err(SchemaError::TooDeep)
                } else {
                    column(defs, &defs[i].1, name, nullable, fuel - 1)
                },
                Ok(None) => {
                    proof {
                        assert(decreases_to!(*s => s->Object_0));
                    }
                    match &o.instance_type {
                        Some(InstanceTypes::Single(t)) => parse(defs, o, *t, name, nullable, fuel),
                        Some(InstanceTypes::Vec(ts)) => if ts.len() == 0 {
                            Ok(None)
                        } else if ts.len() == 1 {
                            parse(defs, o, ts[0], name, nullable, fuel)
                        } else if ts.len() == 2 {
                            if ts[0] == InstanceType::Null {
                                parse(defs, o, ts[1], name, true, fuel)
                            } else if ts[1] == InstanceType::Null {
                                parse(defs, o, ts[0], name, true, fuel)
                            } else {
                                Err(SchemaError::UnionObject)
                            }
                        } else {
                            Err(SchemaError::UnionObject)
                        },
                        None => match &o.subschemas {
                            Some(sub) => {
                                proof {
                                    assert(decreases_to!(s->Object_0 => s->Object_0.subschemas));
                                    assert(decreases_to!(s->Object_0.subschemas => s->Object_0.subschemas->0));
                                    assert(decreases_to!(s->Object_0.subschemas->0 => s->Object_0.subschemas->0.any_of));
                                }
                                enum_column(defs, &sub.any_of, name, nullable, fuel)
                            },
                            None => Ok(None),
                        },
                    }
                },
            }
        },
    }
}

fn parse(
    defs: &Vec<(String, Schema)>,
    o: &SchemaObject,
    t: InstanceType,
    name: &str,
    nullable: bool,
    fuel: u64,
) -> (r: Result<Option<StructField>, SchemaError>)
    ensures
        col_res(r) == spec_parse(defs@, *o, t, name@, nullable, fuel as nat),
    decreases fuel, o, 1int,
{
    match t {
        InstanceType::Null => Ok(None),
        InstanceType::Boolean => Ok(Some(prim(name, PrimitiveType::Boolean, nullable, FieldKind::Boolean))),
        InstanceType::Integer => Ok(Some(prim(name, PrimitiveType::Long, nullable, FieldKind::Integer))),
        InstanceType::Number => Ok(Some(prim(name, PrimitiveType::Double, nullable, FieldKind::Number))),
        InstanceType::String => Ok(Some(prim(name, PrimitiveType::String, nullable, FieldKind::String))),
        InstanceType::Array => {
            proof {
                assert(decreases_to!(*o => o.array));
            }
            match items(defs, &o.array, fuel) {
                Err(e) => Err(e),
                Ok(None) => Ok(None),
                Ok(Some((element, contains_null))) => Ok(
                    Some(
                        StructField {
                            name: name.to_owned(),
                            data_type: DataType::Array(Box::new(ArrayType { element_type: element, contains_null })),
                            nullable,
                            kind: FieldKind::Array,
                        },
                    ),
                ),
            }
        },
        InstanceType::Object => {
            proof {
                assert(decreases_to!(*o => o.object));
            }
            match columns_opt(defs, &o.object, fuel) {
                Err(e) => Err(e),
                Ok(cols) => Ok(
                    Some(
                        StructField {
                            name: name.to_owned(),
                            data_type: DataType::Struct(cols),
                            nullable,
                            kind: FieldKind::Object,
                        },
                    ),
                ),
            }
        },
    }
}

fn enum_column(
    defs: &Vec<(String, Schema)>,
    any_of: &Option<Vec<Schema>>,
    name: &str,
    nullable: bool,
    fuel: u64,
) -> (r: Result<Option<StructField>, SchemaError>)
    ensures
        col_res(r) == spec_enum(defs@, *any_of, name@, nullable, fuel as nat),
    decreases fuel, any_of, 3int,
{
    match any_of {
        None => Ok(None),
        Some(v) => {
            proof {
                assert(decreases_to!(*any_of => any_of->0));
                assert(decreases_to!(any_of->0 => any_of->0@));
            }
            if v.len() == 0 {
                Ok(None)
            } else if v.len() == 1 {
                proof {
                    assert(decreases_to!(any_of->0@ => any_of->0@[0]));
                }
                enum_one(defs, &v[0], name, nullable, fuel)
            } else if v.len() == 2 {
                proof {
                    assert(decreases_to!(any_of->0@ => any_of->0@[0]));
                    assert(decreases_to!(any_of->0@ => any_of->0@[1]));
                }
                if is_null_schema(&v[0]) {
                    enum_one(defs, &v[1], name, nullable, fuel)
                } else if is_null_schema(&v[1]) {
                    enum_one(defs, &v[0], name, nullable, fuel)
                } else {
                    Err(SchemaError::UnionEnum)
                }
            } else {
                Err(SchemaError::UnionEnum)
            }
        },
    }
}

fn enum_one(defs: &Vec<(String, Schema)>, s: &Schema, name: &str, nullable: bool, fuel: u64) -> (r: Result<
    Option<StructField>,
    SchemaError,
>)
    ensures
        col_res(r) == spec_enum_one(defs@, *s, name@, nullable, fuel as nat),
    decreases fuel, s, 3int,
{
    match s {
        Schema::Object(o) => match resolve(defs, o) {
            Err(e) => Err(e),
            Ok(Some(i)) => if fuel == 0 {
                Err(SchemaError::TooDeep)
            } else {
                column(defs, &defs[i].1, name, nullable, fuel - 1)
            },
            Ok(None) => column(defs, s, name, nullable, fuel),
        },
        Schema::Bool(_) => column(defs, s, name, nullable, fuel),
    }
}

fn items(defs: &Vec<(String, Schema)>, a: &Option<Box<ArrayValidation>>, fuel: u64) -> (r: Result<
    Option<(DataType, bool)>,
    SchemaError,
>)
    ensures
        arr_res(r) == spec_items(defs@, *a, fuel as nat),
    decreases fuel, a, 3int,
{
    match a {
        None => Ok(None),
        Some(av) => match &av.items {
            None => Ok(None),
            Some(SchemaItems::Vec(_)) => Err(SchemaError::UnionArray),
            Some(SchemaItems::Single(b)) => {
                proof {
                    assert(decreases_to!(*a => a->0));
                    assert(decreases_to!(a->0 => a->0.items));
                    assert(decreases_to!(a->0.items => a->0.items->0));
                    assert(decreases_to!(a->0.items->0 => a->0.items->0->Single_0));
                }
                array(defs, b, fuel)
            },
        },
    }
}

fn array(defs: &Vec<(String, Schema)>, s: &Schema, fuel: u64) -> (r: Result<Option<(DataType, bool)>, SchemaError>)
    ensures
        arr_res(r) == spec_array(defs@, *s, fuel as nat),
    decreases fuel, s, 2int,
{
    match s {
        Schema::Bool(b) => if *b {
            Err(SchemaError::DynamicArray)
        } else {
            Ok(None)
        },
        Schema::Object(o) => match resolve(defs, o) {
            Err(e) => Err(e),
            Ok(Some(i)) => if fuel == 0 {
                Err(SchemaError::TooDeep)
            } else {
                array(defs, &defs[i].1, fuel - 1)
            },
            Ok(None) => {
                proof {
                    assert(decreases_to!(*s => s->Object_0));
                }
                match &o.instance_type {
                    Some(InstanceTypes::Single(t)) => parse_array(defs, o, *t, false, fuel),
                    Some(InstanceTypes::Vec(ts)) => if ts.len() == 0 {
                        Ok(None)
                    } else if ts.len() == 1 {
                        parse_array(defs, o, ts[0], false, fuel)
                    } else if ts.len() == 2 {
                        if ts[0] == InstanceType::Null {
                            parse_array(defs, o, ts[1], true, fuel)
                        } else if ts[1] == InstanceType::Null {
                            parse_array(defs, o, ts[0], true, fuel)
                        } else {
                            Err(SchemaError::UnionArray)
                        }
                    } else {
                        Err(SchemaError::UnionArray)
                    },
                    None => Ok(None),
                }
            },
        },
    }
}

fn parse_array(defs: &Vec<(String, Schema)>, o: &SchemaObject, t: InstanceType, nullable: bool, fuel: u64) -> (r: Result<
    Option<(DataType, bool)>,
    SchemaError,
>)
    ensures
        arr_res(r) == spec_parse_array(defs@, *o, t, nullable, fuel as nat),
    decreases fuel, o, 1int,
{
    match t {
        InstanceType::Null => Ok(None),
        InstanceType::Boolean => Ok(Some((DataType::Primitive(PrimitiveType::Boolean), nullable))),
        InstanceType::Integer => Ok(Some((DataType::Primitive(PrimitiveType::Long), nullable))),
        InstanceType::Number => Ok(Some((DataType::Primitive(PrimitiveType::Double), nullable))),
        InstanceType::String => Ok(Some((DataType::Primitive(PrimitiveType::String), nullable))),
        InstanceType::Array => {
            proof {
                assert(decreases_to!(*o => o.array));
            }
            match items(defs, &o.array, fuel) {
                Err(e) => Err(e),
                Ok(None) => Ok(None),
                Ok(Some((element, contains_null))) => Ok(
                    Some((DataType::Array(Box::new(ArrayType { element_type: element, contains_null })), nullable)),
                ),
            }
        },
        InstanceType::Object => {
            proof {
                assert(decreases_to!(*o => o.object));
            }
            match columns_opt(defs, &o.object, fuel) {
                Err(e) => Err(e),
                Ok(cols) => Ok(Some((DataType::Struct(cols), nullable))),
            }
        },
    }
}

/// Once the columns of a prefix of the properties fail, those of every
/// longer prefix fail the same way.
proof fn lemma_columns_error_persists(
    defs: Seq<(String, Schema)>,
    props: Seq<(String, Schema)>,
    required: Seq<String>,
    fuel: nat,
    k: int,
    m: int,
)
    requires
        0 <= k <= m <= props.len(),
        spec_columns(defs, props.take(k), required, fuel) is Err,
    ensures
        spec_columns(defs, props.take(m), required, fuel) == spec_columns(defs, props.take(k), required, fuel),
    decreases m - k,
{
    if k < m {
        lemma_columns_error_persists(defs, props, required, fuel, k, m - 1);
        assert(props.take(m).drop_last() =~= props.take(m - 1));
    }
}

fn columns(defs: &Vec<(String, Schema)>, props: &Vec<(String, Schema)>, required: &Vec<String>, fuel: u64) -> (r: Result<
    Vec<StructField>,
    SchemaError,
>)
    ensures
        cols_res(r) == spec_columns(defs@, props@, required@, fuel as nat),
    decreases fuel, props, 0int,
{
    let mut out: Vec<StructField> = Vec::new();
    let mut i: usize = 0;
    while i < props.len()
        invariant
            i <= props@.len(),
            spec_columns(defs@, props@.take(i as int), required@, fuel as nat) == Ok::<Seq<FieldView>, SchemaErr>(
                fields_view(out@),
            ),
        decreases props@.len() - i,
    {
        proof {
            assert(props@.take(i + 1).drop_last() =~= props@.take(i as int));
            assert(props@.take(i + 1).last() == props@[i as int]);
            assert(decreases_to!(*props => props@));
            assert(decreases_to!(props@ => props@[i as int]));
            assert(decreases_to!(props@[i as int] => props@[i as int].1));
        }
        let nullable = !is_required(required, props[i].0.as_str());
        match column(defs, &props[i].1, props[i].0.as_str(), nullable, fuel) {
            Err(e) => {
                proof {
                    lemma_columns_error_persists(defs@, props@, required@, fuel as nat, i + 1, props@.len() as int);
                    assert(props@.take(props@.len() as int) =~= props@);
                }
                return Err(e);
            },
            Ok(None) => {},
            Ok(Some(f)) => {
                let ghost before = out@;
                out.push(f);
                proof {
                    assert(out@.drop_last() =~= before);
                }
            },
        }
        i = i + 1;
    }
    proof {
        assert(props@.take(props@.len() as int) =~= props@);
    }
    Ok(out)
}

fn columns_opt(defs: &Vec<(String, Schema)>, ov: &Option<Box<ObjectValidation>>, fuel: u64) -> (r: Result<
    Vec<StructField>,
    SchemaError,
>)
    ensures
        cols_res(r) == spec_columns_opt(defs@, *ov, fuel as nat),
    decreases fuel, ov, 3int,
{
    match ov {
        None => {
            proof {
                assert(fields_view(Seq::<StructField>::empty()) =~= Seq::<FieldView>::empty());
            }
            Ok(Vec::new())
        },
        Some(o) => {
            proof {
                assert(decreases_to!(*ov => ov->0));
                assert(decreases_to!(ov->0 => ov->0.properties));
            }
            columns(defs, &o.properties, &o.required, fuel)
        },
    }
}

/// Is the `value` property of the root object free-form (the schema
/// `true`)? Such rows have no fixed columns.
pub open spec fn spec_value_is_dynamic(ov: Option<Box<ObjectValidation>>) -> bool {
    match ov {
        Some(o) => match spec_lookup(o.properties@, "value"@) {
            Some(i) => o.properties@[i].1 matches Schema::Bool(b) && b,
            None => false,
        },
        None => false,
    }
}

/// The columns of the rows that a root schema describes: none where its
/// `value` property is free-form, else those of its object's properties,
/// following references into its definitions at most `fuel` times in a
/// row.
pub open spec fn spec_root_columns(r: RootSchema, fuel: nat) -> Result<Seq<FieldView>, SchemaErr> {
    if spec_value_is_dynamic(r.schema.object) {
        Ok(Seq::empty())
    } else {
        spec_columns_opt(r.definitions@, r.schema.object, fuel)
    }
}

impl RootSchema {
    /// The version of the schema's vocabulary: its meta-schema, or JSON
    /// schema's by default.
    pub fn api_version(&self) -> (s: String)
        ensures
            s@ == (match self.meta_schema {
                Some(m) => m@,
                None => "http://json-schema.org/"@,
            }),
    {
        match &self.meta_schema {
            Some(m) => m.clone(),
            None => "http://json-schema.org/".to_owned(),
        }
    }

    /// The columns of the rows that the schema describes. References are
    /// followed at most as many times in a row as there are definitions,
    /// which is enough unless the definitions refer to each other in a
    /// cycle; then the result is `TooDeep`.
    pub fn to_data_columns(&self) -> (r: Result<Vec<StructField>, SchemaError>)
        ensures
            cols_res(r) == spec_root_columns(*self, self.definitions@.len()),
    {
        let dynamic = match &self.schema.object {
            Some(o) => match lookup(&o.properties, "value") {
                Some(i) => {
                    proof {
                        reveal_strlit("value");
                    }
                    match &o.properties[i].1 {
                        Schema::Bool(b) => *b,
                        _ => false,
                    }
                },
                None => false,
            },
            None => false,
        };
        if dynamic {
            proof {
                assert(fields_view(Seq::<StructField>::empty()) =~= Seq::<FieldView>::empty());
            }
            return Ok(Vec::new());
        }
        let fuel = self.definitions.len() as u64;
        columns_opt(&self.definitions, &self.schema.object, fuel)
    }
}

// ---------------------------------------------------------------------
// Following definitions further changes nothing
// ---------------------------------------------------------------------

pub open spec fn too_deep<T>(r: Result<T, SchemaErr>) -> bool {
    r matches Err(SchemaErr::TooDeep)
}

proof fn lemma_fuel_column(defs: Seq<(String, Schema)>, s: Schema, name: Seq<char>, nullable: bool, fuel: nat)
    requires
        !too_deep(spec_column(defs, s, name, nullable, fuel)),
    ensures
        spec_column(defs, s, name, nullable, fuel + 1) == spec_column(defs, s, name, nullable, fuel),
    decreases fuel, s, 2int,
{
    match s {
        Schema::Bool(_) => {},
        Schema::Object(o) => match spec_resolve(defs, *o) {
            Err(_) => {},
            Ok(Some(i)) => {
                if fuel > 0 {
                    lemma_fuel_column(defs, defs[i].1, name, nullable, (fuel - 1) as nat);
                }
            },
            Ok(None) => match o.instance_type {
                Some(InstanceTypes::Single(t)) => lemma_fuel_parse(defs, *o, t, name, nullable, fuel),
                Some(InstanceTypes::Vec(ts)) => {
                    if ts@.len() == 1 {
                        lemma_fuel_parse(defs, *o, ts@[0], name, nullable, fuel);
                    } else if ts@.len() == 2 {
                        if ts@[0] == InstanceType::Null {
                            lemma_fuel_parse(defs, *o, ts@[1], name, true, fuel);
                        } else if ts@[1] == InstanceType::Null {
                            lemma_fuel_parse(defs, *o, ts@[0], name, true, fuel);
                        }
                    }
                },
                None => match o.subschemas {
                    Some(sub) => lemma_fuel_enum(defs, sub.any_of, name, nullable, fuel),
                    None => {},
                },
            },
        },
    }
}

proof fn lemma_fuel_parse(
    defs: Seq<(String, Schema)>,
    o: SchemaObject,
    t: InstanceType,
    name: Seq<char>,
    nullable: bool,
    fuel: nat,
)
    requires
        !too_deep(spec_parse(defs, o, t, name, nullable, fuel)),
    ensures
        spec_parse(defs, o, t, name, nullable, fuel + 1) == spec_parse(defs, o, t, name, nullable, fuel),
    decreases fuel, o, 1int,
{
    match t {
        InstanceType::Array => lemma_fuel_items(defs, o.array, fuel),
        InstanceType::Object => lemma_fuel_columns_opt(defs, o.object, fuel),
        _ => {},
    }
}

proof fn lemma_fuel_enum(
    defs: Seq<(String, Schema)>,
    any_of: Option<Vec<Schema>>,
    name: Seq<char>,
    nullable: bool,
    fuel: nat,
)
    requires
        !too_deep(spec_enum(defs, any_of, name, nullable, fuel)),
    ensures
        spec_enum(defs, any_of, name, nullable, fuel + 1) == spec_enum(defs, any_of, name, nullable, fuel),
    decreases fuel, any_of, 3int,
{
    match any_of {
        None => {},
        Some(v) => {
            if v@.len() == 1 {
                lemma_fuel_enum_one(defs, v@[0], name, nullable, fuel);
            } else if v@.len() == 2 {
                if spec_is_null_schema(v@[0]) {
                    lemma_fuel_enum_one(defs, v@[1], name, nullable, fuel);
                } else if spec_is_null_schema(v@[1]) {
                    lemma_fuel_enum_one(defs, v@[0], name, nullable, fuel);
                }
            }
        },
    }
}

proof fn lemma_fuel_enum_one(defs: Seq<(String, Schema)>, s: Schema, name: Seq<char>, nullable: bool, fuel: nat)
    requires
        !too_deep(spec_enum_one(defs, s, name, nullable, fuel)),
    ensures
        spec_enum_one(defs, s, name, nullable, fuel + 1) == spec_enum_one(defs, s, name, nullable, fuel),
    decreases fuel, s, 3int,
{
    match s {
        Schema::Object(o) => match spec_resolve(defs, *o) {
            Err(_) => {},
            Ok(Some(i)) => {
                if fuel > 0 {
                    lemma_fuel_column(defs, defs[i].1, name, nullable, (fuel - 1) as nat);
                }
            },
            Ok(None) => lemma_fuel_column(defs, s, name, nullable, fuel),
        },
        Schema::Bool(_) => lemma_fuel_column(defs, s, name, nullable, fuel),
    }
}

proof fn lemma_fuel_items(defs: Seq<(String, Schema)>, a: Option<Box<ArrayValidation>>, fuel: nat)
    requires
        !too_deep(spec_items(defs, a, fuel)),
    ensures
        spec_items(defs, a, fuel + 1) == spec_items(defs, a, fuel),
    decreases fuel, a, 3int,
{
    match a {
        None => {},
        Some(av) => match av.items {
            Some(SchemaItems::Single(b)) => lemma_fuel_array(defs, *b, fuel),
            _ => {},
        },
    }
}

proof fn lemma_fuel_array(defs: Seq<(String, Schema)>, s: Schema, fuel: nat)
    requires
        !too_deep(spec_array(defs, s, fuel)),
    ensures
        spec_array(defs, s, fuel + 1) == spec_array(defs, s, fuel),
    decreases fuel, s, 2int,
{
    match s {
        Schema::Bool(_) => {},
        Schema::Object(o) => match spec_resolve(defs, *o) {
            Err(_) => {},
            Ok(Some(i)) => {
                if fuel > 0 {
                    lemma_fuel_array(defs, defs[i].1, (fuel - 1) as nat);
                }
            },
            Ok(None) => match o.instance_type {
                Some(InstanceTypes::Single(t)) => lemma_fuel_parse_array(defs, *o, t, false, fuel),
                Some(InstanceTypes::Vec(ts)) => {
                    if ts@.len() == 1 {
                        lemma_fuel_parse_array(defs, *o, ts@[0], false, fuel);
                    } else if ts@.len() == 2 {
                        if ts@[0] == InstanceType::Null {
                            lemma_fuel_parse_array(defs, *o, ts@[1], true, fuel);
                        } else if ts@[1] == InstanceType::Null {
                            lemma_fuel_parse_array(defs, *o, ts@[0], true, fuel);
                        }
                    }
                },
                None => {},
            },
        },
    }
}

proof fn lemma_fuel_parse_array(defs: Seq<(String, Schema)>, o: SchemaObject, t: InstanceType, nullable: bool, fuel: nat)
    requires
        !too_deep(spec_parse_array(defs, o, t, nullable, fuel)),
    ensures
        spec_parse_array(defs, o, t, nullable, fuel + 1) == spec_parse_array(defs, o, t, nullable, fuel),
    decreases fuel, o, 1int,
{
    match t {
        InstanceType::Array => lemma_fuel_items(defs, o.array, fuel),
        InstanceType::Object => lemma_fuel_columns_opt(defs, o.object, fuel),
        _ => {},
    }
}

proof fn lemma_fuel_columns(
    defs: Seq<(String, Schema)>,
    props: Seq<(String, Schema)>,
    required: Seq<String>,
    fuel: nat,
)
    requires
        !too_deep(spec_columns(defs, props, required, fuel)),
    ensures
        spec_columns(defs, props, required, fuel + 1) == spec_columns(defs, props, required, fuel),
    decreases fuel, props, 0int,
{
    if props.len() > 0 {
        lemma_fuel_columns(defs, props.drop_last(), required, fuel);
        if spec_columns(defs, props.drop_last(), required, fuel) is Ok {
            lemma_fuel_column(
                defs,
                props.last().1,
                props.last().0@,
                !spec_required(required, props.last().0@),
                fuel,
            );
        }
    }
}

proof fn lemma_fuel_columns_opt(defs: Seq<(String, Schema)>, ov: Option<Box<ObjectValidation>>, fuel: nat)
    requires
        !too_deep(spec_columns_opt(defs, ov, fuel)),
    ensures
        spec_columns_opt(defs, ov, fuel + 1) == spec_columns_opt(defs, ov, fuel),
    decreases fuel, ov, 3int,
{
    match ov {
        None => {},
        Some(o) => lemma_fuel_columns(defs, o.properties@, o.required@, fuel),
    }
}

/// The columns of a schema do not depend on how far references may be
/// followed, once that is far enough to reach a result: with more fuel
/// the result is the same.
pub proof fn lemma_root_columns_fuel_independent(r: RootSchema, fuel: nat, more: nat)
    requires
        !too_deep(spec_root_columns(r, fuel)),
        fuel <= more,
    ensures
        spec_root_columns(r, more) == spec_root_columns(r, fuel),
    decreases more - fuel,
{
    if fuel < more {
        if !spec_value_is_dynamic(r.schema.object) {
            lemma_fuel_columns_opt(r.definitions@, r.schema.object, fuel);
        }
        lemma_root_columns_fuel_independent(r, fuel + 1, more);
    }
}

// ---------------------------------------------------------------------
// Columns are named after their properties
// ---------------------------------------------------------------------

/// The properties of an object in strictly increasing name order, as the
/// map of a schema keeps them: no name occurs twice.
pub open spec fn props_sorted(props: Seq<(String, Schema)>) -> bool {
    forall|i: int, j: int| 0 <= i < j < props.len() ==> seq_lt(#[trigger] props[i].0@, #[trigger] props[j].0@)
}

/// The names of columns strictly increase.
pub open spec fn column_names_sorted(cols: Seq<FieldView>) -> bool {
    forall|i: int, j: int| 0 <= i < j < cols.len() ==> seq_lt(#[trigger] cols[i].name, #[trigger] cols[j].name)
}

proof fn lemma_column_name(defs: Seq<(String, Schema)>, s: Schema, name: Seq<char>, nullable: bool, fuel: nat)
    ensures
        spec_column(defs, s, name, nullable, fuel) matches Ok(Some(f)) ==> f.name == name,
    decreases fuel, s, 2int,
{
    match s {
        Schema::Bool(_) => {},
        Schema::Object(o) => match spec_resolve(defs, *o) {
            Err(_) => {},
            Ok(Some(i)) => {
                if fuel > 0 {
                    lemma_column_name(defs, defs[i].1, name, nullable, (fuel - 1) as nat);
                }
            },
            Ok(None) => match o.instance_type {
                Some(InstanceTypes::Single(t)) => lemma_parse_name(defs, *o, t, name, nullable, fuel),
                Some(InstanceTypes::Vec(ts)) => {
                    if ts@.len() > 0 {
                        lemma_parse_name(defs, *o, ts@[0], name, nullable, fuel);
                        lemma_parse_name(defs, *o, ts@[0], name, true, fuel);
                    }
                    if ts@.len() > 1 {
                        lemma_parse_name(defs, *o, ts@[1], name, true, fuel);
                    }
                },
                None => match o.subschemas {
                    Some(sub) => lemma_enum_name(defs, sub.any_of, name, nullable, fuel),
                    None => {},
                },
            },
        },
    }
}

proof fn lemma_parse_name(
    defs: Seq<(String, Schema)>,
    o: SchemaObject,
    t: InstanceType,
    name: Seq<char>,
    nullable: bool,
    fuel: nat,
)
    ensures
        spec_parse(defs, o, t, name, nullable, fuel) matches Ok(Some(f)) ==> f.name == name,
{
}

proof fn lemma_enum_name(defs: Seq<(String, Schema)>, any_of: Option<Vec<Schema>>, name: Seq<char>, nullable: bool, fuel: nat)
    ensures
        spec_enum(defs, any_of, name, nullable, fuel) matches Ok(Some(f)) ==> f.name == name,
    decreases fuel, any_of, 3int,
{
    match any_of {
        None => {},
        Some(v) => {
            if v@.len() == 1 {
                lemma_enum_one_name(defs, v@[0], name, nullable, fuel);
            } else if v@.len() == 2 {
                lemma_enum_one_name(defs, v@[0], name, nullable, fuel);
                lemma_enum_one_name(defs, v@[1], name, nullable, fuel);
            }
        },
    }
}

proof fn lemma_enum_one_name(defs: Seq<(String, Schema)>, s: Schema, name: Seq<char>, nullable: bool, fuel: nat)
    ensures
        spec_enum_one(defs, s, name, nullable, fuel) matches Ok(Some(f)) ==> f.name == name,
    decreases fuel, s, 3int,
{
    match s {
        Schema::Object(o) => match spec_resolve(defs, *o) {
            Err(_) => {},
            Ok(Some(i)) => {
                if fuel > 0 {
                    lemma_column_name(defs, defs[i].1, name, nullable, (fuel - 1) as nat);
                }
            },
            Ok(None) => lemma_column_name(defs, s, name, nullable, fuel),
        },
        Schema::Bool(_) => lemma_column_name(defs, s, name, nullable, fuel),
    }
}

proof fn lemma_columns_names(defs: Seq<(String, Schema)>, props: Seq<(String, Schema)>, required: Seq<String>, fuel: nat)
    ensures
        spec_columns(defs, props, required, fuel) matches Ok(cols) ==> (forall|k: int|
            0 <= k < cols.len() ==> exists|j: int| 0 <= j < props.len() && (#[trigger] props[j]).0@ == (
            #[trigger] cols[k]).name) && (props_sorted(props) ==> column_names_sorted(cols)),
    decreases props.len(),
{
    if props.len() > 0 {
        let rest = props.drop_last();
        let last = props.last();
        lemma_columns_names(defs, rest, required, fuel);
        lemma_column_name(defs, last.1, last.0@, !spec_required(required, last.0@), fuel);
        match spec_columns(defs, rest, required, fuel) {
            Err(_) => {},
            Ok(cols) => {
                assert forall|k: int| 0 <= k < cols.len() implies exists|j: int|
                    0 <= j < props.len() && (#[trigger] props[j]).0@ == (#[trigger] cols[k]).name by {
                    let j = choose|j: int| 0 <= j < rest.len() && (#[trigger] rest[j]).0@ == cols[k].name;
                    assert(props[j] == rest[j]);
                }
                match spec_column(defs, last.1, last.0@, !spec_required(required, last.0@), fuel) {
                    Ok(Some(f)) => {
                        let all = cols.push(f);
                        assert(props[props.len() - 1] == last);
                        assert forall|k: int| 0 <= k < all.len() implies exists|j: int|
                            0 <= j < props.len() && (#[trigger] props[j]).0@ == (#[trigger] all[k]).name by {
                            if k < cols.len() {
                                assert(all[k] == cols[k]);
                            } else {
                                assert(props[props.len() - 1].0@ == all[k].name);
                            }
                        }
                        if props_sorted(props) {
                            assert(props_sorted(rest)) by {
                                assert forall|i: int, j: int| 0 <= i < j < rest.len() implies seq_lt(
                                    #[trigger] rest[i].0@,
                                    #[trigger] rest[j].0@,
                                ) by {
                                    assert(rest[i] == props[i] && rest[j] == props[j]);
                                }
                            }
                            assert forall|i: int, j: int| 0 <= i < j < all.len() implies seq_lt(
                                #[trigger] all[i].name,
                                #[trigger] all[j].name,
                            ) by {
                                if j < cols.len() {
                                    assert(all[i] == cols[i] && all[j] == cols[j]);
                                } else {
                                    assert(all[i] == cols[i]);
                                    let m = choose|m: int| 0 <= m < rest.len() && (#[trigger] rest[m]).0@ == cols[i].name;
                                    assert(rest[m] == props[m]);
                                    assert(seq_lt(props[m].0@, props[props.len() - 1].0@));
                                }
                            }
                        }
                    },
                    _ => {},
                }
            },
        }
    }
}

/// The columns of a schema whose properties are in strictly increasing
/// name order, as its map keeps them, are named after those properties, in
/// the same order, so that no two columns share a name.
pub proof fn lemma_root_columns_distinct(r: RootSchema, fuel: nat)
    requires
        r.schema.object matches Some(o) ==> props_sorted(o.properties@),
    ensures
        spec_root_columns(r, fuel) matches Ok(cols) ==> column_names_sorted(cols) && (r.schema.object matches Some(
            o,
        ) ==> forall|k: int|
            0 <= k < cols.len() ==> exists|j: int|
                0 <= j < o.properties@.len() && (#[trigger] o.properties@[j]).0@ == (#[trigger] cols[k]).name),
{
    match r.schema.object {
        Some(o) => lemma_columns_names(r.definitions@, o.properties@, o.required@, fuel),
        None => {},
    }
}

/// A column made for one instance type with nullability asked for is
/// nullable.
proof fn lemma_parse_nullable(
    defs: Seq<(String, Schema)>,
    o: SchemaObject,
    t: InstanceType,
    name: Seq<char>,
    fuel: nat,
)
    ensures
        spec_parse(defs, o, t, name, true, fuel) matches Ok(Some(f)) ==> f.nullable,
{
}

/// A property whose instance types are two, one of them `null` (in either
/// order), gives a nullable column, whatever nullability it is asked for,
/// so whether or not it is required: the column is the same either way.
pub proof fn lemma_null_union_is_nullable(
    defs: Seq<(String, Schema)>,
    o: SchemaObject,
    ts: Vec<InstanceType>,
    name: Seq<char>,
    nullable: bool,
    fuel: nat,
)
    requires
        o.reference is None,
        o.instance_type == Some(InstanceTypes::Vec(ts)),
        ts@.len() == 2,
        ts@[0] == InstanceType::Null || ts@[1] == InstanceType::Null,
    ensures
        spec_column(defs, Schema::Object(Box::new(o)), name, nullable, fuel) matches Ok(Some(f)) ==> f.nullable,
        spec_column(defs, Schema::Object(Box::new(o)), name, nullable, fuel) == spec_column(
            defs,
            Schema::Object(Box::new(o)),
            name,
            true,
            fuel,
        ),
{
    lemma_parse_nullable(defs, o, ts@[0], name, fuel);
    lemma_parse_nullable(defs, o, ts@[1], name, fuel);
}

/// Array elements made for one instance type with nullability asked for
/// may be null.
proof fn lemma_parse_array_nullable(defs: Seq<(String, Schema)>, o: SchemaObject, t: InstanceType, fuel: nat)
    ensures
        spec_parse_array(defs, o, t, true, fuel) matches Ok(Some((_, n))) ==> n,
{
}

/// Array items whose instance types are two, one of them `null` (in
/// either order), may be null.
pub proof fn lemma_null_union_items_may_be_null(
    defs: Seq<(String, Schema)>,
    o: SchemaObject,
    ts: Vec<InstanceType>,
    fuel: nat,
)
    requires
        o.reference is None,
        o.instance_type == Some(InstanceTypes::Vec(ts)),
        ts@.len() == 2,
        ts@[0] == InstanceType::Null || ts@[1] == InstanceType::Null,
    ensures
        spec_array(defs, Schema::Object(Box::new(o)), fuel) matches Ok(Some((_, n))) ==> n,
{
    lemma_parse_array_nullable(defs, o, ts@[0], fuel);
    lemma_parse_array_nullable(defs, o, ts@[1], fuel);
}

/// A property of a single primitive instance type gives a column of the
/// matching primitive type, with the nullability it is asked for: an
/// integer a 64-bit integer (long) column, a number a floating-point
/// (double) column, a boolean a boolean column and a string a string
/// column; a `null` property gives no column.
pub proof fn lemma_primitive_property_columns(
    defs: Seq<(String, Schema)>,
    o: SchemaObject,
    t: InstanceType,
    name: Seq<char>,
    nullable: bool,
    fuel: nat,
)
    requires
        o.reference is None,
        o.instance_type == Some(InstanceTypes::Single(t)),
    ensures
        t == InstanceType::Integer ==> spec_column(defs, Schema::Object(Box::new(o)), name, nullable, fuel) == Ok::<
            Option<FieldView>,
            SchemaErr,
        >(Some(FieldView { name, data_type: DataTypeView::Primitive(PrimitiveType::Long), nullable, kind: FieldKind::Integer })),
        t == InstanceType::Number ==> spec_column(defs, Schema::Object(Box::new(o)), name, nullable, fuel) == Ok::<
            Option<FieldView>,
            SchemaErr,
        >(Some(FieldView { name, data_type: DataTypeView::Primitive(PrimitiveType::Double), nullable, kind: FieldKind::Number })),
        t == InstanceType::Boolean ==> spec_column(defs, Schema::Object(Box::new(o)), name, nullable, fuel) == Ok::<
            Option<FieldView>,
            SchemaErr,
        >(Some(FieldView { name, data_type: DataTypeView::Primitive(PrimitiveType::Boolean), nullable, kind: FieldKind::Boolean })),
        t == InstanceType::String ==> spec_column(defs, Schema::Object(Box::new(o)), name, nullable, fuel) == Ok::<
            Option<FieldView>,
            SchemaErr,
        >(Some(FieldView { name, data_type: DataTypeView::Primitive(PrimitiveType::String), nullable, kind: FieldKind::String })),
        t == InstanceType::Null ==> spec_column(defs, Schema::Object(Box::new(o)), name, nullable, fuel) == Ok::<
            Option<FieldView>,
            SchemaErr,
        >(None),
{
    assert(spec_resolve(defs, o) == Ok::<Option<int>, SchemaErr>(None));
    assert(spec_column(defs, Schema::Object(Box::new(o)), name, nullable, fuel) == spec_parse(
        defs,
        o,
        t,
        name,
        nullable,
        fuel,
    ));
}

} // verus!
