use vstd::prelude::*;
use crate::text::{
    lemma_seq_lt_total, lemma_seq_lt_transitive, seq_lt, spec_split_slash, split_slash, str_eq,
    str_lt, views,
};

verus! {

// ---------------------------------------------------------------------
// The fields of a model
// ---------------------------------------------------------------------

/// How an object field of a model holds its children.
#[derive(Copy, Clone, Debug, PartialEq, Eq, Structural)]
pub enum ModelFieldKindObjectSpec {
    /// Children are free-form.
    Dynamic,
    /// Children are one of a set of choices.
    Enumerate,
    /// Children are the fields listed under it.
    Static,
}

/// The kind of a field of a model.
#[derive(Copy, Clone, Debug, PartialEq, Eq, Structural)]
pub enum ModelFieldKindNativeSpec {
    Unset,
    Boolean,
    Integer,
    Number,
    String,
    OneOfStrings,
    DateTime,
    Ip,
    Uuid,
    StringArray,
    Object(ModelFieldKindObjectSpec),
    ObjectArray,
}

/// A field of a model: its path (such as `/a/b/`), its kind, and whether
/// it may be missing.
#[derive(Debug)]
pub struct ModelFieldNativeSpec {
    pub name: String,
    pub kind: ModelFieldKindNativeSpec,
    pub optional: bool,
}

// ---------------------------------------------------------------------
// The tree of fields
// ---------------------------------------------------------------------

/// The primitive types of model fields.
#[derive(Copy, Clone, Debug, PartialEq, Eq, Structural)]
pub enum BuilderPrimitive {
    Boolean,
    Integer,
    Number,
    String,
    DateTime,
}

/// The elements of array fields.
#[derive(Copy, Clone, Debug, PartialEq, Eq, Structural)]
pub enum BuilderArray {
    Primitive(BuilderPrimitive),
    Object,
}

/// A node of the tree of fields: a primitive, an array, an object with
/// its children in the order of their names, or a free-form object.
#[derive(Debug)]
pub enum BuilderType {
    Primitive(BuilderPrimitive),
    Array(BuilderArray),
    Object(Vec<FieldBuilder>),
    Dynamic,
}

/// A named node of the tree of fields, with its nullability and the index
/// of the model field that made it.
#[derive(Debug)]
pub struct FieldBuilder {
    pub name: String,
    pub ty: BuilderType,
    pub optional: bool,
    pub source: usize,
}

/// A node of the tree of fields, as a value.
pub enum BuilderTypeView {
    Primitive(BuilderPrimitive),
    Array(BuilderArray),
    Object(Seq<BuilderView>),
    Dynamic,
}

/// A named node of the tree of fields, as a value.
pub struct BuilderView {
    pub name: Seq<char>,
    pub ty: BuilderTypeView,
    pub optional: bool,
    pub source: nat,
}

pub open spec fn type_view(t: BuilderType) -> BuilderTypeView
    decreases t,
{
    match t {
        BuilderType::Primitive(p) => BuilderTypeView::Primitive(p),
        BuilderType::Array(a) => BuilderTypeView::Array(a),
        BuilderType::Object(children) => BuilderTypeView::Object(builders_view(children@)),
        BuilderType::Dynamic => BuilderTypeView::Dynamic,
    }
}

pub open spec fn builder_view(b: FieldBuilder) -> BuilderView
    decreases b,
{
    BuilderView { name: b.name@, ty: type_view(b.ty), optional: b.optional, source: b.source as nat }
}

pub open spec fn builders_view(s: Seq<FieldBuilder>) -> Seq<BuilderView>
    decreases s,
{
    if s.len() == 0 {
        Seq::empty()
    } else {
        builders_view(s.drop_last()).push(builder_view(s.last()))
    }
}

proof fn lemma_builders_view_len(s: Seq<FieldBuilder>)
    ensures
        builders_view(s).len() == s.len(),
    decreases s.len(),
{
    if s.len() > 0 {
        lemma_builders_view_len(s.drop_last());
    }
}

proof fn lemma_builders_view_index(s: Seq<FieldBuilder>, i: int)
    requires
        0 <= i < s.len(),
    ensures
        builders_view(s)[i] == builder_view(s[i]),
    decreases s.len(),
{
    lemma_builders_view_len(s.drop_last());
    if i < s.len() - 1 {
        lemma_builders_view_index(s.drop_last(), i);
    }
}

/// The views of nodes map over a list element by element.
proof fn lemma_builders_view_ext(s: Seq<FieldBuilder>, t: Seq<BuilderView>)
    requires
        s.len() == t.len(),
        forall|i: int| 0 <= i < s.len() ==> builder_view(#[trigger] s[i]) == t[i],
    ensures
        builders_view(s) == t,
{
    lemma_builders_view_len(s);
    assert forall|i: int| 0 <= i < s.len() implies builders_view(s)[i] == t[i] by {
        lemma_builders_view_index(s, i);
    }
    assert(builders_view(s) =~= t);
}

/// Where a child of a given name stands among children in name order: the
/// first position whose name does not come before it.
pub open spec fn spec_position(children: Seq<BuilderView>, name: Seq<char>, from: int) -> int
    decreases children.len() - from,
{
    if from >= children.len() || from < 0 {
        children.len() as int
    } else if seq_lt(children[from].name, name) {
        spec_position(children, name, from + 1)
    } else {
        from
    }
}

proof fn lemma_position_bounds(children: Seq<BuilderView>, name: Seq<char>, from: int)
    requires
        0 <= from <= children.len(),
    ensures
        from <= spec_position(children, name, from) <= children.len(),
    decreases children.len() - from,
{
    if from < children.len() && seq_lt(children[from].name, name) {
        lemma_position_bounds(children, name, from + 1);
    }
}

/// Is there a child of that name at its position?
pub open spec fn spec_found(children: Seq<BuilderView>, name: Seq<char>) -> bool {
    let p = spec_position(children, name, 0);
    p < children.len() && children[p].name == name
}

/// Children with `node` put under `name`: replacing the child of that
/// name, or inserted at its position.
pub open spec fn spec_put(children: Seq<BuilderView>, name: Seq<char>, node: BuilderView) -> Seq<BuilderView> {
    let p = spec_position(children, name, 0);
    if spec_found(children, name) {
        children.update(p, node)
    } else {
        children.insert(p, node)
    }
}

/// The leaf that a model field of a given kind becomes, if any.
pub open spec fn spec_leaf(kind: ModelFieldKindNativeSpec) -> Option<BuilderTypeView> {
    match kind {
        ModelFieldKindNativeSpec::Unset => None,
        ModelFieldKindNativeSpec::Boolean => Some(BuilderTypeView::Primitive(BuilderPrimitive::Boolean)),
        ModelFieldKindNativeSpec::Integer => Some(BuilderTypeView::Primitive(BuilderPrimitive::Integer)),
        ModelFieldKindNativeSpec::Number => Some(BuilderTypeView::Primitive(BuilderPrimitive::Number)),
        ModelFieldKindNativeSpec::String => Some(BuilderTypeView::Primitive(BuilderPrimitive::String)),
        ModelFieldKindNativeSpec::OneOfStrings => Some(BuilderTypeView::Primitive(BuilderPrimitive::String)),
        ModelFieldKindNativeSpec::DateTime => Some(BuilderTypeView::Primitive(BuilderPrimitive::DateTime)),
        ModelFieldKindNativeSpec::Ip => Some(BuilderTypeView::Primitive(BuilderPrimitive::String)),
        ModelFieldKindNativeSpec::Uuid => Some(BuilderTypeView::Primitive(BuilderPrimitive::String)),
        ModelFieldKindNativeSpec::StringArray => Some(
            BuilderTypeView::Array(BuilderArray::Primitive(BuilderPrimitive::String)),
        ),
        ModelFieldKindNativeSpec::Object(k) => match k {
            ModelFieldKindObjectSpec::Dynamic => Some(BuilderTypeView::Dynamic),
            _ => Some(BuilderTypeView::Object(Seq::empty())),
        },
        ModelFieldKindNativeSpec::ObjectArray => Some(BuilderTypeView::Array(BuilderArray::Object)),
    }
}

/// Why the fields of a model have no columns.
#[derive(Copy, Clone, Debug, PartialEq, Eq, Structural)]
pub enum FieldsError {
    /// A field lies under a field that is no object.
    ParentNotObject,
    /// Arrays of objects have no column type yet.
    ObjectArray,
    /// Free-form objects have no column type yet.
    Dynamic,
    /// The root of the tree is no object.
    RootNotObject,
}

/// The tree once a model field (its kind, whether it may be missing, and
/// its index) is put at the path `path[from..]` under the child `name` of
/// `node`: each object on the way is made where missing, taking the
/// field's nullability and index; the leaf replaces whatever had the
/// name; a field of no kind changes nothing.
pub open spec fn spec_push(
    node: BuilderView,
    path: Seq<Seq<char>>,
    from: int,
    name: Seq<char>,
    kind: ModelFieldKindNativeSpec,
    optional: bool,
    source: nat,
) -> Result<BuilderView, FieldsError>
    decreases path.len() - from,
{
    match node.ty {
        BuilderTypeView::Object(children) => if 0 <= from < path.len() {
            let p = spec_position(children, name, 0);
            let child = if spec_found(children, name) {
                children[p]
            } else {
                BuilderView { name, ty: BuilderTypeView::Object(Seq::empty()), optional, source }
            };
            match spec_push(child, path, from + 1, path[from], kind, optional, source) {
                Err(e) => Err(e),
                Ok(c) => Ok(BuilderView { ty: BuilderTypeView::Object(spec_put(children, name, c)), ..node }),
            }
        } else {
            match spec_leaf(kind) {
                None => Ok(node),
                Some(ty) => Ok(
                    BuilderView {
                        ty: BuilderTypeView::Object(
                            spec_put(children, name, BuilderView { name, ty, optional, source }),
                        ),
                        ..node
                    },
                ),
            }
        },
        _ => Err(FieldsError::ParentNotObject),
    }
}

fn position(children: &Vec<FieldBuilder>, name: &str) -> (r: usize)
    ensures
        r == spec_position(builders_view(children@), name@, 0),
        r <= children@.len(),
{
    proof {
        lemma_builders_view_len(children@);
    }
    let mut i: usize = 0;
    while i < children.len()
        invariant
            i <= children@.len(),
            builders_view(children@).len() == children@.len(),
            spec_position(builders_view(children@), name@, 0) == spec_position(builders_view(children@), name@, i as int),
        decreases children@.len() - i,
    {
        proof {
            lemma_builders_view_index(children@, i as int);
        }
        if !str_lt(children[i].name.as_str(), name) {
            return i;
        }
        i = i + 1;
    }
    i
}

fn leaf(kind: ModelFieldKindNativeSpec) -> (r: Option<BuilderType>)
    ensures
        match (r, spec_leaf(kind)) {
            (None, None) => true,
            (Some(t), Some(v)) => type_view(t) == v,
            _ => false,
        },
{
    let r = match kind {
        ModelFieldKindNativeSpec::Unset => None,
        ModelFieldKindNativeSpec::Boolean => Some(BuilderType::Primitive(BuilderPrimitive::Boolean)),
        ModelFieldKindNativeSpec::Integer => Some(BuilderType::Primitive(BuilderPrimitive::Integer)),
        ModelFieldKindNativeSpec::Number => Some(BuilderType::Primitive(BuilderPrimitive::Number)),
        ModelFieldKindNativeSpec::String => Some(BuilderType::Primitive(BuilderPrimitive::String)),
        ModelFieldKindNativeSpec::OneOfStrings => Some(BuilderType::Primitive(BuilderPrimitive::String)),
        ModelFieldKindNativeSpec::DateTime => Some(BuilderType::Primitive(BuilderPrimitive::DateTime)),
        ModelFieldKindNativeSpec::Ip => Some(BuilderType::Primitive(BuilderPrimitive::String)),
        ModelFieldKindNativeSpec::Uuid => Some(BuilderType::Primitive(BuilderPrimitive::String)),
        ModelFieldKindNativeSpec::StringArray => Some(BuilderType::Array(BuilderArray::Primitive(BuilderPrimitive::String))),
        ModelFieldKindNativeSpec::Object(k) => match k {
            ModelFieldKindObjectSpec::Dynamic => Some(BuilderType::Dynamic),
            _ => Some(BuilderType::Object(Vec::new())),
        },
        ModelFieldKindNativeSpec::ObjectArray => Some(BuilderType::Array(BuilderArray::Object)),
    };
    proof {
        assert(builders_view(Seq::<FieldBuilder>::empty()) =~= Seq::<BuilderView>::empty());
    }
    r
}

/// Puts `node` under its name among `children`.
fn put(children: &mut Vec<FieldBuilder>, node: FieldBuilder)
    ensures
        builders_view(final(children)@) == spec_put(builders_view(old(children)@), node.name@, builder_view(node)),
{
    let ghost old_children = children@;
    let p = position(children, node.name.as_str());
    proof {
        lemma_builders_view_len(children@);
    }
    let found = p < children.len() && str_eq(children[p].name.as_str(), node.name.as_str());
    proof {
        if p < children@.len() {
            lemma_builders_view_index(children@, p as int);
        }
        assert(found == spec_found(builders_view(old_children), node.name@));
    }
    let ghost nv = builder_view(node);
    if found {
        children.set(p, node);
        proof {
            lemma_builders_view_len(old_children);
            assert forall|i: int| 0 <= i < children@.len() implies builder_view(#[trigger] children@[i])
                == builders_view(old_children).update(p as int, nv)[i] by {
                lemma_builders_view_index(old_children, i);
            }
            lemma_builders_view_ext(children@, builders_view(old_children).update(p as int, nv));
        }
    } else {
        children.insert(p, node);
        proof {
            lemma_builders_view_len(old_children);
            assert forall|i: int| 0 <= i < children@.len() implies builder_view(#[trigger] children@[i])
                == builders_view(old_children).insert(p as int, nv)[i] by {
                if i < p {
                    lemma_builders_view_index(old_children, i);
                } else if i > p {
                    lemma_builders_view_index(old_children, i - 1);
                }
            }
            lemma_builders_view_ext(children@, builders_view(old_children).insert(p as int, nv));
        }
    }
}

/// Puts a model field at `path[from..]` under the child `name` of `node`;
/// see `spec_push`.
pub fn push(
    node: FieldBuilder,
    path: &Vec<String>,
    from: usize,
    name: &str,
    kind: ModelFieldKindNativeSpec,
    optional: bool,
    source: usize,
) -> (r: Result<FieldBuilder, FieldsError>)
    requires
        from <= path@.len(),
    ensures
        match (r, spec_push(builder_view(node), views(path@), from as int, name@, kind, optional, source as nat)) {
            (Ok(a), Ok(b)) => builder_view(a) == b,
            (Err(a), Err(b)) => a == b,
            _ => false,
        },
    decreases path@.len() - from,
{
    let FieldBuilder { name: node_name, ty, optional: node_optional, source: node_source } = node;
    let ghost node_view = builder_view(FieldBuilder { name: node_name, ty, optional: node_optional, source: node_source });
    let mut children = match ty {
        BuilderType::Object(children) => children,
        _ => return Err(FieldsError::ParentNotObject),
    };
    let ghost old_children = children@;
    if from < path.len() {
        let p = position(&children, name);
        proof {
            lemma_builders_view_len(children@);
        }
        let found = p < children.len() && str_eq(children[p].name.as_str(), name);
        proof {
            if p < children@.len() {
                lemma_builders_view_index(children@, p as int);
            }
            assert(found == spec_found(builders_view(old_children), name@));
            assert(views(path@)[from as int] == path@[from as int]@);
        }
        let child = if found {
            children.remove(p)
        } else {
            let empty: Vec<FieldBuilder> = Vec::new();
            proof {
                assert(builders_view(empty@) =~= Seq::<BuilderView>::empty());
            }
            FieldBuilder { name: name.to_owned(), ty: BuilderType::Object(empty), optional, source }
        };
        let ghost rest = children@;
        proof {
            if found {
                assert(rest == old_children.remove(p as int));
            }
        }
        match push(child, path, from + 1, path[from].as_str(), kind, optional, source) {
            Err(e) => Err(e),
            Ok(c) => {
                let ghost cv = builder_view(c);
                if found {
                    children.insert(p, c);
                    proof {
                        lemma_builders_view_len(old_children);
                        assert(children@ =~= old_children.update(p as int, c));
                        assert forall|i: int| 0 <= i < children@.len() implies builder_view(#[trigger] children@[i])
                            == builders_view(old_children).update(p as int, cv)[i] by {
                            lemma_builders_view_index(old_children, i);
                        }
                        lemma_builders_view_ext(children@, builders_view(old_children).update(p as int, cv));
                    }
                } else {
                    children.insert(p, c);
                    proof {
                        lemma_builders_view_len(old_children);
                        assert forall|i: int| 0 <= i < children@.len() implies builder_view(#[trigger] children@[i])
                            == builders_view(old_children).insert(p as int, cv)[i] by {
                            if i < p {
                                lemma_builders_view_index(old_children, i);
                            } else if i > p {
                                lemma_builders_view_index(old_children, i - 1);
                            }
                        }
                        lemma_builders_view_ext(children@, builders_view(old_children).insert(p as int, cv));
                    }
                }
                Ok(FieldBuilder { name: node_name, ty: BuilderType::Object(children), optional: node_optional, source: node_source })
            },
        }
    } else {
        match leaf(kind) {
            None => Ok(FieldBuilder { name: node_name, ty: BuilderType::Object(children), optional: node_optional, source: node_source }),
            Some(t) => {
                put(&mut children, FieldBuilder { name: name.to_owned(), ty: t, optional, source });
                Ok(FieldBuilder { name: node_name, ty: BuilderType::Object(children), optional: node_optional, source: node_source })
            },
        }
    }
}

// ---------------------------------------------------------------------
// Columns
// ---------------------------------------------------------------------

/// The primitive types of model columns.
#[derive(Copy, Clone, Debug, PartialEq, Eq, Structural)]
pub enum ColumnPrimitive {
    Boolean,
    Long,
    Double,
    String,
    Timestamp,
}

/// The type of a model column.
#[derive(Debug)]
pub enum ColumnType {
    Primitive(ColumnPrimitive),
    /// An array of a primitive type, whose elements may be null or not.
    Array(ColumnPrimitive, bool),
    Struct(Vec<Column>),
}

/// A model column: its name, type, nullability, and the index of the
/// model field that made it (whose metadata it carries).
#[derive(Debug)]
pub struct Column {
    pub name: String,
    pub ty: ColumnType,
    pub nullable: bool,
    pub source: usize,
}

pub enum ColumnTypeView {
    Primitive(ColumnPrimitive),
    Array(ColumnPrimitive, bool),
    Struct(Seq<ColumnView>),
}

pub struct ColumnView {
    pub name: Seq<char>,
    pub ty: ColumnTypeView,
    pub nullable: bool,
    pub source: nat,
}

pub open spec fn column_type_view(t: ColumnType) -> ColumnTypeView
    decreases t,
{
    match t {
        ColumnType::Primitive(p) => ColumnTypeView::Primitive(p),
        ColumnType::Array(p, n) => ColumnTypeView::Array(p, n),
        ColumnType::Struct(v) => ColumnTypeView::Struct(columns_view(v@)),
    }
}

pub open spec fn column_view(c: Column) -> ColumnView
    decreases c,
{
    ColumnView { name: c.name@, ty: column_type_view(c.ty), nullable: c.nullable, source: c.source as nat }
}

pub open spec fn columns_view(s: Seq<Column>) -> Seq<ColumnView>
    decreases s,
{
    if s.len() == 0 {
        Seq::empty()
    } else {
        columns_view(s.drop_last()).push(column_view(s.last()))
    }
}

/// The column type of a primitive field.
pub open spec fn spec_primitive(p: BuilderPrimitive) -> ColumnPrimitive {
    match p {
        BuilderPrimitive::Boolean => ColumnPrimitive::Boolean,
        BuilderPrimitive::Integer => ColumnPrimitive::Long,
        BuilderPrimitive::Number => ColumnPrimitive::Double,
        BuilderPrimitive::String => ColumnPrimitive::String,
        BuilderPrimitive::DateTime => ColumnPrimitive::Timestamp,
    }
}

/// The column of a node: primitives and arrays of primitives map to their
/// types, objects to structures of the columns of their children in name
/// order; arrays of objects and free-form objects have none yet.
pub open spec fn spec_to_column(b: BuilderView) -> Result<ColumnView, FieldsError>
    decreases b, 1int,
{
    match b.ty {
        BuilderTypeView::Primitive(p) => Ok(
            ColumnView { name: b.name, ty: ColumnTypeView::Primitive(spec_primitive(p)), nullable: b.optional, source: b.source },
        ),
        BuilderTypeView::Array(BuilderArray::Primitive(p)) => Ok(
            ColumnView {
                name: b.name,
                ty: ColumnTypeView::Array(spec_primitive(p), b.optional),
                nullable: b.optional,
                source: b.source,
            },
        ),
        BuilderTypeView::Array(BuilderArray::Object) => Err(FieldsError::ObjectArray),
        BuilderTypeView::Object(children) => match spec_to_columns(children) {
            Err(e) => Err(e),
            Ok(cs) => Ok(ColumnView { name: b.name, ty: ColumnTypeView::Struct(cs), nullable: b.optional, source: b.source }),
        },
        BuilderTypeView::Dynamic => Err(FieldsError::Dynamic),
    }
}

/// The columns of nodes, in order; the first error fails the whole.
pub open spec fn spec_to_columns(children: Seq<BuilderView>) -> Result<Seq<ColumnView>, FieldsError>
    decreases children, 0int,
{
    if children.len() == 0 {
        Ok(Seq::empty())
    } else {
        match spec_to_columns(children.drop_last()) {
            Err(e) => Err(e),
            Ok(cs) => match spec_to_column(children.last()) {
                Err(e) => Err(e),
                Ok(c) => Ok(cs.push(c)),
            },
        }
    }
}

fn primitive(p: BuilderPrimitive) -> (r: ColumnPrimitive)
    ensures
        r == spec_primitive(p),
{
    match p {
        BuilderPrimitive::Boolean => ColumnPrimitive::Boolean,
        BuilderPrimitive::Integer => ColumnPrimitive::Long,
        BuilderPrimitive::Number => ColumnPrimitive::Double,
        BuilderPrimitive::String => ColumnPrimitive::String,
        BuilderPrimitive::DateTime => ColumnPrimitive::Timestamp,
    }
}

proof fn lemma_to_columns_error_persists(children: Seq<BuilderView>, k: int, m: int)
    requires
        0 <= k <= m <= children.len(),
        spec_to_columns(children.take(k)) is Err,
    ensures
        spec_to_columns(children.take(m)) == spec_to_columns(children.take(k)),
    decreases m - k,
{
    if k < m {
        lemma_to_columns_error_persists(children, k, m - 1);
        assert(children.take(m).drop_last() =~= children.take(m - 1));
    }
}

fn to_column(b: &FieldBuilder) -> (r: Result<Column, FieldsError>)
    ensures
        match (r, spec_to_column(builder_view(*b))) {
            (Ok(c), Ok(v)) => column_view(c) == v,
            (Err(x), Err(y)) => x == y,
            _ => false,
        },
    decreases b,
{
    match &b.ty {
        BuilderType::Primitive(p) => Ok(
            Column { name: b.name.clone(), ty: ColumnType::Primitive(primitive(*p)), nullable: b.optional, source: b.source },
        ),
        BuilderType::Array(BuilderArray::Primitive(p)) => Ok(
            Column { name: b.name.clone(), ty: ColumnType::Array(primitive(*p), b.optional), nullable: b.optional, source: b.source },
        ),
        BuilderType::Array(BuilderArray::Object) => Err(FieldsError::ObjectArray),
        BuilderType::Dynamic => Err(FieldsError::Dynamic),
        BuilderType::Object(children) => {
            let ghost cv = builders_view(children@);
            proof {
                lemma_builders_view_len(children@);
            }
            let mut out: Vec<Column> = Vec::new();
            let mut i: usize = 0;
            while i < children.len()
                invariant
                    b.ty is Object && b.ty->Object_0 == *children,
                    i <= children@.len(),
                    cv == builders_view(children@),
                    cv.len() == children@.len(),
                    spec_to_columns(cv.take(i as int)) == Ok::<Seq<ColumnView>, FieldsError>(columns_view(out@)),
                decreases children@.len() - i,
            {
                proof {
                    assert(decreases_to!(*b => b.ty));
                    assert(decreases_to!(b.ty => b.ty->Object_0));
                    assert(decreases_to!(b.ty->Object_0 => b.ty->Object_0@));
                    assert(decreases_to!(b.ty->Object_0@ => b.ty->Object_0@[i as int]));
                    lemma_builders_view_index(children@, i as int);
                    assert(cv.take(i + 1).drop_last() =~= cv.take(i as int));
                    assert(cv.take(i + 1).last() == cv[i as int]);
                }
                match to_column(&children[i]) {
                    Err(e) => {
                        proof {
                            lemma_to_columns_error_persists(cv, i + 1, cv.len() as int);
                            assert(cv.take(cv.len() as int) =~= cv);
                        }
                        return Err(e);
                    },
                    Ok(c) => {
                        let ghost before = out@;
                        out.push(c);
                        proof {
                            assert(out@.drop_last() =~= before);
                        }
                    },
                }
                i = i + 1;
            }
            proof {
                assert(cv.take(cv.len() as int) =~= cv);
            }
            Ok(Column { name: b.name.clone(), ty: ColumnType::Struct(out), nullable: b.optional, source: b.source })
        },
    }
}

// ---------------------------------------------------------------------
// From the fields of a model to its columns
// ---------------------------------------------------------------------

/// A field path that can be stripped of its first and last character as
/// bytes: at least two characters, both ASCII at the ends.
pub open spec fn strippable(name: Seq<char>) -> bool {
    name.len() >= 2 && (name[0] as u32) < 128 && (name.last() as u32) < 128
}

/// The parts of a field path such as `/a/b/`: `a` and `b`.
pub open spec fn spec_path(name: Seq<char>) -> Seq<Seq<char>> {
    spec_split_slash(name.subrange(1, name.len() - 1))
}

/// The tree after the fields before index `k` are put in it: the first
/// field gives the root's nullability; each later one is put at its path.
pub open spec fn spec_fold(fields: Seq<ModelFieldNativeSpec>, k: nat) -> Result<BuilderView, FieldsError>
    decreases k,
{
    if k <= 1 {
        Ok(BuilderView { name: Seq::empty(), ty: BuilderTypeView::Object(Seq::empty()), optional: fields[0].optional, source: 0 })
    } else {
        match spec_fold(fields, (k - 1) as nat) {
            Err(e) => Err(e),
            Ok(root) => {
                let f = fields[k - 1];
                let path = spec_path(f.name@);
                spec_push(root, path, 1, path[0], f.kind, f.optional, (k - 1) as nat)
            },
        }
    }
}

/// The columns of a model, from its fields in the order of their paths:
/// none without fields; else the columns of the children of the tree of
/// fields, in name order.
pub open spec fn spec_model_columns(fields: Seq<ModelFieldNativeSpec>) -> Result<Seq<ColumnView>, FieldsError> {
    if fields.len() == 0 {
        Ok(Seq::empty())
    } else {
        match spec_fold(fields, fields.len()) {
            Err(e) => Err(e),
            Ok(root) => match root.ty {
                BuilderTypeView::Object(children) => spec_to_columns(children),
                _ => Err(FieldsError::RootNotObject),
            },
        }
    }
}

/// The columns of a model, from its fields in the order of their paths;
/// see `spec_model_columns`.
pub fn model_fields_to_columns(fields: &Vec<ModelFieldNativeSpec>) -> (r: Result<Vec<Column>, FieldsError>)
    requires
        forall|i: int| 1 <= i < fields@.len() ==> strippable(#[trigger] fields@[i].name@),
    ensures
        match (r, spec_model_columns(fields@)) {
            (Ok(c), Ok(v)) => columns_view(c@) == v,
            (Err(x), Err(y)) => x == y,
            _ => false,
        },
{
    if fields.len() == 0 {
        proof {
            assert(columns_view(Seq::<Column>::empty()) =~= Seq::<ColumnView>::empty());
        }
        return Ok(Vec::new());
    }
    let empty: Vec<FieldBuilder> = Vec::new();
    proof {
        assert(builders_view(empty@) =~= Seq::<BuilderView>::empty());
    }
    let mut root = FieldBuilder { name: String::new(), ty: BuilderType::Object(empty), optional: fields[0].optional, source: 0 };
    let mut i: usize = 1;
    while i < fields.len()
        invariant
            1 <= i <= fields@.len(),
            forall|j: int| 1 <= j < fields@.len() ==> strippable(#[trigger] fields@[j].name@),
            spec_fold(fields@, i as nat) == Ok::<BuilderView, FieldsError>(builder_view(root)),
        decreases fields@.len() - i,
    {
        let name = fields[i].name.as_str();
        let n = name.unicode_len();
        proof {
            assert(strippable(fields@[i as int].name@));
        }
        let inner = name.substring_char(1, n - 1);
        let path = split_slash(inner);
        proof {
            crate::text::lemma_split_slash_nonempty(inner@);
            assert(views(path@) == spec_path(fields@[i as int].name@));
            assert(views(path@)[0] == path@[0]@);
        }
        let ghost rv = builder_view(root);
        proof {
            assert(spec_fold(fields@, (i + 1) as nat) == spec_push(
                rv,
                spec_path(fields@[i as int].name@),
                1,
                spec_path(fields@[i as int].name@)[0],
                fields@[i as int].kind,
                fields@[i as int].optional,
                i as nat,
            ));
        }
        match push(root, &path, 1, path[0].as_str(), fields[i].kind, fields[i].optional, i) {
            Err(e) => {
                proof {
                    assert(spec_fold(fields@, (i + 1) as nat) == Err::<BuilderView, FieldsError>(e));
                    lemma_fold_error_persists(fields@, (i + 1) as nat, fields@.len());
                    assert(spec_fold(fields@, fields@.len()) == Err::<BuilderView, FieldsError>(e));
                    assert(spec_model_columns(fields@) == Err::<Seq<ColumnView>, FieldsError>(e));
                }
                return Err(e);
            },
            Ok(next) => {
                root = next;
            },
        }
        i = i + 1;
    }
    match &root.ty {
        BuilderType::Object(children) => {
            let mut out: Vec<Column> = Vec::new();
            let ghost cv = builders_view(children@);
            proof {
                lemma_builders_view_len(children@);
                assert(builder_view(root).ty == BuilderTypeView::Object(cv));
                assert(spec_model_columns(fields@) == spec_to_columns(cv));
            }
            let mut k: usize = 0;
            while k < children.len()
                invariant
                    spec_model_columns(fields@) == spec_to_columns(cv),
                    k <= children@.len(),
                    cv == builders_view(children@),
                    cv.len() == children@.len(),
                    spec_to_columns(cv.take(k as int)) == Ok::<Seq<ColumnView>, FieldsError>(columns_view(out@)),
                decreases children@.len() - k,
            {
                proof {
                    lemma_builders_view_index(children@, k as int);
                    assert(cv.take(k + 1).drop_last() =~= cv.take(k as int));
                    assert(cv.take(k + 1).last() == cv[k as int]);
                }
                match to_column(&children[k]) {
                    Err(e) => {
                        proof {
                            lemma_to_columns_error_persists(cv, k + 1, cv.len() as int);
                            assert(cv.take(cv.len() as int) =~= cv);
                        }
                        return Err(e);
                    },
                    Ok(c) => {
                        let ghost before = out@;
                        out.push(c);
                        proof {
                            assert(out@.drop_last() =~= before);
                        }
                    },
                }
                k = k + 1;
            }
            proof {
                assert(cv.take(cv.len() as int) =~= cv);
            }
            Ok(out)
        },
        _ => Err(FieldsError::RootNotObject),
    }
}

proof fn lemma_fold_error_persists(fields: Seq<ModelFieldNativeSpec>, k: nat, m: nat)
    requires
        1 <= k <= m,
        spec_fold(fields, k) is Err,
    ensures
        spec_fold(fields, m) == spec_fold(fields, k),
    decreases m - k,
{
    if k < m {
        lemma_fold_error_persists(fields, k, (m - 1) as nat);
    }
}

// ---------------------------------------------------------------------
// The tree keeps children in name order
// ---------------------------------------------------------------------

/// The names of the children strictly increase.
pub open spec fn names_sorted(children: Seq<BuilderView>) -> bool {
    forall|i: int, j: int| 0 <= i < j < children.len() ==> seq_lt(#[trigger] children[i].name, #[trigger] children[j].name)
}

/// Every object of the tree keeps its children in strictly increasing
/// name order.
pub open spec fn sorted_tree(b: BuilderView) -> bool
    decreases b,
{
    match b.ty {
        BuilderTypeView::Object(children) => names_sorted(children) && forall|i: int|
            0 <= i < children.len() ==> sorted_tree(#[trigger] children[i]),
        _ => true,
    }
}

/// Before the position of a name stand the children whose names come
/// before it; the child at the position does not.
proof fn lemma_position_splits(children: Seq<BuilderView>, name: Seq<char>, from: int)
    requires
        0 <= from <= children.len(),
    ensures
        forall|i: int| from <= i < spec_position(children, name, from) ==> seq_lt(#[trigger] children[i].name, name),
        spec_position(children, name, from) < children.len() ==> !seq_lt(
            children[spec_position(children, name, from)].name,
            name,
        ),
        from <= spec_position(children, name, from) <= children.len(),
    decreases children.len() - from,
{
    if from < children.len() && seq_lt(children[from].name, name) {
        lemma_position_splits(children, name, from + 1);
    }
}

/// Putting a node under its own name keeps the names in order.
proof fn lemma_put_keeps_names_sorted(children: Seq<BuilderView>, node: BuilderView)
    requires
        names_sorted(children),
    ensures
        names_sorted(spec_put(children, node.name, node)),
{
    let name = node.name;
    let p = spec_position(children, name, 0);
    lemma_position_splits(children, name, 0);
    let out = spec_put(children, name, node);
    if spec_found(children, name) {
        assert forall|i: int, j: int| 0 <= i < j < out.len() implies seq_lt(#[trigger] out[i].name, #[trigger] out[j].name) by {
            assert(children[i].name == out[i].name || i == p);
            assert(children[j].name == out[j].name || j == p);
        }
    } else {
        // every name at or after the position comes after the new one
        assert forall|k: int| p <= k < children.len() implies seq_lt(name, #[trigger] children[k].name) by {
            assert(children[p].name != name);
            lemma_seq_lt_total(children[p].name, name);
            if k > p {
                lemma_seq_lt_transitive(name, children[p].name, children[k].name);
            }
        }
        assert forall|i: int, j: int| 0 <= i < j < out.len() implies seq_lt(#[trigger] out[i].name, #[trigger] out[j].name) by {
            if j < p {
                assert(out[i] == children[i] && out[j] == children[j]);
            } else if j == p {
                assert(out[i] == children[i]);
            } else if i < p {
                assert(out[i] == children[i] && out[j] == children[j - 1]);
                assert(seq_lt(children[i].name, name));
                assert(seq_lt(name, children[j - 1].name));
                lemma_seq_lt_transitive(children[i].name, name, children[j - 1].name);
            } else if i == p {
                assert(out[j] == children[j - 1]);
            } else {
                assert(out[i] == children[i - 1] && out[j] == children[j - 1]);
            }
        }
    }
}

/// Putting a sorted node keeps every child a sorted tree.
proof fn lemma_put_keeps_trees_sorted(children: Seq<BuilderView>, node: BuilderView)
    requires
        forall|i: int| 0 <= i < children.len() ==> sorted_tree(#[trigger] children[i]),
        sorted_tree(node),
    ensures
        forall|i: int|
            0 <= i < spec_put(children, node.name, node).len() ==> sorted_tree(
                #[trigger] spec_put(children, node.name, node)[i],
            ),
{
    let p = spec_position(children, node.name, 0);
    lemma_position_splits(children, node.name, 0);
    let out = spec_put(children, node.name, node);
    assert forall|i: int| 0 <= i < out.len() implies sorted_tree(#[trigger] out[i]) by {
        if spec_found(children, node.name) {
            if i != p {
                assert(out[i] == children[i]);
            }
        } else {
            if i < p {
                assert(out[i] == children[i]);
            } else if i > p {
                assert(out[i] == children[i - 1]);
            }
        }
    }
}

/// A leaf is a sorted tree.
proof fn lemma_leaf_sorted(kind: ModelFieldKindNativeSpec, name: Seq<char>, optional: bool, source: nat)
    ensures
        spec_leaf(kind) matches Some(ty) ==> sorted_tree(BuilderView { name, ty, optional, source }),
{
}

/// Putting a model field into a sorted tree gives a sorted tree.
proof fn lemma_push_keeps_sorted(
    node: BuilderView,
    path: Seq<Seq<char>>,
    from: int,
    name: Seq<char>,
    kind: ModelFieldKindNativeSpec,
    optional: bool,
    source: nat,
)
    requires
        sorted_tree(node),
    ensures
        spec_push(node, path, from, name, kind, optional, source) matches Ok(n) ==> sorted_tree(n),
    decreases path.len() - from,
{
    match node.ty {
        BuilderTypeView::Object(children) => {
            if 0 <= from < path.len() {
                let p = spec_position(children, name, 0);
                lemma_position_splits(children, name, 0);
                let child = if spec_found(children, name) {
                    children[p]
                } else {
                    BuilderView { name, ty: BuilderTypeView::Object(Seq::empty()), optional, source }
                };
                lemma_push_keeps_sorted(child, path, from + 1, path[from], kind, optional, source);
                match spec_push(child, path, from + 1, path[from], kind, optional, source) {
                    Ok(c) => {
                        assert(c.name == name) by {
                            lemma_push_keeps_name(child, path, from + 1, path[from], kind, optional, source);
                        }
                        lemma_put_keeps_names_sorted(children, c);
                        lemma_put_keeps_trees_sorted(children, c);
                    },
                    Err(_) => {},
                }
            } else {
                match spec_leaf(kind) {
                    Some(ty) => {
                        let leaf = BuilderView { name, ty, optional, source };
                        lemma_leaf_sorted(kind, name, optional, source);
                        lemma_put_keeps_names_sorted(children, leaf);
                        lemma_put_keeps_trees_sorted(children, leaf);
                    },
                    None => {},
                }
            }
        },
        _ => {},
    }
}

/// Putting a field under a node keeps the node's name.
proof fn lemma_push_keeps_name(
    node: BuilderView,
    path: Seq<Seq<char>>,
    from: int,
    name: Seq<char>,
    kind: ModelFieldKindNativeSpec,
    optional: bool,
    source: nat,
)
    ensures
        spec_push(node, path, from, name, kind, optional, source) matches Ok(n) ==> n.name == node.name,
{
}

/// However the fields of a model are given, every object of the tree
/// they build keeps its children in strictly increasing name order, so no
/// two children share a name.
pub proof fn lemma_fields_tree_sorted(fields: Seq<ModelFieldNativeSpec>, k: nat)
    requires
        fields.len() > 0,
    ensures
        spec_fold(fields, k) matches Ok(root) ==> sorted_tree(root),
    decreases k,
{
    if k > 1 {
        lemma_fields_tree_sorted(fields, (k - 1) as nat);
        match spec_fold(fields, (k - 1) as nat) {
            Ok(root) => {
                let f = fields[k - 1];
                let path = spec_path(f.name@);
                lemma_push_keeps_sorted(root, path, 1, path[0], f.kind, f.optional, (k - 1) as nat);
            },
            Err(_) => {},
        }
    }
}

/// The column a model field of a primitive kind becomes, given as the
/// column type its kind names: a number field a floating-point (double)
/// column, an integer field a 64-bit integer (long) column (so the two
/// never share a column type), a boolean field a boolean column, a date
/// field a timestamp column, and text fields (free, one of a list, an IP
/// address, a UUID) string columns; each with the field's name,
/// nullability and index.
pub proof fn lemma_field_column_types(kind: ModelFieldKindNativeSpec, name: Seq<char>, optional: bool, source: nat)
    ensures
        kind == ModelFieldKindNativeSpec::Number ==> (spec_leaf(kind) matches Some(ty) && spec_to_column(
            BuilderView { name, ty, optional, source },
        ) == Ok::<ColumnView, FieldsError>(
            ColumnView { name, ty: ColumnTypeView::Primitive(ColumnPrimitive::Double), nullable: optional, source },
        )),
        kind == ModelFieldKindNativeSpec::Integer ==> (spec_leaf(kind) matches Some(ty) && spec_to_column(
            BuilderView { name, ty, optional, source },
        ) == Ok::<ColumnView, FieldsError>(
            ColumnView { name, ty: ColumnTypeView::Primitive(ColumnPrimitive::Long), nullable: optional, source },
        )),
        kind == ModelFieldKindNativeSpec::Boolean ==> (spec_leaf(kind) matches Some(ty) && spec_to_column(
            BuilderView { name, ty, optional, source },
        ) == Ok::<ColumnView, FieldsError>(
            ColumnView { name, ty: ColumnTypeView::Primitive(ColumnPrimitive::Boolean), nullable: optional, source },
        )),
        kind == ModelFieldKindNativeSpec::DateTime ==> (spec_leaf(kind) matches Some(ty) && spec_to_column(
            BuilderView { name, ty, optional, source },
        ) == Ok::<ColumnView, FieldsError>(
            ColumnView { name, ty: ColumnTypeView::Primitive(ColumnPrimitive::Timestamp), nullable: optional, source },
        )),
        (kind == ModelFieldKindNativeSpec::String || kind == ModelFieldKindNativeSpec::OneOfStrings || kind
            == ModelFieldKindNativeSpec::Ip || kind == ModelFieldKindNativeSpec::Uuid) ==> (spec_leaf(kind) matches Some(
            ty,
        ) && spec_to_column(BuilderView { name, ty, optional, source }) == Ok::<ColumnView, FieldsError>(
            ColumnView { name, ty: ColumnTypeView::Primitive(ColumnPrimitive::String), nullable: optional, source },
        )),
        spec_primitive(BuilderPrimitive::Number) != spec_primitive(BuilderPrimitive::Integer),
{
}

} // verus!
