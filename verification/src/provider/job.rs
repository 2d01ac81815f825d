use vstd::prelude::*;
use crate::provider_api::TemplateRef;
use crate::text::{str_eq, str_starts_with};

verus! {

/// Why a rendered template is refused.
#[derive(Debug)]
pub enum TemplateError {
    /// The name of the document does not start with the session's name.
    NameNotPrefixed { prefix: String, name: String },
    /// The namespace of the document does not start with the session's.
    NamespaceNotPrefixed { prefix: String, namespace: String },
    /// The document has no API version and kind.
    Untyped { name: String },
}

/// Does `s` start with `prefix`?
pub open spec fn spec_starts_with(s: Seq<char>, prefix: Seq<char>) -> bool {
    prefix.len() <= s.len() && s.take(prefix.len() as int) == prefix
}

/// The name and namespace of a rendered document: its own, or those of
/// the session where it has none; where prefixes are enforced, each must
/// start with the session's.
pub fn template_identity(
    session_name: &str,
    session_namespace: &str,
    name: Option<String>,
    namespace: Option<String>,
    use_prefix: bool,
) -> (r: Result<(String, String), TemplateError>)
    ensures
        ({
            let n = match name {
                Some(n) => n@,
                None => session_name@,
            };
            let ns = match namespace {
                Some(x) => x@,
                None => session_namespace@,
            };
            if use_prefix && !spec_starts_with(n, session_name@) {
                r matches Err(TemplateError::NameNotPrefixed { prefix: p, name: m }) && p@ == session_name@
                    && m@ == n
            } else if use_prefix && !spec_starts_with(ns, session_namespace@) {
                r matches Err(TemplateError::NamespaceNotPrefixed { prefix: p, namespace: m }) && p@
                    == session_namespace@ && m@ == ns
            } else {
                r matches Ok((a, b)) && a@ == n && b@ == ns
            }
        }),
{
    let name = match name {
        Some(n) => n,
        None => session_name.to_owned(),
    };
    if use_prefix && !str_starts_with(name.as_str(), session_name) {
        return Err(TemplateError::NameNotPrefixed { prefix: session_name.to_owned(), name });
    }
    let namespace = match namespace {
        Some(n) => n,
        None => session_namespace.to_owned(),
    };
    if use_prefix && !str_starts_with(namespace.as_str(), session_namespace) {
        return Err(TemplateError::NamespaceNotPrefixed { prefix: session_namespace.to_owned(), namespace });
    }
    Ok((name, namespace))
}

/// A rendered document must name its API version and kind.
pub fn require_types(name: &str, types: Option<(String, String)>) -> (r: Result<(String, String), TemplateError>)
    ensures
        types is None ==> (r matches Err(TemplateError::Untyped { name: n }) && n@ == name@),
        types matches Some(t) ==> (r matches Ok(u) && u.0@ == t.0@ && u.1@ == t.1@),
{
    match types {
        Some(t) => Ok(t),
        None => Err(TemplateError::Untyped { name: name.to_owned() }),
    }
}

/// The position of the first `/` in a text at or after `from`, if any.
pub open spec fn spec_find_slash(s: Seq<char>, from: int) -> Option<int>
    decreases s.len() - from,
{
    if from >= s.len() || from < 0 {
        None
    } else if s[from] == '/' {
        Some(from)
    } else {
        spec_find_slash(s, from + 1)
    }
}

/// A found `/` lies at or after where the search started, inside the text.
pub proof fn lemma_find_slash_bounds(s: Seq<char>, from: int)
    ensures
        spec_find_slash(s, from) matches Some(i) ==> from <= i < s.len() && s[i] == '/',
    decreases s.len() - from,
{
    if from >= 0 && from < s.len() && s[from] != '/' {
        lemma_find_slash_bounds(s, from + 1);
    }
}

/// The API group and the version of an API version: the text before the
/// first `/` and the text after it, up to a further `/`; an API version
/// without `/` is of the core group, with no version named.
pub open spec fn spec_split_api_version(s: Seq<char>) -> (Seq<char>, Option<Seq<char>>) {
    match spec_find_slash(s, 0) {
        None => (Seq::empty(), None),
        Some(i) => (s.subrange(0, i), Some(match spec_find_slash(s, i + 1) {
            Some(j) => s.subrange(i + 1, j),
            None => s.subrange(i + 1, s.len() as int),
        })),
    }
}

fn find_slash(s: &str, from: usize) -> (r: Option<usize>)
    requires
        from <= s@.len(),
    ensures
        match r {
            Some(i) => spec_find_slash(s@, from as int) == Some(i as int),
            None => spec_find_slash(s@, from as int) is None,
        },
{
    let n = s.unicode_len();
    let mut i = from;
    while i < n
        invariant
            from <= i <= n,
            n == s@.len(),
            spec_find_slash(s@, from as int) == spec_find_slash(s@, i as int),
        decreases n - i,
    {
        if s.get_char(i) == '/' {
            return Some(i);
        }
        i = i + 1;
    }
    None
}

/// The API group and version of an API version; see
/// `spec_split_api_version`.
pub fn split_api_version(s: &str) -> (r: (String, Option<String>))
    ensures
        r.0@ == spec_split_api_version(s@).0,
        match (r.1, spec_split_api_version(s@).1) {
            (Some(a), Some(b)) => a@ == b,
            (None, None) => true,
            _ => false,
        },
{
    match find_slash(s, 0) {
        None => (String::new(), None),
        Some(i) => {
            proof {
                lemma_find_slash_bounds(s@, 0);
            }
            let group = s.substring_char(0, i).to_owned();
            let n = s.unicode_len();
            proof {
                lemma_find_slash_bounds(s@, i + 1);
            }
            let version = match find_slash(s, i + 1) {
                Some(j) => s.substring_char(i + 1, j).to_owned(),
                None => s.substring_char(i + 1, n).to_owned(),
            };
            (group, Some(version))
        },
    }
}

/// Resources that are never patched once they exist: persistent volumes
/// and storage classes.
pub fn is_immutable(group: &str, kind: &str) -> (r: bool)
    ensures
        r == ((group@ == ""@ && kind@ == "PersistentVolume"@) || (group@ == "storage.k8s.io"@ && kind@
            == "StorageClass"@)),
{
    (str_eq(group, "") && str_eq(kind, "PersistentVolume")) || (str_eq(group, "storage.k8s.io") && str_eq(
        kind,
        "StorageClass",
    ))
}

/// What applying a rendered document does.
#[derive(Copy, Clone, Debug, PartialEq, Eq, Structural)]
pub enum ApplyStep {
    /// Leave the existing document.
    Skip,
    /// Patch the existing document.
    Patch,
    /// Create the document.
    Create,
}

/// An existing document is patched unless it is immutable; a missing one
/// is created.
pub fn create_step(exists: bool, immutable: bool) -> (r: ApplyStep)
    ensures
        exists && immutable ==> r == ApplyStep::Skip,
        exists && !immutable ==> r == ApplyStep::Patch,
        !exists ==> r == ApplyStep::Create,
{
    if exists {
        if immutable {
            ApplyStep::Skip
        } else {
            ApplyStep::Patch
        }
    } else {
        ApplyStep::Create
    }
}

/// Is a document deleted? Only where it exists and is not a persistent
/// volume claim, whose data is kept.
pub fn delete_step(api_version: Option<&str>, kind: Option<&str>, exists: bool) -> (r: bool)
    ensures
        r == (exists && !(api_version matches Some(v) && v@ == "v1"@ && (kind matches Some(k) && k@
            == "PersistentVolumeClaim"@))),
{
    let is_claim = match (api_version, kind) {
        (Some(v), Some(k)) => str_eq(v, "v1") && str_eq(k, "PersistentVolumeClaim"),
        _ => false,
    };
    exists && !is_claim
}

/// A set of documents exists only where each of them does.
pub fn all_exist(exists: &Vec<bool>) -> (r: bool)
    ensures
        r == (forall|i: int| 0 <= i < exists@.len() ==> #[trigger] exists@[i]),
{
    let mut i: usize = 0;
    while i < exists.len()
        invariant
            i <= exists@.len(),
            forall|j: int| 0 <= j < i ==> #[trigger] exists@[j],
        decreases exists@.len() - i,
    {
        if !exists[i] {
            return false;
        }
        i = i + 1;
    }
    true
}

/// The references of the rendered documents, by name, in order.
pub fn template_refs(names: &Vec<String>) -> (r: Vec<TemplateRef>)
    ensures
        r@.len() == names@.len(),
        forall|i: int| 0 <= i < r@.len() ==> (#[trigger] r@[i]).name@ == names@[i]@,
{
    let mut r: Vec<TemplateRef> = Vec::new();
    let mut i: usize = 0;
    while i < names.len()
        invariant
            i <= names@.len(),
            r@.len() == i,
            forall|j: int| 0 <= j < i ==> (#[trigger] r@[j]).name@ == names@[j]@,
        decreases names@.len() - i,
    {
        r.push(TemplateRef { name: names[i].clone() });
        i = i + 1;
    }
    r
}

/// A document rendered from a task's template: its name and namespace,
/// where it gives them, and its API version and kind, where it is typed.
#[derive(Debug)]
pub struct RenderedDoc {
    pub name: Option<String>,
    pub namespace: Option<String>,
    pub types: Option<(String, String)>,
}

/// How a rendered document is applied: under its name and namespace, with
/// its API version split into group and version, and whether it is never
/// patched.
#[derive(Debug)]
pub struct TemplatePlan {
    pub name: String,
    pub namespace: String,
    pub api_version: String,
    pub kind: String,
    pub group: String,
    pub version: Option<String>,
    pub immutable: bool,
}

/// A refusal of a document, as plain values.
pub enum TemplateErr {
    NameNotPrefixed(Seq<char>, Seq<char>),
    NamespaceNotPrefixed(Seq<char>, Seq<char>),
    Untyped(Seq<char>),
}

pub open spec fn template_err_view(e: TemplateError) -> TemplateErr {
    match e {
        TemplateError::NameNotPrefixed { prefix, name } => TemplateErr::NameNotPrefixed(prefix@, name@),
        TemplateError::NamespaceNotPrefixed { prefix, namespace } => TemplateErr::NamespaceNotPrefixed(
            prefix@,
            namespace@,
        ),
        TemplateError::Untyped { name } => TemplateErr::Untyped(name@),
    }
}

/// The name of a document: its own, or the session's.
pub open spec fn doc_name(d: RenderedDoc, session_name: Seq<char>) -> Seq<char> {
    match d.name {
        Some(n) => n@,
        None => session_name,
    }
}

/// The namespace of a document: its own, or the session's.
pub open spec fn doc_namespace(d: RenderedDoc, session_namespace: Seq<char>) -> Seq<char> {
    match d.namespace {
        Some(n) => n@,
        None => session_namespace,
    }
}

/// Why a document is refused, if it is: where prefixes are enforced, a
/// name or else a namespace that does not start with the session's; else
/// a document without API version and kind.
pub open spec fn doc_error(d: RenderedDoc, session_name: Seq<char>, session_namespace: Seq<char>, use_prefix: bool) -> Option<
    TemplateErr,
> {
    let n = doc_name(d, session_name);
    let ns = doc_namespace(d, session_namespace);
    if use_prefix && !spec_starts_with(n, session_name) {
        Some(TemplateErr::NameNotPrefixed(session_name, n))
    } else if use_prefix && !spec_starts_with(ns, session_namespace) {
        Some(TemplateErr::NamespaceNotPrefixed(session_namespace, ns))
    } else if d.types is None {
        Some(TemplateErr::Untyped(n))
    } else {
        None
    }
}

/// The first refused document, if any.
pub open spec fn first_doc_error(
    docs: Seq<RenderedDoc>,
    session_name: Seq<char>,
    session_namespace: Seq<char>,
    use_prefix: bool,
) -> Option<int>
    decreases docs.len(),
{
    if docs.len() == 0 {
        None
    } else {
        match first_doc_error(docs.drop_last(), session_name, session_namespace, use_prefix) {
            Some(i) => Some(i),
            None => if doc_error(docs.last(), session_name, session_namespace, use_prefix) is Some {
                Some(docs.len() - 1)
            } else {
                None
            },
        }
    }
}

/// Is `p` how the accepted document `d` is applied?
pub open spec fn plans_doc(p: TemplatePlan, d: RenderedDoc, session_name: Seq<char>, session_namespace: Seq<char>) -> bool {
    &&& d.types matches Some(t)
    &&& p.name@ == doc_name(d, session_name)
    &&& p.namespace@ == doc_namespace(d, session_namespace)
    &&& p.api_version@ == t.0@
    &&& p.kind@ == t.1@
    &&& p.group@ == spec_split_api_version(t.0@).0
    &&& match (p.version, spec_split_api_version(t.0@).1) {
        (Some(a), Some(b)) => a@ == b,
        (None, None) => true,
        _ => false,
    }
    &&& p.immutable == ((p.group@ == ""@ && t.1@ == "PersistentVolume"@) || (p.group@ == "storage.k8s.io"@
        && t.1@ == "StorageClass"@))
}

proof fn lemma_first_doc_error_prefix(docs: Seq<RenderedDoc>, sn: Seq<char>, sns: Seq<char>, use_prefix: bool, k: int)
    requires
        0 <= k <= docs.len(),
        first_doc_error(docs.take(k), sn, sns, use_prefix) is Some,
    ensures
        first_doc_error(docs, sn, sns, use_prefix) == first_doc_error(docs.take(k), sn, sns, use_prefix),
    decreases docs.len() - k,
{
    if k < docs.len() {
        assert(docs.take(k + 1).drop_last() =~= docs.take(k));
        lemma_first_doc_error_prefix(docs, sn, sns, use_prefix, k + 1);
    } else {
        assert(docs.take(k) =~= docs);
    }
}

proof fn lemma_first_doc_error_index(docs: Seq<RenderedDoc>, sn: Seq<char>, sns: Seq<char>, use_prefix: bool)
    ensures
        first_doc_error(docs, sn, sns, use_prefix) matches Some(i) ==> 0 <= i < docs.len() && doc_error(
            docs[i],
            sn,
            sns,
            use_prefix,
        ) is Some,
        first_doc_error(docs, sn, sns, use_prefix) is None ==> forall|i: int|
            0 <= i < docs.len() ==> doc_error(#[trigger] docs[i], sn, sns, use_prefix) is None,
    decreases docs.len(),
{
    if docs.len() > 0 {
        lemma_first_doc_error_index(docs.drop_last(), sn, sns, use_prefix);
        assert forall|i: int| 0 <= i < docs.len() - 1 implies docs.drop_last()[i] == docs[i] by {}
    }
}

/// How the documents rendered from a task's template are applied, all or
/// none: one plan per document, in order, where every document is accepted;
/// else the refusal of the first refused document.
pub fn plan_templates(docs: Vec<RenderedDoc>, session_name: &str, session_namespace: &str, use_prefix: bool) -> (r: Result<
    Vec<TemplatePlan>,
    TemplateError,
>)
    ensures
        match first_doc_error(docs@, session_name@, session_namespace@, use_prefix) {
            None => r matches Ok(plans) && plans@.len() == docs@.len() && forall|i: int|
                0 <= i < plans@.len() ==> plans_doc(#[trigger] plans@[i], docs@[i], session_name@, session_namespace@),
            Some(i) => r matches Err(e) && doc_error(docs@[i], session_name@, session_namespace@, use_prefix) == Some(
                template_err_view(e),
            ),
        },
{
    let ghost all = docs@;
    let total: usize = docs.len();
    let mut rest = docs;
    let mut plans: Vec<TemplatePlan> = Vec::new();
    let mut done: usize = 0;
    while rest.len() > 0
        invariant
            all == docs@,
            total == all.len(),
            done + rest@.len() == all.len(),
            rest@ == all.skip(done as int),
            plans@.len() == done,
            first_doc_error(all.take(done as int), session_name@, session_namespace@, use_prefix) is None,
            forall|j: int| 0 <= j < done ==> plans_doc(#[trigger] plans@[j], all[j], session_name@, session_namespace@),
        decreases rest@.len(),
    {
        let d = rest.remove(0);
        proof {
            assert(all[done as int] == d);
            assert(rest@ =~= all.skip(done + 1));
            assert(all.take(done + 1).drop_last() =~= all.take(done as int));
            assert(all.take(done + 1).last() == d);
        }
        let ghost dv = d;
        let RenderedDoc { name, namespace, types } = d;
        let (name, namespace) = match template_identity(session_name, session_namespace, name, namespace, use_prefix) {
            Ok(p) => p,
            Err(e) => {
                proof {
                    lemma_first_doc_error_prefix(all, session_name@, session_namespace@, use_prefix, done + 1);
                }
                return Err(e);
            },
        };
        let (api_version, kind) = match require_types(name.as_str(), types) {
            Ok(t) => t,
            Err(e) => {
                proof {
                    lemma_first_doc_error_prefix(all, session_name@, session_namespace@, use_prefix, done + 1);
                }
                return Err(e);
            },
        };
        let (group, version) = split_api_version(api_version.as_str());
        let immutable = is_immutable(group.as_str(), kind.as_str());
        plans.push(TemplatePlan { name, namespace, api_version, kind, group, version, immutable });
        proof {
            assert(plans_doc(plans@[done as int], dv, session_name@, session_namespace@));
        }
        done = done + 1;
    }
    proof {
        assert(all.take(done as int) =~= all);
        lemma_first_doc_error_index(all, session_name@, session_namespace@, use_prefix);
    }
    Ok(plans)
}

} // verus!
