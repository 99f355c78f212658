//! Entry-point resolution over a component's self-described export graph.
//!
//! A component declares an ordered list of named exports.  Exactly two shapes
//! can satisfy a lookup: a direct callable function, and a nested
//! sub-interface that follows the handle convention, i.e. exposes a function
//! literally named `handle`.  Resolution is a single pass in declaration
//! order with an optional namespace (name-prefix) filter; the first
//! structurally valid match wins, and everything else — core functions, raw
//! sub-modules, type and resource exports — is skipped.

use vstd::prelude::*;
use crate::text::{is_prefix, str_eq, str_starts_with};

verus! {

/// What kind of item a named export is.
#[derive(Debug, Clone)]
pub enum ExportKind {
    /// A direct callable component function.
    Function,
    /// A nested sub-interface, carrying the names of the functions it
    /// exports in their declaration order.
    Instance { functions: Vec<String> },
    /// A core-level (non-component) function; not resolvable.
    CoreFunction,
    /// A nested core module or component; not resolvable.
    Module,
    /// An opaque type export; not resolvable.
    Type,
    /// A resource handle type; not resolvable.
    Resource,
}

/// One node of the export graph: a name and what it exports.
#[derive(Debug, Clone)]
pub struct Export {
    pub name: String,
    pub kind: ExportKind,
}

/// How the resolved callable is reached inside the component.
#[derive(Debug, Clone, Copy, PartialEq, Eq, Structural)]
pub enum EntryPath {
    /// The export itself is the callable.
    Direct,
    /// The export is a sub-interface; the callable is its function named
    /// `handle`.
    InstanceHandle,
}

/// A successful resolution: which top-level export, and how its callable is
/// reached.
#[derive(Debug, Clone, Copy, PartialEq, Eq, Structural)]
pub struct ResolvedEntry {
    pub index: usize,
    pub path: EntryPath,
}

/// Some function of the sub-interface is literally named `handle`.
pub open spec fn spec_has_handle(functions: Seq<String>) -> bool {
    exists|i: int| 0 <= i < functions.len() && (#[trigger] functions[i])@ == "handle"@
}

/// The export kinds a lookup can return: a direct function, or a
/// sub-interface that follows the handle convention.
pub open spec fn spec_callable(kind: ExportKind) -> bool {
    ||| kind is Function
    ||| (kind matches ExportKind::Instance { functions } && spec_has_handle(functions@))
}

/// The namespace filter: no filter admits every name, a filter admits the
/// names it prefixes.
pub open spec fn spec_in_namespace(name: Seq<char>, namespace: Option<Seq<char>>) -> bool {
    match namespace {
        Some(prefix) => is_prefix(prefix, name),
        None => true,
    }
}

/// An export satisfies a lookup when it passes the namespace filter and its
/// kind is callable.
pub open spec fn spec_matches(e: Export, namespace: Option<Seq<char>>) -> bool {
    spec_in_namespace(e.name@, namespace) && spec_callable(e.kind)
}

/// The index of the first export, in declaration order, that satisfies the
/// lookup; `None` when the scan exhausts the list.
pub open spec fn spec_resolution(exports: Seq<Export>, namespace: Option<Seq<char>>) -> Option<
    int,
>
    decreases exports.len(),
{
    if exports.len() == 0 {
        None
    } else if spec_matches(exports[0], namespace) {
        Some(0int)
    } else {
        match spec_resolution(exports.drop_first(), namespace) {
            Some(i) => Some(i + 1),
            None => None,
        }
    }
}

/// Resolution determinism: the resolved index is the first match in
/// declaration order — every earlier export does not match — and a scan that
/// returns nothing saw no match at all.
pub proof fn lemma_resolution_first_match(exports: Seq<Export>, namespace: Option<Seq<char>>)
    ensures
        match spec_resolution(exports, namespace) {
            Some(i) => 0 <= i < exports.len() && spec_matches(exports[i], namespace) && forall|
                j: int,
            | 0 <= j < i ==> !spec_matches(exports[j], namespace),
            None => forall|j: int|
                0 <= j < exports.len() ==> !spec_matches(exports[j], namespace),
        },
    decreases exports.len(),
{
    if exports.len() > 0 && !spec_matches(exports[0], namespace) {
        let rest = exports.drop_first();
        lemma_resolution_first_match(rest, namespace);
        assert(forall|j: int| 0 <= j < rest.len() ==> rest[j] == exports[j + 1]);
        match spec_resolution(rest, namespace) {
            Some(i) => {
                assert(rest[i] == exports[i + 1]);
                assert forall|j: int| 0 <= j < i + 1 implies !spec_matches(
                    exports[j],
                    namespace,
                ) by {
                    if j > 0 {
                        assert(rest[j - 1] == exports[j]);
                    }
                }
            },
            None => {
                assert forall|j: int| 0 <= j < exports.len() implies !spec_matches(
                    exports[j],
                    namespace,
                ) by {
                    if j > 0 {
                        assert(rest[j - 1] == exports[j]);
                    }
                }
            },
        }
    }
}

/// Missing-handle rejection: a sub-interface export without a `handle`
/// function is never what resolution returns.
pub proof fn lemma_missing_handle_skipped(
    exports: Seq<Export>,
    namespace: Option<Seq<char>>,
    i: int,
)
    requires
        0 <= i < exports.len(),
        exports[i].kind matches ExportKind::Instance { functions } && !spec_has_handle(
            functions@,
        ),
    ensures
        spec_resolution(exports, namespace) != Some(i),
{
    lemma_resolution_first_match(exports, namespace);
}

/// Namespace filtering: whatever resolution returns lies inside the
/// requested namespace.
pub proof fn lemma_namespace_respected(exports: Seq<Export>, namespace: Seq<char>)
    ensures
        spec_resolution(exports, Some(namespace)) matches Some(i) ==> is_prefix(
            namespace,
            exports[i].name@,
        ),
{
    lemma_resolution_first_match(exports, Some(namespace));
}

/// The namespace filter as a view of the optional argument.
pub open spec fn spec_namespace(namespace: Option<&str>) -> Option<Seq<char>> {
    match namespace {
        Some(s) => Some(s@),
        None => None,
    }
}

/// Does any function of the sub-interface bear the conventional name
/// `handle`?
pub fn has_handle(functions: &Vec<String>) -> (r: bool)
    ensures
        r == spec_has_handle(functions@),
{
    let mut i: usize = 0;
    while i < functions.len()
        invariant
            i <= functions@.len(),
            forall|j: int| 0 <= j < i ==> (#[trigger] functions@[j])@ != "handle"@,
        decreases functions@.len() - i,
    {
        if str_eq(functions[i].as_str(), "handle") {
            return true;
        }
        i = i + 1;
    }
    false
}

/// Scans the export list once, in declaration order, for the first export
/// that passes the namespace filter and is callable; the returned entry says
/// whether the callable is the export itself or its `handle` function.
pub fn resolve_export(exports: &Vec<Export>, namespace: Option<&str>) -> (r: Option<
    ResolvedEntry,
>)
    ensures
        match r {
            Some(entry) => spec_resolution(exports@, spec_namespace(namespace)) == Some(
                entry.index as int,
            ) && entry.index < exports@.len() && (entry.path is Direct <==> exports@[entry.index
                as int].kind is Function),
            None => spec_resolution(exports@, spec_namespace(namespace)) is None,
        },
{
    let ghost ns = spec_namespace(namespace);
    let mut i: usize = 0;
    while i < exports.len()
        invariant
            i <= exports@.len(),
            ns == spec_namespace(namespace),
            forall|j: int| 0 <= j < i ==> !spec_matches(exports@[j], ns),
        decreases exports@.len() - i,
    {
        let in_namespace = match namespace {
            Some(prefix) => str_starts_with(exports[i].name.as_str(), prefix),
            None => true,
        };
        if in_namespace {
            match &exports[i].kind {
                ExportKind::Function => {
                    proof {
                        lemma_resolution_first_match(exports@, ns);
                    }
                    return Some(ResolvedEntry { index: i, path: EntryPath::Direct });
                },
                ExportKind::Instance { functions } => {
                    if has_handle(functions) {
                        proof {
                            lemma_resolution_first_match(exports@, ns);
                        }
                        return Some(ResolvedEntry { index: i, path: EntryPath::InstanceHandle });
                    }
                },
                _ => {},
            }
        }
        proof {
            assert(!spec_matches(exports@[i as int], ns));
        }
        i = i + 1;
    }
    proof {
        lemma_resolution_first_match(exports@, ns);
    }
    None
}

} // verus!
