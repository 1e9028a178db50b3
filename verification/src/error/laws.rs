//! What holds of the error model for all values, proved over [`ErrorView`].

use crate::error::{ErrorKind, ErrorView};
use vstd::prelude::*;

verus! {

/// Writing a key gives that key the value written, leaves every other key as
/// it was, and adds one entry exactly when the key was absent.
pub proof fn lemma_add_context(e: ErrorView, key: Seq<char>, value: Seq<char>)
    requires
        e.well_formed(),
    ensures
        e.add_context(key, value).well_formed(),
        e.add_context(key, value).context[key] == value,
        forall|other: Seq<char>|
            other != key ==> e.add_context(key, value).context.contains_key(other)
                == e.context.contains_key(other) && e.add_context(key, value).context[other]
                == e.context[other],
        e.context.contains_key(key) ==> e.add_context(key, value).context.len()
            == e.context.len(),
        !e.context.contains_key(key) ==> e.add_context(key, value).context.len()
            == e.context.len() + 1,
{
    if e.context.contains_key(key) {
        assert(e.context.dom().insert(key) == e.context.dom());
    }
}

/// Of two writes under one key the later one stays: the earlier write might
/// as well not have happened.
pub proof fn lemma_last_write_wins(e: ErrorView, key: Seq<char>, first: Seq<char>, last: Seq<char>)
    ensures
        e.add_context(key, first).add_context(key, last) == e.add_context(key, last),
{
    assert(e.context.insert(key, first).insert(key, last) =~= e.context.insert(key, last));
}

/// A fresh error with a status, written under `k1` once and under another
/// key `k2` twice, has two context entries, and `k2` holds the last value
/// written.
pub proof fn lemma_context_after_three_writes(
    path: Seq<char>,
    code: Seq<char>,
    status: u16,
    k1: Seq<char>,
    v1: Seq<char>,
    k2: Seq<char>,
    v2: Seq<char>,
    v3: Seq<char>,
)
    requires
        k1 != k2,
    ensures
        ({
            let e = ErrorView::new(path, code).set_status(status).add_context(k1, v1).add_context(
                k2,
                v2,
            ).add_context(k2, v3);
            &&& e.context.len() == 2
            &&& e.context[k1] == v1
            &&& e.context[k2] == v3
            &&& e.status == Some(status)
        }),
{
    let start = ErrorView::new(path, code).set_status(status);
    let one = start.add_context(k1, v1);
    lemma_add_context(start, k1, v1);
    lemma_add_context(one, k2, v2);
    lemma_last_write_wins(one, k2, v2, v3);
}

/// Equality looks at code, path and status, and at nothing else: an error
/// stays equal to itself whatever its kind, message, context and cause are
/// changed to.
pub proof fn lemma_equality_ignores_the_rest(
    e: ErrorView,
    kind: ErrorKind,
    message: Option<Seq<char>>,
    context: Map<Seq<char>, Seq<char>>,
    cause: Option<Box<ErrorView>>,
)
    ensures
        e.same_failure((ErrorView { kind, message, context, cause, ..e })),
        (ErrorView { kind, message, context, cause, ..e }).same_failure(e),
{
}

/// Two errors are equal exactly when code, path and status agree; a
/// difference in any of the three makes them unequal.
pub proof fn lemma_equality_is_code_path_status(a: ErrorView, b: ErrorView)
    ensures
        a.same_failure(b) <==> (a.code == b.code && a.path == b.path && a.status == b.status),
        a.code != b.code ==> !a.same_failure(b),
        a.path != b.path ==> !a.same_failure(b),
        a.status != b.status ==> !a.same_failure(b),
{
}

/// Equality of errors is an equivalence.
pub proof fn lemma_equality_is_equivalence(a: ErrorView, b: ErrorView, c: ErrorView)
    ensures
        a.same_failure(a),
        a.same_failure(b) ==> b.same_failure(a),
        a.same_failure(b) && b.same_failure(c) ==> a.same_failure(c),
{
}

/// The cause of `outer.wrap(inner)` is `inner`, so the two compare equal;
/// nothing else of `outer` changes, and an earlier cause is gone.
pub proof fn lemma_wrapped_cause_is_inner(outer: ErrorView, inner: ErrorView)
    ensures
        outer.wrap(inner).cause == Some(Box::new(inner)),
        (*outer.wrap(inner).cause->0).same_failure(inner),
        outer.wrap(inner).same_failure(outer),
        outer.wrap(inner).context == outer.context,
{
}

/// The cause that stands for a foreign value is internal, has the code `raw`
/// and the rendered text as its message, and carries nothing more.
pub proof fn lemma_raw_cause(text: Seq<char>)
    ensures
        ErrorView::raw(text).kind == ErrorKind::Internal,
        ErrorView::raw(text).code == "raw"@,
        ErrorView::raw(text).message == Some(text),
        ErrorView::raw(text).path.len() == 0,
        ErrorView::raw(text).status is None,
        ErrorView::raw(text).cause is None,
        ErrorView::raw(text).context.len() == 0,
{
}

/// What a key holds after a merge: the value from the merged error's
/// context, else the merged error's code where the key is its path, else what
/// the key held before.
pub proof fn lemma_merge_lookup(e: ErrorView, other: ErrorView, key: Seq<char>)
    ensures
        e.merge(other).context.contains_key(key) <==> (other.context.contains_key(key) || key
            == other.path || e.context.contains_key(key)),
        other.context.contains_key(key) ==> e.merge(other).context[key] == other.context[key],
        !other.context.contains_key(key) && key == other.path ==> e.merge(other).context[key]
            == other.code,
        !other.context.contains_key(key) && key != other.path && e.context.contains_key(key)
            ==> e.merge(other).context[key] == e.context[key],
{
}

/// A merge changes the context only: kind, path, code, status, message and
/// cause stay, and nothing of the merged error's cause is taken over.
pub proof fn lemma_merge_keeps_identity(e: ErrorView, other: ErrorView)
    ensures
        e.merge(other) == (ErrorView { context: e.merge(other).context, ..e }),
        e.merge(other).same_failure(e),
        e.well_formed() && other.well_formed() ==> e.merge(other).well_formed(),
{
    if e.well_formed() && other.well_formed() {
        assert(e.merge(other).context.dom() =~= e.context.dom().insert(other.path).union(
            other.context.dom(),
        ));
    }
}

/// Merging keeps every breadcrumb down a chain of merges. When `inner` is
/// merged into `middle` and the result into `outer`, the final context holds
/// the entries of all three and both breadcrumbs, the innermost writer of a
/// key deciding its value.
pub proof fn lemma_nested_merge_lookup(
    outer: ErrorView,
    middle: ErrorView,
    inner: ErrorView,
    key: Seq<char>,
)
    ensures
        ({
            let merged = outer.merge(middle.merge(inner)).context;
            &&& merged.contains_key(inner.path)
            &&& merged.contains_key(middle.path)
            &&& merged.contains_key(key) <==> (inner.context.contains_key(key) || key
                == inner.path || middle.context.contains_key(key) || key == middle.path
                || outer.context.contains_key(key))
            &&& merged.contains_key(key) ==> merged[key] == if inner.context.contains_key(key) {
                inner.context[key]
            } else if key == inner.path {
                inner.code
            } else if middle.context.contains_key(key) {
                middle.context[key]
            } else if key == middle.path {
                middle.code
            } else {
                outer.context[key]
            }
        }),
{
    lemma_merge_lookup(middle, inner, key);
    lemma_merge_lookup(middle, inner, inner.path);
    lemma_merge_lookup(middle, inner, middle.path);
    lemma_merge_lookup(outer, middle.merge(inner), key);
    lemma_merge_lookup(outer, middle.merge(inner), inner.path);
    lemma_merge_lookup(outer, middle.merge(inner), middle.path);
}

/// Where no key is written twice, a chain of two merges holds one entry for
/// each entry of the three contexts and one for each breadcrumb.
pub proof fn lemma_nested_merge_len(outer: ErrorView, middle: ErrorView, inner: ErrorView)
    requires
        outer.well_formed(),
        middle.well_formed(),
        inner.well_formed(),
        outer.context.dom().disjoint(middle.context.dom()),
        outer.context.dom().disjoint(inner.context.dom()),
        middle.context.dom().disjoint(inner.context.dom()),
        inner.path != middle.path,
        !outer.context.contains_key(inner.path) && !middle.context.contains_key(inner.path)
            && !inner.context.contains_key(inner.path),
        !outer.context.contains_key(middle.path) && !middle.context.contains_key(middle.path)
            && !inner.context.contains_key(middle.path),
    ensures
        outer.merge(middle.merge(inner)).context.len() == outer.context.len()
            + middle.context.len() + inner.context.len() + 2,
{
    let a = outer.context.dom().insert(middle.path);
    let b = middle.context.dom().insert(inner.path);
    let c = inner.context.dom();
    let bc = b.union(c);
    assert(middle.merge(inner).context.dom() =~= bc);
    assert(outer.merge(middle.merge(inner)).context.dom() =~= a.union(bc));
    vstd::set_lib::lemma_set_disjoint_lens(b, c);
    vstd::set_lib::lemma_set_disjoint_lens(a, bc);
}

} // verus!
