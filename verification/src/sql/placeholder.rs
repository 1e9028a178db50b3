//! Placeholders in SQL fragments. A fragment template marks the place of its
//! parameter with `$$`; the finished statement names a parameter by its
//! position, as `$1`, `$2` and so on.

use vstd::prelude::*;

verus! {

/// The character of the decimal digit `d`.
pub open spec fn digit(d: nat) -> char {
    if d == 0 {
        '0'
    } else if d == 1 {
        '1'
    } else if d == 2 {
        '2'
    } else if d == 3 {
        '3'
    } else if d == 4 {
        '4'
    } else if d == 5 {
        '5'
    } else if d == 6 {
        '6'
    } else if d == 7 {
        '7'
    } else if d == 8 {
        '8'
    } else {
        '9'
    }
}

/// The decimal numeral of `n`: most significant digit first, no leading zero
/// but for zero itself.
pub open spec fn decimal(n: nat) -> Seq<char>
    decreases n,
{
    if n < 10 {
        seq![digit(n)]
    } else {
        decimal(n / 10).push(digit(n % 10))
    }
}

/// The token that names the parameter at position `index`: `$` and the
/// position's numeral.
pub open spec fn positional_token(index: nat) -> Seq<char> {
    seq!['$'] + decimal(index)
}

/// Whether the marker `$$` starts at position `at` of the template.
pub open spec fn marker_at(template: Seq<char>, at: int) -> bool {
    &&& 0 <= at
    &&& at + 1 < template.len()
    &&& template[at] == '$'
    &&& template[at + 1] == '$'
}

/// The template with `token` in place of each marker, the markers taken from
/// left to right.
pub open spec fn substitute(template: Seq<char>, token: Seq<char>) -> Seq<char>
    decreases template.len(),
{
    if template.len() == 0 {
        template
    } else if marker_at(template, 0) {
        token + substitute(template.skip(2), token)
    } else {
        seq![template[0]] + substitute(template.skip(1), token)
    }
}

/// The parts in order, with the separator between each two of them.
pub open spec fn join(parts: Seq<Seq<char>>, separator: Seq<char>) -> Seq<char>
    decreases parts.len(),
{
    if parts.len() == 0 {
        Seq::empty()
    } else if parts.len() == 1 {
        parts[0]
    } else {
        join(parts.drop_last(), separator) + separator + parts.last()
    }
}

/// A template without a marker is left as it is.
pub proof fn lemma_substitute_without_marker(template: Seq<char>, token: Seq<char>)
    requires
        forall|at: int| !marker_at(template, at),
    ensures
        substitute(template, token) == template,
    decreases template.len(),
{
    if template.len() > 0 {
        assert(!marker_at(template, 0));
        let rest = template.skip(1);
        assert forall|at: int| !marker_at(rest, at) by {
            assert(!marker_at(template, at + 1));
        }
        lemma_substitute_without_marker(rest, token);
        assert(seq![template[0]] + rest == template);
    }
}

/// Up to its first marker a template is copied, and the marker becomes the
/// token.
pub proof fn lemma_substitute_first_marker(template: Seq<char>, at: int, token: Seq<char>)
    requires
        marker_at(template, at),
        forall|before: int| before < at ==> !marker_at(template, before),
    ensures
        substitute(template, token) == template.take(at) + token + substitute(
            template.skip(at + 2),
            token,
        ),
    decreases at,
{
    if at == 0 {
        assert(template.take(0) + token == token);
    } else {
        assert(!marker_at(template, 0));
        let rest = template.skip(1);
        assert(marker_at(rest, at - 1));
        assert forall|before: int| before < at - 1 implies !marker_at(rest, before) by {
            assert(!marker_at(template, before + 1));
        }
        lemma_substitute_first_marker(rest, at - 1, token);
        assert(rest.skip(at - 1 + 2) == template.skip(at + 2));
        assert(seq![template[0]] + rest.take(at - 1) == template.take(at));
        assert(seq![template[0]] + (rest.take(at - 1) + token + substitute(
            template.skip(at + 2),
            token,
        )) == template.take(at) + token + substitute(template.skip(at + 2), token));
    }
}

/// In a template with exactly one marker the token takes the marker's place
/// and all the rest stays.
pub proof fn lemma_substitute_single_marker(template: Seq<char>, at: int, token: Seq<char>)
    requires
        marker_at(template, at),
        forall|other: int| other != at ==> !marker_at(template, other),
    ensures
        substitute(template, token) == template.take(at) + token + template.skip(at + 2),
{
    lemma_substitute_first_marker(template, at, token);
    let rest = template.skip(at + 2);
    assert forall|other: int| !marker_at(rest, other) by {
        if other >= 0 {
            assert(!marker_at(template, other + at + 2));
        }
    }
    lemma_substitute_without_marker(rest, token);
}

/// Joining one more part appends the separator and the part, but for the
/// first part, which stands alone.
pub proof fn lemma_join_push(parts: Seq<Seq<char>>, part: Seq<char>, separator: Seq<char>)
    ensures
        join(parts.push(part), separator) == if parts.len() == 0 {
            part
        } else {
            join(parts, separator) + separator + part
        },
{
    assert(parts.push(part).drop_last() == parts);
}

fn digit_char(d: usize) -> (c: char)
    requires
        d < 10,
    ensures
        c == digit(d as nat),
{
    if d == 0 {
        '0'
    } else if d == 1 {
        '1'
    } else if d == 2 {
        '2'
    } else if d == 3 {
        '3'
    } else if d == 4 {
        '4'
    } else if d == 5 {
        '5'
    } else if d == 6 {
        '6'
    } else if d == 7 {
        '7'
    } else if d == 8 {
        '8'
    } else {
        '9'
    }
}

/// Appends the decimal numeral of `n` to `text`.
fn push_decimal(text: &mut String, n: usize)
    ensures
        final(text)@ == old(text)@ + decimal(n as nat),
    decreases n,
{
    if n >= 10 {
        push_decimal(text, n / 10);
    }
    text.push(digit_char(n % 10));
    proof {
        if n >= 10 {
            assert(old(text)@ + decimal((n / 10) as nat).push(digit((n % 10) as nat)) == (old(
                text,
            )@ + decimal((n / 10) as nat)).push(digit((n % 10) as nat)));
        } else {
            assert(old(text)@ + seq![digit(n as nat)] == old(text)@.push(digit(n as nat)));
        }
    }
}

/// The token for the parameter at position `index`, such as `$3`.
pub fn positional(index: usize) -> (token: String)
    ensures
        token@ == positional_token(index as nat),
{
    let mut token = String::new();
    token.push('$');
    push_decimal(&mut token, index);
    proof {
        assert(Seq::<char>::empty().push('$') == seq!['$']);
    }
    token
}

/// What the scan has read and not yet written: a lone `$`, which the next
/// character may complete to a marker.
spec fn held(pending: bool) -> Seq<char> {
    if pending {
        seq!['$']
    } else {
        Seq::empty()
    }
}

/// One step of the scan. With `$` held back, a second `$` completes a marker
/// and the token is due; any other character releases the `$` before itself.
/// With nothing held back, a `$` is held back and any other character is due
/// as it is.
proof fn lemma_scan_step(pending: bool, c: char, after: Seq<char>, token: Seq<char>)
    ensures
        substitute(held(pending) + seq![c] + after, token) == if pending && c == '$' {
            token + substitute(after, token)
        } else if pending {
            seq!['$', c] + substitute(after, token)
        } else if c == '$' {
            substitute(held(true) + after, token)
        } else {
            seq![c] + substitute(after, token)
        },
{
    let unread = held(pending) + seq![c] + after;
    if pending && c == '$' {
        assert(marker_at(unread, 0));
        assert(unread.skip(2) == after);
    } else if pending {
        let rest = seq![c] + after;
        assert(!marker_at(unread, 0));
        assert(unread.skip(1) == rest);
        assert(!marker_at(rest, 0));
        assert(rest.skip(1) == after);
        assert(substitute(rest, token) == seq![c] + substitute(after, token));
        assert(seq!['$'] + (seq![c] + substitute(after, token)) == seq!['$', c] + substitute(
            after,
            token,
        ));
    } else if c == '$' {
        assert(unread == held(true) + after);
    } else {
        assert(!marker_at(unread, 0));
        assert(unread.skip(1) == after);
    }
}

/// Writes the template with `token` in place of each `$$`.
pub fn renumber(template: &str, token: &str) -> (fragment: String)
    ensures
        fragment@ == substitute(template@, token@),
{
    broadcast use vstd::string::group_string_axioms;

    let mut fragment = String::new();
    let mut pending = false;
    let chars = template.chars();
    proof {
        assert(held(false) + template@.skip(0) == template@);
        assert(fragment@ + substitute(template@, token@) == substitute(template@, token@));
    }
    for c in it: chars
        invariant
            it.seq() == template@,
            substitute(template@, token@) == fragment@ + substitute(
                held(pending) + template@.skip(it.index()),
                token@,
            ),
    {
        let ghost after = template@.skip(it.index() + 1);
        let ghost before = fragment@;
        proof {
            assert(template@.skip(it.index()) == seq![c] + after);
            assert(held(pending) + (seq![c] + after) == held(pending) + seq![c] + after);
            lemma_scan_step(pending, c, after, token@);
        }
        if pending {
            if c == '$' {
                fragment.append(token);
            } else {
                fragment.push('$');
                fragment.push(c);
            }
            pending = false;
        } else if c == '$' {
            pending = true;
        } else {
            fragment.push(c);
        }
        proof {
            let due = substitute(held(pending) + after, token@);
            assert(before + (token@ + due) == before + token@ + due);
            assert(before + (seq!['$', c] + due) == before.push('$').push(c) + due);
            assert(before + (seq![c] + due) == before.push(c) + due);
            assert(held(false) + after == after);
        }
    }
    if pending {
        fragment.push('$');
    }
    proof {
        let end = held(pending) + template@.skip(template@.len() as int);
        assert(end == held(pending));
        if pending {
            assert(!marker_at(end, 0));
            assert(end.skip(1) == Seq::<char>::empty());
            assert(substitute(end.skip(1), token@) == Seq::<char>::empty());
            assert(seq![end[0]] + Seq::<char>::empty() == end);
        }
        assert(substitute(end, token@) == end);
    }
    fragment
}

} // verus!
