//! Properties of the renderers, stated over their spec functions.
use vstd::prelude::*;
use crate::clause::{
    clause_text, comparison_text, connective, group_text, Clause, ClauseType,
};
use crate::select::{
    and_tail, column_list, columns_text, is_wrapped, join_entry, table_text, valid_texts, where_text,
};
use crate::text::{join, without};
use crate::value::{literal, parenthesized, quoted, Value};

verus! {

/// Rendering is a function of the value: equal values give equal text.
pub proof fn literal_deterministic(a: Value, b: Value)
    requires
        a == b,
    ensures
        literal(a) == literal(b),
{
}

/// `Null` renders as `NULL`.
pub proof fn null_literal()
    ensures
        literal(Value::Null) == seq!['N', 'U', 'L', 'L'],
{
}

/// `true` renders as `1`, `false` as `0`.
pub proof fn boolean_literal(b: bool)
    ensures
        literal(Value::Boolean(b)) == (if b { seq!['1'] } else { seq!['0'] }),
{
}

/// Leaving `c` out of `s` removes every `c` and keeps every other character.
pub proof fn without_removes_all(s: Seq<char>, c: char)
    ensures
        !without(s, c).contains(c),
        forall|x: char| x != c ==> (without(s, c).contains(x) <==> s.contains(x)),
    decreases s.len(),
{
    if s.len() > 0 {
        without_removes_all(s.drop_last(), c);
        assert forall|x: char| s.contains(x) <==> (s.drop_last().contains(x) || s.last() == x) by {
            if s.contains(x) {
                let k = choose|k: int| 0 <= k < s.len() && s[k] == x;
                if k < s.len() - 1 {
                    assert(s.drop_last()[k] == x);
                }
            }
            if s.drop_last().contains(x) {
                let k = choose|k: int| 0 <= k < s.len() - 1 && s.drop_last()[k] == x;
                assert(s[k] == x);
            }
            if s.last() == x {
                assert(s[s.len() - 1] == x);
            }
        }
        let w = without(s.drop_last(), c);
        if s.last() != c {
            assert forall|x: char| w.push(s.last()).contains(x) <==> (w.contains(x) || s.last() == x) by {
                if w.push(s.last()).contains(x) {
                    let k = choose|k: int| 0 <= k < w.len() + 1 && w.push(s.last())[k] == x;
                    if k < w.len() {
                        assert(w[k] == x);
                    }
                }
                if w.contains(x) {
                    let k = choose|k: int| 0 <= k < w.len() && w[k] == x;
                    assert(w.push(s.last())[k] == x);
                }
                if s.last() == x {
                    assert(w.push(s.last())[w.len() as int] == x);
                }
            }
        }
    }
}

/// A string without `:` is quoted as it is; one with a `:` is written with
/// every `:` left out and without quotes.
pub proof fn string_literal_law(s: String)
    ensures
        !s@.contains(':') ==> literal(Value::String(s)) == quoted(s@),
        s@.contains(':') ==> literal(Value::String(s)) == without(s@, ':'),
        s@.contains(':') ==> !literal(Value::String(s)).contains(':'),
{
    without_removes_all(s@, ':');
}

/// A clause with no fragment is invalid and renders empty; after a push it
/// is valid, and a clause of one fragment renders as that fragment.
pub proof fn clause_validity(before: Clause, after: Clause, f: Seq<char>)
    requires
        after.mode() == before.mode(),
        after.fragments() == before.fragments().push(f),
    ensures
        after.is_valid(),
        before.fragments().len() == 0 ==> !before.is_valid() && before.text() == Seq::<char>::empty(),
        before.fragments().len() == 0 ==> after.text() == f,
{
    if before.fragments().len() == 0 {
        assert(after.fragments() =~= seq![f]);
    }
}

/// Three fragments are joined by the clause's connective.
pub proof fn three_fragments(kind: ClauseType, f1: Seq<char>, f2: Seq<char>, f3: Seq<char>)
    ensures
        clause_text(kind, seq![f1, f2, f3]) == f1 + connective(kind) + f2 + connective(kind) + f3,
        kind == ClauseType::And ==> clause_text(kind, seq![f1, f2, f3])
            == f1 + seq![' ', 'A', 'N', 'D', ' '] + f2 + seq![' ', 'A', 'N', 'D', ' '] + f3,
        kind == ClauseType::Or ==> clause_text(kind, seq![f1, f2, f3])
            == f1 + seq![' ', 'O', 'R', ' '] + f2 + seq![' ', 'O', 'R', ' '] + f3,
{
    let s = seq![f1, f2, f3];
    let sep = connective(kind);
    assert(s.drop_last() =~= seq![f1, f2]);
    assert(seq![f1, f2].drop_last() =~= seq![f1]);
    assert(join(seq![f1], sep) == f1);
    assert(join(seq![f1, f2], sep) == f1 + sep + f2);
    assert(join(s, sep) == join(seq![f1, f2], sep) + sep + f3);
    assert(join(s, sep) =~= f1 + sep + f2 + sep + f3);
}

/// Two alternatives for one column, combined with OR, make one
/// parenthesized fragment.
pub proof fn two_alternatives(name: Seq<char>, v1: Value, v2: Value)
    ensures
        group_text(name, ClauseType::Or, seq![v1, v2]) == parenthesized(
            comparison_text(name, v1) + seq![' ', 'O', 'R', ' '] + comparison_text(name, v2),
        ),
{
    let m = seq![v1, v2].map_values(|v: Value| comparison_text(name, v));
    assert(m =~= seq![comparison_text(name, v1), comparison_text(name, v2)]);
    assert(m.drop_last() =~= seq![comparison_text(name, v1)]);
    let sep = connective(ClauseType::Or);
    assert(join(m.drop_last(), sep) == comparison_text(name, v1));
    assert(join(m, sep) == comparison_text(name, v1) + sep + comparison_text(name, v2));
}

/// Without a call to `select`, the projection is `*`.
pub proof fn projection_all(cols: Seq<Seq<char>>)
    ensures
        columns_text(true, cols) == seq!['*'],
{
}

/// Two columns, the first not empty, are separated by `, `.
pub proof fn two_columns(a: Seq<char>, b: Seq<char>)
    requires
        a.len() > 0,
    ensures
        columns_text(false, seq![a, b]) == a + seq![',', ' '] + b,
{
    assert(seq![a, b].drop_last() =~= seq![a]);
    assert(seq![a].drop_last() =~= Seq::<Seq<char>>::empty());
    assert(column_list(Seq::<Seq<char>>::empty()) == Seq::<char>::empty());
    assert(column_list(seq![a]) =~= a);
    assert(column_list(seq![a, b]) =~= a + seq![',', ' '] + b);
}

/// Two valid filters whose first text is not already wrapped render as
/// `WHERE (a) AND (b)`.
pub proof fn two_filters(a: Seq<char>, b: Seq<char>)
    requires
        !is_wrapped(a),
    ensures
        where_text(seq![a, b]) == seq!['W', 'H', 'E', 'R', 'E', ' '] + parenthesized(a)
            + seq![' ', 'A', 'N', 'D', ' '] + parenthesized(b),
{
    assert(seq![a, b].drop_first() =~= seq![b]);
    assert(seq![b].drop_last() =~= Seq::<Seq<char>>::empty());
    assert(and_tail(Seq::<Seq<char>>::empty()) == Seq::<char>::empty());
    assert(and_tail(seq![b]) =~= seq![' ', 'A', 'N', 'D', ' '] + parenthesized(b));
    assert(where_text(seq![a, b]) =~= seq!['W', 'H', 'E', 'R', 'E', ' '] + parenthesized(a)
        + seq![' ', 'A', 'N', 'D', ' '] + parenthesized(b));
}

/// An invalid filter adds nothing to the WHERE segment; a lone invalid
/// filter leaves the segment empty.
pub proof fn invalid_filter(filters: Seq<Clause>, c: Clause)
    requires
        !c.is_valid(),
    ensures
        valid_texts(filters.push(c)) == valid_texts(filters),
        where_text(valid_texts(seq![c])) == Seq::<char>::empty(),
{
    assert(filters.push(c).drop_last() =~= filters);
    assert(seq![c].drop_last() =~= Seq::<Clause>::empty());
    assert(valid_texts(Seq::<Clause>::empty()) == Seq::<Seq<char>>::empty());
    assert(valid_texts(seq![c]) == Seq::<Seq<char>>::empty());
}

/// A join whose clause is invalid has no `ON`; one whose clause is valid
/// has `ON` and the clause's text.
pub proof fn join_condition(table: (Seq<char>, Option<Seq<char>>), on: Clause)
    ensures
        !on.is_valid() ==> join_entry(table, on) == seq![' ', 'I', 'N', 'N', 'E', 'R', ' ', 'J', 'O', 'I', 'N', ' ']
            + table_text(table),
        on.is_valid() ==> join_entry(table, on) == seq![' ', 'I', 'N', 'N', 'E', 'R', ' ', 'J', 'O', 'I', 'N', ' ']
            + table_text(table) + seq![' ', 'O', 'N', ' '] + on.text(),
{
}

} // verus!
