//! Boolean predicate clauses: fragments of SQL text combined by AND or OR.
use vstd::prelude::*;
use vstd::string::*;
use crate::text::{join, join_strings, views};
use crate::value::{literal, parenthesized, Value};

verus! {

/// How the fragments of a clause are combined.
#[derive(Clone, Copy, Debug, PartialEq, Eq, Structural)]
pub enum ClauseType {
    And,
    Or,
}

/// The text between two fragments of a clause of the given type.
pub open spec fn connective(kind: ClauseType) -> Seq<char> {
    match kind {
        ClauseType::And => seq![' ', 'A', 'N', 'D', ' '],
        ClauseType::Or => seq![' ', 'O', 'R', ' '],
    }
}

/// An accumulator of rendered comparison fragments, combined by one
/// connective. A clause is valid when it holds at least one fragment.
#[derive(Clone, Debug)]
pub struct Clause {
    kind: ClauseType,
    clauses: Vec<String>,
}

/// The text of a clause with the given type and fragments.
pub open spec fn clause_text(kind: ClauseType, fragments: Seq<Seq<char>>) -> Seq<char> {
    join(fragments, connective(kind))
}

/// Text of the comparison of column `name` against `v`.
pub open spec fn comparison_text(name: Seq<char>, v: Value) -> Seq<char> {
    match v {
        Value::Null => name + seq![' ', 'I', 'S', ' ', 'N', 'U', 'L', 'L'],
        Value::Boolean(_) => seq!['C', 'A', 'S', 'T', '('] + name
            + seq![' ', 'A', 'S', ' ', 'I', 'N', 'T', 'E', 'G', 'E', 'R', ')', ' ', '=', ' ']
            + literal(v),
        _ => name + seq![' ', '=', ' '] + literal(v),
    }
}

/// Text of a group of alternatives for column `name`, combined by `kind`.
pub open spec fn group_text(name: Seq<char>, kind: ClauseType, values: Seq<Value>) -> Seq<char> {
    parenthesized(join(values.map_values(|v: Value| comparison_text(name, v)), connective(kind)))
}

impl Clause {
    /// Combining type.
    pub closed spec fn mode(&self) -> ClauseType {
        self.kind
    }

    /// The fragments pushed so far, in order.
    pub closed spec fn fragments(&self) -> Seq<Seq<char>> {
        views(self.clauses@)
    }

    /// The rendered text of this clause.
    pub open spec fn text(&self) -> Seq<char> {
        clause_text(self.mode(), self.fragments())
    }

    /// Whether the clause holds at least one fragment.
    pub open spec fn is_valid(&self) -> bool {
        self.fragments().len() > 0
    }

    /// An empty clause of the given type.
    pub fn with_type(kind: ClauseType) -> (r: Clause)
        ensures
            r.mode() == kind,
            r.fragments() == Seq::<Seq<char>>::empty(),
    {
        let r = Clause { kind, clauses: Vec::new() };
        assert(r.fragments() =~= Seq::<Seq<char>>::empty());
        r
    }

    /// An empty AND clause.
    pub fn new() -> (r: Clause)
        ensures
            r.mode() == ClauseType::And,
            r.fragments() == Seq::<Seq<char>>::empty(),
    {
        Clause::with_type(ClauseType::And)
    }

    /// An empty OR clause.
    pub fn new_or() -> (r: Clause)
        ensures
            r.mode() == ClauseType::Or,
            r.fragments() == Seq::<Seq<char>>::empty(),
    {
        Clause::with_type(ClauseType::Or)
    }

    /// Combining type of this clause.
    pub fn kind(&self) -> (r: ClauseType)
        ensures
            r == self.mode(),
    {
        self.kind
    }

    /// Whether the clause holds at least one fragment.
    pub fn valid(&self) -> (r: bool)
        ensures
            r == self.is_valid(),
    {
        self.clauses.len() > 0
    }

    /// Appends one rendered fragment; the clause is valid afterwards.
    pub fn push(&mut self, value: String)
        ensures
            final(self).mode() == old(self).mode(),
            final(self).fragments() == old(self).fragments().push(value@),
    {
        self.clauses.push(value);
        assert(self.fragments() =~= old(self).fragments().push(value@));
    }

    /// The fragments joined with ` AND ` or ` OR `; empty for an empty clause.
    pub fn to_string(&self) -> (r: String)
        ensures
            r@ == self.text(),
    {
        match self.kind {
            ClauseType::And => {
                proof {
                    reveal_strlit(" AND ");
                    assert(" AND "@ =~= connective(ClauseType::And));
                }
                join_strings(&self.clauses, " AND ")
            },
            ClauseType::Or => {
                proof {
                    reveal_strlit(" OR ");
                    assert(" OR "@ =~= connective(ClauseType::Or));
                }
                join_strings(&self.clauses, " OR ")
            },
        }
    }
}

impl Default for Clause {
    fn default() -> (r: Clause)
        ensures
            r.mode() == ClauseType::And,
            r.fragments() == Seq::<Seq<char>>::empty(),
    {
        Clause::new()
    }
}

/// One unit of input to clause construction.
pub enum Term {
    /// `name => value`: a comparison of a column against a value.
    Compare(String, Value),
    /// `name => (v1 or v2 ...)` or `name => (v1 and v2 ...)`: alternatives for
    /// one column, combined by the given type.
    Group(String, ClauseType, Vec<Value>),
    /// A clause built beforehand; it is embedded in parentheses when valid
    /// and leaves no trace when not.
    Nested(Clause),
}

/// The fragments that one term adds to a clause.
pub open spec fn term_fragments(t: Term) -> Seq<Seq<char>> {
    match t {
        Term::Compare(name, v) => seq![comparison_text(name@, v)],
        Term::Group(name, kind, values) => seq![group_text(name@, kind, values@)],
        Term::Nested(c) => if c.is_valid() {
            seq![parenthesized(c.text())]
        } else {
            Seq::empty()
        },
    }
}

/// The fragments that a sequence of terms adds to a clause, in order.
pub open spec fn terms_fragments(ts: Seq<Term>) -> Seq<Seq<char>>
    decreases ts.len(),
{
    if ts.len() == 0 {
        Seq::empty()
    } else {
        terms_fragments(ts.drop_last()) + term_fragments(ts.last())
    }
}

/// Comparison of column `name` against `value`: `name IS NULL` for a null,
/// `CAST(name AS INTEGER) = 1` or `... = 0` for a boolean, `name = <literal>`
/// otherwise.
pub fn comparison(name: &str, value: &Value) -> (r: String)
    ensures
        r@ == comparison_text(name@, *value),
{
    match value {
        Value::Null => {
            proof {
                reveal_strlit(" IS NULL");
            }
            let mut r = String::from_str(name);
            r.append(" IS NULL");
            assert(r@ =~= comparison_text(name@, *value));
            r
        },
        Value::Boolean(_) => {
            proof {
                reveal_strlit("CAST(");
                reveal_strlit(" AS INTEGER) = ");
            }
            let lit = value.to_string();
            let mut r = String::from_str("CAST(");
            r.append(name);
            r.append(" AS INTEGER) = ");
            r.append(lit.as_str());
            assert(r@ =~= comparison_text(name@, *value));
            r
        },
        _ => {
            proof {
                reveal_strlit(" = ");
            }
            let lit = value.to_string();
            let mut r = String::from_str(name);
            r.append(" = ");
            r.append(lit.as_str());
            assert(r@ =~= comparison_text(name@, *value));
            r
        },
    }
}

/// Alternatives for column `name`, each a comparison, joined by `kind` and
/// wrapped in parentheses.
pub fn group(name: &str, kind: ClauseType, values: &Vec<Value>) -> (r: String)
    ensures
        r@ == group_text(name@, kind, values@),
{
    let mut inner = Clause::with_type(kind);
    let mut i: usize = 0;
    while i < values.len()
        invariant
            i <= values@.len(),
            inner.mode() == kind,
            inner.fragments() == values@.subrange(0, i as int).map_values(
                |v: Value| comparison_text(name@, v),
            ),
        decreases values@.len() - i,
    {
        let c = comparison(name, &values[i]);
        inner.push(c);
        i = i + 1;
        assert(inner.fragments() =~= values@.subrange(0, i as int).map_values(
            |v: Value| comparison_text(name@, v),
        ));
    }
    assert(values@.subrange(0, values@.len() as int) =~= values@);
    wrap(inner.to_string())
}

/// `s` between parentheses.
pub fn wrap(s: String) -> (r: String)
    ensures
        r@ == parenthesized(s@),
{
    proof {
        reveal_strlit("(");
        reveal_strlit(")");
    }
    let mut r = String::from_str("(");
    r.append(s.as_str());
    r.append(")");
    assert(r@ =~= parenthesized(s@));
    r
}

impl Clause {
    /// Adds the fragments of one term.
    pub fn push_term(&mut self, term: &Term)
        ensures
            final(self).mode() == old(self).mode(),
            final(self).fragments() == old(self).fragments() + term_fragments(*term),
    {
        match term {
            Term::Compare(name, v) => {
                let c = comparison(name.as_str(), v);
                self.push(c);
                assert(self.fragments() =~= old(self).fragments() + term_fragments(*term));
            },
            Term::Group(name, kind, values) => {
                let g = group(name.as_str(), *kind, values);
                self.push(g);
                assert(self.fragments() =~= old(self).fragments() + term_fragments(*term));
            },
            Term::Nested(c) => {
                if c.valid() {
                    let t = wrap(c.to_string());
                    self.push(t);
                    assert(self.fragments() =~= old(self).fragments() + term_fragments(*term));
                } else {
                    assert(self.fragments() =~= old(self).fragments() + term_fragments(*term));
                }
            },
        }
    }

    /// Adds the fragments of each term, in order.
    pub fn push_terms(&mut self, terms: &Vec<Term>)
        ensures
            final(self).mode() == old(self).mode(),
            final(self).fragments() == old(self).fragments() + terms_fragments(terms@),
    {
        let mut i: usize = 0;
        while i < terms.len()
            invariant
                i <= terms@.len(),
                self.mode() == old(self).mode(),
                self.fragments() == old(self).fragments() + terms_fragments(terms@.subrange(0, i as int)),
            decreases terms@.len() - i,
        {
            self.push_term(&terms[i]);
            proof {
                let next = terms@.subrange(0, i + 1);
                assert(next.drop_last() =~= terms@.subrange(0, i as int));
                assert(next.last() == terms@[i as int]);
            }
            i = i + 1;
            assert(self.fragments() =~= old(self).fragments() + terms_fragments(terms@.subrange(0, i as int)));
        }
        assert(terms@.subrange(0, terms@.len() as int) =~= terms@);
    }
}

/// An AND clause built from `terms`, in order.
pub fn clause(terms: Vec<Term>) -> (r: Clause)
    ensures
        r.mode() == ClauseType::And,
        r.fragments() == terms_fragments(terms@),
{
    let mut r = Clause::new();
    r.push_terms(&terms);
    assert(r.fragments() =~= terms_fragments(terms@));
    r
}

/// An OR clause built from `terms`, in order.
pub fn or_clause(terms: Vec<Term>) -> (r: Clause)
    ensures
        r.mode() == ClauseType::Or,
        r.fragments() == terms_fragments(terms@),
{
    let mut r = Clause::new_or();
    r.push_terms(&terms);
    assert(r.fragments() =~= terms_fragments(terms@));
    r
}

impl From<Clause> for Value {
    /// The clause's text in parentheses, as a raw fragment rendered unquoted.
    fn from(v: Clause) -> (r: Value)
        ensures
            r is Raw && r->Raw_0@ == parenthesized(v.text()),
            literal(r) == parenthesized(v.text()),
    {
        Value::Raw(wrap(v.to_string()))
    }
}

impl vstd::std_specs::convert::FromSpecImpl<Clause> for Value {
    /// Spec code cannot name the one `String` built here, so the conversion is
    /// described by the `ensures` of `from` alone.
    open spec fn obeys_from_spec() -> bool {
        false
    }

    open spec fn from_spec(v: Clause) -> Value {
        Value::Null
    }
}

} // verus!
