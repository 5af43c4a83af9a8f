//! SELECT statements assembled from tables, joins, filters and columns.
use vstd::prelude::*;
use vstd::string::*;
use crate::clause::Clause;
use crate::text::{views, join_strings};
use crate::clause::wrap;
use crate::value::parenthesized;

verus! {

/// A table reference: a name and an optional alias.
pub struct Table(String, Option<String>);

/// Text of a table reference: `name`, or `name AS alias`.
pub open spec fn table_text(t: (Seq<char>, Option<Seq<char>>)) -> Seq<char> {
    match t.1 {
        Some(alias) => t.0 + seq![' ', 'A', 'S', ' '] + alias,
        None => t.0,
    }
}

impl View for Table {
    type V = (Seq<char>, Option<Seq<char>>);

    closed spec fn view(&self) -> (Seq<char>, Option<Seq<char>>) {
        (self.0@, match self.1 {
            Some(a) => Some(a@),
            None => None,
        })
    }
}

impl Table {
    /// A table without alias.
    pub fn new(name: &str) -> (r: Table)
        ensures
            r@ == (name@, None::<Seq<char>>),
    {
        Table(String::from_str(name), None)
    }

    /// A table with an alias.
    pub fn aliased(name: &str, alias: &str) -> (r: Table)
        ensures
            r@ == (name@, Some(alias@)),
    {
        Table(String::from_str(name), Some(String::from_str(alias)))
    }

}

impl From<String> for Table {
    fn from(table: String) -> (r: Table)
        ensures
            r@ == (table@, None::<Seq<char>>),
    {
        Table(table, None)
    }
}

impl vstd::std_specs::convert::FromSpecImpl<String> for Table {
    /// Spec code cannot build a `Table`, so the conversion is described by
    /// the `ensures` of `from` alone.
    open spec fn obeys_from_spec() -> bool {
        false
    }

    open spec fn from_spec(table: String) -> Table {
        arbitrary()
    }
}

impl<'a> From<&'a String> for Table {
    fn from(table: &'a String) -> (r: Table)
        ensures
            r@ == (table@, None::<Seq<char>>),
    {
        Table(table.clone(), None)
    }
}

impl<'a> vstd::std_specs::convert::FromSpecImpl<&'a String> for Table {
    /// Spec code cannot build a `Table`, so the conversion is described by
    /// the `ensures` of `from` alone.
    open spec fn obeys_from_spec() -> bool {
        false
    }

    open spec fn from_spec(table: &'a String) -> Table {
        arbitrary()
    }
}

impl<'a> From<&'a str> for Table {
    fn from(table: &'a str) -> (r: Table)
        ensures
            r@ == (table@, None::<Seq<char>>),
    {
        Table::new(table)
    }
}

impl<'a> vstd::std_specs::convert::FromSpecImpl<&'a str> for Table {
    /// Spec code cannot build a `Table`, so the conversion is described by
    /// the `ensures` of `from` alone.
    open spec fn obeys_from_spec() -> bool {
        false
    }

    open spec fn from_spec(table: &'a str) -> Table {
        arbitrary()
    }
}

impl From<(String, String)> for Table {
    fn from(pair: (String, String)) -> (r: Table)
        ensures
            r@ == (pair.0@, Some(pair.1@)),
    {
        Table(pair.0, Some(pair.1))
    }
}

impl vstd::std_specs::convert::FromSpecImpl<(String, String)> for Table {
    /// Spec code cannot build a `Table`, so the conversion is described by
    /// the `ensures` of `from` alone.
    open spec fn obeys_from_spec() -> bool {
        false
    }

    open spec fn from_spec(pair: (String, String)) -> Table {
        arbitrary()
    }
}

impl<'a, 'b> From<(&'a str, &'b str)> for Table {
    fn from(pair: (&'a str, &'b str)) -> (r: Table)
        ensures
            r@ == (pair.0@, Some(pair.1@)),
    {
        Table::aliased(pair.0, pair.1)
    }
}

impl<'a, 'b> vstd::std_specs::convert::FromSpecImpl<(&'a str, &'b str)> for Table {
    /// Spec code cannot build a `Table`, so the conversion is described by
    /// the `ensures` of `from` alone.
    open spec fn obeys_from_spec() -> bool {
        false
    }

    open spec fn from_spec(pair: (&'a str, &'b str)) -> Table {
        arbitrary()
    }
}

/// A SELECT statement under construction.
pub struct SelectBuilder {
    columns: Vec<String>,
    from: Vec<Table>,
    inner_join: Vec<(Table, Clause)>,
    filters: Vec<Clause>,
    all: bool,
}

/// A rendered SELECT statement: its four segments.
pub struct Select {
    columns: String,
    from: String,
    inner_join: String,
    filter: String,
}

/// Column list: the columns separated by `, `, where an empty column at the
/// start of the list adds no separator.
pub open spec fn column_list(cols: Seq<Seq<char>>) -> Seq<char>
    decreases cols.len(),
{
    if cols.len() == 0 {
        Seq::empty()
    } else {
        let acc = column_list(cols.drop_last());
        if acc.len() > 0 {
            acc + seq![',', ' '] + cols.last()
        } else {
            cols.last()
        }
    }
}

/// Projection segment: `*`, or the column list.
pub open spec fn columns_text(all: bool, cols: Seq<Seq<char>>) -> Seq<char> {
    if all {
        seq!['*']
    } else {
        column_list(cols)
    }
}

/// FROM segment: empty without tables, else `FROM ` and the table references
/// separated by `, `.
pub open spec fn from_text(tables: Seq<(Seq<char>, Option<Seq<char>>)>) -> Seq<char>
    decreases tables.len(),
{
    if tables.len() == 0 {
        Seq::empty()
    } else if tables.len() == 1 {
        seq!['F', 'R', 'O', 'M', ' '] + table_text(tables[0])
    } else {
        from_text(tables.drop_last()) + seq![',', ' '] + table_text(tables.last())
    }
}

/// One join: ` INNER JOIN <table>`, followed by ` ON <condition>` when the
/// condition clause is valid.
pub open spec fn join_entry(table: (Seq<char>, Option<Seq<char>>), on: Clause) -> Seq<char> {
    let base = seq![' ', 'I', 'N', 'N', 'E', 'R', ' ', 'J', 'O', 'I', 'N', ' '] + table_text(table);
    if on.is_valid() {
        base + seq![' ', 'O', 'N', ' '] + on.text()
    } else {
        base
    }
}

/// INNER JOIN segment: the joins one after the other.
pub open spec fn joins_text(joins: Seq<((Seq<char>, Option<Seq<char>>), Clause)>) -> Seq<char>
    decreases joins.len(),
{
    if joins.len() == 0 {
        Seq::empty()
    } else {
        joins_text(joins.drop_last()) + join_entry(joins.last().0, joins.last().1)
    }
}

/// The texts of the valid clauses among `filters`, in order.
pub open spec fn valid_texts(filters: Seq<Clause>) -> Seq<Seq<char>>
    decreases filters.len(),
{
    if filters.len() == 0 {
        Seq::empty()
    } else if filters.last().is_valid() {
        valid_texts(filters.drop_last()).push(filters.last().text())
    } else {
        valid_texts(filters.drop_last())
    }
}

/// Whether `t` starts with `(` and ends with `)`.
pub open spec fn is_wrapped(t: Seq<char>) -> bool {
    t.len() >= 2 && t[0] == '(' && t.last() == ')'
}

/// ` AND (<text>)` for each of `texts`, one after the other.
pub open spec fn and_tail(texts: Seq<Seq<char>>) -> Seq<char>
    decreases texts.len(),
{
    if texts.len() == 0 {
        Seq::empty()
    } else {
        and_tail(texts.drop_last()) + seq![' ', 'A', 'N', 'D', ' '] + parenthesized(texts.last())
    }
}

/// WHERE segment over the texts of the valid filters: empty when there are
/// none; else `WHERE ` and the first text, put in parentheses when more
/// texts follow and it does not start with `(` and end with `)`, then
/// ` AND (<text>)` for each further text.
pub open spec fn where_text(texts: Seq<Seq<char>>) -> Seq<char> {
    if texts.len() == 0 {
        Seq::empty()
    } else {
        let first = if texts.len() > 1 && !is_wrapped(texts[0]) {
            parenthesized(texts[0])
        } else {
            texts[0]
        };
        seq!['W', 'H', 'E', 'R', 'E', ' '] + first + and_tail(texts.drop_first())
    }
}

/// `SELECT <columns> <from> <joins> <where>`, one space between segments.
pub open spec fn statement_text(
    columns: Seq<char>,
    from: Seq<char>,
    joins: Seq<char>,
    filter: Seq<char>,
) -> Seq<char> {
    seq!['S', 'E', 'L', 'E', 'C', 'T', ' '] + columns + seq![' '] + from + seq![' '] + joins
        + seq![' '] + filter
}

impl SelectBuilder {
    /// Whether the projection is `*`.
    pub closed spec fn projects_all(&self) -> bool {
        self.all
    }

    /// Projected columns, in order.
    pub closed spec fn column_views(&self) -> Seq<Seq<char>> {
        views(self.columns@)
    }

    /// Table references of the FROM segment, in order.
    pub closed spec fn tables(&self) -> Seq<(Seq<char>, Option<Seq<char>>)> {
        self.from@.map_values(|t: Table| t@)
    }

    /// Joins: each table reference with its condition, in order.
    pub closed spec fn joins(&self) -> Seq<((Seq<char>, Option<Seq<char>>), Clause)> {
        self.inner_join@.map_values(|j: (Table, Clause)| (j.0@, j.1))
    }

    /// Filter clauses, in order.
    pub closed spec fn filters(&self) -> Seq<Clause> {
        self.filters@
    }

    /// The statement this builder renders.
    pub open spec fn statement(&self) -> Seq<char> {
        statement_text(
            columns_text(self.projects_all(), self.column_views()),
            from_text(self.tables()),
            joins_text(self.joins()),
            where_text(valid_texts(self.filters())),
        )
    }

    /// An empty builder that projects `*`.
    pub fn new() -> (r: SelectBuilder)
        ensures
            r.projects_all(),
            r.column_views() == Seq::<Seq<char>>::empty(),
            r.tables() == Seq::<(Seq<char>, Option<Seq<char>>)>::empty(),
            r.joins() == Seq::<((Seq<char>, Option<Seq<char>>), Clause)>::empty(),
            r.filters() == Seq::<Clause>::empty(),
    {
        let r = SelectBuilder {
            columns: Vec::new(),
            from: Vec::new(),
            inner_join: Vec::new(),
            filters: Vec::new(),
            all: true,
        };
        assert(r.column_views() =~= Seq::<Seq<char>>::empty());
        assert(r.tables() =~= Seq::<(Seq<char>, Option<Seq<char>>)>::empty());
        assert(r.joins() =~= Seq::<((Seq<char>, Option<Seq<char>>), Clause)>::empty());
        r
    }
}

impl SelectBuilder {
    /// Text of a table reference: `name` or `name AS alias`.
    fn _table(table: &Table) -> (r: String)
        ensures
            r@ == table_text(table@),
    {
        match &table.1 {
            Some(alias) => {
                proof {
                    reveal_strlit(" AS ");
                }
                let mut r = table.0.clone();
                r.append(" AS ");
                r.append(alias.as_str());
                assert(r@ =~= table_text(table@));
                r
            },
            None => table.0.clone(),
        }
    }

    /// Projection segment.
    fn _columns(&self) -> (r: String)
        ensures
            r@ == columns_text(self.projects_all(), self.column_views()),
    {
        if self.all {
            proof {
                reveal_strlit("*");
            }
            String::from_str("*")
        } else {
            let mut acc = String::new();
            let mut i: usize = 0;
            while i < self.columns.len()
                invariant
                    i <= self.columns@.len(),
                    acc@ == column_list(views(self.columns@.subrange(0, i as int))),
                decreases self.columns@.len() - i,
            {
                proof {
                    reveal_strlit(", ");
                    assert(", "@ =~= seq![',', ' ']);
                    let next = views(self.columns@.subrange(0, i + 1));
                    assert(next.drop_last() =~= views(self.columns@.subrange(0, i as int)));
                    assert(next.last() == self.columns@[i as int]@);
                }
                if acc.as_str().unicode_len() > 0 {
                    acc.append(", ");
                    acc.append(self.columns[i].as_str());
                } else {
                    acc = self.columns[i].clone();
                }
                i = i + 1;
                assert(acc@ =~= column_list(views(self.columns@.subrange(0, i as int))));
            }
            assert(self.columns@.subrange(0, self.columns@.len() as int) =~= self.columns@);
            acc
        }
    }

    /// FROM segment.
    fn _from(&self) -> (r: String)
        ensures
            r@ == from_text(self.tables()),
    {
        let mut acc = String::new();
        let mut i: usize = 0;
        while i < self.from.len()
            invariant
                i <= self.from@.len(),
                acc@ == from_text(self.from@.subrange(0, i as int).map_values(|t: Table| t@)),
            decreases self.from@.len() - i,
        {
            let ghost next = self.from@.subrange(0, i + 1).map_values(|t: Table| t@);
            proof {
                reveal_strlit(", ");
                reveal_strlit("FROM ");
                assert(", "@ =~= seq![',', ' ']);
                assert("FROM "@ =~= seq!['F', 'R', 'O', 'M', ' ']);
                assert(next.drop_last() =~= self.from@.subrange(0, i as int).map_values(|t: Table| t@));
                assert(next.last() == self.from@[i as int]@);
            }
            let t = SelectBuilder::_table(&self.from[i]);
            if i > 0 {
                acc.append(", ");
                acc.append(t.as_str());
            } else {
                acc = String::from_str("FROM ");
                acc.append(t.as_str());
            }
            i = i + 1;
            assert(acc@ =~= from_text(next));
        }
        assert(self.from@.subrange(0, self.from@.len() as int) =~= self.from@);
        acc
    }

    /// INNER JOIN segment.
    fn _inner_join(&self) -> (r: String)
        ensures
            r@ == joins_text(self.joins()),
    {
        let mut acc = String::new();
        let mut i: usize = 0;
        while i < self.inner_join.len()
            invariant
                i <= self.inner_join@.len(),
                acc@ == joins_text(
                    self.inner_join@.subrange(0, i as int).map_values(|j: (Table, Clause)| (j.0@, j.1)),
                ),
            decreases self.inner_join@.len() - i,
        {
            let ghost next = self.inner_join@.subrange(0, i + 1).map_values(
                |j: (Table, Clause)| (j.0@, j.1),
            );
            proof {
                reveal_strlit(" INNER JOIN ");
                reveal_strlit(" ON ");
                assert(" INNER JOIN "@ =~= seq![' ', 'I', 'N', 'N', 'E', 'R', ' ', 'J', 'O', 'I', 'N', ' ']);
                assert(" ON "@ =~= seq![' ', 'O', 'N', ' ']);
                assert(next.drop_last() =~= self.inner_join@.subrange(0, i as int).map_values(
                    |j: (Table, Clause)| (j.0@, j.1),
                ));
            }
            let (table, on) = &self.inner_join[i];
            assert(next.last() == (table@, *on));
            let t = SelectBuilder::_table(table);
            acc.append(" INNER JOIN ");
            acc.append(t.as_str());
            if on.valid() {
                acc.append(" ON ");
                let c = on.to_string();
                acc.append(c.as_str());
            }
            i = i + 1;
            assert(acc@ =~= joins_text(next));
        }
        assert(self.inner_join@.subrange(0, self.inner_join@.len() as int) =~= self.inner_join@);
        acc
    }
}

/// Whether `t` starts with `(` and ends with `)`.
fn wrapped(t: &str) -> (r: bool)
    ensures
        r == is_wrapped(t@),
{
    let n = t.unicode_len();
    n >= 2 && t.get_char(0) == '(' && t.get_char(n - 1) == ')'
}

impl SelectBuilder {
    /// WHERE segment: the valid filters, combined with AND.
    fn _where(&self) -> (r: String)
        ensures
            r@ == where_text(valid_texts(self.filters())),
    {
        let mut texts: Vec<String> = Vec::new();
        let mut i: usize = 0;
        while i < self.filters.len()
            invariant
                i <= self.filters@.len(),
                views(texts@) == valid_texts(self.filters@.subrange(0, i as int)),
            decreases self.filters@.len() - i,
        {
            let ghost before = texts@;
            proof {
                let next = self.filters@.subrange(0, i + 1);
                assert(next.drop_last() =~= self.filters@.subrange(0, i as int));
                assert(next.last() == self.filters@[i as int]);
            }
            if self.filters[i].valid() {
                texts.push(self.filters[i].to_string());
                assert(views(texts@) =~= views(before).push(self.filters@[i as int].text()));
            }
            i = i + 1;
        }
        assert(self.filters@.subrange(0, self.filters@.len() as int) =~= self.filters@);
        let ghost all = views(texts@);
        if texts.len() == 0 {
            return String::new();
        }
        proof {
            reveal_strlit("WHERE ");
            assert("WHERE "@ =~= seq!['W', 'H', 'E', 'R', 'E', ' ']);
        }
        let first = if texts.len() > 1 && !wrapped(texts[0].as_str()) {
            wrap(texts[0].clone())
        } else {
            texts[0].clone()
        };
        let mut acc = String::from_str("WHERE ");
        acc.append(first.as_str());
        let ghost head = acc@;
        let mut j: usize = 1;
        while j < texts.len()
            invariant
                1 <= j <= texts@.len(),
                all == views(texts@),
                acc@ == head + and_tail(all.subrange(1, j as int)),
            decreases texts@.len() - j,
        {
            proof {
                reveal_strlit(" AND ");
                assert(" AND "@ =~= seq![' ', 'A', 'N', 'D', ' ']);
                let next = all.subrange(1, j + 1);
                assert(next.drop_last() =~= all.subrange(1, j as int));
                assert(next.last() == texts@[j as int]@);
            }
            let t = wrap(texts[j].clone());
            acc.append(" AND ");
            acc.append(t.as_str());
            j = j + 1;
            assert(acc@ =~= head + and_tail(all.subrange(1, j as int)));
        }
        assert(all.subrange(1, all.len() as int) =~= all.drop_first());
        assert(acc@ =~= where_text(all));
        acc
    }
}

impl SelectBuilder {
    /// Projects the given columns, after any projected before, in place of `*`.
    pub fn select(&mut self, columns: &[&str]) -> (r: &mut Self)
        ensures
            !r.projects_all(),
            r.column_views() == old(self).column_views() + columns@.map_values(|c: &str| c@),
            r.tables() == old(self).tables(),
            r.joins() == old(self).joins(),
            r.filters() == old(self).filters(),
            *final(self) == *final(r),
    {
        self.all = false;
        let ghost start = self.columns@;
        let mut i: usize = 0;
        while i < columns.len()
            invariant
                i <= columns@.len(),
                views(self.columns@) == views(start) + columns@.subrange(0, i as int).map_values(|c: &str| c@),
                self.from == old(self).from,
                self.inner_join == old(self).inner_join,
                self.filters == old(self).filters,
                !self.all,
            decreases columns@.len() - i,
        {
            let ghost before = self.columns@;
            self.columns.push(String::from_str(columns[i]));
            i = i + 1;
            assert(views(self.columns@) =~= views(before).push(columns@[i - 1]@));
            assert(views(self.columns@) =~= views(start) + columns@.subrange(0, i as int).map_values(|c: &str| c@));
        }
        assert(columns@.subrange(0, columns@.len() as int) =~= columns@);
        self
    }

    /// Adds one table reference to the FROM segment.
    pub fn from<T: Into<Table>>(&mut self, table: T) -> (r: &mut Self)
        ensures
            exists|t: Table|
                call_ensures(<T as Into<Table>>::into, (table,), t)
                && r.tables() == old(self).tables().push(t@),
            r.projects_all() == old(self).projects_all(),
            r.column_views() == old(self).column_views(),
            r.joins() == old(self).joins(),
            r.filters() == old(self).filters(),
            *final(self) == *final(r),
    {
        let t = table.into();
        self.from.push(t);
        assert(self.tables() =~= old(self).tables().push(t@));
        self
    }

    /// Adds one join; an invalid `clause` makes it a join without condition.
    pub fn inner_join<T: Into<Table>>(&mut self, table: T, clause: Clause) -> (r: &mut Self)
        ensures
            exists|t: Table|
                call_ensures(<T as Into<Table>>::into, (table,), t)
                && r.joins() == old(self).joins().push((t@, clause)),
            r.projects_all() == old(self).projects_all(),
            r.column_views() == old(self).column_views(),
            r.tables() == old(self).tables(),
            r.filters() == old(self).filters(),
            *final(self) == *final(r),
    {
        let t = table.into();
        let ghost tv = t@;
        self.inner_join.push((t, clause));
        assert(self.joins() =~= old(self).joins().push((tv, clause)));
        self
    }

    /// Adds one filter clause; filters are combined with AND, and invalid
    /// ones leave no trace.
    pub fn where_clause(&mut self, clause: Clause) -> (r: &mut Self)
        ensures
            r.filters() == old(self).filters().push(clause),
            r.projects_all() == old(self).projects_all(),
            r.column_views() == old(self).column_views(),
            r.tables() == old(self).tables(),
            r.joins() == old(self).joins(),
            *final(self) == *final(r),
    {
        self.filters.push(clause);
        self
    }

    /// Renders the statement.
    pub fn build(&mut self) -> (r: Select)
        ensures
            r.text() == old(self).statement(),
            *final(self) == *old(self),
    {
        Select {
            columns: self._columns(),
            from: self._from(),
            filter: self._where(),
            inner_join: self._inner_join(),
        }
    }
}

impl Select {
    /// The text of the statement.
    pub closed spec fn text(&self) -> Seq<char> {
        statement_text(self.columns@, self.from@, self.inner_join@, self.filter@)
    }

    /// `SELECT <columns> <from> <joins> <where>`.
    pub fn to_string(&self) -> (r: String)
        ensures
            r@ == self.text(),
    {
        proof {
            reveal_strlit("SELECT ");
            reveal_strlit(" ");
        }
        let mut r = String::from_str("SELECT ");
        r.append(self.columns.as_str());
        r.append(" ");
        r.append(self.from.as_str());
        r.append(" ");
        r.append(self.inner_join.as_str());
        r.append(" ");
        r.append(self.filter.as_str());
        assert(r@ =~= self.text());
        r
    }
}

} // verus!
