//! Result rows: ordered maps from column name to JSON value in which no
//! name occurs twice.

use vstd::prelude::*;
use crate::value::{
    marshal, marshal_cell, marshal_read, marshal_value, JsonValue, JsonValueView, SqlValue,
};

verus! {

/// One named value of a row.
#[derive(Clone, Debug, PartialEq, Eq)]
pub struct Field {
    pub name: String,
    pub value: JsonValue,
}

impl View for Field {
    type V = (Seq<char>, JsonValueView);

    open spec fn view(&self) -> (Seq<char>, JsonValueView) {
        (self.name@, self.value@)
    }
}

/// A row's content: its named values in column order.
pub type Entries = Seq<(Seq<char>, JsonValueView)>;

/// The names of some entries, in their order.
pub open spec fn names_of(entries: Entries) -> Seq<Seq<char>> {
    entries.map_values(|e: (Seq<char>, JsonValueView)| e.0)
}

/// Where `name` first stands among the entries, or their length if it
/// stands nowhere.
pub open spec fn position(entries: Entries, name: Seq<char>) -> int
    decreases entries.len(),
{
    if entries.len() == 0 {
        0
    } else if entries[0].0 == name {
        0
    } else {
        1 + position(entries.drop_first(), name)
    }
}

/// The entries after `name` has been set to `value`: a name already present
/// keeps its place and takes the new value, a new name goes to the end.
pub open spec fn upsert(entries: Entries, name: Seq<char>, value: JsonValueView) -> Entries {
    let p = position(entries, name);
    if p < entries.len() {
        entries.update(p, (name, value))
    } else {
        entries.push((name, value))
    }
}

/// The entries that result from setting each of the first `n` names to the
/// value beside it, from left to right.
pub open spec fn collect_first(
    names: Seq<Seq<char>>,
    values: Seq<JsonValueView>,
    n: nat,
) -> Entries
    decreases n,
{
    if n == 0 {
        Seq::empty()
    } else {
        upsert(collect_first(names, values, (n - 1) as nat), names[n - 1], values[n - 1])
    }
}

/// The entries that result from setting each name to the value beside it,
/// from left to right. Names and values are paired up as far as both reach.
pub open spec fn collect(names: Seq<Seq<char>>, values: Seq<JsonValueView>) -> Entries {
    collect_first(
        names,
        values,
        if names.len() <= values.len() {
            names.len()
        } else {
            values.len()
        },
    )
}

/// The names in order of first occurrence, each once.
pub open spec fn distinct(names: Seq<Seq<char>>) -> Seq<Seq<char>>
    decreases names.len(),
{
    if names.len() == 0 {
        Seq::empty()
    } else {
        let before = distinct(names.drop_last());
        if before.contains(names.last()) {
            before
        } else {
            before.push(names.last())
        }
    }
}

/// The map that some entries stand for: each name to the value of its first
/// entry.
pub open spec fn as_map(entries: Entries) -> Map<Seq<char>, JsonValueView> {
    Map::new(
        |k: Seq<char>| position(entries, k) < entries.len(),
        |k: Seq<char>| entries[position(entries, k)].1,
    )
}

/// The views of a list of fields, element by element.
pub open spec fn field_views(fields: Seq<Field>) -> Entries {
    fields.map_values(|f: Field| f@)
}

/// The views of a list of strings, element by element.
pub open spec fn string_views(strings: Seq<String>) -> Seq<Seq<char>> {
    strings.map_values(|s: String| s@)
}

/// The views of a list of JSON values, element by element.
pub open spec fn value_views(values: Seq<JsonValue>) -> Seq<JsonValueView> {
    values.map_values(|v: JsonValue| v@)
}

/// The JSON values of a list of SQL values, element by element.
pub open spec fn marshal_all(cells: Seq<SqlValue>) -> Seq<JsonValueView> {
    cells.map_values(|c: SqlValue| marshal(c@))
}

/// What the outcomes of reading a list of cells become, element by element:
/// the JSON value of a cell that was read, null for one that was not.
pub open spec fn marshal_reads<E>(reads: Seq<Result<SqlValue, E>>) -> Seq<JsonValueView> {
    reads.map_values(|r: Result<SqlValue, E>| marshal_read(r))
}

/// `position` finds the first entry of a name, and only an entry of it.
pub proof fn lemma_position(entries: Entries, name: Seq<char>)
    ensures
        0 <= position(entries, name) <= entries.len(),
        position(entries, name) < entries.len() ==> entries[position(entries, name)].0 == name,
        forall|j: int| 0 <= j < position(entries, name) ==> (#[trigger] entries[j]).0 != name,
        position(entries, name) < entries.len() <==> names_of(entries).contains(name),
    decreases entries.len(),
{
    if entries.len() > 0 {
        let rest = entries.drop_first();
        lemma_position(rest, name);
        let p = position(entries, name);
        assert forall|j: int| 0 <= j < p implies (#[trigger] entries[j]).0 != name by {
            if j > 0 {
                assert(rest[j - 1] == entries[j]);
            }
        }
        if p < entries.len() {
            assert(names_of(entries)[p] == name);
        } else {
            assert forall|j: int| 0 <= j < entries.len() implies names_of(entries)[j] != name by {
                assert(entries[j].0 != name);
            }
        }
    }
}

/// Setting a name keeps every other name where it was, adds the name at the
/// end if it is new, and keeps the names free of repetitions.
pub proof fn lemma_upsert_names(entries: Entries, name: Seq<char>, value: JsonValueView)
    ensures
        names_of(upsert(entries, name, value)) == if names_of(entries).contains(name) {
            names_of(entries)
        } else {
            names_of(entries).push(name)
        },
        names_of(entries).no_duplicates() ==> names_of(
            upsert(entries, name, value),
        ).no_duplicates(),
{
    lemma_position(entries, name);
    let after = upsert(entries, name, value);
    if names_of(entries).contains(name) {
        assert(names_of(after) =~= names_of(entries));
    } else {
        assert(names_of(after) =~= names_of(entries).push(name));
    }
}

/// After a name has been set it maps to the new value, and every other name
/// maps to what it mapped to before.
pub proof fn lemma_upsert_map(entries: Entries, name: Seq<char>, value: JsonValueView)
    ensures
        as_map(upsert(entries, name, value)) == as_map(entries).insert(name, value),
{
    let after = upsert(entries, name, value);
    lemma_position(entries, name);
    assert forall|k: Seq<char>| #[trigger]
        as_map(after).dom().contains(k) == as_map(entries).insert(name, value).dom().contains(
            k,
        ) && (as_map(after).dom().contains(k) ==> as_map(after)[k] == as_map(entries).insert(
            name,
            value,
        )[k]) by {
        lemma_position(entries, k);
        lemma_position(after, k);
        let p = position(entries, name);
        let q = position(entries, k);
        let r = position(after, k);
        if k == name {
            if r != p {
                if r < p {
                    assert(after[r].0 == entries[r].0);
                } else {
                    assert(after[p].0 == name);
                }
            }
        } else {
            if q < entries.len() {
                assert(after[q].0 == k);
                if r < q {
                    assert(after[r].0 == entries[r].0);
                }
            } else {
                if r < after.len() {
                    assert(r < entries.len());
                    assert(after[r].0 == entries[r].0);
                }
            }
        }
    }
    assert(as_map(after) =~= as_map(entries).insert(name, value));
}

/// The names of collected entries are the distinct names among those
/// collected: they do not depend on the values.
pub proof fn lemma_collect_names(names: Seq<Seq<char>>, values: Seq<JsonValueView>, n: nat)
    requires
        n <= names.len(),
    ensures
        names_of(collect_first(names, values, n)) == distinct(names.take(n as int)),
        names_of(collect_first(names, values, n)).no_duplicates(),
    decreases n,
{
    if n > 0 {
        let m = (n - 1) as nat;
        lemma_collect_names(names, values, m);
        lemma_upsert_names(collect_first(names, values, m), names[n - 1], values[n - 1]);
        assert(names.take(n as int).drop_last() =~= names.take(m as int));
        assert(names.take(n as int).last() == names[n - 1]);
    } else {
        assert(names_of(collect_first(names, values, n)) =~= Seq::<Seq<char>>::empty());
    }
}

/// The distinct names are the names, each once.
pub proof fn lemma_distinct(names: Seq<Seq<char>>)
    ensures
        distinct(names).no_duplicates(),
        forall|name: Seq<char>| distinct(names).contains(name) <==> names.contains(name),
    decreases names.len(),
{
    if names.len() > 0 {
        let front = names.drop_last();
        let last = names.last();
        let before = distinct(front);
        let all = distinct(names);
        lemma_distinct(front);
        assert forall|name: Seq<char>| all.contains(name) implies names.contains(name) by {
            if before.contains(name) {
                assert(front.contains(name));
                let i = choose|i: int| 0 <= i < front.len() && front[i] == name;
                assert(names[i] == name);
            } else {
                assert(names[names.len() - 1] == last);
            }
        }
        assert forall|name: Seq<char>| names.contains(name) implies all.contains(name) by {
            let i = choose|i: int| 0 <= i < names.len() && names[i] == name;
            if i < front.len() {
                assert(front[i] == name);
                assert(front.contains(name));
                assert(before.contains(name));
                let j = choose|j: int| 0 <= j < before.len() && before[j] == name;
                assert(all[j] == name);
            } else if before.contains(last) {
            } else {
                assert(all[before.len() as int] == last);
            }
        }
    }
}

/// In collected entries a name maps to the value beside its last
/// occurrence among the names collected.
pub proof fn lemma_collect_last_wins(
    names: Seq<Seq<char>>,
    values: Seq<JsonValueView>,
    n: nat,
    i: int,
)
    requires
        n <= names.len(),
        n <= values.len(),
        0 <= i < n,
        forall|j: int| i < j < n ==> names[j] != names[i],
    ensures
        as_map(collect_first(names, values, n)).contains_key(names[i]),
        as_map(collect_first(names, values, n))[names[i]] == values[i],
    decreases n,
{
    let m = (n - 1) as nat;
    lemma_upsert_map(collect_first(names, values, m), names[n - 1], values[n - 1]);
    if i < n - 1 {
        lemma_collect_last_wins(names, values, m, i);
    }
}

/// A row of a query result: each column name with its JSON value, in column
/// order. A name that the statement yields more than once is held once, at
/// the place of its first occurrence and with the value of its last.
#[derive(Clone, Debug, PartialEq, Eq)]
pub struct ResultRow {
    fields: Vec<Field>,
}

impl View for ResultRow {
    type V = Map<Seq<char>, JsonValueView>;

    open spec fn view(&self) -> Map<Seq<char>, JsonValueView> {
        as_map(self.entries())
    }
}

impl ResultRow {
    /// The named values in column order.
    pub closed spec fn entries(&self) -> Entries {
        field_views(self.fields@)
    }

    /// The column names in order.
    pub open spec fn keys(&self) -> Seq<Seq<char>> {
        names_of(self.entries())
    }

    /// No column name occurs twice.
    pub open spec fn wf(&self) -> bool {
        self.keys().no_duplicates()
    }

    /// A row without columns.
    pub fn new() -> (row: ResultRow)
        ensures
            row.wf(),
            row.entries() == Seq::<(Seq<char>, JsonValueView)>::empty(),
    {
        let row = ResultRow { fields: Vec::new() };
        assert(row.entries() =~= Seq::<(Seq<char>, JsonValueView)>::empty());
        assert(row.keys() =~= Seq::<Seq<char>>::empty());
        row
    }

    /// The number of columns.
    pub fn len(&self) -> (n: usize)
        ensures
            n == self.entries().len(),
    {
        self.fields.len()
    }

    /// The named values in column order.
    pub fn fields(&self) -> (fields: &Vec<Field>)
        ensures
            field_views(fields@) == self.entries(),
    {
        &self.fields
    }

    fn find(&self, name: &String) -> (p: usize)
        ensures
            p == position(self.entries(), name@),
    {
        let ghost target = position(self.entries(), name@);
        proof {
            lemma_position(self.entries(), name@);
        }
        let mut i: usize = 0;
        while i < self.fields.len()
            invariant
                i <= target <= self.fields.len(),
                target == position(self.entries(), name@),
                target < self.entries().len() ==> self.entries()[target].0 == name@,
                forall|j: int| 0 <= j < target ==> (#[trigger] self.entries()[j]).0 != name@,
            decreases self.fields.len() - i,
        {
            if self.fields[i].name == *name {
                assert(self.entries()[i as int].0 == name@);
                return i;
            }
            assert(self.entries()[i as int].0 != name@);
            i = i + 1;
        }
        i
    }

    /// Sets the column `name` to `value`. A column of that name keeps its
    /// place and takes the new value; otherwise the column is added last.
    pub fn insert(&mut self, name: String, value: JsonValue)
        requires
            old(self).wf(),
        ensures
            final(self).wf(),
            final(self).entries() == upsert(old(self).entries(), name@, value@),
            final(self)@ == old(self)@.insert(name@, value@),
    {
        let p = self.find(&name);
        proof {
            lemma_upsert_names(self.entries(), name@, value@);
            lemma_upsert_map(self.entries(), name@, value@);
        }
        let ghost before = self.entries();
        let ghost pair = (name@, value@);
        if p < self.fields.len() {
            self.fields.set(p, Field { name, value });
            assert(self.entries() =~= before.update(p as int, pair));
        } else {
            self.fields.push(Field { name, value });
            assert(self.entries() =~= before.push(pair));
        }
    }

    /// The value of the column `name`, if the row has that column.
    pub fn get(&self, name: &str) -> (found: Option<&JsonValue>)
        ensures
            match found {
                Some(v) => self@.contains_key(name@) && v@ == self@[name@],
                None => !self@.contains_key(name@),
            },
    {
        let key = name.to_owned();
        let p = self.find(&key);
        if p < self.fields.len() {
            Some(&self.fields[p].value)
        } else {
            None
        }
    }

    /// The column names in order.
    pub fn column_names(&self) -> (names: Vec<String>)
        ensures
            string_views(names@) == self.keys(),
    {
        let mut names: Vec<String> = Vec::new();
        let mut i: usize = 0;
        while i < self.fields.len()
            invariant
                i <= self.fields.len(),
                names.len() == i,
                forall|j: int| 0 <= j < i ==> (#[trigger] names[j])@ == self.keys()[j],
            decreases self.fields.len() - i,
        {
            names.push(self.fields[i].name.clone());
            i = i + 1;
        }
        assert(string_views(names@) =~= self.keys());
        names
    }

    /// Builds a row by setting each name to the value beside it, from left
    /// to right. Names and values are paired up as far as both reach.
    pub fn from_values(names: &Vec<String>, values: Vec<JsonValue>) -> (row: ResultRow)
        ensures
            row.wf(),
            row.entries() == collect(string_views(names@), value_views(values@)),
            names@.len() <= values@.len() ==> row.keys() == distinct(string_views(names@)),
    {
        let mut row = ResultRow::new();
        let ghost ns = string_views(names@);
        let ghost vs = value_views(values@);
        let mut i: usize = 0;
        for value in it: values.into_iter()
            invariant
                i == if it.index() <= names.len() {
                    it.index()
                } else {
                    names.len() as int
                },
                it.seq() == values@,
                ns == string_views(names@),
                vs == value_views(values@),
                row.wf(),
                row.entries() == collect_first(ns, vs, i as nat),
        {
            if i < names.len() {
                row.insert(names[i].clone(), value);
                i = i + 1;
            }
        }
        proof {
            if names@.len() <= values@.len() {
                lemma_collect_names(ns, vs, ns.len());
                assert(ns.take(ns.len() as int) =~= ns);
            }
        }
        row
    }

    /// Builds a row from the column names of a statement and the outcomes
    /// of reading the cells of one of its result rows. A cell that was read
    /// is marshaled; a cell that could not be read is null.
    pub fn from_reads<E>(names: &Vec<String>, reads: Vec<Result<SqlValue, E>>) -> (row: ResultRow)
        ensures
            row.wf(),
            row.entries() == collect(string_views(names@), marshal_reads(reads@)),
            names@.len() <= reads@.len() ==> row.keys() == distinct(string_views(names@)),
    {
        let mut values: Vec<JsonValue> = Vec::new();
        for read in it: reads.into_iter()
            invariant
                it.seq() == reads@,
                values.len() == it.index(),
                forall|j: int|
                    0 <= j < values.len() ==> (#[trigger] values[j])@ == marshal_read(reads[j]),
        {
            values.push(marshal_cell(read));
        }
        assert(value_views(values@) =~= marshal_reads(reads@));
        ResultRow::from_values(names, values)
    }

    /// Builds a row from the column names of a statement and the cells of
    /// one of its result rows, marshaling each cell.
    pub fn from_cells(names: &Vec<String>, cells: Vec<SqlValue>) -> (row: ResultRow)
        ensures
            row.wf(),
            row.entries() == collect(string_views(names@), marshal_all(cells@)),
            names@.len() <= cells@.len() ==> row.keys() == distinct(string_views(names@)),
    {
        let values = marshal_values(cells);
        ResultRow::from_values(names, values)
    }
}

/// All rows are well formed and have the same columns in the same order.
pub open spec fn uniform(rows: Seq<ResultRow>) -> bool {
    forall|i: int|
        0 <= i < rows.len() ==> (#[trigger] rows[i]).wf() && rows[i].keys() == rows[0].keys()
}

/// Marshals each cell of a row, in order.
pub fn marshal_values(cells: Vec<SqlValue>) -> (values: Vec<JsonValue>)
    ensures
        value_views(values@) == marshal_all(cells@),
{
    let mut values: Vec<JsonValue> = Vec::new();
    for cell in it: cells.into_iter()
        invariant
            it.seq() == cells@,
            values.len() == it.index(),
            forall|j: int| 0 <= j < values.len() ==> (#[trigger] values[j])@ == marshal(cells[j]@),
    {
        values.push(marshal_value(cell));
    }
    assert(value_views(values@) =~= marshal_all(cells@));
    values
}

} // verus!
