//! What the statements of the stores do, read from their SQL text: the row an `INSERT`
//! stores, the rows a `WHERE` clause selects, and the columns a `SELECT` returns. Each
//! is stated for the text itself, as a function of the values bound to `$1`, `$2`, ...,
//! so that a statement whose placeholders or columns are out of place means something
//! else.
use crate::stores::SqlParamView;
use crate::text::{decimal, joined};
use vstd::prelude::*;

verus! {

/// A value held in a column.
pub enum DbValue {
    Null,
    Uuid(u128),
    Text(Seq<char>),
    Bool(bool),
    Int(int),
    Timestamp(i64),
}

/// The value that a bound parameter puts in a column.
pub open spec fn bound_value(p: SqlParamView) -> DbValue {
    match p {
        SqlParamView::Uuid(u) => DbValue::Uuid(u),
        SqlParamView::Text(t) => DbValue::Text(t),
        SqlParamView::NullableText(Some(t)) => DbValue::Text(t),
        SqlParamView::NullableText(None) => DbValue::Null,
        SqlParamView::NullableUuid(Some(u)) => DbValue::Uuid(u),
        SqlParamView::NullableUuid(None) => DbValue::Null,
        SqlParamView::Bool(b) => DbValue::Bool(b),
        SqlParamView::NullableBool(Some(b)) => DbValue::Bool(b),
        SqlParamView::NullableBool(None) => DbValue::Null,
        SqlParamView::Int(n) => DbValue::Int(n as int),
        SqlParamView::NullableInt(Some(n)) => DbValue::Int(n as int),
        SqlParamView::NullableInt(None) => DbValue::Null,
        SqlParamView::BigInt(n) => DbValue::Int(n as int),
        SqlParamView::Timestamp(t) => DbValue::Timestamp(t),
    }
}

/// The value bound to the placeholder `$k`, where there is one.
pub open spec fn placeholder_value(binds: Seq<SqlParamView>, k: nat) -> Option<DbValue> {
    if 1 <= k <= binds.len() {
        Some(bound_value(binds[k - 1]))
    } else {
        None
    }
}

/// The text of the placeholder `$k`.
pub open spec fn placeholder(k: nat) -> Seq<char> {
    seq!['$'] + decimal(k)
}

/// `row` holds `value` in its column `column`.
pub open spec fn holds(row: Map<Seq<char>, DbValue>, column: Seq<char>, value: DbValue) -> bool {
    row.dom().contains(column) && row[column] == value
}

// ----- INSERT -----

/// The text `INSERT INTO table (c1, c2, ...) VALUES ($k1, $k2, ...)` followed by `rest`.
pub open spec fn insert_text(
    table: Seq<char>,
    columns: Seq<Seq<char>>,
    values: Seq<nat>,
    rest: Seq<char>,
) -> Seq<char> {
    "INSERT INTO "@ + table + " ("@ + joined(columns, ", "@) + ") VALUES ("@ + joined(
        values.map_values(|k: nat| placeholder(k)),
        ", "@,
    ) + ")"@ + rest
}

/// The row that an insert of `columns` from the placeholders `values` stores: each
/// listed column holds the value bound to its own placeholder.
pub open spec fn inserted_row(
    columns: Seq<Seq<char>>,
    values: Seq<nat>,
    binds: Seq<SqlParamView>,
) -> Map<Seq<char>, DbValue>
    decreases columns.len(),
{
    if columns.len() == 0 || values.len() == 0 {
        Map::empty()
    } else {
        inserted_row(columns.drop_last(), values.drop_last(), binds).insert(
            columns.last(),
            match placeholder_value(binds, values.last()) {
                Some(v) => v,
                None => DbValue::Null,
            },
        )
    }
}

/// `sql`, run with `binds`, inserts into `table` one row that holds exactly `row`: it
/// names each column once, and each column takes the value of its own placeholder.
pub open spec fn inserts(
    sql: Seq<char>,
    table: Seq<char>,
    binds: Seq<SqlParamView>,
    row: Map<Seq<char>, DbValue>,
) -> bool {
    exists|columns: Seq<Seq<char>>, values: Seq<nat>, rest: Seq<char>|
        #![trigger insert_text(table, columns, values, rest)]
        columns.len() == values.len() && columns.no_duplicates() && sql == insert_text(
            table,
            columns,
            values,
            rest,
        ) && inserted_row(columns, values, binds) == row
}

/// The texts of the placeholders `$1` to `$8`.
pub proof fn lemma_small_placeholders()
    ensures
        placeholder(1) == seq!['$', '1'],
        placeholder(2) == seq!['$', '2'],
        placeholder(3) == seq!['$', '3'],
        placeholder(4) == seq!['$', '4'],
        placeholder(5) == seq!['$', '5'],
        placeholder(6) == seq!['$', '6'],
        placeholder(7) == seq!['$', '7'],
        placeholder(8) == seq!['$', '8'],
{
    assert(placeholder(1) =~= seq!['$', '1']);
    assert(placeholder(2) =~= seq!['$', '2']);
    assert(placeholder(3) =~= seq!['$', '3']);
    assert(placeholder(4) =~= seq!['$', '4']);
    assert(placeholder(5) =~= seq!['$', '5']);
    assert(placeholder(6) =~= seq!['$', '6']);
    assert(placeholder(7) =~= seq!['$', '7']);
    assert(placeholder(8) =~= seq!['$', '8']);
}

/// The text `INSERT INTO table DEFAULT VALUES RETURNING c1, c2, ...`.
pub open spec fn defaults_insert_text(table: Seq<char>, returned: Seq<Seq<char>>) -> Seq<char> {
    "INSERT INTO "@ + table + " DEFAULT VALUES RETURNING "@ + joined(returned, ", "@)
}

/// `sql` inserts into `table` one row of its columns' default values and returns its
/// columns `returned`.
pub open spec fn inserts_defaults(sql: Seq<char>, table: Seq<char>, returned: Seq<Seq<char>>) -> bool {
    sql == defaults_insert_text(table, returned)
}

// ----- SELECT ... FROM ... WHERE -----

/// A condition of a `WHERE` clause.
pub enum Cond {
    /// `column = $k`.
    Eq(Seq<char>, nat),
    /// `column IS NULL`.
    IsNull(Seq<char>),
    /// `(column = $k OR column IS NULL)`.
    EqOrNull(Seq<char>, nat),
}

/// The text of a condition.
pub open spec fn cond_text(c: Cond) -> Seq<char> {
    match c {
        Cond::Eq(column, k) => column + " = "@ + placeholder(k),
        Cond::IsNull(column) => column + " IS NULL"@,
        Cond::EqOrNull(column, k) => "("@ + column + " = "@ + placeholder(k) + " OR "@ + column
            + " IS NULL)"@,
    }
}

/// The text of conditions joined with `AND`.
pub open spec fn conds_text(conds: Seq<Cond>) -> Seq<char> {
    joined(conds.map_values(|c: Cond| cond_text(c)), " AND "@)
}

/// Whether `row` meets the condition, with `binds` bound to the placeholders.
pub open spec fn cond_holds(c: Cond, binds: Seq<SqlParamView>, row: Map<Seq<char>, DbValue>) -> bool {
    match c {
        Cond::Eq(column, k) => match placeholder_value(binds, k) {
            Some(v) => holds(row, column, v),
            None => false,
        },
        Cond::IsNull(column) => holds(row, column, DbValue::Null),
        Cond::EqOrNull(column, k) => holds(row, column, DbValue::Null) || match placeholder_value(
            binds,
            k,
        ) {
            Some(v) => holds(row, column, v),
            None => false,
        },
    }
}

/// Whether `row` meets every condition.
pub open spec fn all_hold(conds: Seq<Cond>, binds: Seq<SqlParamView>, row: Map<Seq<char>, DbValue>) -> bool {
    forall|i: int| 0 <= i < conds.len() ==> #[trigger] cond_holds(conds[i], binds, row)
}

/// An item of a select list.
pub enum Item {
    /// `column`: the column under its own name.
    Column(Seq<char>),
    /// `source AS name`: the column `source` under the name `name`.
    Renamed(Seq<char>, Seq<char>),
}

/// The text of an item.
pub open spec fn item_text(item: Item) -> Seq<char> {
    match item {
        Item::Column(c) => c,
        Item::Renamed(source, name) => source + " AS "@ + name,
    }
}

/// The name under which an item is returned.
pub open spec fn item_name(item: Item) -> Seq<char> {
    match item {
        Item::Column(c) => c,
        Item::Renamed(_, name) => name,
    }
}

/// The column that an item reads.
pub open spec fn item_source(item: Item) -> Seq<char> {
    match item {
        Item::Column(c) => c,
        Item::Renamed(source, _) => source,
    }
}

/// The text `SELECT items FROM table WHERE conds`.
pub open spec fn select_text(items: Seq<Item>, table: Seq<char>, conds: Seq<Cond>) -> Seq<char> {
    "SELECT "@ + joined(items.map_values(|i: Item| item_text(i)), ", "@) + " FROM "@ + table
        + " WHERE "@ + conds_text(conds)
}

/// The row returned for a stored row: each item's name with the value of its column.
pub open spec fn output_row(items: Seq<Item>, stored: Map<Seq<char>, DbValue>) -> Map<Seq<char>, DbValue>
    decreases items.len(),
{
    if items.len() == 0 {
        Map::empty()
    } else {
        output_row(items.drop_last(), stored).insert(
            item_name(items.last()),
            stored[item_source(items.last())],
        )
    }
}

/// Every returned row holds, under `name`, the value of the stored row's `column`.
pub open spec fn reads_column(items: Seq<Item>, name: Seq<char>, column: Seq<char>) -> bool {
    forall|stored: Map<Seq<char>, DbValue>|
        #![trigger output_row(items, stored)]
        output_row(items, stored).dom().contains(name) && output_row(items, stored)[name]
            == stored[column]
}

/// `sql`, run with `binds`, selects from `table` exactly the rows that `chosen` accepts, and
/// returns each column of `columns` as it is stored, under its own name.
pub open spec fn looks_up(
    sql: Seq<char>,
    table: Seq<char>,
    binds: Seq<SqlParamView>,
    chosen: spec_fn(Map<Seq<char>, DbValue>) -> bool,
    columns: Seq<Seq<char>>,
) -> bool {
    exists|items: Seq<Item>, conds: Seq<Cond>|
        #![trigger select_text(items, table, conds)]
        sql == select_text(items, table, conds) && (forall|row: Map<Seq<char>, DbValue>|
            #[trigger] all_hold(conds, binds, row) <==> chosen(row)) && (forall|i: int|
            0 <= i < columns.len() ==> reads_column(items, #[trigger] columns[i], columns[i]))
}

/// The rows whose `column` holds `value`.
pub open spec fn with_value(column: Seq<char>, value: DbValue) -> spec_fn(Map<Seq<char>, DbValue>) -> bool {
    |row: Map<Seq<char>, DbValue>| holds(row, column, value)
}

/// The condition `column = $1`, with `bind` bound to `$1`, selects exactly the rows whose
/// `column` holds the bound value.
pub proof fn lemma_single_condition(column: Seq<char>, bind: SqlParamView)
    ensures
        forall|row: Map<Seq<char>, DbValue>| #[trigger]
            all_hold(seq![Cond::Eq(column, 1)], seq![bind], row) <==> with_value(
                column,
                bound_value(bind),
            )(row),
{
    let conds = seq![Cond::Eq(column, 1)];
    assert forall|row: Map<Seq<char>, DbValue>| #[trigger]
        all_hold(conds, seq![bind], row) <==> with_value(column, bound_value(bind))(row) by {
        if all_hold(conds, seq![bind], row) {
            assert(cond_holds(conds[0], seq![bind], row));
        }
    }
}

/// A select list of columns under their own names returns each column as stored, where
/// the names differ.
pub proof fn lemma_columns_read_back(items: Seq<Item>, names: Seq<Seq<char>>)
    requires
        items == names.map_values(|n: Seq<char>| Item::Column(n)),
        names.no_duplicates(),
    ensures
        forall|i: int| 0 <= i < names.len() ==> reads_column(items, #[trigger] names[i], names[i]),
    decreases names.len(),
{
    if names.len() > 0 {
        let shorter = names.drop_last();
        let fewer = items.drop_last();
        assert(fewer =~= shorter.map_values(|n: Seq<char>| Item::Column(n)));
        assert(shorter.no_duplicates());
        lemma_columns_read_back(fewer, shorter);
        assert forall|i: int| 0 <= i < names.len() implies reads_column(
            items,
            #[trigger] names[i],
            names[i],
        ) by {
            assert forall|stored: Map<Seq<char>, DbValue>| #[trigger]
                output_row(items, stored).dom().contains(names[i]) && output_row(items, stored)[names[i]]
                    == stored[names[i]] by {
                if i < names.len() - 1 {
                    assert(shorter[i] == names[i]);
                    assert(output_row(fewer, stored).dom().contains(shorter[i]));
                    assert(names[i] != names[names.len() - 1]);
                }
            }
        }
    }
}

// ----- DELETE -----

/// The text `DELETE FROM table WHERE conds`.
pub open spec fn delete_text(table: Seq<char>, conds: Seq<Cond>) -> Seq<char> {
    "DELETE FROM "@ + table + " WHERE "@ + conds_text(conds)
}

/// `sql`, run with `binds`, deletes from `table` exactly the rows that `chosen` accepts.
pub open spec fn deletes(
    sql: Seq<char>,
    table: Seq<char>,
    binds: Seq<SqlParamView>,
    chosen: spec_fn(Map<Seq<char>, DbValue>) -> bool,
) -> bool {
    exists|conds: Seq<Cond>|
        #![trigger delete_text(table, conds)]
        sql == delete_text(table, conds) && (forall|row: Map<Seq<char>, DbValue>|
            #[trigger] all_hold(conds, binds, row) <==> chosen(row))
}

// ----- Statements keyed by their placeholders in order -----

/// The placeholders `$1` to `$n`.
pub open spec fn ordinals(n: nat) -> Seq<nat> {
    Seq::new(n, |i: int| (i + 1) as nat)
}

/// The row in which `columns[i]` holds the value bound to `$(i + 1)`.
pub open spec fn row_of(columns: Seq<Seq<char>>, binds: Seq<SqlParamView>) -> Map<Seq<char>, DbValue>
    decreases columns.len(),
{
    if columns.len() == 0 {
        Map::empty()
    } else {
        row_of(columns.drop_last(), binds).insert(
            columns.last(),
            bound_value(binds[columns.len() - 1]),
        )
    }
}

/// An insert of `columns` from `$1` to `$n` in order stores `row_of(columns, binds)`.
pub proof fn lemma_ordered_insert(columns: Seq<Seq<char>>, binds: Seq<SqlParamView>)
    requires
        binds.len() >= columns.len(),
    ensures
        inserted_row(columns, ordinals(columns.len()), binds) == row_of(columns, binds),
    decreases columns.len(),
{
    if columns.len() > 0 {
        let n = columns.len();
        assert(ordinals(n).drop_last() =~= ordinals((n - 1) as nat));
        lemma_ordered_insert(columns.drop_last(), binds);
        assert(placeholder_value(binds, ordinals(n).last()) == Some(bound_value(binds[n - 1])));
    }
}

/// The conditions `columns[0] = $1 AND columns[1] = $2 AND ...`.
pub open spec fn key_conds(columns: Seq<Seq<char>>) -> Seq<Cond> {
    Seq::new(columns.len(), |i: int| Cond::Eq(columns[i], (i + 1) as nat))
}

/// The rows in which each of `columns` holds the value bound to its placeholder.
pub open spec fn with_values(columns: Seq<Seq<char>>, binds: Seq<SqlParamView>) -> spec_fn(
    Map<Seq<char>, DbValue>,
) -> bool {
    |row: Map<Seq<char>, DbValue>|
        forall|i: int| 0 <= i < columns.len() ==> holds(row, #[trigger] columns[i], bound_value(binds[i]))
}

/// The conditions `columns[i] = $(i + 1)` select exactly the rows in which each column
/// holds its bound value.
pub proof fn lemma_key_conds(columns: Seq<Seq<char>>, binds: Seq<SqlParamView>)
    requires
        binds.len() >= columns.len(),
    ensures
        forall|row: Map<Seq<char>, DbValue>| #[trigger]
            all_hold(key_conds(columns), binds, row) <==> with_values(columns, binds)(row),
{
    let conds = key_conds(columns);
    assert forall|row: Map<Seq<char>, DbValue>| #[trigger]
        all_hold(conds, binds, row) <==> with_values(columns, binds)(row) by {
        if all_hold(conds, binds, row) {
            assert forall|i: int| 0 <= i < columns.len() implies holds(
                row,
                #[trigger] columns[i],
                bound_value(binds[i]),
            ) by {
                assert(cond_holds(conds[i], binds, row));
            }
        }
        if with_values(columns, binds)(row) {
            assert forall|i: int| 0 <= i < conds.len() implies #[trigger] cond_holds(
                conds[i],
                binds,
                row,
            ) by {
                assert(holds(row, columns[i], bound_value(binds[i])));
            }
        }
    }
}

// ----- UPDATE -----

/// An assignment of the `SET` clause of an update.
pub enum SetItem {
    /// `column = COALESCE($k, column)`: the bound value, or the stored one where it is NULL.
    Coalesce(Seq<char>, nat),
    /// `column = CASE WHEN $f THEN $v ELSE column END` (with `$f::boolean` where `cast`):
    /// the value bound to `$v` where `$f` is true, the stored one otherwise.
    Choose(Seq<char>, nat, nat, bool),
}

/// The text of an assignment.
pub open spec fn set_text(item: SetItem) -> Seq<char> {
    match item {
        SetItem::Coalesce(column, k) => column + " = COALESCE("@ + placeholder(k) + ", "@ + column
            + ")"@,
        SetItem::Choose(column, f, v, cast) => column + " = CASE WHEN "@ + placeholder(f) + (if cast {
            "::boolean"@
        } else {
            Seq::<char>::empty()
        }) + " THEN "@ + placeholder(v) + " ELSE "@ + column + " END"@,
    }
}

/// The text `UPDATE table SET sets WHERE conds` followed by `rest`.
pub open spec fn update_text(
    table: Seq<char>,
    sets: Seq<SetItem>,
    conds: Seq<Cond>,
    rest: Seq<char>,
) -> Seq<char> {
    "UPDATE "@ + table + " SET "@ + joined(sets.map_values(|i: SetItem| set_text(i)), ", "@)
        + " WHERE "@ + conds_text(conds) + rest
}

/// The value that an assignment gives its column, from the stored row and the binds.
pub open spec fn set_value(item: SetItem, binds: Seq<SqlParamView>, stored: Map<Seq<char>, DbValue>) -> DbValue {
    match item {
        SetItem::Coalesce(column, k) => match placeholder_value(binds, k) {
            Some(DbValue::Null) => stored[column],
            Some(v) => v,
            None => stored[column],
        },
        SetItem::Choose(column, f, v, _) => if placeholder_value(binds, f) == Some(
            DbValue::Bool(true),
        ) {
            match placeholder_value(binds, v) {
                Some(x) => x,
                None => stored[column],
            }
        } else {
            stored[column]
        },
    }
}

/// The column of an assignment.
pub open spec fn set_column(item: SetItem) -> Seq<char> {
    match item {
        SetItem::Coalesce(column, _) => column,
        SetItem::Choose(column, _, _, _) => column,
    }
}

/// The stored row after the assignments.
pub open spec fn updated_row(sets: Seq<SetItem>, binds: Seq<SqlParamView>, stored: Map<Seq<char>, DbValue>) -> Map<
    Seq<char>,
    DbValue,
>
    decreases sets.len(),
{
    if sets.len() == 0 {
        stored
    } else {
        updated_row(sets.drop_last(), binds, stored).insert(
            set_column(sets.last()),
            set_value(sets.last(), binds, stored),
        )
    }
}

/// `sql`, run with `binds`, changes in `table` exactly the rows whose `keys` hold the values
/// bound to `$1`, `$2`, ..., giving each the row `updated_row(sets, binds, stored)`: each
/// assigned column takes what its own placeholders say, the others keep their values.
pub open spec fn updates(
    sql: Seq<char>,
    table: Seq<char>,
    binds: Seq<SqlParamView>,
    keys: Seq<Seq<char>>,
    sets: Seq<SetItem>,
) -> bool {
    exists|rest: Seq<char>|
        #![trigger update_text(table, sets, key_conds(keys), rest)]
        sql == update_text(table, sets, key_conds(keys), rest) && (forall|row: Map<Seq<char>, DbValue>|
            #[trigger] all_hold(key_conds(keys), binds, row) <==> with_values(keys, binds)(row))
}

// ----- SELECT without WHERE -----

/// The text `SELECT items FROM table` followed by `rest`.
pub open spec fn list_text(items: Seq<Item>, table: Seq<char>, rest: Seq<char>) -> Seq<char> {
    "SELECT "@ + joined(items.map_values(|i: Item| item_text(i)), ", "@) + " FROM "@ + table + rest
}

/// `sql` returns every row of `table`, followed by `suffix` (an ordering or nothing), with
/// each column of `columns` as stored, under its own name.
pub open spec fn lists(sql: Seq<char>, table: Seq<char>, suffix: Seq<char>, columns: Seq<Seq<char>>) -> bool {
    exists|items: Seq<Item>|
        #![trigger list_text(items, table, suffix)]
        sql == list_text(items, table, suffix) && (forall|i: int|
            0 <= i < columns.len() ==> reads_column(items, #[trigger] columns[i], columns[i]))
}

} // verus!
