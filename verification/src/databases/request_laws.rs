use vstd::prelude::*;

use crate::databases::postgres::{
    column_definition, column_type_text, create_table_text, foreign_key_constraints, foreign_key_text, insert_text,
    primary_key_names, sql_literal, table_constraints,
    condition_text, delete_text, field_literals, field_names, get_text, key_list, update_text,
    value_list, where_clause,
};
use crate::databases::text::{int_text, seq_join};
use crate::models::database_condition::{ConditionModel, ConditionOperator};
use crate::models::database_field::{FieldModel, FieldValue};

verus! {

proof fn lemma_join_push(list: Seq<Seq<char>>, sep: Seq<char>, x: Seq<char>)
    requires
        list.len() > 0,
    ensures
        seq_join(list.push(x), sep) == seq_join(list, sep) + sep + x,
{
    assert(list.push(x).drop_last() =~= list);
}

proof fn lemma_join_one(x: Seq<char>, sep: Seq<char>)
    ensures
        seq_join(seq![x], sep) == x,
{
}

/// One condition gives ` WHERE ` and its text; one more condition appends
/// ` AND ` and its text.
pub proof fn lemma_where_clause_steps(cs: Seq<ConditionModel>, c: ConditionModel)
    ensures
        where_clause(Seq::empty()) == Seq::<char>::empty(),
        where_clause(seq![c]) == " WHERE "@ + condition_text(c),
        cs.len() > 0 ==> where_clause(cs.push(c)) == where_clause(cs) + " AND "@ + condition_text(c),
{
    assert(seq![c].map_values(|x: ConditionModel| condition_text(x)) =~= seq![condition_text(c)]);
    lemma_join_one(condition_text(c), " AND "@);
    if cs.len() > 0 {
        let texts = cs.map_values(|x: ConditionModel| condition_text(x));
        assert(cs.push(c).map_values(|x: ConditionModel| condition_text(x)) =~= texts.push(
            condition_text(c),
        ));
        lemma_join_push(texts, " AND "@, condition_text(c));
        assert(where_clause(cs.push(c)) =~= where_clause(cs) + " AND "@ + condition_text(c));
    }
}

/// A DELETE request without conditions removes every row; with one condition
/// it has ` WHERE ` and the condition's text before the final `;`; each more
/// condition adds ` AND ` and its text before the `;`, so a row is removed
/// only when it meets every condition.
pub proof fn lemma_delete_conditions(name: Seq<char>, cs: Seq<ConditionModel>, c: ConditionModel)
    ensures
        delete_text(name, Seq::empty()) == "DELETE FROM "@ + name + ";"@,
        delete_text(name, seq![c]) == "DELETE FROM "@ + name + " WHERE "@ + condition_text(c) + ";"@,
        cs.len() > 0 ==> delete_text(name, cs.push(c)) == delete_text(name, cs).drop_last()
            + " AND "@ + condition_text(c) + ";"@,
{
    reveal_strlit(";");
    lemma_where_clause_steps(cs, c);
    assert(delete_text(name, Seq::empty()) =~= "DELETE FROM "@ + name + ";"@);
    assert(delete_text(name, seq![c]) =~= "DELETE FROM "@ + name + " WHERE "@ + condition_text(c)
        + ";"@);
    if cs.len() > 0 {
        assert(delete_text(name, cs).drop_last() =~= "DELETE FROM "@ + name + where_clause(cs));
        assert(delete_text(name, cs.push(c)) =~= delete_text(name, cs).drop_last() + " AND "@
            + condition_text(c) + ";"@);
    }
}

/// An UPDATE request writes the key list and the value list of the columns;
/// without conditions it changes every row; with one condition it has
/// ` WHERE ` and the condition's text before the final `;`; each more
/// condition adds ` AND ` and its text before the `;`, so a row is changed
/// only when it meets every condition.
pub proof fn lemma_update_conditions(
    name: Seq<char>,
    fs: Seq<FieldModel>,
    cs: Seq<ConditionModel>,
    c: ConditionModel,
)
    ensures
        update_text(name, fs, Seq::empty()) == "UPDATE "@ + name + " SET ("@ + key_list(fs)
            + ") = ("@ + value_list(fs) + ")"@ + ";"@,
        update_text(name, fs, seq![c]) == update_text(name, fs, Seq::empty()).drop_last()
            + " WHERE "@ + condition_text(c) + ";"@,
        cs.len() > 0 ==> update_text(name, fs, cs.push(c)) == update_text(name, fs, cs).drop_last()
            + " AND "@ + condition_text(c) + ";"@,
{
    reveal_strlit(";");
    lemma_where_clause_steps(cs, c);
    let head = "UPDATE "@ + name + " SET ("@ + key_list(fs) + ") = ("@ + value_list(fs) + ")"@;
    assert(update_text(name, fs, Seq::empty()) =~= head + ";"@);
    assert(update_text(name, fs, Seq::empty()).drop_last() =~= head);
    assert(update_text(name, fs, seq![c]) =~= head + " WHERE "@ + condition_text(c) + ";"@);
    if cs.len() > 0 {
        assert(update_text(name, fs, cs).drop_last() =~= head + where_clause(cs));
        assert(update_text(name, fs, cs.push(c)) =~= update_text(name, fs, cs).drop_last()
            + " AND "@ + condition_text(c) + ";"@);
    }
}

/// A SELECT request reads the columns of the key list; without conditions it
/// reads every row; with one condition it has ` WHERE ` and the condition's
/// text before the final `;`; each more condition adds ` AND ` and its text
/// before the `;`, so a row is read only when it meets every condition.
pub proof fn lemma_get_conditions(
    name: Seq<char>,
    fs: Seq<FieldModel>,
    cs: Seq<ConditionModel>,
    c: ConditionModel,
)
    ensures
        get_text(name, fs, Seq::empty()) == "SELECT "@ + key_list(fs) + " from "@ + name + ";"@,
        get_text(name, fs, seq![c]) == get_text(name, fs, Seq::empty()).drop_last() + " WHERE "@
            + condition_text(c) + ";"@,
        cs.len() > 0 ==> get_text(name, fs, cs.push(c)) == get_text(name, fs, cs).drop_last()
            + " AND "@ + condition_text(c) + ";"@,
{
    reveal_strlit(";");
    lemma_where_clause_steps(cs, c);
    let head = "SELECT "@ + key_list(fs) + " from "@ + name;
    assert(get_text(name, fs, Seq::empty()) =~= head + ";"@);
    assert(get_text(name, fs, Seq::empty()).drop_last() =~= head);
    assert(get_text(name, fs, seq![c]) =~= head + " WHERE "@ + condition_text(c) + ";"@);
    if cs.len() > 0 {
        assert(get_text(name, fs, cs).drop_last() =~= head + where_clause(cs));
        assert(get_text(name, fs, cs.push(c)) =~= get_text(name, fs, cs).drop_last() + " AND "@
            + condition_text(c) + ";"@);
    }
}

/// Integers are written in decimal: a digit below ten is the one character
/// whose code is `'0'` plus the digit, a larger number is the text of its
/// tens followed by the text of its last digit, and a negative number is `-`
/// followed by the text of its magnitude.
pub proof fn lemma_int_text(n: int)
    ensures
        0 <= n < 10 ==> int_text(n).len() == 1 && int_text(n)[0] as int == n + 48,
        n >= 10 ==> int_text(n) == int_text(n / 10) + int_text(n % 10),
        n < 0 ==> int_text(n) == "-"@ + int_text(-n),
{
    reveal_strlit("-");
    if n >= 10 {
        assert(int_text(n) =~= int_text(n / 10) + int_text(n % 10));
    }
    if n < 0 {
        assert(int_text(n) =~= "-"@ + int_text(-n));
    }
}

/// A value is written as SQL in the same way wherever a request holds it: a
/// number in decimal, a text between single quotes whatever it holds (the
/// empty text gives `''`), a boolean as `true` or `false`.
pub proof fn lemma_literals(n: i64, t: Seq<char>)
    ensures
        sql_literal(FieldValue::Number(n)) == int_text(n as int),
        sql_literal(FieldValue::Text(t)) == "'"@ + t + "'"@,
        sql_literal(FieldValue::Text(t)).len() == t.len() + 2,
        sql_literal(FieldValue::Bool(true)) == "true"@,
        sql_literal(FieldValue::Bool(false)) == "false"@,
{
    reveal_strlit("'");
    reveal_strlit("true");
    reveal_strlit("false");
    assert(sql_literal(FieldValue::Text(t)) =~= "'"@ + t + "'"@);
    assert(sql_literal(FieldValue::Bool(true)) =~= "true"@);
    assert(sql_literal(FieldValue::Bool(false)) =~= "false"@);
}

/// A condition is written as the column's name, the comparison between
/// spaces, and the value's literal.
pub proof fn lemma_condition_text(name: Seq<char>, v: FieldValue)
    ensures
        condition_text(ConditionModel { name, operator: ConditionOperator::Eq, value: v }) == name
            + " = "@ + sql_literal(v),
        condition_text(ConditionModel { name, operator: ConditionOperator::Gt, value: v }) == name
            + " > "@ + sql_literal(v),
        condition_text(ConditionModel { name, operator: ConditionOperator::Gte, value: v }) == name
            + " >= "@ + sql_literal(v),
        condition_text(ConditionModel { name, operator: ConditionOperator::Lt, value: v }) == name
            + " < "@ + sql_literal(v),
        condition_text(ConditionModel { name, operator: ConditionOperator::Lte, value: v }) == name
            + " <= "@ + sql_literal(v),
{
    reveal_strlit(" = ");
    reveal_strlit(" > ");
    reveal_strlit(" >= ");
    reveal_strlit(" < ");
    reveal_strlit(" <= ");
    assert(condition_text(ConditionModel { name, operator: ConditionOperator::Eq, value: v })
        =~= name + " = "@ + sql_literal(v));
    assert(condition_text(ConditionModel { name, operator: ConditionOperator::Gt, value: v })
        =~= name + " > "@ + sql_literal(v));
    assert(condition_text(ConditionModel { name, operator: ConditionOperator::Gte, value: v })
        =~= name + " >= "@ + sql_literal(v));
    assert(condition_text(ConditionModel { name, operator: ConditionOperator::Lt, value: v })
        =~= name + " < "@ + sql_literal(v));
    assert(condition_text(ConditionModel { name, operator: ConditionOperator::Lte, value: v })
        =~= name + " <= "@ + sql_literal(v));
}

/// The key list and the value list grow together: no column gives nothing,
/// one column gives its name and its literal, and each more column appends
/// `, ` and its name to the keys and `, ` and its literal to the values.
pub proof fn lemma_key_value_lists(fs: Seq<FieldModel>, f: FieldModel)
    ensures
        key_list(Seq::empty()) == Seq::<char>::empty(),
        value_list(Seq::empty()) == Seq::<char>::empty(),
        key_list(seq![f]) == f.name,
        value_list(seq![f]) == sql_literal(f.value),
        fs.len() > 0 ==> key_list(fs.push(f)) == key_list(fs) + ", "@ + f.name,
        fs.len() > 0 ==> value_list(fs.push(f)) == value_list(fs) + ", "@ + sql_literal(f.value),
{
    assert(field_names(seq![f]) =~= seq![f.name]);
    assert(field_literals(seq![f]) =~= seq![sql_literal(f.value)]);
    assert(field_names(Seq::<FieldModel>::empty()) =~= Seq::<Seq<char>>::empty());
    assert(field_literals(Seq::<FieldModel>::empty()) =~= Seq::<Seq<char>>::empty());
    lemma_join_one(f.name, ", "@);
    lemma_join_one(sql_literal(f.value), ", "@);
    if fs.len() > 0 {
        assert(field_names(fs.push(f)) =~= field_names(fs).push(f.name));
        assert(field_literals(fs.push(f)) =~= field_literals(fs).push(sql_literal(f.value)));
        lemma_join_push(field_names(fs), ", "@, f.name);
        lemma_join_push(field_literals(fs), ", "@, sql_literal(f.value));
    }
}

/// An INSERT request names the columns by the key list and gives their
/// values by the value list, the same lists that an UPDATE request and the
/// key/value writing give; a single text column `t` is written `'t'`.
pub proof fn lemma_insert_text(name: Seq<char>, fs: Seq<FieldModel>, f: FieldModel, t: Seq<char>)
    ensures
        insert_text(name, fs) == "INSERT INTO "@ + name + "("@ + key_list(fs) + ") VALUES("@
            + value_list(fs) + ")"@,
        f.value == FieldValue::Text(t) ==> insert_text(name, seq![f]) == "INSERT INTO "@ + name
            + "("@ + f.name + ") VALUES("@ + "'"@ + t + "'"@ + ")"@,
{
    lemma_key_value_lists(fs, f);
    lemma_literals(0, t);
    assert(insert_text(name, fs) =~= "INSERT INTO "@ + name + "("@ + key_list(fs) + ") VALUES("@
        + value_list(fs) + ")"@);
    if f.value == FieldValue::Text(t) {
        assert(insert_text(name, seq![f]) =~= "INSERT INTO "@ + name + "("@ + f.name + ") VALUES("@
            + "'"@ + t + "'"@ + ")"@);
    }
}

/// `p` stands somewhere in `s`.
pub open spec fn has_part(s: Seq<char>, p: Seq<char>) -> bool {
    exists|k: int| 0 <= k <= s.len() - p.len() && #[trigger] s.subrange(k, k + p.len()) == p
}

proof fn lemma_part_in_middle(a: Seq<char>, p: Seq<char>, b: Seq<char>)
    ensures
        has_part(a + p + b, p),
{
    let k = a.len() as int;
    assert((a + p + b).subrange(k, k + p.len()) =~= p);
}

proof fn lemma_part_extend(a: Seq<char>, s: Seq<char>, b: Seq<char>, p: Seq<char>)
    requires
        has_part(s, p),
    ensures
        has_part(a + s + b, p),
{
    let k = choose|k: int| 0 <= k <= s.len() - p.len() && #[trigger] s.subrange(k, k + p.len()) == p;
    let k2 = k + a.len();
    assert((a + s + b).subrange(k2, k2 + p.len()) =~= s.subrange(k, k + p.len()));
}

/// Each item of a joined list stands in the joined text.
proof fn lemma_join_has_item(list: Seq<Seq<char>>, sep: Seq<char>, i: int)
    requires
        0 <= i < list.len(),
    ensures
        has_part(seq_join(list, sep), list[i]),
    decreases list.len(),
{
    if list.len() == 1 {
        lemma_part_in_middle(Seq::empty(), list[0], Seq::empty());
        assert(Seq::<char>::empty() + list[0] + Seq::<char>::empty() =~= list[0]);
    } else if i == list.len() - 1 {
        lemma_part_in_middle(seq_join(list.drop_last(), sep) + sep, list.last(), Seq::empty());
        assert(seq_join(list.drop_last(), sep) + sep + list.last() + Seq::<char>::empty()
            =~= seq_join(list, sep));
    } else {
        lemma_join_has_item(list.drop_last(), sep, i);
        lemma_part_extend(Seq::empty(), seq_join(list.drop_last(), sep), sep + list.last(), list[i]);
        assert(Seq::<char>::empty() + seq_join(list.drop_last(), sep) + (sep + list.last())
            =~= seq_join(list, sep));
    }
}

/// The names of the primary-key columns are those of the columns whose
/// primary-key flag is set, in order; no other flag counts.
pub proof fn lemma_primary_keys_listed(fs: Seq<FieldModel>)
    ensures
        primary_key_names(fs) == fs.filter_map(
            |f: FieldModel|
                if f.primary_key {
                    Some(f.name)
                } else {
                    None
                },
        ),
    decreases fs.len(),
{
    if fs.len() > 0 {
        lemma_primary_keys_listed(fs.drop_last());
        assert(primary_key_names(fs) =~= fs.filter_map(
            |f: FieldModel|
                if f.primary_key {
                    Some(f.name)
                } else {
                    None
                },
        ));
    }
}

/// The foreign-key constraints are one for each column that refers to
/// another table, in order, whatever its other flags.
pub proof fn lemma_foreign_keys_listed(fs: Seq<FieldModel>)
    ensures
        foreign_key_constraints(fs) == fs.filter_map(
            |f: FieldModel|
                match f.foreign_key {
                    Some((table, column)) => Some(
                        "FOREIGN KEY ("@ + column + ") REFERENCES "@ + table + "("@ + column
                            + ") ON DELETE SET NULL"@,
                    ),
                    None => None,
                },
        ),
        foreign_key_constraints(fs).len() == fs.filter(|f: FieldModel| f.foreign_key is Some).len(),
    decreases fs.len(),
{
    reveal_with_fuel(Seq::<FieldModel>::filter, 1);
    if fs.len() > 0 {
        lemma_foreign_keys_listed(fs.drop_last());
        assert(foreign_key_constraints(fs) =~= fs.filter_map(
            |f: FieldModel|
                match f.foreign_key {
                    Some((table, column)) => Some(
                        "FOREIGN KEY ("@ + column + ") REFERENCES "@ + table + "("@ + column
                            + ") ON DELETE SET NULL"@,
                    ),
                    None => None,
                },
        ));
    }
}

/// Columns that refer to the same tables give the same foreign-key
/// constraints, whatever their names, values and other flags.
pub proof fn lemma_foreign_keys_ignore_other_flags(fs: Seq<FieldModel>, gs: Seq<FieldModel>)
    requires
        fs.len() == gs.len(),
        forall|i: int| 0 <= i < fs.len() ==> #[trigger] fs[i].foreign_key == gs[i].foreign_key,
    ensures
        foreign_key_constraints(fs) == foreign_key_constraints(gs),
    decreases fs.len(),
{
    if fs.len() > 0 {
        lemma_foreign_keys_ignore_other_flags(fs.drop_last(), gs.drop_last());
        assert(fs.last().foreign_key == gs.last().foreign_key);
    }
}

proof fn lemma_foreign_key_in_list(fs: Seq<FieldModel>, i: int, table: Seq<char>, column: Seq<char>)
    requires
        0 <= i < fs.len(),
        fs[i].foreign_key == Some((table, column)),
    ensures
        foreign_key_constraints(fs).contains(foreign_key_text(table, column)),
    decreases fs.len(),
{
    let fk = foreign_key_text(table, column);
    if i == fs.len() - 1 {
        let l = foreign_key_constraints(fs.drop_last());
        assert(foreign_key_constraints(fs) == l.push(fk));
        assert(l.push(fk)[l.len() as int] == fk);
    } else {
        lemma_foreign_key_in_list(fs.drop_last(), i, table, column);
        let l = foreign_key_constraints(fs.drop_last());
        let j = choose|j: int| 0 <= j < l.len() && l[j] == fk;
        match fs.last().foreign_key {
            Some((t, c)) => {
                assert(foreign_key_constraints(fs)[j] == fk);
            },
            None => {},
        }
    }
}

/// A CREATE TABLE request holds the definition of every column, the
/// primary-key constraint when some column is a primary key, and the
/// foreign-key constraint of every column that refers to another table.
pub proof fn lemma_create_table_parts(name: Seq<char>, fs: Seq<FieldModel>, i: int)
    requires
        0 <= i < fs.len(),
    ensures
        has_part(create_table_text(name, fs), column_definition(fs[i])),
        fs[i].primary_key ==> has_part(
            create_table_text(name, fs),
            "PRIMARY KEY ("@ + seq_join(primary_key_names(fs), ","@) + ")"@,
        ),
        fs[i].foreign_key matches Some((table, column)) ==> has_part(
            create_table_text(name, fs),
            "FOREIGN KEY ("@ + column + ") REFERENCES "@ + table + "("@ + column
                + ") ON DELETE SET NULL"@,
        ),
{
    let cols = fs.map_values(|f: FieldModel| column_definition(f));
    let cons = table_constraints(fs);
    let before = "CREATE TABLE IF NOT EXISTS "@ + name + " (\n"@;
    let cols_text = seq_join(cols, ",\n"@);
    let cons_text = seq_join(cons, ",\n"@);
    assert(create_table_text(name, fs) == before + cols_text + ",\n"@ + cons_text + ");"@);
    lemma_join_has_item(cols, ",\n"@, i);
    lemma_part_extend(before, cols_text, ",\n"@ + cons_text + ");"@, column_definition(fs[i]));
    assert(before + cols_text + (",\n"@ + cons_text + ");"@) =~= create_table_text(name, fs));
    if fs[i].primary_key {
        lemma_primary_keys_listed(fs);
        lemma_pk_nonempty(fs, i);
        let pk = "PRIMARY KEY ("@ + seq_join(primary_key_names(fs), ","@) + ")"@;
        assert(cons[0] == pk);
        lemma_join_has_item(cons, ",\n"@, 0);
        lemma_part_extend(before + cols_text + ",\n"@, cons_text, ");"@, pk);
    }
    match fs[i].foreign_key {
        Some((table, column)) => {
            lemma_foreign_key_in_list(fs, i, table, column);
            let fk = foreign_key_text(table, column);
            let l = foreign_key_constraints(fs);
            let j = choose|j: int| 0 <= j < l.len() && l[j] == fk;
            let off = cons.len() - l.len();
            assert(cons[off + j] == fk);
            lemma_join_has_item(cons, ",\n"@, off + j);
            lemma_part_extend(before + cols_text + ",\n"@, cons_text, ");"@, fk);
        },
        None => {},
    }
}

proof fn lemma_pk_nonempty(fs: Seq<FieldModel>, i: int)
    requires
        0 <= i < fs.len(),
        fs[i].primary_key,
    ensures
        primary_key_names(fs).len() > 0,
    decreases fs.len(),
{
    if i < fs.len() - 1 {
        lemma_pk_nonempty(fs.drop_last(), i);
    }
}

/// A column is defined by its name, a space, the SQL type of its kind of
/// value, then ` NOT NULL` when it is mandatory and ` UNIQUE` when it is
/// unique, in that order.
pub proof fn lemma_column_definition(f: FieldModel)
    ensures
        column_type_text(FieldValue::Number(0)) == "INTEGER"@,
        column_type_text(FieldValue::Text(Seq::empty())) == "TEXT"@,
        column_type_text(FieldValue::Bool(false)) == "BOOLEAN"@,
        f.value is Number ==> column_type_text(f.value) == "INTEGER"@,
        f.value is Text ==> column_type_text(f.value) == "TEXT"@,
        f.value is Bool ==> column_type_text(f.value) == "BOOLEAN"@,
        !f.mandatory && !f.unique ==> column_definition(f) == f.name + " "@ + column_type_text(f.value),
        f.mandatory && !f.unique ==> column_definition(f) == f.name + " "@ + column_type_text(f.value)
            + " NOT NULL"@,
        !f.mandatory && f.unique ==> column_definition(f) == f.name + " "@ + column_type_text(f.value)
            + " UNIQUE"@,
        f.mandatory && f.unique ==> column_definition(f) == f.name + " "@ + column_type_text(f.value)
            + " NOT NULL"@ + " UNIQUE"@,
{
    assert(f.name + " "@ + column_type_text(f.value) + Seq::<char>::empty() + Seq::<char>::empty()
        =~= f.name + " "@ + column_type_text(f.value));
    assert(f.name + " "@ + column_type_text(f.value) + " NOT NULL"@ + Seq::<char>::empty()
        =~= f.name + " "@ + column_type_text(f.value) + " NOT NULL"@);
    assert(f.name + " "@ + column_type_text(f.value) + Seq::<char>::empty() + " UNIQUE"@
        =~= f.name + " "@ + column_type_text(f.value) + " UNIQUE"@);
}

/// A CREATE TABLE request starts with `CREATE TABLE IF NOT EXISTS`, the
/// table's name and ` (` and a line break, and ends with `);`.
pub proof fn lemma_create_table_frame(name: Seq<char>, fs: Seq<FieldModel>)
    ensures
        create_table_text(name, fs).take(("CREATE TABLE IF NOT EXISTS "@ + name + " (\n"@).len() as int)
            == "CREATE TABLE IF NOT EXISTS "@ + name + " (\n"@,
        create_table_text(name, fs).skip(create_table_text(name, fs).len() - ");"@.len()) == ");"@,
{
    let before = "CREATE TABLE IF NOT EXISTS "@ + name + " (\n"@;
    let rest = seq_join(fs.map_values(|f: FieldModel| column_definition(f)), ",\n"@) + ",\n"@
        + seq_join(table_constraints(fs), ",\n"@);
    assert(create_table_text(name, fs) =~= before + rest + ");"@);
    assert((before + rest + ");"@).take(before.len() as int) =~= before);
    assert((before + rest + ");"@).skip((before + rest + ");"@).len() - ");"@.len()) =~= ");"@);
}

} // verus!
