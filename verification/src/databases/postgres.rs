use vstd::prelude::*;

use crate::databases::text::{
    bool_text, int_text, join_strings, push_bool, push_int, push_joined, seq_join, strings_view,
};
use crate::models::database_condition::{ConditionModel, ConditionOperator, DatabaseCondition};
use crate::models::database_error::{error_code, DatabaseError, DatabaseStep};
use crate::models::database_field::{DatabaseField, FieldModel, FieldType, FieldValue};
use crate::models::database_insertable::DatabaseInsertable;

verus! {

/// A value written as an SQL literal: text between single quotes, numbers
/// in decimal, booleans as `true` or `false`.
pub open spec fn sql_literal(v: FieldValue) -> Seq<char> {
    match v {
        FieldValue::Number(n) => int_text(n as int),
        FieldValue::Text(t) => seq!['\''] + t + seq!['\''],
        FieldValue::Bool(b) => bool_text(b),
    }
}

/// The SQL symbol of a comparison.
pub open spec fn operator_text(op: ConditionOperator) -> Seq<char> {
    match op {
        ConditionOperator::Eq => seq!['='],
        ConditionOperator::Gt => seq!['>'],
        ConditionOperator::Gte => seq!['>', '='],
        ConditionOperator::Lt => seq!['<'],
        ConditionOperator::Lte => seq!['<', '='],
    }
}

/// A condition written as `name operator literal`.
pub open spec fn condition_text(c: ConditionModel) -> Seq<char> {
    c.name + seq![' '] + operator_text(c.operator) + seq![' '] + sql_literal(c.value)
}

/// The models of a sequence of conditions.
pub open spec fn conditions_view(cs: Seq<DatabaseCondition>) -> Seq<ConditionModel> {
    cs.map_values(|c: DatabaseCondition| c@)
}

/// The `WHERE` part of a request: empty without conditions, else the
/// conditions joined by `AND`.
pub open spec fn where_clause(cs: Seq<ConditionModel>) -> Seq<char> {
    if cs.len() == 0 {
        Seq::empty()
    } else {
        " WHERE "@ + seq_join(cs.map_values(|c: ConditionModel| condition_text(c)), " AND "@)
    }
}

/// A request has a `WHERE` part exactly when it has conditions, and then that
/// part starts with ` WHERE `.
pub proof fn lemma_where_clause_empty(cs: Seq<ConditionModel>)
    ensures
        (where_clause(cs).len() == 0) <==> (cs.len() == 0),
        cs.len() > 0 ==> where_clause(cs).take(7) == " WHERE "@,
{
    reveal_strlit(" WHERE ");
    if cs.len() > 0 {
        let rest = seq_join(cs.map_values(|c: ConditionModel| condition_text(c)), " AND "@);
        assert((" WHERE "@ + rest).take(7) =~= " WHERE "@);
    }
}

/// The models of a sequence of columns.
pub open spec fn fields_view(fs: Seq<DatabaseField>) -> Seq<FieldModel> {
    fs.map_values(|f: DatabaseField| f@)
}

/// The names of the columns, in order.
pub open spec fn field_names(fs: Seq<FieldModel>) -> Seq<Seq<char>> {
    fs.map_values(|f: FieldModel| f.name)
}

/// The values of the columns as SQL literals, in order.
pub open spec fn field_literals(fs: Seq<FieldModel>) -> Seq<Seq<char>> {
    fs.map_values(|f: FieldModel| sql_literal(f.value))
}

/// The names of the columns joined by `, `, as a request lists them.
pub open spec fn key_list(fs: Seq<FieldModel>) -> Seq<char> {
    seq_join(field_names(fs), ", "@)
}

/// The values of the columns as SQL literals joined by `, `, as a request lists them.
pub open spec fn value_list(fs: Seq<FieldModel>) -> Seq<char> {
    seq_join(field_literals(fs), ", "@)
}

/// Appends `v` written as an SQL literal.
fn push_literal(s: &mut String, v: &FieldType)
    ensures
        final(s)@ == old(s)@ + sql_literal(v@),
{
    let ghost start = s@;
    match v {
        FieldType::Number(n) => {
            push_int(s, *n);
        },
        FieldType::String(t) => {
            s.append("'");
            s.append(t.as_str());
            s.append("'");
            proof {
                reveal_strlit("'");
                assert(s@ =~= start + sql_literal(v@));
            }
        },
        FieldType::Bool(b) => {
            push_bool(s, *b);
        },
    }
}

/// The SQL symbol of a comparison.
pub fn get_string_operator(operator: ConditionOperator) -> (res: &'static str)
    ensures
        res@ == operator_text(operator),
{
    match operator {
        ConditionOperator::Eq => {
            proof { reveal_strlit("="); }
            "="
        },
        ConditionOperator::Gt => {
            proof { reveal_strlit(">"); }
            ">"
        },
        ConditionOperator::Gte => {
            proof { reveal_strlit(">="); }
            assert(">="@ =~= seq!['>', '=']);
            ">="
        },
        ConditionOperator::Lt => {
            proof { reveal_strlit("<"); }
            "<"
        },
        ConditionOperator::Lte => {
            proof { reveal_strlit("<="); }
            assert("<="@ =~= seq!['<', '=']);
            "<="
        },
    }
}

/// A condition written as `name operator literal`.
pub fn stringify_condition(cond: &DatabaseCondition) -> (res: String)
    ensures
        res@ == condition_text(cond@),
{
    let mut s = cond.name();
    s.append(" ");
    s.append(get_string_operator(cond.operator()));
    s.append(" ");
    let value = cond.value();
    push_literal(&mut s, &value);
    proof {
        reveal_strlit(" ");
    }
    assert(s@ =~= condition_text(cond@));
    s
}

/// A value written as an SQL literal.
fn literal_string(v: &FieldType) -> (res: String)
    ensures
        res@ == sql_literal(v@),
{
    let mut s = String::new();
    push_literal(&mut s, v);
    assert(s@ =~= sql_literal(v@));
    s
}

/// The `WHERE` part of a request on the rows that meet all `conditions`.
pub fn stringify_conditions(conditions: &[DatabaseCondition]) -> (res: String)
    ensures
        res@ == where_clause(conditions_view(conditions@)),
{
    let ghost cs = conditions_view(conditions@);
    let mut texts: Vec<String> = Vec::new();
    let mut i: usize = 0;
    while i < conditions.len()
        invariant
            i <= conditions@.len(),
            texts@.len() == i,
            forall|j: int| 0 <= j < i ==> #[trigger] texts@[j]@ == condition_text(conditions@[j]@),
        decreases conditions.len() - i,
    {
        let t = stringify_condition(&conditions[i]);
        texts.push(t);
        i = i + 1;
    }
    assert(strings_view(texts@) =~= cs.map_values(|c: ConditionModel| condition_text(c)));
    if conditions.len() == 0 {
        let res = String::new();
        assert(res@ =~= where_clause(cs));
        res
    } else {
        let mut res = String::new();
        res.append(" WHERE ");
        push_joined(&mut res, &texts, " AND ");
        assert(res@ =~= where_clause(cs));
        res
    }
}

/// The names of the columns joined by `, `, and their values as SQL literals
/// joined by `, `, in the same order.
pub fn stringify_datafield_in_key_val_string(fields: Vec<DatabaseField>) -> (res: (String, String))
    ensures
        res.0@ == key_list(fields_view(fields@)),
        res.1@ == value_list(fields_view(fields@)),
{
    let ghost fs = fields_view(fields@);
    let mut keys: Vec<String> = Vec::new();
    let mut values: Vec<String> = Vec::new();
    let mut i: usize = 0;
    while i < fields.len()
        invariant
            i <= fields@.len(),
            keys@.len() == i,
            values@.len() == i,
            forall|j: int| 0 <= j < i ==> #[trigger] keys@[j]@ == fields@[j]@.name,
            forall|j: int| 0 <= j < i ==> #[trigger] values@[j]@ == sql_literal(fields@[j]@.value),
        decreases fields.len() - i,
    {
        keys.push(fields[i].field_name());
        let v = fields[i].field_type();
        values.push(literal_string(&v));
        i = i + 1;
    }
    assert(strings_view(keys@) =~= field_names(fs));
    assert(strings_view(values@) =~= field_literals(fs));
    (join_strings(&keys, ", "), join_strings(&values, ", "))
}

/// The request that adds a row with the given columns to the table.
pub open spec fn insert_text(database_name: Seq<char>, fs: Seq<FieldModel>) -> Seq<char> {
    "INSERT INTO "@ + database_name + "("@ + seq_join(field_names(fs), ", "@) + ") VALUES("@
        + seq_join(field_literals(fs), ", "@) + ")"@
}

/// The request that sets the given columns in the rows that meet the conditions.
pub open spec fn update_text(
    database_name: Seq<char>,
    fs: Seq<FieldModel>,
    cs: Seq<ConditionModel>,
) -> Seq<char> {
    "UPDATE "@ + database_name + " SET ("@ + seq_join(field_names(fs), ", "@) + ") = ("@
        + seq_join(field_literals(fs), ", "@) + ")"@ + where_clause(cs) + ";"@
}

/// The request that removes the rows that meet the conditions.
pub open spec fn delete_text(database_name: Seq<char>, cs: Seq<ConditionModel>) -> Seq<char> {
    "DELETE FROM "@ + database_name + where_clause(cs) + ";"@
}

/// The request that reads the given columns of the rows that meet the conditions.
pub open spec fn get_text(
    database_name: Seq<char>,
    fs: Seq<FieldModel>,
    cs: Seq<ConditionModel>,
) -> Seq<char> {
    "SELECT "@ + seq_join(field_names(fs), ", "@) + " from "@ + database_name + where_clause(cs)
        + ";"@
}

/// The request that adds a row with the given columns to the table `database_name`.
pub fn insert_request(database_name: &str, fields: Vec<DatabaseField>) -> (res: String)
    ensures
        res@ == insert_text(database_name@, fields_view(fields@)),
{
    let ghost fs = fields_view(fields@);
    let (keys, values) = stringify_datafield_in_key_val_string(fields);
    let mut req = String::new();
    req.append("INSERT INTO ");
    req.append(database_name);
    req.append("(");
    req.append(keys.as_str());
    req.append(") VALUES(");
    req.append(values.as_str());
    req.append(")");
    assert(req@ =~= insert_text(database_name@, fs));
    req
}

/// The request that sets the given columns in the rows of `database_name`
/// that meet all `conditions`.
pub fn update_request(
    database_name: &str,
    fields: Vec<DatabaseField>,
    conditions: &[DatabaseCondition],
) -> (res: String)
    ensures
        res@ == update_text(database_name@, fields_view(fields@), conditions_view(conditions@)),
{
    let ghost fs = fields_view(fields@);
    let cond = stringify_conditions(conditions);
    let (keys, values) = stringify_datafield_in_key_val_string(fields);
    let mut req = String::new();
    req.append("UPDATE ");
    req.append(database_name);
    req.append(" SET (");
    req.append(keys.as_str());
    req.append(") = (");
    req.append(values.as_str());
    req.append(")");
    req.append(cond.as_str());
    req.append(";");
    assert(req@ =~= update_text(database_name@, fs, conditions_view(conditions@)));
    req
}

/// The request that removes the rows of `database_name` that meet all `conditions`.
pub fn delete_request(database_name: &str, conditions: &[DatabaseCondition]) -> (res: String)
    ensures
        res@ == delete_text(database_name@, conditions_view(conditions@)),
{
    let cond = stringify_conditions(conditions);
    let mut req = String::new();
    req.append("DELETE FROM ");
    req.append(database_name);
    req.append(cond.as_str());
    req.append(";");
    assert(req@ =~= delete_text(database_name@, conditions_view(conditions@)));
    req
}

/// The request that reads the columns named in `fields` from the rows of
/// `database_name` that meet all `conditions`.
pub fn get_request(
    database_name: &str,
    fields: &Vec<DatabaseField>,
    conditions: &[DatabaseCondition],
) -> (res: String)
    ensures
        res@ == get_text(database_name@, fields_view(fields@), conditions_view(conditions@)),
{
    let ghost fs = fields_view(fields@);
    let cond = stringify_conditions(conditions);
    let mut names: Vec<String> = Vec::new();
    let mut i: usize = 0;
    while i < fields.len()
        invariant
            i <= fields@.len(),
            names@.len() == i,
            forall|j: int| 0 <= j < i ==> #[trigger] names@[j]@ == fields@[j]@.name,
        decreases fields.len() - i,
    {
        names.push(fields[i].field_name());
        i = i + 1;
    }
    assert(strings_view(names@) =~= field_names(fs));
    let mut req = String::new();
    req.append("SELECT ");
    push_joined(&mut req, &names, ", ");
    req.append(" from ");
    req.append(database_name);
    req.append(cond.as_str());
    req.append(";");
    assert(req@ =~= get_text(database_name@, fs, conditions_view(conditions@)));
    req
}

/// The SQL type of the column that holds a value of this kind.
pub open spec fn column_type_text(v: FieldValue) -> Seq<char> {
    match v {
        FieldValue::Number(_) => "INTEGER"@,
        FieldValue::Text(_) => "TEXT"@,
        FieldValue::Bool(_) => "BOOLEAN"@,
    }
}

/// A column written as `name TYPE`, then ` NOT NULL` if it is mandatory and
/// ` UNIQUE` if it is unique.
pub open spec fn column_definition(f: FieldModel) -> Seq<char> {
    f.name + " "@ + column_type_text(f.value) + (if f.mandatory {
        " NOT NULL"@
    } else {
        Seq::empty()
    }) + (if f.unique {
        " UNIQUE"@
    } else {
        Seq::empty()
    })
}

/// The names of the primary-key columns, in order.
pub open spec fn primary_key_names(fs: Seq<FieldModel>) -> Seq<Seq<char>>
    decreases fs.len(),
{
    if fs.len() == 0 {
        Seq::empty()
    } else if fs.last().primary_key {
        primary_key_names(fs.drop_last()).push(fs.last().name)
    } else {
        primary_key_names(fs.drop_last())
    }
}

/// The constraint that a foreign key to `column` of `table` writes.
pub open spec fn foreign_key_text(table: Seq<char>, column: Seq<char>) -> Seq<char> {
    "FOREIGN KEY ("@ + column + ") REFERENCES "@ + table + "("@ + column + ") ON DELETE SET NULL"@
}

/// The foreign-key constraints of the columns, in order.
pub open spec fn foreign_key_constraints(fs: Seq<FieldModel>) -> Seq<Seq<char>>
    decreases fs.len(),
{
    if fs.len() == 0 {
        Seq::empty()
    } else {
        match fs.last().foreign_key {
            Some((table, column)) => foreign_key_constraints(fs.drop_last()).push(
                foreign_key_text(table, column),
            ),
            None => foreign_key_constraints(fs.drop_last()),
        }
    }
}

/// The constraints of the table: its primary key if it has one, then its
/// foreign keys.
pub open spec fn table_constraints(fs: Seq<FieldModel>) -> Seq<Seq<char>> {
    (if primary_key_names(fs).len() > 0 {
        seq!["PRIMARY KEY ("@ + seq_join(primary_key_names(fs), ","@) + ")"@]
    } else {
        Seq::empty()
    }) + foreign_key_constraints(fs)
}

/// The request that creates the table with the given columns if it does not exist.
pub open spec fn create_table_text(database_name: Seq<char>, fs: Seq<FieldModel>) -> Seq<char> {
    "CREATE TABLE IF NOT EXISTS "@ + database_name + " (\n"@ + seq_join(
        fs.map_values(|f: FieldModel| column_definition(f)),
        ",\n"@,
    ) + ",\n"@ + seq_join(table_constraints(fs), ",\n"@) + ");"@
}

/// A column written as its definition in a table.
fn column_definition_string(field: &DatabaseField) -> (res: String)
    ensures
        res@ == column_definition(field@),
{
    let field_type = match field.field_type() {
        FieldType::Number(_) => "INTEGER",
        FieldType::String(_) => "TEXT",
        FieldType::Bool(_) => "BOOLEAN",
    };
    let mut s = field.field_name();
    s.append(" ");
    s.append(field_type);
    if field.is_mandatory() {
        s.append(" NOT NULL");
    }
    if field.unique() {
        s.append(" UNIQUE");
    }
    assert(s@ =~= column_definition(field@));
    s
}

/// The request that creates the table `database_name` with the given columns
/// if it does not exist.
pub fn initialize_request(database_name: &str, fields: Vec<DatabaseField>) -> (res: String)
    ensures
        res@ == create_table_text(database_name@, fields_view(fields@)),
{
    let ghost fs = fields_view(fields@);
    let mut table_fields: Vec<String> = Vec::new();
    let mut list_primary_key: Vec<String> = Vec::new();
    let mut list_foreign_key: Vec<String> = Vec::new();
    let mut i: usize = 0;
    while i < fields.len()
        invariant
            i <= fields@.len(),
            fs == fields_view(fields@),
            table_fields@.len() == i,
            forall|j: int| 0 <= j < i ==> #[trigger] table_fields@[j]@ == column_definition(fs[j]),
            strings_view(list_primary_key@) == primary_key_names(fs.take(i as int)),
            strings_view(list_foreign_key@) == foreign_key_constraints(fs.take(i as int)),
        decreases fields.len() - i,
    {
        let field = &fields[i];
        proof {
            assert(fs.take(i + 1).drop_last() =~= fs.take(i as int));
            assert(fs.take(i + 1).last() == field@);
        }
        if field.is_primary_key() {
            list_primary_key.push(field.field_name());
            assert(strings_view(list_primary_key@) =~= primary_key_names(fs.take(i + 1)));
        }
        match field.is_foreign_key() {
            Some((table, column)) => {
                let mut c = String::new();
                c.append("FOREIGN KEY (");
                c.append(column.as_str());
                c.append(") REFERENCES ");
                c.append(table.as_str());
                c.append("(");
                c.append(column.as_str());
                c.append(") ON DELETE SET NULL");
                assert(c@ =~= foreign_key_text(table@, column@));
                list_foreign_key.push(c);
                assert(strings_view(list_foreign_key@) =~= foreign_key_constraints(fs.take(i + 1)));
            },
            None => {},
        }
        table_fields.push(column_definition_string(field));
        i = i + 1;
    }
    assert(fs.take(fields.len() as int) =~= fs);
    assert(strings_view(table_fields@) =~= fs.map_values(|f: FieldModel| column_definition(f)));
    let mut constraints: Vec<String> = Vec::new();
    if list_primary_key.len() > 0 {
        let mut c = String::new();
        c.append("PRIMARY KEY (");
        push_joined(&mut c, &list_primary_key, ",");
        c.append(")");
        constraints.push(c);
    }
    let ghost first = strings_view(constraints@);
    let mut k: usize = 0;
    while k < list_foreign_key.len()
        invariant
            k <= list_foreign_key@.len(),
            strings_view(constraints@) == first + strings_view(list_foreign_key@).take(k as int),
        decreases list_foreign_key.len() - k,
    {
        let ghost prev = constraints@;
        let c = list_foreign_key[k].clone();
        constraints.push(c);
        assert(constraints@ == prev.push(c));
        assert(strings_view(list_foreign_key@).take(k + 1) =~= strings_view(list_foreign_key@).take(k as int).push(list_foreign_key@[k as int]@));
        assert(strings_view(constraints@) =~= strings_view(prev).push(c@));
        assert(strings_view(constraints@) =~= first + strings_view(list_foreign_key@).take(k + 1));
        k = k + 1;
    }
    assert(strings_view(list_foreign_key@).take(list_foreign_key.len() as int) =~= strings_view(
        list_foreign_key@,
    ));
    assert(strings_view(constraints@) =~= table_constraints(fs));
    let mut req = String::new();
    req.append("CREATE TABLE IF NOT EXISTS ");
    req.append(database_name);
    req.append(" (\n");
    push_joined(&mut req, &table_fields, ",\n");
    req.append(",\n");
    push_joined(&mut req, &constraints, ",\n");
    req.append(");");
    assert(req@ =~= create_table_text(database_name@, fs));
    req
}

/// The columns of a row read back: those of `template`, each holding the
/// value read in the same place of `row`.
pub open spec fn row_models(template: Seq<FieldModel>, row: Seq<FieldValue>) -> Seq<FieldModel> {
    Seq::new(template.len(), |i: int| FieldModel { value: row[i], ..template[i] })
}

/// A row read back with the values that the columns hold gives back the
/// columns: names, constraints and values.
pub proof fn lemma_row_read_back(fs: Seq<FieldModel>)
    ensures
        row_models(fs, fs.map_values(|f: FieldModel| f.value)) == fs,
{
    assert(row_models(fs, fs.map_values(|f: FieldModel| f.value)) =~= fs);
}

/// The views of the values of a row.
pub open spec fn row_view(row: Seq<FieldType>) -> Seq<FieldValue> {
    row.map_values(|v: FieldType| v@)
}

/// `out` is what `D::from_fields` may answer on the columns of `row` read
/// with the columns of `template`.
pub open spec fn decodes_to<D: DatabaseInsertable>(
    template: Seq<FieldModel>,
    row: Seq<FieldValue>,
    out: Result<D, String>,
) -> bool {
    exists|fs: Vec<DatabaseField>|
        fields_view(fs@) == row_models(template, row) && call_ensures(D::from_fields, (fs,), out)
}

/// `D::from_fields` may accept the columns of `row` read with the columns of `template`.
pub open spec fn row_accepted<D: DatabaseInsertable>(template: Seq<FieldModel>, row: Seq<FieldValue>) -> bool {
    exists|o: D| decodes_to::<D>(template, row, Ok(o))
}

/// The values read in each row.
pub open spec fn rows_view(rows: Seq<Vec<FieldType>>) -> Seq<Seq<FieldValue>> {
    rows.map_values(|r: Vec<FieldType>| row_view(r@))
}

/// `D::from_fields` may refuse row `k` with `msg` after it accepted every row before it.
pub open spec fn first_refusal<D: DatabaseInsertable>(
    template: Seq<FieldModel>,
    rows: Seq<Seq<FieldValue>>,
    k: int,
    msg: String,
) -> bool {
    &&& 0 <= k < rows.len()
    &&& decodes_to::<D>(template, rows[k], Err(msg))
    &&& forall|j: int| 0 <= j < k ==> #[trigger] row_accepted::<D>(template, rows[j])
}

/// The columns of a row read back: copies of `fields`, each holding the
/// value read in the same place of `row`.
pub fn get_row_fields(fields: &Vec<DatabaseField>, row: &Vec<FieldType>) -> (res: Vec<DatabaseField>)
    requires
        row@.len() == fields@.len(),
    ensures
        fields_view(res@) == row_models(fields_view(fields@), row_view(row@)),
{
    let mut res: Vec<DatabaseField> = Vec::new();
    let mut i: usize = 0;
    while i < fields.len()
        invariant
            i <= fields@.len(),
            row@.len() == fields@.len(),
            res@.len() == i,
            forall|j: int|
                0 <= j < i ==> #[trigger] res@[j]@ == (FieldModel { value: row@[j]@, ..fields@[j]@ }),
        decreases fields.len() - i,
    {
        let mut field = fields[i].clone();
        field.set_field_type(row[i].clone());
        res.push(field);
        i = i + 1;
    }
    assert(fields_view(res@) =~= row_models(fields_view(fields@), row_view(row@)));
    res
}

/// The values that the rows read back are: each row goes through
/// `D::from_fields`, in order, and the first refusal ends the reading.
pub fn get_objects<D: DatabaseInsertable>(
    fields: &Vec<DatabaseField>,
    rows: &Vec<Vec<FieldType>>,
) -> (res: Result<Vec<D>, DatabaseError>)
    requires
        forall|i: int| 0 <= i < rows@.len() ==> #[trigger] rows@[i]@.len() == fields@.len(),
    ensures
        res matches Ok(objects) ==> {
            &&& objects@.len() == rows@.len()
            &&& forall|i: int|
                0 <= i < rows@.len() ==> #[trigger] decodes_to::<D>(
                    fields_view(fields@),
                    row_view(rows@[i]@),
                    Ok(objects@[i]),
                )
        },
        res matches Err(e) ==> {
            &&& e.error@ == error_code(DatabaseStep::Extract)
            &&& exists|k: int|
                #[trigger] first_refusal::<D>(fields_view(fields@), rows_view(rows@), k, e.details)
        },
{
    let ghost template = fields_view(fields@);
    let mut objects: Vec<D> = Vec::new();
    let mut i: usize = 0;
    while i < rows.len()
        invariant
            i <= rows@.len(),
            template == fields_view(fields@),
            forall|i: int| 0 <= i < rows@.len() ==> #[trigger] rows@[i]@.len() == fields@.len(),
            objects@.len() == i,
            forall|j: int|
                0 <= j < i ==> #[trigger] decodes_to::<D>(template, row_view(rows@[j]@), Ok(objects@[j])),
        decreases rows.len() - i,
    {
        let row_fields = get_row_fields(fields, &rows[i]);
        let ghost fs = row_fields;
        match D::from_fields(row_fields) {
            Ok(o) => {
                assert(decodes_to::<D>(template, row_view(rows@[i as int]@), Ok(o)));
                objects.push(o);
            },
            Err(e) => {
                let err = DatabaseError::new(DatabaseStep::Extract, e);
                let res: Result<Vec<D>, DatabaseError> = Err(err);
                proof {
                    assert forall|j: int| 0 <= j < i implies #[trigger] row_accepted::<D>(
                        template,
                        rows_view(rows@)[j],
                    ) by {
                        assert(decodes_to::<D>(template, row_view(rows@[j]@), Ok(objects@[j])));
                    }
                    assert(first_refusal::<D>(template, rows_view(rows@), i as int, res->Err_0.details));
                }
                return res;
            },
        }
        i = i + 1;
    }
    Ok(objects)
}

} // verus!
