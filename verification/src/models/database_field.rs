use vstd::prelude::*;

verus! {

/// What a column holds, as a mathematical value.
pub enum FieldValue {
    Number(i64),
    Text(Seq<char>),
    Bool(bool),
}

/// The value of one column of a row.
#[derive(Debug, PartialEq, Eq, Hash)]
pub enum FieldType {
    Number(i64),
    String(String),
    Bool(bool),
}

impl View for FieldType {
    type V = FieldValue;

    open spec fn view(&self) -> FieldValue {
        match self {
            FieldType::Number(n) => FieldValue::Number(*n),
            FieldType::String(s) => FieldValue::Text(s@),
            FieldType::Bool(b) => FieldValue::Bool(*b),
        }
    }
}

impl Clone for FieldType {
    fn clone(&self) -> (res: Self)
        ensures
            res@ == self@,
    {
        match self {
            FieldType::Number(n) => FieldType::Number(*n),
            FieldType::String(s) => FieldType::String(s.clone()),
            FieldType::Bool(b) => FieldType::Bool(*b),
        }
    }
}

/// The default value of a column is the empty text.
impl Default for FieldType {
    fn default() -> (res: Self)
        ensures
            res@ == FieldValue::Text(Seq::<char>::empty()),
    {
        FieldType::String(String::new())
    }
}

/// A text column holding the given string.
impl From<String> for FieldType {
    fn from(val: String) -> (res: Self)
        ensures
            res@ == FieldValue::Text(val@),
    {
        FieldType::String(val)
    }
}

impl vstd::std_specs::convert::FromSpecImpl<String> for FieldType {
    open spec fn obeys_from_spec() -> bool {
        true
    }

    open spec fn from_spec(val: String) -> Self {
        FieldType::String(val)
    }
}

/// A text column holding a copy of the given string slice.
impl From<&str> for FieldType {
    fn from(val: &str) -> (res: Self)
        ensures
            res@ == FieldValue::Text(val@),
    {
        FieldType::String(val.to_owned())
    }
}

/// A copy of a string slice is equal to it in view only, so no value of the
/// type is named here; the `ensures` of `from` says what comes back.
impl vstd::std_specs::convert::FromSpecImpl<&str> for FieldType {
    open spec fn obeys_from_spec() -> bool {
        false
    }

    open spec fn from_spec(val: &str) -> Self {
        arbitrary()
    }
}

/// A number column holding the given byte.
impl From<u8> for FieldType {
    fn from(val: u8) -> (res: Self)
        ensures
            res@ == FieldValue::Number(val as i64),
    {
        FieldType::Number(val as i64)
    }
}

impl vstd::std_specs::convert::FromSpecImpl<u8> for FieldType {
    open spec fn obeys_from_spec() -> bool {
        true
    }

    open spec fn from_spec(val: u8) -> Self {
        FieldType::Number(val as i64)
    }
}

/// A number column holding the given integer.
impl From<i8> for FieldType {
    fn from(val: i8) -> (res: Self)
        ensures
            res@ == FieldValue::Number(val as i64),
    {
        FieldType::Number(val as i64)
    }
}

impl vstd::std_specs::convert::FromSpecImpl<i8> for FieldType {
    open spec fn obeys_from_spec() -> bool {
        true
    }

    open spec fn from_spec(val: i8) -> Self {
        FieldType::Number(val as i64)
    }
}

/// A number column holding the given integer.
impl From<i16> for FieldType {
    fn from(val: i16) -> (res: Self)
        ensures
            res@ == FieldValue::Number(val as i64),
    {
        FieldType::Number(val as i64)
    }
}

impl vstd::std_specs::convert::FromSpecImpl<i16> for FieldType {
    open spec fn obeys_from_spec() -> bool {
        true
    }

    open spec fn from_spec(val: i16) -> Self {
        FieldType::Number(val as i64)
    }
}

/// A number column holding the given integer.
impl From<i32> for FieldType {
    fn from(val: i32) -> (res: Self)
        ensures
            res@ == FieldValue::Number(val as i64),
    {
        FieldType::Number(val as i64)
    }
}

impl vstd::std_specs::convert::FromSpecImpl<i32> for FieldType {
    open spec fn obeys_from_spec() -> bool {
        true
    }

    open spec fn from_spec(val: i32) -> Self {
        FieldType::Number(val as i64)
    }
}

/// A boolean column holding the given flag.
impl From<bool> for FieldType {
    fn from(val: bool) -> (res: Self)
        ensures
            res@ == FieldValue::Bool(val),
    {
        FieldType::Bool(val)
    }
}

impl vstd::std_specs::convert::FromSpecImpl<bool> for FieldType {
    open spec fn obeys_from_spec() -> bool {
        true
    }

    open spec fn from_spec(val: bool) -> Self {
        FieldType::Bool(val)
    }
}

/// A column of a table, as a mathematical value.
pub struct FieldModel {
    pub name: Seq<char>,
    pub value: FieldValue,
    pub unique: bool,
    pub mandatory: bool,
    pub primary_key: bool,
    /// The table and the column that this column refers to.
    pub foreign_key: Option<(Seq<char>, Seq<char>)>,
}

/// The view of an optional pair of strings.
pub open spec fn pair_view(p: Option<(String, String)>) -> Option<(Seq<char>, Seq<char>)> {
    match p {
        Some((a, b)) => Some((a@, b@)),
        None => None,
    }
}

/// A column as `new` makes it: no constraint on it.
pub open spec fn plain_field(name: Seq<char>, value: FieldValue) -> FieldModel {
    FieldModel {
        name,
        value,
        unique: false,
        mandatory: false,
        primary_key: false,
        foreign_key: None,
    }
}

/// The column with the mandatory flag set.
pub open spec fn with_mandatory(m: FieldModel) -> FieldModel {
    FieldModel { mandatory: true, ..m }
}

/// The column with the primary-key flag set.
pub open spec fn with_primary_key(m: FieldModel) -> FieldModel {
    FieldModel { primary_key: true, ..m }
}

/// The column with the unique flag set.
pub open spec fn with_unique(m: FieldModel) -> FieldModel {
    FieldModel { unique: true, ..m }
}

/// The column made to refer to `column` of `table`.
pub open spec fn with_foreign_key(m: FieldModel, table: Seq<char>, column: Seq<char>) -> FieldModel {
    FieldModel { foreign_key: Some((table, column)), ..m }
}

/// The steps of a builder can be taken in any order, each step taken twice
/// counts once, the last foreign key set is the one kept, and no step
/// changes the name or the value of the column.
pub proof fn lemma_builder_steps(m: FieldModel, table: Seq<char>, column: Seq<char>, table2: Seq<char>, column2: Seq<char>)
    ensures
        with_mandatory(with_unique(m)) == with_unique(with_mandatory(m)),
        with_mandatory(with_primary_key(m)) == with_primary_key(with_mandatory(m)),
        with_unique(with_primary_key(m)) == with_primary_key(with_unique(m)),
        with_foreign_key(with_mandatory(m), table, column) == with_mandatory(with_foreign_key(m, table, column)),
        with_foreign_key(with_unique(m), table, column) == with_unique(with_foreign_key(m, table, column)),
        with_foreign_key(with_primary_key(m), table, column) == with_primary_key(with_foreign_key(m, table, column)),
        with_mandatory(with_mandatory(m)) == with_mandatory(m),
        with_unique(with_unique(m)) == with_unique(m),
        with_primary_key(with_primary_key(m)) == with_primary_key(m),
        with_foreign_key(with_foreign_key(m, table2, column2), table, column) == with_foreign_key(m, table, column),
        with_mandatory(m).name == m.name && with_mandatory(m).value == m.value,
        with_unique(m).name == m.name && with_unique(m).value == m.value,
        with_primary_key(m).name == m.name && with_primary_key(m).value == m.value,
        with_foreign_key(m, table, column).name == m.name && with_foreign_key(m, table, column).value == m.value,
{
}

/// A column of a table: its name, a value of its type, and its constraints.
#[derive(PartialEq, Eq, Hash)]
pub struct DatabaseField {
    field_name: String,
    field_type: FieldType,
    unique: bool,
    mandatory: bool,
    primary_key: bool,
    foreign_key: Option<(String, String)>,
}

impl View for DatabaseField {
    type V = FieldModel;

    closed spec fn view(&self) -> FieldModel {
        FieldModel {
            name: self.field_name@,
            value: self.field_type@,
            unique: self.unique,
            mandatory: self.mandatory,
            primary_key: self.primary_key,
            foreign_key: pair_view(self.foreign_key),
        }
    }
}

fn clone_pair(p: &Option<(String, String)>) -> (res: Option<(String, String)>)
    ensures
        pair_view(res) == pair_view(*p),
{
    match p {
        Some((a, b)) => Some((a.clone(), b.clone())),
        None => None,
    }
}

impl Clone for DatabaseField {
    fn clone(&self) -> (res: Self)
        ensures
            res@ == self@,
    {
        DatabaseField {
            field_name: self.field_name.clone(),
            field_type: self.field_type.clone(),
            unique: self.unique,
            mandatory: self.mandatory,
            primary_key: self.primary_key,
            foreign_key: clone_pair(&self.foreign_key),
        }
    }
}

impl DatabaseField {
    /// A column with the given name and type and no constraint.
    pub fn new(field_name: &str, field_type: FieldType) -> (res: Self)
        ensures
            res@ == plain_field(field_name@, field_type@),
    {
        DatabaseField {
            field_name: field_name.to_owned(),
            field_type,
            unique: false,
            mandatory: false,
            primary_key: false,
            foreign_key: None,
        }
    }

    /// A builder that starts from `DatabaseField::new(field_name, field_type)`.
    pub fn builder(field_name: &str, field_type: FieldType) -> (res: DatabaseFieldBuilder)
        ensures
            res@ == plain_field(field_name@, field_type@),
    {
        DatabaseFieldBuilder::new(Self::new(field_name, field_type))
    }

    pub fn field_name(&self) -> (res: String)
        ensures
            res@ == self@.name,
    {
        self.field_name.clone()
    }

    pub fn unique(&self) -> (res: bool)
        ensures
            res == self@.unique,
    {
        self.unique
    }

    pub fn field_type(&self) -> (res: FieldType)
        ensures
            res@ == self@.value,
    {
        self.field_type.clone()
    }

    /// Replaces the value of the column and keeps the rest.
    pub fn set_field_type(&mut self, new_field_type: FieldType)
        ensures
            final(self)@ == (FieldModel { value: new_field_type@, ..old(self)@ }),
    {
        self.field_type = new_field_type;
    }

    pub fn is_mandatory(&self) -> (res: bool)
        ensures
            res == self@.mandatory,
    {
        self.mandatory
    }

    pub fn is_primary_key(&self) -> (res: bool)
        ensures
            res == self@.primary_key,
    {
        self.primary_key
    }

    /// The table and the column that this column refers to, if any.
    pub fn is_foreign_key(&self) -> (res: Option<(String, String)>)
        ensures
            pair_view(res) == self@.foreign_key,
    {
        clone_pair(&self.foreign_key)
    }
}

/// Sets the constraints of a column, one call at a time.
pub struct DatabaseFieldBuilder {
    dbf: DatabaseField,
}

impl View for DatabaseFieldBuilder {
    type V = FieldModel;

    closed spec fn view(&self) -> FieldModel {
        self.dbf@
    }
}

impl DatabaseFieldBuilder {
    fn new(dbf: DatabaseField) -> (res: Self)
        ensures
            res@ == dbf@,
    {
        DatabaseFieldBuilder { dbf }
    }

    pub fn is_mandatory(self) -> (res: Self)
        ensures
            res@ == with_mandatory(self@),
    {
        let mut b = self;
        b.dbf.mandatory = true;
        b
    }

    pub fn is_primary_key(self) -> (res: Self)
        ensures
            res@ == with_primary_key(self@),
    {
        let mut b = self;
        b.dbf.primary_key = true;
        b
    }

    /// Makes the column refer to `foreign_field` of the table `foreign_db`.
    pub fn is_foreign_key(self, foreign_db: &str, foreign_field: &str) -> (res: Self)
        ensures
            res@ == with_foreign_key(self@, foreign_db@, foreign_field@),
    {
        let mut b = self;
        b.dbf.foreign_key = Some((foreign_db.to_owned(), foreign_field.to_owned()));
        b
    }

    pub fn is_unique(self) -> (res: Self)
        ensures
            res@ == with_unique(self@),
    {
        let mut b = self;
        b.dbf.unique = true;
        b
    }

    pub fn build(self) -> (res: DatabaseField)
        ensures
            res@ == self@,
    {
        self.dbf
    }
}

} // verus!
