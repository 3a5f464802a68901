//! Rows as the view binding hands them over, and the to-do items decoded from them.

use vstd::prelude::*;

verus! {

/// The value of one field of a row, as far as the list tells values apart:
/// a text, a flag, or anything else.
#[derive(Debug, PartialEq, Eq)]
pub enum Field {
    Text(String),
    Flag(bool),
    Other,
}

/// What a [`Field`] stands for.
pub enum FieldView {
    Text(Seq<char>),
    Flag(bool),
    Other,
}

impl View for Field {
    type V = FieldView;

    open spec fn view(&self) -> FieldView {
        match *self {
            Field::Text(s) => FieldView::Text(s@),
            Field::Flag(b) => FieldView::Flag(b),
            Field::Other => FieldView::Other,
        }
    }
}

impl Clone for Field {
    fn clone(&self) -> (copy: Field)
        ensures
            copy@ == self@,
    {
        match self {
            Field::Text(s) => Field::Text(s.clone()),
            Field::Flag(b) => Field::Flag(*b),
            Field::Other => Field::Other,
        }
    }
}

/// What an optional field stands for.
pub open spec fn field_view(field: Option<Field>) -> Option<FieldView> {
    match field {
        Some(f) => Some(f@),
        None => None,
    }
}

/// One row of the list. The view may hand over any value; the list reads from
/// it whether it is a structure and, if so, its `title` and `checked` fields.
#[derive(Debug, PartialEq, Eq)]
pub enum Record {
    /// A structure, with its `title` and `checked` fields where it has them.
    Struct { title: Option<Field>, checked: Option<Field> },
    /// A value that is no structure.
    Other,
}

/// What a [`Record`] stands for.
pub enum RecordView {
    Struct { title: Option<FieldView>, checked: Option<FieldView> },
    Other,
}

impl View for Record {
    type V = RecordView;

    open spec fn view(&self) -> RecordView {
        match *self {
            Record::Struct { title, checked } => RecordView::Struct {
                title: field_view(title),
                checked: field_view(checked),
            },
            Record::Other => RecordView::Other,
        }
    }
}

fn clone_field(field: &Option<Field>) -> (copy: Option<Field>)
    ensures
        field_view(copy) == field_view(*field),
{
    match field {
        Some(f) => Some(f.clone()),
        None => None,
    }
}

impl Clone for Record {
    fn clone(&self) -> (copy: Record)
        ensures
            copy@ == self@,
    {
        match self {
            Record::Struct { title, checked } => Record::Struct {
                title: clone_field(title),
                checked: clone_field(checked),
            },
            Record::Other => Record::Other,
        }
    }
}

/// Why a row is no to-do item.
#[derive(Clone, Copy, Debug, PartialEq, Eq, Structural)]
pub enum DecodeError {
    /// The row is no structure.
    NotAStruct,
    /// The row is a structure without a text `title` or without a flag `checked`.
    UnexpectedFields,
}

/// A to-do item: its title and whether it is done.
#[derive(Debug, PartialEq, Eq)]
pub struct TodoItem(pub String, pub bool);

/// What a [`TodoItem`] stands for.
pub struct TodoItemView {
    pub title: Seq<char>,
    pub checked: bool,
}

impl View for TodoItem {
    type V = TodoItemView;

    open spec fn view(&self) -> TodoItemView {
        TodoItemView { title: self.0@, checked: self.1 }
    }
}

/// The row that carries the item `title`, `checked`.
pub open spec fn item_record(title: Seq<char>, checked: bool) -> RecordView {
    RecordView::Struct {
        title: Some(FieldView::Text(title)),
        checked: Some(FieldView::Flag(checked)),
    }
}

/// The item that a row carries, or why it carries none.
pub open spec fn decoded(record: RecordView) -> Result<TodoItemView, DecodeError> {
    match record {
        RecordView::Struct {
            title: Some(FieldView::Text(title)),
            checked: Some(FieldView::Flag(checked)),
        } => Ok(TodoItemView { title, checked }),
        RecordView::Struct { .. } => Err(DecodeError::UnexpectedFields),
        RecordView::Other => Err(DecodeError::NotAStruct),
    }
}

/// Builds the row for an item. Any title is taken, the empty one too.
pub fn create_todo_item(title: &str, checked: bool) -> (record: Record)
    ensures
        record@ == item_record(title@, checked),
{
    Record::Struct {
        title: Some(Field::Text(title.to_owned())),
        checked: Some(Field::Flag(checked)),
    }
}

impl TodoItem {
    /// Reads the item out of a row: a structure whose `title` is a text and
    /// whose `checked` is a flag. Any other row is refused, with the reason.
    pub fn try_from(value: Record) -> (result: Result<TodoItem, DecodeError>)
        ensures
            match result {
                Ok(item) => decoded(value@) == Ok::<TodoItemView, DecodeError>(item@),
                Err(e) => decoded(value@) == Err::<TodoItemView, DecodeError>(e),
            },
    {
        match value {
            Record::Struct { title, checked } => {
                match (title, checked) {
                    (Some(Field::Text(title)), Some(Field::Flag(checked))) => {
                        Ok(TodoItem(title, checked))
                    },
                    _ => Err(DecodeError::UnexpectedFields),
                }
            },
            _ => Err(DecodeError::NotAStruct),
        }
    }
}

impl DecodeError {
    /// The reason in words.
    pub fn message(&self) -> (text: &'static str)
        ensures
            text@ == match *self {
                DecodeError::NotAStruct => "Not a struct"@,
                DecodeError::UnexpectedFields => "Struct does not have expected fields"@,
            },
    {
        match self {
            DecodeError::NotAStruct => "Not a struct",
            DecodeError::UnexpectedFields => "Struct does not have expected fields",
        }
    }
}

} // verus!
