use todo_list::record::{create_todo_item, DecodeError, Field, Record, TodoItem};

#[test]
fn create_todo_item_builds_a_struct_with_both_fields() {
    let record = create_todo_item("Buy milk", false);
    assert_eq!(
        record,
        Record::Struct {
            title: Some(Field::Text("Buy milk".to_string())),
            checked: Some(Field::Flag(false)),
        }
    );
}

#[test]
fn create_todo_item_keeps_the_checked_flag() {
    let record = create_todo_item("Profit", true);
    assert_eq!(
        record,
        Record::Struct {
            title: Some(Field::Text("Profit".to_string())),
            checked: Some(Field::Flag(true)),
        }
    );
}

#[test]
fn create_todo_item_takes_an_empty_title() {
    let record = create_todo_item("", false);
    assert_eq!(TodoItem::try_from(record), Ok(TodoItem(String::new(), false)));
}

#[test]
fn try_from_reads_back_what_create_todo_item_built() {
    assert_eq!(
        TodoItem::try_from(create_todo_item("Do the Rust part", true)),
        Ok(TodoItem("Do the Rust part".to_string(), true))
    );
    assert_eq!(
        TodoItem::try_from(create_todo_item("???", false)),
        Ok(TodoItem("???".to_string(), false))
    );
}

#[test]
fn try_from_refuses_what_is_no_struct() {
    assert_eq!(TodoItem::try_from(Record::Other), Err(DecodeError::NotAStruct));
}

#[test]
fn try_from_refuses_a_struct_without_fields() {
    let record = Record::Struct { title: None, checked: None };
    assert_eq!(TodoItem::try_from(record), Err(DecodeError::UnexpectedFields));
}

#[test]
fn try_from_refuses_a_struct_without_title() {
    let record = Record::Struct { title: None, checked: Some(Field::Flag(true)) };
    assert_eq!(TodoItem::try_from(record), Err(DecodeError::UnexpectedFields));
}

#[test]
fn try_from_refuses_a_struct_without_checked() {
    let record = Record::Struct { title: Some(Field::Text("a".to_string())), checked: None };
    assert_eq!(TodoItem::try_from(record), Err(DecodeError::UnexpectedFields));
}

#[test]
fn try_from_refuses_fields_of_the_wrong_kind() {
    let flag_as_title =
        Record::Struct { title: Some(Field::Flag(true)), checked: Some(Field::Flag(true)) };
    assert_eq!(TodoItem::try_from(flag_as_title), Err(DecodeError::UnexpectedFields));
    let text_as_checked = Record::Struct {
        title: Some(Field::Text("a".to_string())),
        checked: Some(Field::Text("true".to_string())),
    };
    assert_eq!(TodoItem::try_from(text_as_checked), Err(DecodeError::UnexpectedFields));
    let other_title =
        Record::Struct { title: Some(Field::Other), checked: Some(Field::Flag(false)) };
    assert_eq!(TodoItem::try_from(other_title), Err(DecodeError::UnexpectedFields));
    let other_checked =
        Record::Struct { title: Some(Field::Text("a".to_string())), checked: Some(Field::Other) };
    assert_eq!(TodoItem::try_from(other_checked), Err(DecodeError::UnexpectedFields));
}

#[test]
fn decode_error_messages() {
    assert_eq!(DecodeError::NotAStruct.message(), "Not a struct");
    assert_eq!(DecodeError::UnexpectedFields.message(), "Struct does not have expected fields");
}

#[test]
fn clone_of_a_record_is_equal_to_it() {
    let record = create_todo_item("Ship to customer", false);
    assert_eq!(record.clone(), record);
    let odd = Record::Struct { title: Some(Field::Other), checked: None };
    assert_eq!(odd.clone(), odd);
    assert_eq!(Record::Other.clone(), Record::Other);
    assert_eq!(Field::Flag(true).clone(), Field::Flag(true));
}
