//! The ordered list of rows.

use crate::compact::{
    compacted_up_to, is_done, is_open, lemma_adjusted_index_in_range, lemma_compacted_ends,
    lemma_compacted_step, lemma_pending_has_no_done_row, lemma_pending_keeps_open_items,
    lemma_step, pending, removal_notices, removed_before,
};
use crate::model::{
    model_from_rows, model_notices, model_push, model_remove, model_row_count, model_row_data,
    model_rows, model_share, record_views, ListModel, Notice,
};
use crate::record::{create_todo_item, item_record, Field, FieldView, Record, RecordView, TodoItem};
use sixtyfps::VecModel;
use std::rc::Rc;
use vstd::prelude::*;

verus! {

/// An index at or behind the end of the list.
#[derive(Clone, Copy, Debug, PartialEq, Eq, Structural)]
pub struct IndexError;

/// The rows in the order in which they were added. Indices run from 0 to the
/// length without gaps: when a row leaves, those behind it move up by one.
///
/// The list alone adds and removes rows. A view bound to it may write a row
/// in place between two calls; each contract here speaks of one call.
pub struct TodoList {
    model: ListModel,
}

impl View for TodoList {
    type V = Seq<RecordView>;

    closed spec fn view(&self) -> Seq<RecordView> {
        model_rows(self.model)
    }
}

/// The text that the first of the arguments holds, if it holds one.
pub open spec fn first_text(args: Seq<Field>) -> Option<Seq<char>> {
    if args.len() > 0 {
        match args[0]@ {
            FieldView::Text(text) => Some(text),
            _ => None,
        }
    } else {
        None
    }
}

/// The rows that a list starts with: two done items and six open ones.
pub open spec fn seed_rows() -> Seq<RecordView> {
    seq![
        item_record("Implement the .60 file"@, true),
        item_record("Do the Rust part"@, true),
        item_record("Make the C++ code"@, false),
        item_record("Write some JavaScript code"@, false),
        item_record("Test the application"@, false),
        item_record("Ship to customer"@, false),
        item_record("???"@, false),
        item_record("Profit"@, false),
    ]
}

impl TodoList {
    /// The changes of the list that the views bound to it were told, oldest first.
    pub closed spec fn notices(&self) -> Seq<Notice> {
        model_notices(self.model)
    }

    /// A list of the given rows, in their order. No change has been told yet.
    pub fn new(rows: Vec<Record>) -> (list: TodoList)
        ensures
            list@ == record_views(rows@),
            list.notices() == Seq::<Notice>::empty(),
    {
        TodoList { model: model_from_rows(rows) }
    }

    /// The list as it is when the application starts.
    pub fn seed() -> (list: TodoList)
        ensures
            list@ == seed_rows(),
            list.notices() == Seq::<Notice>::empty(),
    {
        let mut rows: Vec<Record> = Vec::new();
        rows.push(create_todo_item("Implement the .60 file", true));
        rows.push(create_todo_item("Do the Rust part", true));
        rows.push(create_todo_item("Make the C++ code", false));
        rows.push(create_todo_item("Write some JavaScript code", false));
        rows.push(create_todo_item("Test the application", false));
        rows.push(create_todo_item("Ship to customer", false));
        rows.push(create_todo_item("???", false));
        rows.push(create_todo_item("Profit", false));
        assert(record_views(rows@) =~= seed_rows());
        TodoList::new(rows)
    }

    /// The number of rows.
    pub fn length(&self) -> (count: usize)
        ensures
            count == self@.len(),
    {
        model_row_count(&self.model)
    }

    /// A copy of the row at `index`, or `IndexError` where the list has no such row.
    pub fn get(&self, index: usize) -> (result: Result<Record, IndexError>)
        ensures
            index < self@.len() ==> result is Ok && result->Ok_0@ == self@[index as int],
            index >= self@.len() ==> result == Err::<Record, IndexError>(IndexError),
    {
        if index < model_row_count(&self.model) {
            Ok(model_row_data(&self.model, index))
        } else {
            Err(IndexError)
        }
    }

    /// Adds a row behind the others: the list is one longer, the row is its
    /// last, and the rows before it are as they were. The views are told once.
    pub fn append(&mut self, record: Record)
        ensures
            final(self)@ == old(self)@.push(record@),
            final(self)@.len() == old(self)@.len() + 1,
            final(self)@[final(self)@.len() - 1] == record@,
            forall|i: int| 0 <= i < old(self)@.len() ==> final(self)@[i] == old(self)@[i],
            final(self).notices() == old(self).notices().push(
                Notice::RowAdded { index: old(self)@.len() },
            ),
    {
        model_push(&mut self.model, record);
    }

    /// Removes the row at `index`; the rows behind it move up by one, and the
    /// views are told once. Where the list has no such row it stays as it is,
    /// nothing is told, and the result is `IndexError`.
    pub fn remove_at(&mut self, index: usize) -> (result: Result<(), IndexError>)
        ensures
            index < old(self)@.len() ==> result is Ok && final(self)@ == old(self)@.remove(
                index as int,
            ) && final(self).notices() == old(self).notices().push(
                Notice::RowRemoved { index: index as nat },
            ),
            index >= old(self)@.len() ==> result is Err && final(self)@ == old(self)@
                && final(self).notices() == old(self).notices(),
    {
        if index < model_row_count(&self.model) {
            model_remove(&mut self.model, index);
            Ok(())
        } else {
            Err(IndexError)
        }
    }

    /// Removes every row that carries a done item, in one pass over the list as
    /// it stood at the start. The rows that stay keep their order; a row that
    /// carries no item is passed over and stays. The views are told once for
    /// each row that leaves, with the index it had when it left.
    pub fn remove_done(&mut self)
        ensures
            final(self)@ == pending(old(self)@),
            forall|i: int| 0 <= i < final(self)@.len() ==> !is_done(#[trigger] final(self)@[i]),
            final(self)@.filter(|record: RecordView| is_open(record)) == old(self)@.filter(
                |record: RecordView| is_open(record),
            ),
            final(self).notices() == old(self).notices() + removal_notices(
                old(self)@,
                old(self)@.len() as int,
            ),
    {
        let ghost rows = self@;
        let ghost told = self.notices();
        let count = model_row_count(&self.model);
        let mut offset: usize = 0;
        let mut i: usize = 0;
        proof {
            lemma_compacted_ends(rows);
        }
        while i < count
            invariant
                count == rows.len(),
                i <= count,
                offset == removed_before(rows, i as int),
                self@ == compacted_up_to(rows, i as int),
                self.notices() == told + removal_notices(rows, i as int),
            decreases count - i,
        {
            proof {
                lemma_adjusted_index_in_range(rows, i as int);
                lemma_compacted_step(rows, i as int);
                lemma_step(rows, i as int);
            }
            let todo_item = TodoItem::try_from(model_row_data(&self.model, i - offset));
            if let Ok(TodoItem(_, checked)) = todo_item {
                if checked {
                    model_remove(&mut self.model, i - offset);
                    offset += 1;
                }
            }
            i += 1;
        }
        proof {
            lemma_pending_has_no_done_row(rows);
            lemma_pending_keeps_open_items(rows);
        }
    }

    /// Adds the item `text`, not done, behind the others. Any text is taken,
    /// the empty one too.
    pub fn on_add(&mut self, text: &str)
        ensures
            final(self)@ == old(self)@.push(item_record(text@, false)),
            final(self).notices() == old(self).notices().push(
                Notice::RowAdded { index: old(self)@.len() },
            ),
    {
        self.append(create_todo_item(text, false));
    }

    /// What the view calls when the user has entered an item: where the first
    /// argument is a text, the item of that text is added, not done. With no
    /// argument, or with a first argument that is no text, the list stays as
    /// it is.
    pub fn todo_added(&mut self, args: &[Field])
        ensures
            final(self)@ == match first_text(args@) {
                Some(text) => old(self)@.push(item_record(text, false)),
                None => old(self)@,
            },
            final(self).notices() == match first_text(args@) {
                Some(_) => old(self).notices().push(Notice::RowAdded { index: old(self)@.len() }),
                None => old(self).notices(),
            },
    {
        if args.len() > 0 {
            if let Field::Text(text) = &args[0] {
                self.on_add(text.as_str());
            }
        }
    }

    /// A handle to the list's model, for a view to be bound to. The handle
    /// shares the model with the list: what is read through it is the list as
    /// it is at the time of reading, every later change included, and whoever
    /// holds it hears of each change. No clause says so, because nothing that
    /// is stated of a value can hold of a handle whose rows change with the
    /// list.
    pub fn model(&self) -> Rc<VecModel<Record>> {
        model_share(&self.model)
    }
}

} // verus!
