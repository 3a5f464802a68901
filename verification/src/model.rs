//! The observable model that holds the rows: `sixtyfps::VecModel`, which tells
//! the views bound to it of every change. Verus does not read that crate, so
//! what the list relies on is stated here and believed, not proved.
//!
//! A `VecModel` is made to be shared: it changes behind a shared reference,
//! and every clone of a handle to it sees the change. What is stated here is
//! stated of [`ListModel`], the one handle that the list owns and that cannot
//! be copied. Of the handle that a view gets nothing is stated.

use crate::record::{Record, RecordView};
use sixtyfps::VecModel;
use std::rc::Rc;
use vstd::prelude::*;

verus! {

/// `sixtyfps::VecModel`, taken as it is: Verus sees nothing inside a model.
#[verifier::external_type_specification]
#[verifier::external_body]
#[verifier::reject_recursive_types(T)]
pub struct ExVecModel<T>(VecModel<T>);

/// The list's own handle to its model. Verus sees nothing inside it, and there
/// is no second one to the same model: it is made by `model_from_rows` only
/// and is never cloned.
#[verifier::external_body]
pub struct ListModel {
    model: Rc<VecModel<Record>>,
}

/// A change of its rows that a model tells the views bound to it.
pub enum Notice {
    /// One row was added at `index`.
    RowAdded { index: nat },
    /// The row at `index` was removed.
    RowRemoved { index: nat },
}

/// The rows that a model holds, first row first.
pub uninterp spec fn model_rows(model: ListModel) -> Seq<RecordView>;

/// The changes that a model has told its views since it was made, oldest first.
pub uninterp spec fn model_notices(model: ListModel) -> Seq<Notice>;

/// What a sequence of rows stands for.
pub open spec fn record_views(rows: Seq<Record>) -> Seq<RecordView> {
    rows.map_values(|record: Record| record@)
}

/// `VecModel::from`: the new model holds the given rows in their order, and
/// has told no change yet.
#[verifier::external_body]
pub(crate) fn model_from_rows(rows: Vec<Record>) -> (model: ListModel)
    ensures
        model_rows(model) == record_views(rows@),
        model_notices(model) == Seq::<Notice>::empty(),
{
    ListModel { model: Rc::new(VecModel::from(rows)) }
}

/// `Model::row_count` of a `VecModel`: the number of rows it holds.
#[verifier::external_body]
pub(crate) fn model_row_count(model: &ListModel) -> (count: usize)
    ensures
        count == model_rows(*model).len(),
{
    sixtyfps::Model::row_count(&*model.model)
}

/// `Model::row_data` of a `VecModel`: a clone of the row at `row`. It indexes
/// the rows, so `row` has to be below their number.
#[verifier::external_body]
pub(crate) fn model_row_data(model: &ListModel, row: usize) -> (record: Record)
    requires
        row < model_rows(*model).len(),
    ensures
        record@ == model_rows(*model)[row as int],
{
    sixtyfps::Model::row_data(&*model.model, row)
}

/// `VecModel::push`: the row is added behind the others, and then the views
/// are told once that a row was added at the index it now has.
#[verifier::external_body]
pub(crate) fn model_push(model: &mut ListModel, record: Record)
    ensures
        model_rows(*final(model)) == model_rows(*old(model)).push(record@),
        model_notices(*final(model)) == model_notices(*old(model)).push(
            Notice::RowAdded { index: model_rows(*old(model)).len() },
        ),
{
    model.model.push(record)
}

/// `VecModel::remove`: the row at `index` leaves and those behind it move up by
/// one, and then the views are told once that the row at `index` was removed.
/// It removes from a `Vec`, so `index` has to be below the number of rows.
#[verifier::external_body]
pub(crate) fn model_remove(model: &mut ListModel, index: usize)
    requires
        index < model_rows(*old(model)).len(),
    ensures
        model_rows(*final(model)) == model_rows(*old(model)).remove(index as int),
        model_notices(*final(model)) == model_notices(*old(model)).push(
            Notice::RowRemoved { index: index as nat },
        ),
{
    model.model.remove(index)
}

/// `Rc::clone`: a handle to the same model, for a view. What is read through
/// it changes with the list, so nothing is stated of it.
#[verifier::external_body]
pub(crate) fn model_share(model: &ListModel) -> Rc<VecModel<Record>> {
    Rc::clone(&model.model)
}

} // verus!
