//! The history of accepted readings: kept in arrival order, shown newest
//! first.

use slint::{MapModel, Model, ModelRc, ReverseModel, VecModel};
use std::rc::Rc;
use vstd::prelude::*;

use crate::snapshot::Snapshot;
use crate::timestamp::{seconds_text, timestamp_display};

verus! {

/// One accepted reading as the display lists it. A record is never changed
/// once made.
#[derive(Debug)]
pub struct HistoryRecord {
    /// Temperature in degrees Celsius, as a binary32 bit pattern.
    pub temperature: u32,
    /// Relative humidity in percent, as a binary32 bit pattern.
    pub humidity: u32,
    /// The time of the reading in whole seconds since boot, as text.
    pub timestamp_display: String,
}

/// What a record holds.
pub struct RecordView {
    pub temperature: u32,
    pub humidity: u32,
    pub timestamp_display: Seq<char>,
}

impl View for HistoryRecord {
    type V = RecordView;

    open spec fn view(&self) -> RecordView {
        RecordView {
            temperature: self.temperature,
            humidity: self.humidity,
            timestamp_display: self.timestamp_display@,
        }
    }
}

/// The record that a snapshot gives, whether or not it is valid.
pub open spec fn record_of(snapshot: Snapshot) -> RecordView {
    RecordView {
        temperature: snapshot.temperature,
        humidity: snapshot.humidity,
        timestamp_display: seconds_text(snapshot.timestamp as int),
    }
}

impl Clone for HistoryRecord {
    /// A copy that holds what this record holds.
    fn clone(&self) -> (copy: HistoryRecord)
        ensures
            copy@ == self@,
    {
        HistoryRecord {
            temperature: self.temperature,
            humidity: self.humidity,
            timestamp_display: self.timestamp_display.clone(),
        }
    }
}

impl HistoryRecord {
    /// Makes the record of the reading that `snapshot` carries.
    pub fn from_snapshot(snapshot: &Snapshot) -> (record: HistoryRecord)
        ensures
            record@ == record_of(*snapshot),
    {
        HistoryRecord {
            temperature: snapshot.temperature,
            humidity: snapshot.humidity,
            timestamp_display: timestamp_display(snapshot.timestamp),
        }
    }
}

/// A `slint::VecModel` of records behind the `slint::ReverseModel` that
/// shows it newest first. The reversed model is the only holder of the
/// stored rows, so both orders are always views of one sequence.
#[verifier::external_body]
pub struct RecordModel {
    reversed: Rc<ReverseModel<VecModel<HistoryRecord>>>,
}

#[verifier::external_type_specification]
#[verifier::external_body]
#[verifier::reject_recursive_types(T)]
pub struct ExModelRc<T>(ModelRc<T>);

/// The rows of the stored model, in the order in which they were pushed.
pub uninterp spec fn model_rows(model: RecordModel) -> Seq<RecordView>;

/// `VecModel::default` wrapped by `ReverseModel::new`: a model without
/// rows.
#[verifier::external_body]
fn model_new() -> (model: RecordModel)
    ensures
        model_rows(model) == Seq::<RecordView>::empty(),
{
    RecordModel { reversed: Rc::new(ReverseModel::new(VecModel::default())) }
}

/// `ModelRc::new` on a `MapModel` over the reversed model, whose map
/// function hands each row on as a copy. A `MapModel` keeps the `Model`
/// trait's own `set_row_data`, `push_row`, `insert_row` and `remove_row`,
/// which change nothing, so no method of the trait writes the stored rows
/// through the handle. The map function is a closure of this function:
/// nobody else can name its type, and so nobody can turn the handle back
/// into the `MapModel` to reach the model behind it. What the handle shows
/// follows every later push; nothing is claimed of it here.
#[verifier::external_body]
fn model_handle(model: &RecordModel) -> ModelRc<HistoryRecord> {
    ModelRc::new(MapModel::new(model.reversed.clone(), |record: HistoryRecord| record.clone()))
}

/// `VecModel::push` on the stored model: the row is added at the end and
/// the rows before it stay as they were.
#[verifier::external_body]
fn model_push(model: &mut RecordModel, record: HistoryRecord)
    ensures
        model_rows(*final(model)) == model_rows(*old(model)).push(record@),
{
    model.reversed.source_model().push(record)
}

/// `Model::row_count` of the reversed model, which is that of the stored
/// one.
#[verifier::external_body]
fn model_row_count(model: &RecordModel) -> (count: usize)
    ensures
        count == model_rows(*model).len(),
{
    model.reversed.row_count()
}

/// `Model::row_data` of the stored model: a copy of the row at `row` in
/// arrival order, or nothing past the end.
#[verifier::external_body]
fn model_row(model: &RecordModel, row: usize) -> (record: Option<HistoryRecord>)
    ensures
        match record {
            Some(found) => row < model_rows(*model).len() && found@ == model_rows(*model)[
                row as int
            ],
            None => row >= model_rows(*model).len(),
        },
{
    model.reversed.source_model().row_data(row)
}

/// `Model::row_data` of the reversed model: a copy of the row that stands
/// `row` places before the last one pushed, or nothing past the end. The
/// method adds one to `row`, so the largest index is left out.
#[verifier::external_body]
fn model_reversed_row(model: &RecordModel, row: usize) -> (record: Option<HistoryRecord>)
    requires
        row < usize::MAX,
    ensures
        match record {
            Some(found) => row < model_rows(*model).len() && found@ == model_rows(*model)[
                model_rows(*model).len() - 1 - row
            ],
            None => row >= model_rows(*model).len(),
        },
{
    model.reversed.row_data(row)
}

/// The rows of a history as the display lists them: the latest first.
pub open spec fn newest_first(rows: Seq<RecordView>) -> Seq<RecordView> {
    rows.reverse()
}

/// The append-only store of accepted readings.
pub struct History {
    model: RecordModel,
}

impl View for History {
    type V = Seq<RecordView>;

    /// The records in arrival order, oldest first.
    closed spec fn view(&self) -> Seq<RecordView> {
        model_rows(self.model)
    }
}

impl History {
    /// An empty history.
    pub fn new() -> (history: History)
        ensures
            history@ == Seq::<RecordView>::empty(),
    {
        History { model: model_new() }
    }

    /// Adds a record after all earlier ones.
    pub fn append(&mut self, record: HistoryRecord)
        ensures
            final(self)@ == old(self)@.push(record@),
    {
        model_push(&mut self.model, record);
    }

    /// The number of records.
    pub fn len(&self) -> (count: usize)
        ensures
            count == self@.len(),
    {
        model_row_count(&self.model)
    }

    /// Whether no record was accepted yet.
    pub fn is_empty(&self) -> (empty: bool)
        ensures
            empty == (self@.len() == 0),
    {
        model_row_count(&self.model) == 0
    }

    /// The record at `index` in arrival order, oldest first.
    pub fn get(&self, index: usize) -> (record: Option<HistoryRecord>)
        ensures
            match record {
                Some(found) => index < self@.len() && found@ == self@[index as int],
                None => index >= self@.len(),
            },
    {
        model_row(&self.model, index)
    }

    /// The record at `index` of the newest-first projection.
    pub fn newest(&self, index: usize) -> (record: Option<HistoryRecord>)
        ensures
            match record {
                Some(found) => index < self@.len() && found@ == newest_first(self@)[index as int],
                None => index >= self@.len(),
            },
    {
        if index < model_row_count(&self.model) {
            model_reversed_row(&self.model, index)
        } else {
            None
        }
    }

    /// A handle to the newest-first projection, for the display to bind to.
    /// It shares the stored rows: records appended later show up in it, at
    /// the front. It reads only: the methods by which a model is written
    /// change nothing through it, and it cannot be turned back into the
    /// model that it reads.
    pub fn projection(&self) -> ModelRc<HistoryRecord> {
        model_handle(&self.model)
    }

    /// The whole newest-first projection, copied out.
    pub fn newest_first_records(&self) -> (records: Vec<HistoryRecord>)
        ensures
            records.len() == self@.len(),
            forall|i: int|
                0 <= i < records.len() ==> (#[trigger] records[i])@ == newest_first(self@)[i],
    {
        let count = model_row_count(&self.model);
        let mut records: Vec<HistoryRecord> = Vec::new();
        let mut index: usize = 0;
        while index < count
            invariant
                count == self@.len(),
                index <= count,
                records.len() == index,
                forall|i: int|
                    0 <= i < index ==> (#[trigger] records[i])@ == newest_first(self@)[i],
            decreases count - index,
        {
            match model_reversed_row(&self.model, index) {
                Some(record) => {
                    records.push(record);
                },
                None => {},
            }
            index = index + 1;
        }
        records
    }
}

} // verus!
