//! The batch processor: every record of a batch is transformed on its own,
//! and the outputs come back in the order of the inputs.

use vstd::prelude::*;
use rayon::iter::IntoParallelIterator;
use rayon::iter::ParallelIterator;
use vstd::utf8::valid_utf8;
use crate::error::LogError;
use crate::error::LogErrorView;
use crate::pattern::LineParser;
use crate::record::transform_data;
use crate::record::transformed;
use crate::record::well_formed;

verus! {

/// One input record: the caller's identifier and the bytes of a log line.
#[derive(Clone, Debug, PartialEq, Eq)]
pub struct RawRecord {
    pub id: String,
    pub data: Vec<u8>,
}

/// `RawRecord` as a mathematical value.
pub struct RawRecordView {
    pub id: Seq<char>,
    pub data: Seq<u8>,
}

impl View for RawRecord {
    type V = RawRecordView;

    open spec fn view(&self) -> RawRecordView {
        RawRecordView { id: self.id@, data: self.data@ }
    }
}

/// What an output record may say of its own processing.
#[derive(Clone, Copy, Debug, PartialEq, Eq)]
pub enum RecordStatus {
    Delivered,
    Dropped,
    ProcessingFailed,
}

/// One output record: the identifier of its input, the payload, and a
/// status, which the transformation never sets.
#[derive(Clone, Debug, PartialEq, Eq)]
pub struct OutputRecord {
    pub id: String,
    pub data: Vec<u8>,
    pub status: Option<RecordStatus>,
}

/// `OutputRecord` as a mathematical value.
pub struct OutputRecordView {
    pub id: Seq<char>,
    pub data: Seq<u8>,
    pub status: Option<RecordStatus>,
}

impl View for OutputRecord {
    type V = OutputRecordView;

    open spec fn view(&self) -> OutputRecordView {
        OutputRecordView { id: self.id@, data: self.data@, status: self.status }
    }
}

/// The output for the input `record`: its identifier, no status, and as
/// payload the JSON text of its line, or its own bytes where the
/// transformation fails.
pub open spec fn transformed_record(record: RawRecordView) -> OutputRecordView {
    OutputRecordView {
        id: record.id,
        data: match transformed(record.data) {
            Ok(bytes) => bytes,
            Err(_) => record.data,
        },
        status: None,
    }
}

/// The outputs for the inputs `records`, one for one and in their order.
pub open spec fn transformed_batch(records: Seq<RawRecordView>) -> Seq<OutputRecordView> {
    records.map_values(|record: RawRecordView| transformed_record(record))
}

/// A batch of input records as mathematical values.
pub open spec fn inputs_view(records: Seq<RawRecord>) -> Seq<RawRecordView> {
    records.map_values(|record: RawRecord| record@)
}

/// A batch of output records as mathematical values.
pub open spec fn outputs_view(records: Seq<OutputRecord>) -> Seq<OutputRecordView> {
    records.map_values(|record: OutputRecord| record@)
}

/// Every record has its output, whatever its bytes are: the output keeps
/// the identifier and has no status, and its payload is the JSON text of the
/// line or, byte for byte, the payload of the input.
pub proof fn every_record_has_its_output(record: RawRecordView)
    ensures
        transformed_record(record).id == record.id,
        transformed_record(record).status is None,
        transformed(record.data) == Ok::<Seq<u8>, LogErrorView>(transformed_record(record).data)
            || transformed_record(record).data == record.data,
{
}

/// Where the transformation of a record fails, at whatever stage, the
/// payload of the output is the payload of the input, byte for byte.
pub proof fn fallback_keeps_payload(record: RawRecordView)
    requires
        transformed(record.data) is Err,
    ensures
        transformed_record(record).data == record.data,
        transformed_record(record).id == record.id,
{
}

/// Bytes that are not UTF-8 are an encoding error, and pass through.
pub proof fn invalid_utf8_passes_through(record: RawRecordView)
    requires
        !valid_utf8(record.data),
    ensures
        transformed(record.data) matches Err(LogErrorView::EncodingError(_)),
        transformed_record(record).data == record.data,
{
}

/// A batch has as many outputs as inputs, and the i-th output is the output
/// of the i-th input, with its identifier.
pub proof fn batch_preserves_order(records: Seq<RawRecordView>)
    ensures
        transformed_batch(records).len() == records.len(),
        forall|i: int|
            0 <= i < records.len() ==> #[trigger] transformed_batch(records)[i]
                == transformed_record(records[i]),
        forall|i: int|
            0 <= i < records.len() ==> (#[trigger] transformed_batch(records)[i]).id
                == records[i].id,
{
}

/// The output for `record`, given how the transformation of its payload
/// ended: the new payload where it succeeded, the payload of the input
/// where it failed, whatever the error.
pub fn output_record(record: RawRecord, outcome: Result<Vec<u8>, LogError>) -> (out: OutputRecord)
    ensures
        out.id@ == record.id@,
        out.status is None,
        match outcome {
            Ok(bytes) => out.data@ == bytes@,
            Err(_) => out.data@ == record.data@,
        },
{
    let RawRecord { id, data } = record;
    match outcome {
        Ok(bytes) => OutputRecord { id, data: bytes, status: None },
        Err(_) => OutputRecord { id, data, status: None },
    }
}

/// Transforms one record. No error leaves this function: a record that
/// cannot be transformed passes through with its bytes unchanged. It is
/// transformed exactly where its bytes are well-formed.
pub fn transform_record(parser: &LineParser, record: RawRecord) -> (out: OutputRecord)
    ensures
        out@ == transformed_record(record@),
        out.id@ == record.id@,
        out.status is None,
        match transformed(record.data@) {
            Ok(bytes) => out.data@ == bytes,
            Err(_) => out.data@ == record.data@,
        },
        well_formed(record.data@) <==> transformed(record.data@) is Ok,
{
    let outcome = transform_data(parser, record.data.clone());
    output_record(record, outcome)
}

/// rayon's `into_par_iter`, `map` and `collect` on a `Vec`. A parallel
/// iterator gives the result of its sequential counterpart: the closure, one
/// call of `transform_record`, is applied to every record, and the outputs
/// are collected in the order of the records, whichever is finished first.
/// So every output has what `transform_record` ensures of it.
#[verifier::external_body]
fn par_transform(parser: &LineParser, records: Vec<RawRecord>) -> (out: Vec<OutputRecord>)
    ensures
        outputs_view(out@) == transformed_batch(inputs_view(records@)),
        forall|i: int|
            0 <= i < out@.len() && 0 <= i < records@.len() ==> (well_formed(
                #[trigger] records@[i].data@,
            ) <==> transformed(records@[i].data@) == Ok::<Seq<u8>, LogErrorView>(out@[i].data@)),
{
    records.into_par_iter().map(|record| transform_record(parser, record)).collect()
}

/// Transforms a batch: as many outputs as inputs, the i-th output for the
/// i-th input. A record is transformed exactly where its bytes are
/// well-formed, and passes through otherwise.
pub fn my_handler(parser: &LineParser, event: Vec<RawRecord>) -> (response: Vec<OutputRecord>)
    ensures
        response@.len() == event@.len(),
        forall|i: int| 0 <= i < event@.len() ==> response@[i].id@ == event@[i].id@,
        forall|i: int|
            0 <= i < event@.len() ==> (#[trigger] response@[i])@ == transformed_record(
                event@[i]@,
            ),
        outputs_view(response@) == transformed_batch(inputs_view(event@)),
        forall|i: int|
            0 <= i < event@.len() ==> (well_formed(#[trigger] event@[i].data@) <==> transformed(
                event@[i].data@,
            ) == Ok::<Seq<u8>, LogErrorView>(response@[i].data@)),
{
    let response = par_transform(parser, event);
    proof {
        assert(outputs_view(response@).len() == response@.len());
        assert(transformed_batch(inputs_view(event@)).len() == event@.len());
        assert forall|i: int| 0 <= i < event@.len() implies (#[trigger] response@[i])@
            == transformed_record(event@[i]@) by {
            assert(outputs_view(response@)[i] == response@[i]@);
            assert(transformed_batch(inputs_view(event@))[i] == transformed_record(
                inputs_view(event@)[i],
            ));
        }
    }
    response
}

} // verus!
