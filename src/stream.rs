//! The IPC stream writer: a schema message at opening, one message per batch,
//! then the end-of-stream marker. Once finished, the writer refuses
//! `write`, `flush` and a second `finish` with an error.

use crate::batch::{batch_fields, DirentBatch};
use crate::schema::{
    field_infos, fields_equal, fields_match, info_models, schema_fields, FieldInfo, FieldModel,
};
use arrow_ipc::writer::StreamWriter;
use arrow_schema::{ArrowError, Schema};
use std::io::Write;
use vstd::prelude::*;

verus! {

#[verifier::external_type_specification]
#[verifier::external_body]
pub struct ExIoError(std::io::Error);

/// An Arrow IPC stream writer over a sink.
#[verifier::external_body]
#[verifier::reject_recursive_types(W)]
pub struct IpcSink<W> {
    w: StreamWriter<W>,
}

/// Relies on `StreamWriter::try_new`, which writes the schema message.
#[verifier::external_body]
fn open_sink<W: Write>(sink: W, schema: &Schema) -> (r: Result<IpcSink<W>, ArrowError>) {
    StreamWriter::try_new(sink, schema).map(|w| IpcSink { w })
}

/// Relies on `StreamWriter::write`, which writes one batch message.
#[verifier::external_body]
fn sink_write<W: Write>(s: &mut IpcSink<W>, b: &DirentBatch) -> (r: Result<(), ArrowError>) {
    s.w.write(&b.record)
}

/// Relies on `StreamWriter::flush`, which flushes the buffer and the sink.
#[verifier::external_body]
fn sink_flush<W: Write>(s: &mut IpcSink<W>) -> (r: Result<(), ArrowError>) {
    s.w.flush()
}

/// Relies on `StreamWriter::finish`, which writes the end-of-stream marker and
/// flushes.
#[verifier::external_body]
fn sink_finish<W: Write>(s: &mut IpcSink<W>) -> (r: Result<(), ArrowError>) {
    s.w.finish()
}

/// Relies on `io::Error::other`, which wraps an Arrow error.
#[verifier::external_body]
fn io_error_from(e: ArrowError) -> (r: std::io::Error) {
    std::io::Error::other(e)
}
/// Relies on `RecordBatch::schema`: a copy of the schema that the batch
/// carries.
#[verifier::external_body]
fn batch_schema(b: &DirentBatch) -> (r: Schema)
    ensures
        schema_fields(r) == batch_fields(*b),
{
    b.record.schema().as_ref().clone()
}

/// Why a stream operation failed.
#[derive(Debug)]
pub enum StreamError {
    /// The stream was already finished.
    Finished,
    /// The batch's fields differ from the stream's.
    SchemaMismatch,
    /// The sink, or the encoding on its way there, failed.
    Sink(std::io::Error),
}

/// Writes a stream of record batches under one schema, over a sink that the
/// caller buffers (a `BufWriter`), so that small messages are not each a
/// separate write to the underlying file or pipe.
#[verifier::reject_recursive_types(W)]
pub struct IpcStreamWriter<W> {
    sink: IpcSink<W>,
    fields: Vec<FieldInfo>,
    finished: bool,
}

impl<W: Write> IpcStreamWriter<W> {
    /// Whether the end-of-stream marker has been written.
    pub closed spec fn is_finished(&self) -> bool {
        self.finished
    }

    /// The fields of the schema that the stream announces.
    pub closed spec fn fields(&self) -> Seq<FieldModel> {
        info_models(self.fields@)
    }

    /// Opens a stream over `sink` and writes the schema message.
    pub fn try_new(sink: W, schema: Schema) -> (r: Result<Self, std::io::Error>)
        ensures
            r is Ok ==> !r->Ok_0.is_finished() && r->Ok_0.fields() == schema_fields(schema),
    {
        let fields = field_infos(&schema);
        match open_sink(sink, &schema) {
            Ok(s) => Ok(IpcStreamWriter { sink: s, fields, finished: false }),
            Err(e) => Err(io_error_from(e)),
        }
    }

    /// Writes one batch message. Fails, writing nothing, once the stream is
    /// finished, or where the batch's fields do not match the stream's;
    /// otherwise the batch goes to the sink, and only the sink can fail.
    pub fn write(&mut self, r: &DirentBatch) -> (res: Result<(), StreamError>)
        ensures
            final(self).is_finished() == old(self).is_finished(),
            final(self).fields() == old(self).fields(),
            (res is Err && res->Err_0 is Finished) <==> old(self).is_finished(),
            (res is Err && res->Err_0 is SchemaMismatch) <==> (!old(self).is_finished()
                && !fields_match(batch_fields(*r), old(self).fields())),
            !old(self).is_finished() && fields_match(batch_fields(*r), old(self).fields())
                && res is Err ==> res->Err_0 is Sink,
    {
        if self.finished {
            return Err(StreamError::Finished);
        }
        let batch_fields = field_infos(&batch_schema(r));
        if !fields_equal(&batch_fields, &self.fields) {
            return Err(StreamError::SchemaMismatch);
        }
        match sink_write(&mut self.sink, r) {
            Ok(()) => Ok(()),
            Err(e) => Err(StreamError::Sink(io_error_from(e))),
        }
    }

    /// Hands buffered bytes to the sink. Fails once the stream is finished;
    /// otherwise only the sink can fail.
    pub fn flush(&mut self) -> (res: Result<(), StreamError>)
        ensures
            final(self).is_finished() == old(self).is_finished(),
            final(self).fields() == old(self).fields(),
            (res is Err && res->Err_0 is Finished) <==> old(self).is_finished(),
            !old(self).is_finished() && res is Err ==> res->Err_0 is Sink,
    {
        if self.finished {
            return Err(StreamError::Finished);
        }
        match sink_flush(&mut self.sink) {
            Ok(()) => Ok(()),
            Err(e) => Err(StreamError::Sink(io_error_from(e))),
        }
    }

    /// Writes the end-of-stream marker and flushes; the stream is then
    /// finished. Fails on a stream already finished; otherwise only the sink
    /// can fail.
    pub fn finish(&mut self) -> (res: Result<(), StreamError>)
        ensures
            final(self).fields() == old(self).fields(),
            (res is Err && res->Err_0 is Finished) <==> old(self).is_finished(),
            !old(self).is_finished() && res is Err ==> res->Err_0 is Sink,
            old(self).is_finished() ==> final(self).is_finished(),
            !old(self).is_finished() ==> (final(self).is_finished() <==> res is Ok),
    {
        if self.finished {
            return Err(StreamError::Finished);
        }
        match sink_finish(&mut self.sink) {
            Ok(()) => {
                self.finished = true;
                Ok(())
            },
            Err(e) => Err(StreamError::Sink(io_error_from(e))),
        }
    }
}

} // verus!
