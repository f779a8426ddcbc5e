//! The stream writer and the functions that drive it.
//!
//! A stream is a sequence of messages: the schema, then record batches,
//! then the end-of-stream marker. The writer encodes each message as it is
//! handed over and passes the bytes through a buffer to an in-memory sink,
//! which takes every byte that it is given.

use arrow::datatypes::Schema;
use arrow::error::ArrowError;
use arrow::ipc::writer::StreamWriter;
use crate::batch::batch_columns;
use crate::batch::batch_fields;
use crate::batch::columns_fit;
use crate::batch::networks2batch;
use crate::batch::Batch;
use crate::error::Error;
use crate::laws::lemma_network_schema_fits;
use crate::laws::lemma_stream_of_one_batch;
use crate::record::columns_within_limit;
use crate::record::network_columns;
use crate::record::records_of;
use crate::record::ColumnView;
use crate::record::Network;
use crate::schema::all_fields_typed;
use crate::schema::all_typed;
use crate::schema::infos_view;
use crate::schema::network_fields;
use crate::schema::network_schema;
use crate::schema::same_fields;
use crate::schema::schema_bare;
use crate::schema::schema_fields;
use crate::schema::schema_read;
use crate::schema::share_schema;
use crate::schema::FieldInfo;
use crate::schema::FieldView;
use std::io::BufWriter;
use std::io::Write;
use std::sync::Arc;
use vstd::prelude::*;

verus! {

/// One message of a stream.
pub enum Message {
    /// The preamble: the fields of every batch that follows.
    Schema(Seq<FieldView>),
    /// One record batch, as its columns.
    Batch(Seq<ColumnView>),
    /// The end-of-stream marker.
    End,
}

/// Arrow's IPC stream writer over a buffered in-memory sink. What it has
/// written is read through [`stream_messages`], [`stream_sunk`] and
/// [`stream_pending`].
#[verifier::external_body]
pub struct Stream {
    inner: StreamWriter<BufWriter<Vec<u8>>>,
}

/// The messages that a stream has taken, oldest first.
pub uninterp spec fn stream_messages(stream: Stream) -> Seq<Message>;

/// The bytes that have reached a stream's sink.
pub uninterp spec fn stream_sunk(stream: Stream) -> Seq<u8>;

/// The bytes that a stream has encoded and that still wait in its buffer.
pub uninterp spec fn stream_pending(stream: Stream) -> Seq<u8>;

/// The bytes of the schema message of a bare schema whose fields are all
/// typed.
pub uninterp spec fn schema_message(fields: Seq<FieldView>) -> Seq<u8>;

/// The bytes of the record batch message of a batch with the given columns.
pub uninterp spec fn batch_message(columns: Seq<ColumnView>) -> Seq<u8>;

/// Every byte that a stream has encoded: what has reached the sink, then
/// what waits in the buffer.
pub open spec fn stream_encoded(stream: Stream) -> Seq<u8> {
    stream_sunk(stream) + stream_pending(stream)
}

/// Whether a stream has taken the end-of-stream marker.
pub open spec fn stream_finished(stream: Stream) -> bool {
    stream_messages(stream).len() > 0 && stream_messages(stream).last() is End
}

/// The eight bytes of the end-of-stream marker: the continuation marker
/// and a length of zero.
pub open spec fn end_marker() -> Seq<u8> {
    seq![255u8, 255u8, 255u8, 255u8, 0u8, 0u8, 0u8, 0u8]
}

/// The messages of a complete stream of the given batches.
pub open spec fn complete_stream(fields: Seq<FieldView>, batches: Seq<Seq<ColumnView>>) -> Seq<
    Message,
> {
    seq![Message::Schema(fields)] + Seq::new(batches.len(), |i: int| Message::Batch(batches[i]))
        + seq![Message::End]
}

/// The bytes of the record batch messages of the given batches, one behind
/// the other.
pub open spec fn batch_messages(batches: Seq<Seq<ColumnView>>) -> Seq<u8>
    decreases batches.len(),
{
    if batches.len() == 0 {
        Seq::empty()
    } else {
        batch_messages(batches.drop_last()) + batch_message(batches.last())
    }
}

/// The bytes of a complete stream under a bare schema: the schema message,
/// the batch messages, the end-of-stream marker.
pub open spec fn stream_bytes(fields: Seq<FieldView>, batches: Seq<Seq<ColumnView>>) -> Seq<u8> {
    schema_message(fields) + batch_messages(batches) + end_marker()
}

/// Whether `after` is `before` with one complete stream behind it: the
/// bytes that a finished stream with an empty buffer has sunk, after it
/// took the schema of `fields`, the `batches` in their order and the
/// end-of-stream marker, which the bytes end with.
pub open spec fn holds_stream(
    before: Seq<u8>,
    after: Seq<u8>,
    fields: Seq<FieldView>,
    batches: Seq<Seq<ColumnView>>,
) -> bool {
    exists|stream: Stream|
        {
            &&& #[trigger] stream_messages(stream) == complete_stream(fields, batches)
            &&& stream_pending(stream).len() == 0
            &&& end_marker().is_suffix_of(stream_sunk(stream))
            &&& after == before + stream_sunk(stream)
        }
}

/// Calls `StreamWriter::try_new_buffered` on an empty vector. Arrow refuses
/// only a schema that nests a dictionary in a dictionary, so a schema whose
/// fields are all typed is taken. The schema message is then the one
/// message written, and for a bare schema of typed fields its bytes are
/// [`schema_message`] of the fields.
#[verifier::external_body]
fn stream_open(schema: &Schema) -> (opened: Result<Stream, ArrowError>)
    ensures
        all_typed(schema_fields(*schema)) ==> opened is Ok,
        opened matches Ok(stream) ==> stream_messages(stream) == seq![
            Message::Schema(schema_fields(*schema)),
        ],
        opened matches Ok(stream) ==> (schema_bare(*schema) && all_typed(schema_fields(*schema))
            ==> stream_encoded(stream) == schema_message(schema_fields(*schema))),
{
    StreamWriter::try_new_buffered(Vec::new(), schema).map(|inner| Stream { inner })
}

/// Calls `StreamWriter::write`. A finished stream refuses the batch and
/// stays as it was; an unfinished one takes it: the batch is the newest
/// message, and its bytes stand behind those encoded before.
#[verifier::external_body]
fn stream_write(stream: &mut Stream, batch: &Batch) -> (written: Result<(), ArrowError>)
    ensures
        written is Ok <==> !stream_finished(*old(stream)),
        written is Err ==> *final(stream) == *old(stream),
        written is Ok ==> {
            &&& stream_messages(*final(stream)) == stream_messages(*old(stream)).push(
                Message::Batch(batch_columns(*batch)),
            )
            &&& stream_encoded(*final(stream)) == stream_encoded(*old(stream)) + batch_message(
                batch_columns(*batch),
            )
        },
{
    stream.inner.write(&batch.inner)
}

/// Calls `flush` on the buffer that `StreamWriter::get_mut` hands out. The
/// sink takes every byte, so the call returns `Ok`: no message is written,
/// the buffer is empty and the sink holds every byte that was encoded.
#[verifier::external_body]
fn stream_flush(stream: &mut Stream) -> (flushed: Result<(), std::io::Error>)
    ensures
        flushed is Ok,
        stream_messages(*final(stream)) == stream_messages(*old(stream)),
        stream_pending(*final(stream)).len() == 0,
        stream_sunk(*final(stream)) == stream_encoded(*old(stream)),
{
    stream.inner.get_mut().flush()
}

/// Calls `StreamWriter::finish`. A finished stream refuses and stays as it
/// was; an unfinished one takes the end-of-stream marker as its newest
/// message, empties the buffer, and its sink holds every byte that was
/// encoded before, then the marker's eight bytes.
#[verifier::external_body]
fn stream_finish(stream: &mut Stream) -> (finished: Result<(), ArrowError>)
    ensures
        finished is Ok <==> !stream_finished(*old(stream)),
        finished is Err ==> *final(stream) == *old(stream),
        finished is Ok ==> {
            &&& stream_messages(*final(stream)) == stream_messages(*old(stream)).push(
                Message::End,
            )
            &&& stream_pending(*final(stream)).len() == 0
            &&& stream_sunk(*final(stream)) == stream_encoded(*old(stream)) + end_marker()
        },
{
    stream.inner.finish()
}

/// Follows `StreamWriter::get_ref` and `BufWriter::get_ref` to the sink:
/// the bytes that have reached it.
#[verifier::external_body]
fn stream_sink(stream: &Stream) -> (bytes: &Vec<u8>)
    ensures
        bytes@ == stream_sunk(*stream),
{
    stream.inner.get_ref().get_ref()
}

/// A stream writer bound to one schema and to an in-memory sink.
///
/// The writer goes through a fixed life: it is made, which writes the
/// schema; it takes batches of that schema; it is finished, which writes
/// the end-of-stream marker. After that it takes nothing more.
pub struct IpcStreamWriter {
    stream: Stream,
    fields: Vec<FieldInfo>,
}

impl IpcStreamWriter {
    /// The messages written so far, oldest first.
    pub closed spec fn messages(self) -> Seq<Message> {
        stream_messages(self.stream)
    }

    /// The bytes that have reached the sink.
    pub closed spec fn sunk(self) -> Seq<u8> {
        stream_sunk(self.stream)
    }

    /// The bytes that still wait in the buffer.
    pub closed spec fn pending(self) -> Seq<u8> {
        stream_pending(self.stream)
    }

    /// Every byte encoded so far: what has reached the sink, then what
    /// waits in the buffer.
    pub open spec fn encoded(self) -> Seq<u8> {
        self.sunk() + self.pending()
    }

    /// Whether the end-of-stream marker has been written.
    pub open spec fn is_finished(self) -> bool {
        self.messages().len() > 0 && self.messages().last() is End
    }

    /// The fields of the schema that the writer was made with.
    pub closed spec fn bound_fields(self) -> Seq<FieldView> {
        infos_view(self.fields@)
    }

    /// A writer bound to `schema` and to an empty sink. The schema message
    /// is written at once. A schema whose fields are all typed is always
    /// taken.
    pub fn try_new(schema: &Schema) -> (made: Result<IpcStreamWriter, Error>)
        ensures
            all_typed(schema_fields(*schema)) ==> made is Ok,
            made matches Ok(writer) ==> {
                &&& writer.messages() == seq![Message::Schema(schema_fields(*schema))]
                &&& writer.bound_fields() == schema_fields(*schema)
                &&& !writer.is_finished()
                &&& schema_bare(*schema) && all_typed(schema_fields(*schema)) ==> writer.encoded()
                    == schema_message(schema_fields(*schema))
            },
            made matches Err(failure) ==> failure matches Error::Io(_),
    {
        let fields = schema_read(schema);
        match stream_open(schema) {
            Ok(stream) => Ok(IpcStreamWriter { stream, fields }),
            Err(error) => Err(Error::from_arrow(&error)),
        }
    }

    /// Writes the end-of-stream marker and empties the buffer into the
    /// sink. This succeeds exactly on a writer that is not finished yet; a
    /// finished one fails and is left as it was.
    pub fn finish(&mut self) -> (finished: Result<(), Error>)
        ensures
            finished is Ok <==> !old(self).is_finished(),
            finished is Err ==> *final(self) == *old(self),
            finished is Ok ==> {
                &&& final(self).messages() == old(self).messages().push(Message::End)
                &&& final(self).is_finished()
                &&& final(self).pending().len() == 0
                &&& final(self).sunk() == old(self).encoded() + end_marker()
            },
            final(self).bound_fields() == old(self).bound_fields(),
            finished matches Err(failure) ==> failure matches Error::Io(_),
    {
        match stream_finish(&mut self.stream) {
            Ok(()) => Ok(()),
            Err(error) => Err(Error::from_arrow(&error)),
        }
    }

    /// Empties the buffer into the sink. This always succeeds. No message
    /// is written and no byte is added, dropped or moved, so a stream that
    /// was valid stays valid.
    pub fn flush(&mut self) -> (flushed: Result<(), Error>)
        ensures
            flushed is Ok,
            final(self).messages() == old(self).messages(),
            final(self).encoded() == old(self).encoded(),
            final(self).pending().len() == 0,
            final(self).sunk() == old(self).encoded(),
            final(self).bound_fields() == old(self).bound_fields(),
    {
        let flushed = stream_flush(&mut self.stream);
        proof {
            assert(final(self).pending() =~= Seq::<u8>::empty());
            assert(final(self).encoded() =~= old(self).encoded());
        }
        match flushed {
            Ok(()) => Ok(()),
            Err(error) => Err(Error::from_io(&error)),
        }
    }

    /// Writes one batch as the next message. This succeeds exactly where
    /// the writer is not finished and the batch has the fields that the
    /// writer was made with: the same names, types and nullability in the
    /// same order. Otherwise it fails and the writer is left as it was.
    pub fn write_batch(&mut self, b: &Batch) -> (written: Result<(), Error>)
        ensures
            written is Ok <==> !old(self).is_finished() && batch_fields(*b) == old(
                self,
            ).bound_fields(),
            written is Err ==> *final(self) == *old(self),
            written is Ok ==> {
                &&& final(self).messages() == old(self).messages().push(
                    Message::Batch(batch_columns(*b)),
                )
                &&& final(self).encoded() == old(self).encoded() + batch_message(
                    batch_columns(*b),
                )
            },
            final(self).bound_fields() == old(self).bound_fields(),
            written matches Err(failure) ==> failure matches Error::Io(_),
    {
        let schema = b.schema();
        let held = schema_read(&*schema);
        if !same_fields(&self.fields, &held) {
            return Err(Error::io("the batch does not have the fields of the stream".to_owned()));
        }
        match stream_write(&mut self.stream, b) {
            Ok(()) => Ok(()),
            Err(error) => Err(Error::from_arrow(&error)),
        }
    }

    /// A copy of the bytes that have reached the sink.
    pub fn sink(&self) -> (bytes: Vec<u8>)
        ensures
            bytes@ == self.sunk(),
    {
        let bytes = stream_sink(&self.stream).clone();
        assert(bytes@ =~= self.sunk());
        bytes
    }
}

/// Encodes one batch as a complete stream under `sch` and appends the
/// stream to `wtr`.
///
/// This succeeds exactly where the batch has the fields of `sch` and each
/// of them is typed. A fresh writer is then made, takes the batch, is
/// flushed and finished, and `wtr` grows by the complete stream; under a
/// bare schema the stream's bytes are [`stream_bytes`] of the fields and
/// the batch's columns. On failure `wtr` is as it was, so what it holds
/// never ends in a stream without its end-of-stream marker.
pub fn batch2writer(b: &Batch, wtr: &mut Vec<u8>, sch: &Schema) -> (done: Result<(), Error>)
    ensures
        done is Ok <==> batch_fields(*b) == schema_fields(*sch) && all_typed(schema_fields(*sch)),
        done is Ok ==> holds_stream(
            old(wtr)@,
            final(wtr)@,
            schema_fields(*sch),
            seq![batch_columns(*b)],
        ),
        done is Ok && schema_bare(*sch) ==> final(wtr)@ == old(wtr)@ + stream_bytes(
            schema_fields(*sch),
            seq![batch_columns(*b)],
        ),
        done matches Err(failure) ==> failure matches Error::Io(_) && final(wtr)@ == old(wtr)@,
{
    let bound = schema_read(sch);
    let held = schema_read(&*b.schema());
    if !same_fields(&bound, &held) || !all_fields_typed(&bound) {
        return Err(Error::io("the batch does not have the fields of the schema".to_owned()));
    }
    let mut iw = match IpcStreamWriter::try_new(sch) {
        Ok(writer) => writer,
        Err(failure) => {
            return Err(failure);
        },
    };
    match iw.write_batch(b) {
        Ok(()) => {},
        Err(failure) => {
            return Err(failure);
        },
    }
    match iw.flush() {
        Ok(()) => {},
        Err(failure) => {
            return Err(failure);
        },
    }
    match iw.finish() {
        Ok(()) => {},
        Err(failure) => {
            return Err(failure);
        },
    }
    let mut stream = iw.sink();
    proof {
        let fields = schema_fields(*sch);
        let batches = seq![batch_columns(*b)];
        assert(iw.messages() =~= complete_stream(fields, batches));
        assert(end_marker().is_suffix_of(iw.sunk())) by {
            let sunk = iw.sunk();
            assert(sunk.skip(sunk.len() - end_marker().len()) =~= end_marker());
        }
        lemma_stream_of_one_batch(fields, batch_columns(*b));
        if schema_bare(*sch) {
            assert(iw.sunk() =~= stream_bytes(fields, batches));
        }
    }
    wtr.append(&mut stream);
    Ok(())
}

/// Converts the records into a batch under `sch` and appends the batch's
/// complete stream to `wtr`.
///
/// This succeeds exactly where the schema fits the nine columns of the
/// records. On failure `wtr` is as it was.
pub fn networks_to_writer(networks: Vec<Network>, wtr: &mut Vec<u8>, sch: Arc<Schema>) -> (done:
    Result<(), Error>)
    requires
        columns_within_limit(records_of(networks@)),
    ensures
        done is Ok <==> columns_fit(schema_fields(*sch), network_columns(records_of(networks@))),
        done is Ok ==> holds_stream(
            old(wtr)@,
            final(wtr)@,
            schema_fields(*sch),
            seq![network_columns(records_of(networks@))],
        ),
        done is Ok && schema_bare(*sch) ==> final(wtr)@ == old(wtr)@ + stream_bytes(
            schema_fields(*sch),
            seq![network_columns(records_of(networks@))],
        ),
        done matches Err(failure) ==> failure matches Error::Io(_) && final(wtr)@ == old(wtr)@,
{
    let batch = match networks2batch(networks, share_schema(&sch)) {
        Ok(batch) => batch,
        Err(failure) => {
            return Err(failure);
        },
    };
    batch2writer(&batch, wtr, &*sch)
}

/// The end of a fetch: where the daemon answered, its records are written
/// to `wtr` as one complete stream under the network schema, which always
/// succeeds; where the fetch failed, the failure is handed on as a
/// `Transport` error with the same text, and `wtr` is not touched.
pub fn networks2writer(fetched: Result<Vec<Network>, String>, wtr: &mut Vec<u8>) -> (done: Result<
    (),
    Error,
>)
    requires
        fetched matches Ok(networks) ==> columns_within_limit(records_of(networks@)),
    ensures
        fetched matches Err(text) ==> done == Err::<(), Error>(Error::Transport(text))
            && final(wtr)@ == old(wtr)@,
        fetched matches Ok(networks) ==> {
            &&& done is Ok
            &&& holds_stream(
                old(wtr)@,
                final(wtr)@,
                network_fields(),
                seq![network_columns(records_of(networks@))],
            )
            &&& final(wtr)@ == old(wtr)@ + stream_bytes(
                network_fields(),
                seq![network_columns(records_of(networks@))],
            )
        },
{
    match fetched {
        Ok(networks) => {
            proof {
                lemma_network_schema_fits(records_of(networks@));
            }
            let schema = network_schema();
            networks_to_writer(networks, wtr, schema)
        },
        Err(text) => Err(Error::Transport(text)),
    }
}

} // verus!
