//! Streams: incremental compression and decompression.
//!
//! A stream is a state machine. It starts idle, runs while it is processed,
//! and ends when a finish completes, when a decompressing stream reaches the
//! end of its payload, or when an operation fails. An operation that returns
//! `SQUASH_PROCESSING` has filled its output window and is to be repeated;
//! while a flush or a finish is being repeated, no other operation is valid.
//!
//! How a stream runs depends on its codec:
//!
//! - The streaming function of a codec that streams natively is called as
//!   it is, with the windows of the caller.
//! - For a codec that only turns whole buffers into whole buffers, the
//!   stream gathers all input, calls the codec once when it is finished, and
//!   hands the result out through the output windows of as many calls as it
//!   takes.
//! - The streaming function of a codec that must run off the calling thread
//!   runs on a worker. The stream keeps its own side of the handoff: `begin`
//!   checks and notes a request, `complete` takes in the answer, and
//!   `release` tells whether the worker has to be terminated. Carrying the
//!   request to the worker and waiting for the answer is left to the owner
//!   of the worker.
//!
//! What each operation does is defined by `squash_stream_step`, over what a
//! stream holds: its private data, its cursors and totals, its state, and
//! all that it has taken and given since it was created.

use vstd::prelude::*;
use crate::buffer::{squash_buffer_append, squash_buffer_copy, squash_min};
use crate::codec::{SquashCodec, SquashCodecFuncs, SquashStrategy};
use crate::option::SquashOptions;
use crate::status::{
    squash_error, squash_status_is_reply, SquashStatus, SQUASH_END_OF_STREAM, SQUASH_FAILED,
    SQUASH_INVALID_OPERATION, SQUASH_OK, SQUASH_PROCESSING, SQUASH_RANGE, SQUASH_STATE,
};

verus! {

/// Stream type.
#[allow(non_camel_case_types)]
#[derive(Debug, Copy, Clone, PartialEq, Eq, Hash, Structural)]
pub enum SquashStreamType {
    /// A compression stream.
    SQUASH_STREAM_COMPRESS,
    /// A decompression stream.
    SQUASH_STREAM_DECOMPRESS,
}

/// What a stream is asked to do.
#[allow(non_camel_case_types)]
#[derive(Debug, Copy, Clone, PartialEq, Eq, Hash, Structural)]
pub enum SquashOperation {
    /// Continue processing the stream normally.
    SQUASH_OPERATION_PROCESS,
    /// Flush the stream.
    SQUASH_OPERATION_FLUSH,
    /// Finish processing the stream.
    SQUASH_OPERATION_FINISH,
    /// Abort.
    ///
    /// Only the worker of a codec that runs in a thread ever receives this
    /// operation, and only when its stream is released before processing has
    /// completed. There will be no further input, and any output is ignored.
    SQUASH_OPERATION_TERMINATE,
}

impl SquashStreamType {
    /// The number that stands for the stream type: 1 for compression and 2
    /// for decompression.
    pub open spec fn spec_code(self) -> i32 {
        match self {
            SquashStreamType::SQUASH_STREAM_COMPRESS => 1,
            SquashStreamType::SQUASH_STREAM_DECOMPRESS => 2,
        }
    }

    /// The number that stands for the stream type.
    pub fn code(self) -> (code: i32)
        ensures
            code == self.spec_code(),
    {
        match self {
            SquashStreamType::SQUASH_STREAM_COMPRESS => 1,
            SquashStreamType::SQUASH_STREAM_DECOMPRESS => 2,
        }
    }

    /// The stream type that `code` stands for, if it stands for one.
    pub fn from_code(code: i32) -> (stream_type: Option<SquashStreamType>)
        ensures
            match stream_type {
                Some(stream_type) => stream_type.spec_code() == code,
                None => code != 1 && code != 2,
            },
    {
        if code == 1 {
            Some(SquashStreamType::SQUASH_STREAM_COMPRESS)
        } else if code == 2 {
            Some(SquashStreamType::SQUASH_STREAM_DECOMPRESS)
        } else {
            None
        }
    }
}

impl SquashOperation {
    /// The number that stands for the operation: 1 for process, 2 for
    /// flush, 3 for finish and 4 for terminate.
    pub open spec fn spec_code(self) -> i32 {
        match self {
            SquashOperation::SQUASH_OPERATION_PROCESS => 1,
            SquashOperation::SQUASH_OPERATION_FLUSH => 2,
            SquashOperation::SQUASH_OPERATION_FINISH => 3,
            SquashOperation::SQUASH_OPERATION_TERMINATE => 4,
        }
    }

    /// The number that stands for the operation.
    pub fn code(self) -> (code: i32)
        ensures
            code == self.spec_code(),
    {
        match self {
            SquashOperation::SQUASH_OPERATION_PROCESS => 1,
            SquashOperation::SQUASH_OPERATION_FLUSH => 2,
            SquashOperation::SQUASH_OPERATION_FINISH => 3,
            SquashOperation::SQUASH_OPERATION_TERMINATE => 4,
        }
    }

    /// The operation that `code` stands for, if it stands for one.
    pub fn from_code(code: i32) -> (operation: Option<SquashOperation>)
        ensures
            match operation {
                Some(operation) => operation.spec_code() == code,
                None => code < 1 || code > 4,
            },
    {
        if code == 1 {
            Some(SquashOperation::SQUASH_OPERATION_PROCESS)
        } else if code == 2 {
            Some(SquashOperation::SQUASH_OPERATION_FLUSH)
        } else if code == 3 {
            Some(SquashOperation::SQUASH_OPERATION_FINISH)
        } else if code == 4 {
            Some(SquashOperation::SQUASH_OPERATION_TERMINATE)
        } else {
            None
        }
    }
}

/// The state that a stream is in, as a number.
pub type SquashStreamState = i32;

/// No operation has been issued yet.
pub const SQUASH_STREAM_STATE_IDLE: SquashStreamState = 0;

/// The stream has been processed, and can be processed, flushed or finished.
pub const SQUASH_STREAM_STATE_RUNNING: SquashStreamState = 1;

/// A flush has been requested and has not completed.
pub const SQUASH_STREAM_STATE_FLUSHING: SquashStreamState = 2;

/// A finish has been requested and has not completed.
pub const SQUASH_STREAM_STATE_FINISHING: SquashStreamState = 3;

/// The stream has ended: by a finish that completed, by the end of the
/// compressed payload, or by a failure. Nothing more can be driven through
/// it.
pub const SQUASH_STREAM_STATE_FINISHED: SquashStreamState = 4;

/// Whether `operation` is valid for a stream in `state`.
///
/// An idle or running stream can be processed, flushed and finished. A flush
/// or a finish that has not completed can only be repeated. A stream that
/// has ended takes no operation, and no stream is asked to terminate.
pub open spec fn squash_operation_allowed(
    state: SquashStreamState,
    operation: SquashOperation,
) -> bool {
    match operation {
        SquashOperation::SQUASH_OPERATION_PROCESS => state == SQUASH_STREAM_STATE_IDLE || state
            == SQUASH_STREAM_STATE_RUNNING,
        SquashOperation::SQUASH_OPERATION_FLUSH => state == SQUASH_STREAM_STATE_IDLE || state
            == SQUASH_STREAM_STATE_RUNNING || state == SQUASH_STREAM_STATE_FLUSHING,
        SquashOperation::SQUASH_OPERATION_FINISH => state == SQUASH_STREAM_STATE_IDLE || state
            == SQUASH_STREAM_STATE_RUNNING || state == SQUASH_STREAM_STATE_FINISHING,
        SquashOperation::SQUASH_OPERATION_TERMINATE => false,
    }
}

/// The state of a stream after `operation` has returned `status`.
///
/// A failure ends the stream, and so does the end of the compressed payload.
/// An operation that has to be repeated leaves the stream processing,
/// flushing or finishing. A finish that completes ends the stream; a process
/// or a flush that completes leaves it running.
pub open spec fn squash_stream_next_state(
    operation: SquashOperation,
    status: SquashStatus,
) -> SquashStreamState {
    if status == SQUASH_PROCESSING {
        match operation {
            SquashOperation::SQUASH_OPERATION_FLUSH => SQUASH_STREAM_STATE_FLUSHING,
            SquashOperation::SQUASH_OPERATION_FINISH => SQUASH_STREAM_STATE_FINISHING,
            _ => SQUASH_STREAM_STATE_RUNNING,
        }
    } else if status == SQUASH_OK {
        match operation {
            SquashOperation::SQUASH_OPERATION_FINISH => SQUASH_STREAM_STATE_FINISHED,
            _ => SQUASH_STREAM_STATE_RUNNING,
        }
    } else {
        SQUASH_STREAM_STATE_FINISHED
    }
}

/// Whether `operation` is valid for a stream in `state`.
pub fn squash_operation_permitted(state: SquashStreamState, operation: SquashOperation) -> (allowed:
    bool)
    ensures
        allowed == squash_operation_allowed(state, operation),
{
    match operation {
        SquashOperation::SQUASH_OPERATION_PROCESS => state == SQUASH_STREAM_STATE_IDLE || state
            == SQUASH_STREAM_STATE_RUNNING,
        SquashOperation::SQUASH_OPERATION_FLUSH => state == SQUASH_STREAM_STATE_IDLE || state
            == SQUASH_STREAM_STATE_RUNNING || state == SQUASH_STREAM_STATE_FLUSHING,
        SquashOperation::SQUASH_OPERATION_FINISH => state == SQUASH_STREAM_STATE_IDLE || state
            == SQUASH_STREAM_STATE_RUNNING || state == SQUASH_STREAM_STATE_FINISHING,
        SquashOperation::SQUASH_OPERATION_TERMINATE => false,
    }
}

/// The state of a stream after `operation` has returned `status`.
pub fn squash_stream_state_after(operation: SquashOperation, status: SquashStatus) -> (state:
    SquashStreamState)
    ensures
        state == squash_stream_next_state(operation, status),
{
    if status == SQUASH_PROCESSING {
        match operation {
            SquashOperation::SQUASH_OPERATION_FLUSH => SQUASH_STREAM_STATE_FLUSHING,
            SquashOperation::SQUASH_OPERATION_FINISH => SQUASH_STREAM_STATE_FINISHING,
            _ => SQUASH_STREAM_STATE_RUNNING,
        }
    } else if status == SQUASH_OK {
        match operation {
            SquashOperation::SQUASH_OPERATION_FINISH => SQUASH_STREAM_STATE_FINISHED,
            _ => SQUASH_STREAM_STATE_RUNNING,
        }
    } else {
        SQUASH_STREAM_STATE_FINISHED
    }
}

/// The working data of a stream that stands in for the streaming function
/// which its codec lacks: it gathers all input, has the codec turn it into
/// its other form in one call when the stream is finished, and hands the
/// result out through the output windows of as many calls as it takes.
pub struct SquashBufferStream {
    input: Vec<u8>,
    output: Vec<u8>,
    position: usize,
    ran: bool,
}

/// What a `SquashBufferStream` holds.
pub ghost struct SquashBufferStreamView {
    /// All input gathered so far.
    pub input: Seq<u8>,
    /// What the codec made of the input; empty until the codec has run.
    pub output: Seq<u8>,
    /// How much of `output` has been handed out.
    pub position: usize,
    /// Whether the codec has run.
    pub ran: bool,
}

impl View for SquashBufferStream {
    type V = SquashBufferStreamView;

    closed spec fn view(&self) -> SquashBufferStreamView {
        SquashBufferStreamView {
            input: self.input@,
            output: self.output@,
            position: self.position,
            ran: self.ran,
        }
    }
}

/// An operation that has been handed to the worker of a stream, with the
/// sizes of the windows that the worker was given.
#[derive(Clone, Copy)]
pub struct SquashRequest {
    /// The operation.
    pub operation: SquashOperation,
    /// The size of the input window.
    pub avail_in: usize,
    /// The size of the output window.
    pub avail_out: usize,
}

/// The side that a stream keeps of the handoff with its worker.
pub struct SquashThread {
    pending: Option<SquashRequest>,
    alive: bool,
    window: Ghost<Seq<u8>>,
}

/// What a `SquashThread` holds.
pub ghost struct SquashThreadView {
    /// The request that the worker has not answered yet, if there is one.
    pub pending: Option<SquashRequest>,
    /// Whether the worker may still be running: it has not reported that
    /// the streaming function has come to its end.
    pub alive: bool,
    /// The input window of the request that the worker has not answered.
    pub window: Seq<u8>,
}

impl View for SquashThread {
    type V = SquashThreadView;

    closed spec fn view(&self) -> SquashThreadView {
        SquashThreadView { pending: self.pending, alive: self.alive, window: self.window@ }
    }
}

/// The private data of a stream, by the strategy of its codec.
pub enum SquashStreamPrivate<F: SquashCodecFuncs> {
    /// The working data of the codec.
    Native(F::Private),
    /// The buffers that stand in for a streaming function.
    Buffered(SquashBufferStream),
    /// The handoff with the worker on which the codec runs.
    Threaded(SquashThread),
}

/// What the private data of a stream holds.
pub ghost enum SquashStreamPrivateView<P> {
    /// The working data of the codec.
    Native(P),
    /// The buffers that stand in for a streaming function.
    Buffered(SquashBufferStreamView),
    /// The handoff with the worker on which the codec runs.
    Threaded(SquashThreadView),
}

/// What a stream holds.
pub ghost struct SquashStreamView<P> {
    /// The private data.
    pub private: SquashStreamPrivateView<P>,
    /// Where in the input window of the last operation the unread input
    /// starts.
    pub next_in: usize,
    /// How much of the input window of the last operation is unread.
    pub avail_in: usize,
    /// The total number of bytes taken.
    pub total_in: usize,
    /// Where in the output window of the last operation the free room
    /// starts.
    pub next_out: usize,
    /// How much of the output window of the last operation is free.
    pub avail_out: usize,
    /// The total number of bytes given.
    pub total_out: usize,
    /// Whether the stream compresses or decompresses.
    pub stream_type: SquashStreamType,
    /// The state the stream is in.
    pub state: SquashStreamState,
    /// All bytes taken since the stream was created.
    pub consumed: Seq<u8>,
    /// All bytes given since the stream was created.
    pub produced: Seq<u8>,
}

/// What an operation on a stream gives.
pub ghost struct SquashStreamOutcome<P> {
    /// What the stream holds after the operation.
    pub view: SquashStreamView<P>,
    /// The status that the operation returns.
    pub status: SquashStatus,
    /// The bytes that the operation writes, from the start of the output
    /// window.
    pub written: Seq<u8>,
}

impl<P> SquashStreamView<P> {
    /// What an operation gives that is refused before any byte moves: the
    /// windows of `avail_in` and `avail_out` bytes stay untouched, and the
    /// stream has ended.
    pub open spec fn refuse(self, status: SquashStatus, avail_in: usize, avail_out: usize)
        -> SquashStreamOutcome<P> {
        SquashStreamOutcome {
            view: SquashStreamView {
                next_in: 0,
                avail_in,
                next_out: 0,
                avail_out,
                state: SQUASH_STREAM_STATE_FINISHED,
                ..self
            },
            status,
            written: Seq::empty(),
        }
    }

    /// What `operation` gives when it ran on the input window `input` and
    /// an output window of `room` bytes, left `private` behind, returned
    /// `status`, took `consumed` bytes and wrote `produced`.
    pub open spec fn settle(
        self,
        private: SquashStreamPrivateView<P>,
        operation: SquashOperation,
        status: SquashStatus,
        consumed: usize,
        produced: Seq<u8>,
        input: Seq<u8>,
        room: usize,
    ) -> SquashStreamOutcome<P> {
        SquashStreamOutcome {
            view: SquashStreamView {
                private,
                next_in: consumed,
                avail_in: (input.len() - consumed) as usize,
                total_in: (self.total_in + consumed) as usize,
                next_out: produced.len() as usize,
                avail_out: (room - produced.len()) as usize,
                total_out: (self.total_out + produced.len()) as usize,
                stream_type: self.stream_type,
                state: squash_stream_next_state(operation, status),
                consumed: self.consumed + input.subrange(0, consumed as int),
                produced: self.produced + produced,
            },
            status,
            written: produced,
        }
    }
}

impl SquashBufferStreamView {
    /// What handing out gathered output through an output window of `room`
    /// bytes gives: the buffers afterwards, the status, and the bytes
    /// written.
    pub open spec fn drain(self, room: usize) -> (SquashBufferStreamView, SquashStatus, Seq<u8>) {
        let count = squash_min(self.output.len() - self.position, room as int);
        (
            SquashBufferStreamView { position: (self.position + count) as usize, ..self },
            if self.position + count < self.output.len() {
                SQUASH_PROCESSING
            } else {
                SQUASH_OK
            },
            self.output.subrange(self.position as int, self.position + count),
        )
    }
}

/// What `operation` gives on a stream that stands in for a streaming
/// function: the buffers afterwards, the status, the number of bytes taken
/// and the bytes written.
///
/// Processing and flushing gather the whole input window and write nothing.
/// The first finish gathers the whole input window and has the codec turn
/// all that was gathered into its other form; that finish and those that
/// follow hand the result out. Once the codec has run no more input can be
/// taken: a finish that brings some fails with `SQUASH_STATE`.
pub open spec fn squash_buffer_stream_step<F: SquashCodecFuncs>(
    codec: &SquashCodec<F>,
    options: &SquashOptions,
    stream_type: SquashStreamType,
    buffers: SquashBufferStreamView,
    operation: SquashOperation,
    input: Seq<u8>,
    room: usize,
) -> (SquashBufferStreamView, SquashStatus, usize, Seq<u8>) {
    if operation != SquashOperation::SQUASH_OPERATION_FINISH {
        (
            SquashBufferStreamView { input: buffers.input + input, ..buffers },
            SQUASH_OK,
            input.len() as usize,
            Seq::empty(),
        )
    } else if buffers.ran && input.len() > 0 {
        (buffers, SQUASH_STATE, 0, Seq::empty())
    } else if buffers.ran {
        let drained = buffers.drain(room);
        (drained.0, drained.1, 0, drained.2)
    } else {
        let gathered = buffers.input + input;
        let result = codec.one_shot(stream_type, gathered, options);
        if result.status != SQUASH_OK {
            (
                SquashBufferStreamView { input: gathered, ..buffers },
                result.status,
                input.len() as usize,
                Seq::empty(),
            )
        } else {
            let drained = (SquashBufferStreamView {
                input: gathered,
                output: result.data,
                position: 0,
                ran: true,
            }).drain(room);
            (drained.0, drained.1, input.len() as usize, drained.2)
        }
    }
}

/// The status with which `operation` is refused before the codec runs, if
/// it is refused: `SQUASH_STATE` if the operation is not valid in the state
/// of the stream, `SQUASH_INVALID_OPERATION` if it is a flush and the codec
/// cannot flush, and `SQUASH_RANGE` if the totals of the stream could not
/// count the windows.
pub open spec fn squash_stream_refusal<F: SquashCodecFuncs>(
    codec: &SquashCodec<F>,
    stream: SquashStreamView<F::Private>,
    operation: SquashOperation,
    input: Seq<u8>,
    room: usize,
) -> Option<SquashStatus> {
    if !squash_operation_allowed(stream.state, operation) {
        Some(SQUASH_STATE)
    } else if operation == SquashOperation::SQUASH_OPERATION_FLUSH && !codec.can_flush() {
        Some(SQUASH_INVALID_OPERATION)
    } else if input.len() > usize::MAX - stream.total_in || room > usize::MAX - stream.total_out {
        Some(SQUASH_RANGE)
    } else {
        None
    }
}

/// What `operation` gives on a stream of `codec` that holds `stream`, for
/// the input window `input` and an output window of `room` bytes.
///
/// An operation that is refused moves no byte and ends the stream. So does,
/// with `SQUASH_INVALID_OPERATION`, every operation on a stream whose codec
/// runs on a worker: such a stream is driven through its worker. Otherwise
/// the streaming function of the codec runs, or the buffers that stand in
/// for it.
#[verifier::opaque]
pub open spec fn squash_stream_step<F: SquashCodecFuncs>(
    codec: &SquashCodec<F>,
    options: &SquashOptions,
    stream: SquashStreamView<F::Private>,
    operation: SquashOperation,
    input: Seq<u8>,
    room: usize,
) -> SquashStreamOutcome<F::Private> {
    let avail_in = input.len() as usize;
    match squash_stream_refusal(codec, stream, operation, input, room) {
        Some(status) => stream.refuse(status, avail_in, room),
        None => match stream.private {
            SquashStreamPrivateView::Native(private) => {
                let result = codec.funcs().spec_process_stream(
                    private,
                    stream.stream_type,
                    operation,
                    input,
                    room,
                );
                stream.settle(
                    SquashStreamPrivateView::Native(result.private),
                    operation,
                    result.status,
                    result.consumed,
                    result.produced,
                    input,
                    room,
                )
            },
            SquashStreamPrivateView::Buffered(buffers) => {
                let result = squash_buffer_stream_step(
                    codec,
                    options,
                    stream.stream_type,
                    buffers,
                    operation,
                    input,
                    room,
                );
                stream.settle(
                    SquashStreamPrivateView::Buffered(result.0),
                    operation,
                    result.1,
                    result.2,
                    result.3,
                    input,
                    room,
                )
            },
            SquashStreamPrivateView::Threaded(_) => stream.refuse(
                SQUASH_INVALID_OPERATION,
                avail_in,
                room,
            ),
        },
    }
}

/// Whether `stream` is what a stream of `codec` may hold.
///
/// The state is one of the five states, the totals count the bytes taken
/// and given, and the private data is of the strategy of the codec. Until
/// the stream has ended, the private data fits what was taken and given:
/// by the invariant of the codec, or, for buffers that stand in for a
/// streaming function, because they hold all that was taken, nothing was
/// given before the codec ran, and what was given afterwards is the part of
/// the result that was handed out.
pub open spec fn squash_stream_wf<F: SquashCodecFuncs>(
    codec: &SquashCodec<F>,
    options: &SquashOptions,
    stream: SquashStreamView<F::Private>,
) -> bool {
    &&& codec.wf()
    &&& SQUASH_STREAM_STATE_IDLE <= stream.state <= SQUASH_STREAM_STATE_FINISHED
    &&& stream.total_in == stream.consumed.len()
    &&& stream.total_out == stream.produced.len()
    &&& stream.next_in + stream.avail_in <= usize::MAX
    &&& stream.next_out + stream.avail_out <= usize::MAX
    &&& match stream.private {
        SquashStreamPrivateView::Native(private) => {
            &&& codec.strategy() is NativeStreaming
            &&& stream.state != SQUASH_STREAM_STATE_FINISHED ==> codec.funcs().spec_stream_inv(
                private,
                stream.stream_type,
                stream.consumed,
                stream.produced,
            )
        },
        SquashStreamPrivateView::Buffered(buffers) => {
            &&& codec.strategy() is BufferOnly
            &&& buffers.position <= buffers.output.len() <= usize::MAX
            &&& stream.state != SQUASH_STREAM_STATE_FINISHED ==> {
                &&& stream.state != SQUASH_STREAM_STATE_FLUSHING
                &&& buffers.ran <==> stream.state == SQUASH_STREAM_STATE_FINISHING
                &&& buffers.input == stream.consumed
                &&& buffers.output.subrange(0, buffers.position as int) == stream.produced
                &&& buffers.position < buffers.output.len() || !buffers.ran
                &&& !buffers.ran ==> buffers.position == 0
                &&& buffers.ran ==> codec.one_shot(stream.stream_type, buffers.input, options)
                    == (crate::codec::SquashBufferResult {
                    status: SQUASH_OK,
                    data: buffers.output,
                })
            }
        },
        SquashStreamPrivateView::Threaded(thread) => {
            &&& codec.strategy() is ThreadWrapped
            &&& stream.state != SQUASH_STREAM_STATE_FINISHED ==> {
                &&& thread.alive
                &&& thread.pending matches Some(request) ==> {
                    &&& squash_operation_allowed(stream.state, request.operation)
                    &&& request.avail_in == thread.window.len()
                    &&& request.avail_in <= usize::MAX - stream.total_in
                    &&& request.avail_out <= usize::MAX - stream.total_out
                }
            }
        },
    }
}

/// What every operation on a stream keeps to.
///
/// The stream stays what a stream may hold and keeps its kind. The totals
/// never decrease: they grow by what the operation took and gave. What was
/// taken is a front part of the input window and what was given fits the
/// output window, and the cursors of the stream say how much of each window
/// is left. With `SQUASH_OK` nothing of the input window is left, with
/// `SQUASH_PROCESSING` nothing of the output window is left, and only a
/// decompressing stream returns `SQUASH_END_OF_STREAM`. A stream that has
/// ended refuses every operation with `SQUASH_STATE`, and a failure ends the
/// stream.
pub proof fn lemma_stream_step<F: SquashCodecFuncs>(
    codec: &SquashCodec<F>,
    options: &SquashOptions,
    stream: SquashStreamView<F::Private>,
    operation: SquashOperation,
    input: Seq<u8>,
    room: usize,
)
    requires
        squash_stream_wf(codec, options, stream),
        input.len() <= usize::MAX,
    ensures
        ({
            let outcome = squash_stream_step(codec, options, stream, operation, input, room);
            let after = outcome.view;
            &&& squash_stream_wf(codec, options, after)
            &&& after.stream_type == stream.stream_type
            &&& after.total_in >= stream.total_in
            &&& after.total_out >= stream.total_out
            &&& after.total_in == stream.total_in + after.next_in
            &&& after.total_out == stream.total_out + after.next_out
            &&& after.next_in + after.avail_in == input.len()
            &&& after.next_out + after.avail_out == room
            &&& after.next_out == outcome.written.len()
            &&& after.consumed == stream.consumed + input.subrange(0, after.next_in as int)
            &&& after.produced == stream.produced + outcome.written
            &&& squash_status_is_reply(outcome.status)
            &&& stream.stream_type == SquashStreamType::SQUASH_STREAM_COMPRESS
                ==> outcome.status != SQUASH_END_OF_STREAM
            &&& outcome.status == SQUASH_OK ==> after.avail_in == 0
            &&& outcome.status == SQUASH_PROCESSING ==> after.avail_out == 0
            &&& outcome.status < 0 ==> after.state == SQUASH_STREAM_STATE_FINISHED
            &&& after.state == squash_stream_next_state(operation, outcome.status)
            &&& stream.state == SQUASH_STREAM_STATE_FINISHED ==> outcome.status == SQUASH_STATE
            &&& !squash_operation_allowed(stream.state, operation) ==> outcome.status
                == SQUASH_STATE
        }),
{
    reveal(squash_stream_step);
    match stream.private {
        SquashStreamPrivateView::Native(private) => {
            if squash_stream_refusal(codec, stream, operation, input, room) is None {
                codec.funcs().law_process_stream(
                    private,
                    stream.stream_type,
                    operation,
                    input,
                    room,
                    stream.consumed,
                    stream.produced,
                );
            }
        },
        SquashStreamPrivateView::Buffered(buffers) => {
            if squash_stream_refusal(codec, stream, operation, input, room) is None {
                crate::codec::lemma_one_shot(
                    codec,
                    stream.stream_type,
                    buffers.input + input,
                    options,
                );
                assert(input.subrange(0, input.len() as int) =~= input);
                if buffers.ran {
                    let count = squash_min(buffers.output.len() - buffers.position, room as int);
                    assert(buffers.output.subrange(0, buffers.position + count)
                        =~= buffers.output.subrange(0, buffers.position as int)
                        + buffers.output.subrange(
                        buffers.position as int,
                        buffers.position + count,
                    ));
                }
            }
        },
        SquashStreamPrivateView::Threaded(_) => {},
    }
}

/// One call of an operation on a stream: the operation, the input window,
/// and the size of the output window.
pub ghost struct SquashCall {
    /// The operation.
    pub operation: SquashOperation,
    /// The input window.
    pub input: Seq<u8>,
    /// The size of the output window.
    pub room: usize,
}

/// What a stream holds after the calls `calls`, one after the other.
pub open spec fn squash_stream_run<F: SquashCodecFuncs>(
    codec: &SquashCodec<F>,
    options: &SquashOptions,
    stream: SquashStreamView<F::Private>,
    calls: Seq<SquashCall>,
) -> SquashStreamView<F::Private>
    decreases calls.len(),
{
    if calls.len() == 0 {
        stream
    } else {
        squash_stream_step(
            codec,
            options,
            squash_stream_run(codec, options, stream, calls.drop_last()),
            calls.last().operation,
            calls.last().input,
            calls.last().room,
        ).view
    }
}

/// Across any sequence of operations a stream stays what a stream may
/// hold and keeps its kind, its totals never decrease, and once it has
/// ended it stays ended.
pub proof fn lemma_stream_run<F: SquashCodecFuncs>(
    codec: &SquashCodec<F>,
    options: &SquashOptions,
    stream: SquashStreamView<F::Private>,
    calls: Seq<SquashCall>,
)
    requires
        squash_stream_wf(codec, options, stream),
        forall|i: int| 0 <= i < calls.len() ==> (#[trigger] calls[i]).input.len() <= usize::MAX,
    ensures
        ({
            let after = squash_stream_run(codec, options, stream, calls);
            &&& squash_stream_wf(codec, options, after)
            &&& after.stream_type == stream.stream_type
            &&& after.total_in >= stream.total_in
            &&& after.total_out >= stream.total_out
            &&& stream.state == SQUASH_STREAM_STATE_FINISHED ==> after.state
                == SQUASH_STREAM_STATE_FINISHED
        }),
    decreases calls.len(),
{
    if calls.len() > 0 {
        let before = squash_stream_run(codec, options, stream, calls.drop_last());
        lemma_stream_run(codec, options, stream, calls.drop_last());
        let last = calls.last();
        lemma_stream_step(codec, options, before, last.operation, last.input, last.room);
    }
}

/// When a stream ends well, what it has given and what it has taken are
/// bound by the format of its codec, however the input and the output were
/// cut into windows.
///
/// If a finish returns `SQUASH_OK` on a compressing stream, all that the
/// stream has given stands for all that it has taken. If a finish returns
/// `SQUASH_OK` on a decompressing stream, or any operation on it returns
/// `SQUASH_END_OF_STREAM`, all that the stream has given is what all that it
/// has taken stands for.
pub proof fn lemma_stream_end<F: SquashCodecFuncs>(
    codec: &SquashCodec<F>,
    options: &SquashOptions,
    stream: SquashStreamView<F::Private>,
    operation: SquashOperation,
    input: Seq<u8>,
    room: usize,
)
    requires
        squash_stream_wf(codec, options, stream),
        input.len() <= usize::MAX,
    ensures
        ({
            let outcome = squash_stream_step(codec, options, stream, operation, input, room);
            let ended = outcome.status == SQUASH_END_OF_STREAM || (operation
                == SquashOperation::SQUASH_OPERATION_FINISH && outcome.status == SQUASH_OK);
            ended ==> match stream.stream_type {
                SquashStreamType::SQUASH_STREAM_COMPRESS => codec.funcs().spec_decode(
                    outcome.view.produced,
                ) == Some(outcome.view.consumed),
                SquashStreamType::SQUASH_STREAM_DECOMPRESS => codec.funcs().spec_decode(
                    outcome.view.consumed,
                ) == Some(outcome.view.produced),
            }
        }),
{
    reveal(squash_stream_step);
    lemma_stream_step(codec, options, stream, operation, input, room);
    match stream.private {
        SquashStreamPrivateView::Native(private) => {
            if squash_stream_refusal(codec, stream, operation, input, room) is None {
                codec.funcs().law_process_stream(
                    private,
                    stream.stream_type,
                    operation,
                    input,
                    room,
                    stream.consumed,
                    stream.produced,
                );
            }
        },
        SquashStreamPrivateView::Buffered(buffers) => {
            if squash_stream_refusal(codec, stream, operation, input, room) is None {
                crate::codec::lemma_one_shot(
                    codec,
                    stream.stream_type,
                    buffers.input + input,
                    options,
                );
                crate::codec::lemma_one_shot(codec, stream.stream_type, buffers.input, options);
                let outcome = squash_stream_step(codec, options, stream, operation, input, room);
                if operation == SquashOperation::SQUASH_OPERATION_FINISH && outcome.status
                    == SQUASH_OK {
                    assert(outcome.view.produced == outcome.view.private->Buffered_0.output);
                    assert(outcome.view.consumed == outcome.view.private->Buffered_0.input);
                }
            }
        },
        SquashStreamPrivateView::Threaded(_) => {},
    }
}

/// What a new stream of kind `stream_type` of `codec` holds, or nothing if
/// the codec cannot create its working data.
pub open spec fn squash_stream_created<F: SquashCodecFuncs>(
    codec: &SquashCodec<F>,
    options: &SquashOptions,
    stream_type: SquashStreamType,
) -> Option<SquashStreamView<F::Private>> {
    let private = match codec.strategy() {
        SquashStrategy::NativeStreaming => match codec.funcs().spec_create_stream(
            stream_type,
            options,
        ) {
            Some(private) => Some(SquashStreamPrivateView::Native(private)),
            None => None,
        },
        SquashStrategy::BufferOnly => Some(
            SquashStreamPrivateView::Buffered(
                SquashBufferStreamView {
                    input: Seq::empty(),
                    output: Seq::empty(),
                    position: 0,
                    ran: false,
                },
            ),
        ),
        SquashStrategy::ThreadWrapped => Some(
            SquashStreamPrivateView::Threaded(
                SquashThreadView { pending: None, alive: true, window: Seq::empty() },
            ),
        ),
    };
    match private {
        Some(private) => Some(
            SquashStreamView {
                private,
                next_in: 0,
                avail_in: 0,
                total_in: 0,
                next_out: 0,
                avail_out: 0,
                total_out: 0,
                stream_type,
                state: SQUASH_STREAM_STATE_IDLE,
                consumed: Seq::empty(),
                produced: Seq::empty(),
            },
        ),
        None => None,
    }
}

/// A new stream is what a stream may hold.
pub proof fn lemma_stream_created<F: SquashCodecFuncs>(
    codec: &SquashCodec<F>,
    options: &SquashOptions,
    stream_type: SquashStreamType,
)
    requires
        codec.wf(),
    ensures
        squash_stream_created(codec, options, stream_type) matches Some(stream)
            ==> squash_stream_wf(codec, options, stream),
{
    codec.funcs().law_create_stream(stream_type, options);
    assert(Seq::<u8>::empty().subrange(0, 0) =~= Seq::<u8>::empty());
}

/// Compression/decompression streams.
///
/// A stream takes input and gives output through windows that the caller
/// hands to each operation: a slice to read from and a slice to write to.
/// After an operation the cursors of the stream tell how far into each
/// window the operation came and how much of it is left.
pub struct SquashStream<'a, F: SquashCodecFuncs> {
    private: SquashStreamPrivate<F>,
    next_in: usize,
    avail_in: usize,
    total_in: usize,
    next_out: usize,
    avail_out: usize,
    total_out: usize,
    codec: &'a SquashCodec<F>,
    options: &'a SquashOptions<'a>,
    stream_type: SquashStreamType,
    state: SquashStreamState,
    consumed: Ghost<Seq<u8>>,
    produced: Ghost<Seq<u8>>,
}

impl<F: SquashCodecFuncs> SquashStreamPrivate<F> {
    /// What the private data holds.
    pub closed spec fn view(&self) -> SquashStreamPrivateView<F::Private> {
        match *self {
            SquashStreamPrivate::Native(private) => SquashStreamPrivateView::Native(private),
            SquashStreamPrivate::Buffered(buffers) => SquashStreamPrivateView::Buffered(buffers@),
            SquashStreamPrivate::Threaded(thread) => SquashStreamPrivateView::Threaded(thread@),
        }
    }
}

impl<'a, F: SquashCodecFuncs> SquashStream<'a, F> {
    /// What the stream holds.
    pub closed spec fn view(&self) -> SquashStreamView<F::Private> {
        SquashStreamView {
            private: self.private.view(),
            next_in: self.next_in,
            avail_in: self.avail_in,
            total_in: self.total_in,
            next_out: self.next_out,
            avail_out: self.avail_out,
            total_out: self.total_out,
            stream_type: self.stream_type,
            state: self.state,
            consumed: self.consumed@,
            produced: self.produced@,
        }
    }

    /// The codec of the stream.
    pub closed spec fn codec(&self) -> &SquashCodec<F> {
        self.codec
    }

    /// The options of the stream.
    pub closed spec fn options(&self) -> &SquashOptions<'a> {
        self.options
    }

    /// Whether the stream is well formed. Every stream that `new` makes is,
    /// and every operation keeps it so.
    pub open spec fn wf(&self) -> bool {
        squash_stream_wf(self.codec(), self.options(), self@)
    }

    /// Creates a new stream of `codec` with `options`, or nothing if the
    /// codec fails to create its working data.
    pub fn new(
        codec: &'a SquashCodec<F>,
        stream_type: SquashStreamType,
        options: &'a SquashOptions<'a>,
    ) -> (created: Option<SquashStream<'a, F>>)
        requires
            codec.wf(),
        ensures
            match created {
                Some(stream) => {
                    &&& squash_stream_created(codec, options, stream_type) == Some(stream@)
                    &&& stream.codec() == codec
                    &&& stream.options() == options
                    &&& stream.wf()
                },
                None => squash_stream_created(codec, options, stream_type) is None,
            },
    {
        let private: SquashStreamPrivate<F> = match codec {
            SquashCodec::NativeStreaming(_) => {
                match codec.get_funcs().create_stream(stream_type, options) {
                    Some(private) => SquashStreamPrivate::Native(private),
                    None => {
                        return None;
                    },
                }
            },
            SquashCodec::BufferOnly(_) => SquashStreamPrivate::Buffered(
                SquashBufferStream {
                    input: Vec::new(),
                    output: Vec::new(),
                    position: 0,
                    ran: false,
                },
            ),
            SquashCodec::ThreadWrapped(_) => SquashStreamPrivate::Threaded(
                SquashThread { pending: None, alive: true, window: Ghost(Seq::empty()) },
            ),
        };
        proof {
            lemma_stream_created(codec, options, stream_type);
        }
        let stream = SquashStream {
            private,
            next_in: 0,
            avail_in: 0,
            total_in: 0,
            next_out: 0,
            avail_out: 0,
            total_out: 0,
            codec,
            options,
            stream_type,
            state: SQUASH_STREAM_STATE_IDLE,
            consumed: Ghost(Seq::empty()),
            produced: Ghost(Seq::empty()),
        };
        proof {
            assert(stream@.private == squash_stream_created(
                codec,
                options,
                stream_type,
            )->0.private);
        }
        Some(stream)
    }

    /// The status with which `operation` is refused before the codec runs,
    /// if it is refused.
    fn refusal(&self, operation: SquashOperation, window: usize, room: usize) -> (status: Option<
        SquashStatus,
    >)
        ensures
            forall|input: Seq<u8>|
                input.len() == window ==> status == #[trigger] squash_stream_refusal(
                    self.codec(),
                    self@,
                    operation,
                    input,
                    room,
                ),
    {
        let flushing: bool = match operation {
            SquashOperation::SQUASH_OPERATION_FLUSH => true,
            _ => false,
        };
        if !squash_operation_permitted(self.state, operation) {
            Some(SQUASH_STATE)
        } else if flushing && !crate::codec::squash_codec_info_test(
            self.codec.get_info(),
            crate::codec::SQUASH_CODEC_INFO_CAN_FLUSH,
        ) {
            Some(SQUASH_INVALID_OPERATION)
        } else if window > usize::MAX - self.total_in || room > usize::MAX - self.total_out {
            Some(SQUASH_RANGE)
        } else {
            None
        }
    }

    /// Ends an operation that is refused before any byte moves.
    fn refuse(&mut self, status: SquashStatus, avail_in: usize, avail_out: usize) -> (same:
        SquashStatus)
        ensures
            same == status,
            final(self)@ == old(self)@.refuse(status, avail_in, avail_out).view,
            final(self).codec() == old(self).codec(),
            final(self).options() == old(self).options(),
    {
        self.next_in = 0;
        self.avail_in = avail_in;
        self.next_out = 0;
        self.avail_out = avail_out;
        self.state = SQUASH_STREAM_STATE_FINISHED;
        squash_error(status)
    }

    /// Ends an operation that ran: moves the cursors and the totals by what
    /// was taken and written, and the state by the status.
    fn settle(
        &mut self,
        operation: SquashOperation,
        status: SquashStatus,
        consumed: usize,
        written: usize,
        Ghost(input): Ghost<Seq<u8>>,
        Ghost(produced): Ghost<Seq<u8>>,
        window: usize,
        room: usize,
    ) -> (same: SquashStatus)
        requires
            window == input.len(),
            consumed <= input.len() <= usize::MAX - old(self)@.total_in,
            written == produced.len(),
            written <= room <= usize::MAX - old(self)@.total_out,
        ensures
            same == status,
            final(self)@ == old(self)@.settle(
                old(self)@.private,
                operation,
                status,
                consumed,
                produced,
                input,
                room,
            ).view,
            final(self).codec() == old(self).codec(),
            final(self).options() == old(self).options(),
    {
        self.next_in = consumed;
        self.avail_in = window - consumed;
        self.total_in = self.total_in + consumed;
        self.next_out = written;
        self.avail_out = room - written;
        self.total_out = self.total_out + written;
        self.state = squash_stream_state_after(operation, status);
        proof {
            self.consumed@ = self.consumed@ + input.subrange(0, consumed as int);
            self.produced@ = self.produced@ + produced;
        }
        status
    }
}

impl SquashBufferStream {
    /// Runs `operation` on the buffers that stand in for a streaming
    /// function. Returns the status, the number of bytes taken and the
    /// number of bytes written.
    fn step<F: SquashCodecFuncs>(
        &mut self,
        codec: &SquashCodec<F>,
        options: &SquashOptions,
        stream_type: SquashStreamType,
        operation: SquashOperation,
        input: &[u8],
        output: &mut [u8],
    ) -> (result: (SquashStatus, usize, usize))
        requires
            codec.wf(),
            codec.strategy() is BufferOnly,
            old(self)@.position <= old(self)@.output.len(),
            old(self)@.input.len() + input@.len() <= usize::MAX,
        ensures
            final(output)@.len() == old(output)@.len(),
            ({
                let named = squash_buffer_stream_step(
                    codec,
                    options,
                    stream_type,
                    old(self)@,
                    operation,
                    input@,
                    old(output)@.len() as usize,
                );
                &&& final(self)@ == named.0
                &&& result.0 == named.1
                &&& result.1 == named.2
                &&& result.2 == named.3.len()
                &&& result.2 <= old(output)@.len()
                &&& final(output)@.subrange(0, result.2 as int) == named.3
            }),
    {
        let mut taken: usize = 0;
        let finishing: bool = match operation {
            SquashOperation::SQUASH_OPERATION_FINISH => true,
            _ => false,
        };
        if !finishing || !self.ran {
            squash_buffer_append(&mut self.input, input, input.len());
            taken = input.len();
            proof {
                assert(input@.subrange(0, input@.len() as int) =~= input@);
            }
        }
        if !finishing {
            return (SQUASH_OK, taken, 0);
        }
        if self.ran && input.len() > 0 {
            return (SQUASH_STATE, 0, 0);
        }
        if !self.ran {
            let result: (SquashStatus, Vec<u8>) = codec.run_one_shot(
                stream_type,
                self.input.as_slice(),
                options,
            );
            if result.0 != SQUASH_OK {
                return (result.0, taken, 0);
            }
            self.output = result.1;
            self.position = 0;
            self.ran = true;
        }
        let left: usize = self.output.len() - self.position;
        let count: usize = if left <= output.len() {
            left
        } else {
            output.len()
        };
        squash_buffer_copy(output, self.output.as_slice(), self.position, count);
        self.position = self.position + count;
        let status: SquashStatus = if self.position < self.output.len() {
            SQUASH_PROCESSING
        } else {
            SQUASH_OK
        };
        (status, taken, count)
    }
}

impl<'a, F: SquashCodecFuncs> SquashStream<'a, F> {
    /// Performs `operation` on the input window `input` and the output
    /// window `output`.
    fn operate(&mut self, operation: SquashOperation, input: &[u8], output: &mut [u8]) -> (status:
        SquashStatus)
        requires
            old(self).wf(),
        ensures
            final(self).wf(),
            final(self).codec() == old(self).codec(),
            final(self).options() == old(self).options(),
            final(output)@.len() == old(output)@.len(),
            ({
                let outcome = squash_stream_step(
                    old(self).codec(),
                    old(self).options(),
                    old(self)@,
                    operation,
                    input@,
                    old(output)@.len() as usize,
                );
                &&& final(self)@ == outcome.view
                &&& status == outcome.status
                &&& final(output)@.subrange(0, final(self)@.next_out as int) == outcome.written
            }),
            final(self)@.total_in >= old(self)@.total_in,
            final(self)@.total_out >= old(self)@.total_out,
            old(self)@.state == SQUASH_STREAM_STATE_FINISHED ==> status == SQUASH_STATE,
    {
        let ghost before = self@;
        let window: usize = input.len();
        let room: usize = output.len();
        proof {
            reveal(squash_stream_step);
            lemma_stream_step(self.codec, self.options, before, operation, input@, room);
        }
        match self.refusal(operation, window, room) {
            Some(status) => {
                return self.refuse(status, window, room);
            },
            None => {},
        }
        let ran: Option<(SquashStatus, usize, usize)> = match &mut self.private {
            SquashStreamPrivate::Native(private) => {
                proof {
                    self.codec.funcs().law_process_stream(
                        *private,
                        self.stream_type,
                        operation,
                        input@,
                        room,
                        self.consumed@,
                        self.produced@,
                    );
                }
                Some(
                    self.codec.get_funcs().process_stream(
                        private,
                        self.stream_type,
                        operation,
                        input,
                        output,
                    ),
                )
            },
            SquashStreamPrivate::Buffered(buffers) => {
                Some(
                    buffers.step(
                        self.codec,
                        self.options,
                        self.stream_type,
                        operation,
                        input,
                        output,
                    ),
                )
            },
            SquashStreamPrivate::Threaded(_) => None,
        };
        match ran {
            Some(result) => {
                let ghost produced = output@.subrange(0, result.2 as int);
                self.settle(
                    operation,
                    result.0,
                    result.1,
                    result.2,
                    Ghost(input@),
                    Ghost(produced),
                    window,
                    room,
                )
            },
            None => self.refuse(SQUASH_INVALID_OPERATION, window, room),
        }
    }

    /// Processes a stream: takes input from the front of `input` and writes
    /// output from the start of `output`.
    ///
    /// Returns `SQUASH_OK` when all of `input` has been taken: look at the
    /// output, then go on with new input. Returns `SQUASH_PROCESSING` when
    /// the output window filled before the input ran out: take the output
    /// away and process the rest of the input. Returns
    /// `SQUASH_END_OF_STREAM` when a decompressing stream has reached the
    /// end of the compressed payload. Any negative status is a failure, and
    /// ends the stream.
    pub fn process(&mut self, input: &[u8], output: &mut [u8]) -> (status: SquashStatus)
        requires
            old(self).wf(),
        ensures
            final(self).wf(),
            final(self).codec() == old(self).codec(),
            final(self).options() == old(self).options(),
            final(output)@.len() == old(output)@.len(),
            ({
                let outcome = squash_stream_step(
                    old(self).codec(),
                    old(self).options(),
                    old(self)@,
                    SquashOperation::SQUASH_OPERATION_PROCESS,
                    input@,
                    old(output)@.len() as usize,
                );
                &&& final(self)@ == outcome.view
                &&& status == outcome.status
                &&& final(output)@.subrange(0, final(self)@.next_out as int) == outcome.written
            }),
            final(self)@.total_in >= old(self)@.total_in,
            final(self)@.total_out >= old(self)@.total_out,
            old(self)@.state == SQUASH_STREAM_STATE_FINISHED ==> status == SQUASH_STATE,
    {
        self.operate(SquashOperation::SQUASH_OPERATION_PROCESS, input, output)
    }

    /// Flushes a stream: has the codec give out whatever it holds back,
    /// without ending the stream. Only a codec that can flush takes this
    /// operation; on any other it fails with `SQUASH_INVALID_OPERATION`
    /// before the codec runs.
    ///
    /// Returns `SQUASH_OK` when the flush is complete, and
    /// `SQUASH_PROCESSING` when the output window filled first: take the
    /// output away and flush again.
    pub fn flush(&mut self, input: &[u8], output: &mut [u8]) -> (status: SquashStatus)
        requires
            old(self).wf(),
        ensures
            final(self).wf(),
            final(self).codec() == old(self).codec(),
            final(self).options() == old(self).options(),
            final(output)@.len() == old(output)@.len(),
            ({
                let outcome = squash_stream_step(
                    old(self).codec(),
                    old(self).options(),
                    old(self)@,
                    SquashOperation::SQUASH_OPERATION_FLUSH,
                    input@,
                    old(output)@.len() as usize,
                );
                &&& final(self)@ == outcome.view
                &&& status == outcome.status
                &&& final(output)@.subrange(0, final(self)@.next_out as int) == outcome.written
            }),
            final(self)@.total_in >= old(self)@.total_in,
            final(self)@.total_out >= old(self)@.total_out,
            old(self)@.state == SQUASH_STREAM_STATE_FINISHED ==> status == SQUASH_STATE,
    {
        self.operate(SquashOperation::SQUASH_OPERATION_FLUSH, input, output)
    }

    /// Finishes a stream: tells it that no input will follow `input`, and
    /// has it give out all that is left.
    ///
    /// Returns `SQUASH_OK` when the stream has given out everything; the
    /// stream has then ended. Returns `SQUASH_PROCESSING` when the output
    /// window filled first: take the output away and finish again.
    pub fn finish(&mut self, input: &[u8], output: &mut [u8]) -> (status: SquashStatus)
        requires
            old(self).wf(),
        ensures
            final(self).wf(),
            final(self).codec() == old(self).codec(),
            final(self).options() == old(self).options(),
            final(output)@.len() == old(output)@.len(),
            ({
                let outcome = squash_stream_step(
                    old(self).codec(),
                    old(self).options(),
                    old(self)@,
                    SquashOperation::SQUASH_OPERATION_FINISH,
                    input@,
                    old(output)@.len() as usize,
                );
                &&& final(self)@ == outcome.view
                &&& status == outcome.status
                &&& final(output)@.subrange(0, final(self)@.next_out as int) == outcome.written
            }),
            final(self)@.total_in >= old(self)@.total_in,
            final(self)@.total_out >= old(self)@.total_out,
            old(self)@.state == SQUASH_STREAM_STATE_FINISHED ==> status == SQUASH_STATE,
    {
        self.operate(SquashOperation::SQUASH_OPERATION_FINISH, input, output)
    }
}

/// The request that the worker of a stream has not answered yet, if there
/// is one.
pub open spec fn squash_stream_request<P>(stream: SquashStreamView<P>) -> Option<SquashRequest> {
    match stream.private {
        SquashStreamPrivateView::Threaded(thread) => thread.pending,
        _ => None,
    }
}

/// The input window of the request that the worker of a stream has not
/// answered yet; empty if there is none.
pub open spec fn squash_stream_window<P>(stream: SquashStreamView<P>) -> Seq<u8> {
    match stream.private {
        SquashStreamPrivateView::Threaded(thread) => if thread.pending is Some {
            thread.window
        } else {
            Seq::empty()
        },
        _ => Seq::empty(),
    }
}

/// What handing `operation` to the worker of a stream gives, for the input
/// window `input` and an output window of `room` bytes.
///
/// The request is refused as an operation would be, and also with
/// `SQUASH_INVALID_OPERATION` if the codec of the stream does not run on a
/// worker, and with `SQUASH_STATE` if the worker has not answered the last
/// request. Otherwise the status is `SQUASH_OK`, and the stream holds the
/// request until the worker answers it.
pub open spec fn squash_stream_post<F: SquashCodecFuncs>(
    codec: &SquashCodec<F>,
    stream: SquashStreamView<F::Private>,
    operation: SquashOperation,
    input: Seq<u8>,
    room: usize,
) -> SquashStreamOutcome<F::Private> {
    let avail_in = input.len() as usize;
    match stream.private {
        SquashStreamPrivateView::Threaded(thread) => {
            if thread.pending is Some {
                stream.refuse(SQUASH_STATE, avail_in, room)
            } else {
                match squash_stream_refusal(codec, stream, operation, input, room) {
                    Some(status) => stream.refuse(status, avail_in, room),
                    None => SquashStreamOutcome {
                        view: SquashStreamView {
                            private: SquashStreamPrivateView::Threaded(
                                SquashThreadView {
                                    pending: Some(
                                        SquashRequest { operation, avail_in, avail_out: room },
                                    ),
                                    alive: thread.alive,
                                    window: input,
                                },
                            ),
                            next_in: 0,
                            avail_in,
                            next_out: 0,
                            avail_out: room,
                            ..stream
                        },
                        status: SQUASH_OK,
                        written: Seq::empty(),
                    },
                }
            }
        },
        _ => stream.refuse(SQUASH_INVALID_OPERATION, avail_in, room),
    }
}

/// What the answer of the worker of a stream gives: the worker returned
/// `status`, took `consumed` bytes and wrote `produced`, and `room` is the
/// size of the output window that the caller offers for what was written.
///
/// The answer is refused with `SQUASH_INVALID_OPERATION` if the codec of
/// the stream does not run on a worker, with `SQUASH_STATE` if no request
/// awaits an answer, and with `SQUASH_FAILED` if the answer does not fit
/// the request: the status is none that a codec may return, more was taken
/// or written than the windows hold, the status is `SQUASH_OK` although
/// input is left, or it is `SQUASH_PROCESSING` although room is left.
/// Otherwise the answer counts as
/// the outcome of the operation that was requested. The worker has come to
/// its end if that outcome ends the stream.
pub open spec fn squash_stream_reply<F: SquashCodecFuncs>(
    codec: &SquashCodec<F>,
    stream: SquashStreamView<F::Private>,
    status: SquashStatus,
    consumed: usize,
    produced: Seq<u8>,
    room: usize,
) -> SquashStreamOutcome<F::Private> {
    match stream.private {
        SquashStreamPrivateView::Threaded(thread) => {
            if stream.state == SQUASH_STREAM_STATE_FINISHED || thread.pending is None {
                stream.refuse(SQUASH_STATE, stream.avail_in, room)
            } else {
                let request = thread.pending->0;
                if !squash_status_is_reply(status) || consumed > request.avail_in || produced.len()
                    > request.avail_out || produced.len() > room || (status == SQUASH_OK
                    && consumed < request.avail_in) || (status == SQUASH_PROCESSING
                    && produced.len() < request.avail_out) {
                    stream.refuse(SQUASH_FAILED, stream.avail_in, room)
                } else {
                    stream.settle(
                        SquashStreamPrivateView::Threaded(
                            SquashThreadView {
                                pending: None,
                                alive: squash_stream_next_state(request.operation, status)
                                    != SQUASH_STREAM_STATE_FINISHED,
                                window: Seq::empty(),
                            },
                        ),
                        request.operation,
                        status,
                        consumed,
                        produced,
                        thread.window,
                        request.avail_out,
                    )
                }
            }
        },
        _ => stream.refuse(SQUASH_INVALID_OPERATION, stream.avail_in, room),
    }
}

/// What has to be done with the worker of a stream that is released:
/// a worker that may still be running is told to terminate, and waited for.
pub open spec fn squash_stream_release<P>(stream: SquashStreamView<P>) -> Option<
    SquashOperation,
> {
    match stream.private {
        SquashStreamPrivateView::Threaded(thread) => if thread.alive {
            Some(SquashOperation::SQUASH_OPERATION_TERMINATE)
        } else {
            None
        },
        _ => None,
    }
}

/// The handoff with a worker keeps to what every operation keeps to.
///
/// The stream stays what a stream may hold and keeps its kind. A request
/// moves no byte; it is noted with its windows, or refused. An answer lets
/// the totals grow by what the worker took and gave: what was taken is a
/// front part of the input window of the request, and what was given fits
/// its output window. With `SQUASH_OK` nothing of the input window is left,
/// and with `SQUASH_PROCESSING` nothing of the output window.
/// A failure ends the stream, and a stream that has ended refuses requests
/// and answers with `SQUASH_STATE`. A stream on a worker that has not ended
/// has a worker to terminate.
pub proof fn lemma_stream_handoff<F: SquashCodecFuncs>(
    codec: &SquashCodec<F>,
    options: &SquashOptions,
    stream: SquashStreamView<F::Private>,
    operation: SquashOperation,
    input: Seq<u8>,
    status: SquashStatus,
    consumed: usize,
    produced: Seq<u8>,
    room: usize,
)
    requires
        squash_stream_wf(codec, options, stream),
        input.len() <= usize::MAX,
    ensures
        ({
            let posted = squash_stream_post(codec, stream, operation, input, room);
            let before = posted.view;
            &&& squash_stream_wf(codec, options, before)
            &&& before.stream_type == stream.stream_type
            &&& before.total_in == stream.total_in
            &&& before.total_out == stream.total_out
            &&& before.consumed == stream.consumed
            &&& before.produced == stream.produced
            &&& posted.written.len() == 0
            &&& posted.status == SQUASH_OK || posted.status < 0
            &&& posted.status < 0 ==> before.state == SQUASH_STREAM_STATE_FINISHED
                && squash_stream_request(before) == squash_stream_request(stream)
            &&& posted.status == SQUASH_OK ==> {
                &&& before.state == stream.state
                &&& squash_stream_request(before) == Some(
                    SquashRequest { operation, avail_in: input.len() as usize, avail_out: room },
                )
                &&& squash_stream_window(before) == input
            }
        }),
        ({
            let answered = squash_stream_reply(codec, stream, status, consumed, produced, room);
            let after = answered.view;
            &&& squash_stream_wf(codec, options, after)
            &&& after.stream_type == stream.stream_type
            &&& after.total_in >= stream.total_in
            &&& after.total_out >= stream.total_out
            &&& after.total_in == stream.total_in + after.next_in
            &&& after.total_out == stream.total_out + after.next_out
            &&& after.next_in <= squash_stream_window(stream).len()
            &&& after.next_out == answered.written.len()
            &&& answered.written.len() <= room
            &&& after.consumed == stream.consumed + squash_stream_window(stream).subrange(
                0,
                after.next_in as int,
            )
            &&& after.produced == stream.produced + answered.written
            &&& squash_status_is_reply(answered.status)
            &&& answered.status == SQUASH_OK ==> after.next_in == squash_stream_window(
                stream,
            ).len()
            &&& answered.status == SQUASH_PROCESSING ==> after.avail_out == 0
            &&& answered.status < 0 ==> after.state == SQUASH_STREAM_STATE_FINISHED
            &&& squash_stream_request(stream) matches Some(request) ==> {
                &&& answered.written.len() <= request.avail_out
                &&& answered.status >= 0 ==> squash_stream_request(after) is None
                &&& answered.status < 0 ==> squash_stream_request(after) is None
                    || squash_stream_request(after) == Some(request) && squash_stream_window(after)
                    == squash_stream_window(stream) && after.next_in == 0
            }
            &&& squash_stream_request(stream) is None ==> squash_stream_request(after) is None
        }),
        stream.private is Threaded && stream.state == SQUASH_STREAM_STATE_FINISHED ==> {
            &&& squash_stream_post(codec, stream, operation, input, room).status == SQUASH_STATE
            &&& squash_stream_reply(codec, stream, status, consumed, produced, room).status
                == SQUASH_STATE
        },
        stream.private is Threaded && stream.state != SQUASH_STREAM_STATE_FINISHED
            ==> squash_stream_release(stream) == Some(SquashOperation::SQUASH_OPERATION_TERMINATE),
{
}

impl<'a, F: SquashCodecFuncs> SquashStream<'a, F> {
    /// Hands `operation` to the worker on which the codec of the stream
    /// runs: checks that the stream can take the operation, and notes the
    /// request. With `SQUASH_OK` the caller passes the operation and the
    /// windows on to the worker, and brings its answer to `complete`.
    pub fn begin(&mut self, operation: SquashOperation, input: &[u8], avail_out: usize) -> (status:
        SquashStatus)
        requires
            old(self).wf(),
        ensures
            final(self).wf(),
            final(self).codec() == old(self).codec(),
            final(self).options() == old(self).options(),
            final(self)@ == squash_stream_post(
                old(self).codec(),
                old(self)@,
                operation,
                input@,
                avail_out,
            ).view,
            status == squash_stream_post(
                old(self).codec(),
                old(self)@,
                operation,
                input@,
                avail_out,
            ).status,
    {
        let window: usize = input.len();
        proof {
            lemma_stream_handoff(
                self.codec,
                self.options,
                self@,
                operation,
                input@,
                SQUASH_OK,
                0,
                Seq::empty(),
                avail_out,
            );
        }
        let refused: Option<SquashStatus> = self.refusal(operation, window, avail_out);
        let refusal: SquashStatus = match &mut self.private {
            SquashStreamPrivate::Threaded(thread) => {
                if thread.pending.is_some() {
                    SQUASH_STATE
                } else {
                    match refused {
                        Some(status) => status,
                        None => {
                            thread.pending = Some(
                                SquashRequest { operation, avail_in: window, avail_out },
                            );
                            proof {
                                thread.window@ = input@;
                            }
                            SQUASH_OK
                        },
                    }
                }
            },
            _ => SQUASH_INVALID_OPERATION,
        };
        if refusal != SQUASH_OK {
            return self.refuse(refusal, window, avail_out);
        }
        self.next_in = 0;
        self.avail_in = window;
        self.next_out = 0;
        self.avail_out = avail_out;
        SQUASH_OK
    }

    /// Takes the answer of the worker to the request that `begin` noted:
    /// the worker returned `status`, took `consumed` bytes of the input
    /// window and wrote `produced`. Copies what was written to the start of
    /// `output` and returns the status of the operation.
    pub fn complete(
        &mut self,
        status: SquashStatus,
        consumed: usize,
        produced: &[u8],
        output: &mut [u8],
    ) -> (outcome: SquashStatus)
        requires
            old(self).wf(),
        ensures
            final(self).wf(),
            final(self).codec() == old(self).codec(),
            final(self).options() == old(self).options(),
            final(output)@.len() == old(output)@.len(),
            ({
                let answered = squash_stream_reply(
                    old(self).codec(),
                    old(self)@,
                    status,
                    consumed,
                    produced@,
                    old(output)@.len() as usize,
                );
                &&& final(self)@ == answered.view
                &&& outcome == answered.status
                &&& final(output)@.subrange(0, final(self)@.next_out as int) == answered.written
            }),
            final(self)@.total_in >= old(self)@.total_in,
            final(self)@.total_out >= old(self)@.total_out,
    {
        let room: usize = output.len();
        let size: usize = produced.len();
        proof {
            lemma_stream_handoff(
                self.codec,
                self.options,
                self@,
                SquashOperation::SQUASH_OPERATION_PROCESS,
                Seq::empty(),
                status,
                consumed,
                produced@,
                room,
            );
        }
        let unread: usize = self.avail_in;
        let ended: bool = self.state == SQUASH_STREAM_STATE_FINISHED;
        let fitting: bool = status < 0 || (SQUASH_OK <= status && status <= SQUASH_END_OF_STREAM);
        let mut request = SquashRequest {
            operation: SquashOperation::SQUASH_OPERATION_PROCESS,
            avail_in: 0,
            avail_out: 0,
        };
        let ghost mut window = Seq::<u8>::empty();
        let refusal: SquashStatus = match &mut self.private {
            SquashStreamPrivate::Threaded(thread) => {
                match thread.pending {
                    Some(pending) => {
                        if ended {
                            SQUASH_STATE
                        } else if !fitting || consumed > pending.avail_in || size
                            > pending.avail_out || size > room || (status == SQUASH_OK
                            && consumed < pending.avail_in) || (status == SQUASH_PROCESSING
                            && size < pending.avail_out) {
                            SQUASH_FAILED
                        } else {
                            request = pending;
                            proof {
                                window = thread.window@;
                                thread.window@ = Seq::empty();
                            }
                            thread.pending = None;
                            thread.alive = squash_stream_state_after(pending.operation, status)
                                != SQUASH_STREAM_STATE_FINISHED;
                            SQUASH_OK
                        }
                    },
                    None => SQUASH_STATE,
                }
            },
            _ => SQUASH_INVALID_OPERATION,
        };
        if refusal != SQUASH_OK {
            return self.refuse(refusal, unread, room);
        }
        squash_buffer_copy(output, produced, 0, size);
        self.settle(
            request.operation,
            status,
            consumed,
            size,
            Ghost(window),
            Ghost(produced@),
            request.avail_in,
            request.avail_out,
        )
    }

    /// Releases the stream. Returns what has to be done with its worker:
    /// `SQUASH_OPERATION_TERMINATE` if the codec runs on a worker that may
    /// still be running, which is so whenever such a stream is released
    /// before it has ended. The caller hands that operation to the worker
    /// and waits until the worker is gone.
    pub fn release(self) -> (duty: Option<SquashOperation>)
        requires
            self.wf(),
        ensures
            duty == squash_stream_release(self@),
            self.codec().strategy() is ThreadWrapped && self@.state
                != SQUASH_STREAM_STATE_FINISHED ==> duty == Some(
                SquashOperation::SQUASH_OPERATION_TERMINATE,
            ),
            !(self.codec().strategy() is ThreadWrapped) ==> duty is None,
    {
        match self.private {
            SquashStreamPrivate::Threaded(thread) => {
                if thread.alive {
                    Some(SquashOperation::SQUASH_OPERATION_TERMINATE)
                } else {
                    None
                }
            },
            _ => None,
        }
    }

    /// The request that the worker of the stream has not answered yet, if
    /// there is one.
    pub fn request(&self) -> (pending: Option<SquashRequest>)
        ensures
            pending == squash_stream_request(self@),
    {
        match &self.private {
            SquashStreamPrivate::Threaded(thread) => thread.pending,
            _ => None,
        }
    }

    /// Where in the input window of the last operation the unread input
    /// starts.
    pub fn next_in(&self) -> (offset: usize)
        ensures
            offset == self@.next_in,
    {
        self.next_in
    }

    /// How much of the input window of the last operation is unread.
    pub fn avail_in(&self) -> (size: usize)
        ensures
            size == self@.avail_in,
    {
        self.avail_in
    }

    /// The total number of bytes taken since the stream was created.
    pub fn total_in(&self) -> (size: usize)
        ensures
            size == self@.total_in,
    {
        self.total_in
    }

    /// Where in the output window of the last operation the free room
    /// starts: the number of bytes that the operation wrote.
    pub fn next_out(&self) -> (offset: usize)
        ensures
            offset == self@.next_out,
    {
        self.next_out
    }

    /// How much of the output window of the last operation is free.
    pub fn avail_out(&self) -> (size: usize)
        ensures
            size == self@.avail_out,
    {
        self.avail_out
    }

    /// The total number of bytes given since the stream was created.
    pub fn total_out(&self) -> (size: usize)
        ensures
            size == self@.total_out,
    {
        self.total_out
    }

    /// Whether the stream compresses or decompresses.
    pub fn stream_type(&self) -> (stream_type: SquashStreamType)
        ensures
            stream_type == self@.stream_type,
    {
        self.stream_type
    }

    /// The state the stream is in.
    pub fn state(&self) -> (state: SquashStreamState)
        ensures
            state == self@.state,
    {
        self.state
    }

    /// The codec used for this stream.
    pub fn get_codec(&self) -> (codec: &'a SquashCodec<F>)
        ensures
            codec == self.codec(),
    {
        self.codec
    }

    /// The options used for this stream.
    pub fn get_options(&self) -> (options: &'a SquashOptions<'a>)
        ensures
            options == self.options(),
    {
        self.options
    }
}

} // verus!
