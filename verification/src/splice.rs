//! Splicing: moving data from a source to a sink through a codec.
//!
//! A splice reads from the source into one small buffer, drives a stream
//! from that buffer into another, and writes the other to the sink. It
//! never holds more of the data than the two buffers, whatever the stream
//! itself gathers.
//!
//! The splice decides and the caller acts: `step` tells what to do next, to
//! read from the source or to write to the sink, and the caller reports
//! what came of it with `read_done` and `write_done`. Where the codec runs
//! on a worker, `step` also tells when the worker has to run, and the
//! caller reports its answer with `work_done`.

use vstd::prelude::*;
use crate::buffer::{squash_buffer_append, squash_buffer_zeroed, squash_min};
use crate::codec::{SquashCodec, SquashCodecFuncs};
use crate::option::SquashOptions;
use crate::status::{
    squash_error, SquashStatus, SQUASH_END_OF_STREAM, SQUASH_FAILED, SQUASH_INVALID_BUFFER,
    SQUASH_OK, SQUASH_PROCESSING, SQUASH_STATE,
};
use crate::stream::{
    lemma_stream_end, lemma_stream_handoff, lemma_stream_step, squash_stream_created,
    squash_stream_post, squash_stream_reply, squash_stream_request, squash_stream_step,
    squash_stream_wf, squash_stream_window, SquashOperation, SquashRequest, SquashStream,
    SquashStreamOutcome, SquashStreamType, SquashStreamView,
};

verus! {

/// The size of each of the two buffers of a splice.
pub const SQUASH_SPLICE_BUF_SIZE: usize = 512;

/// What the caller of a splice has to do next.
#[derive(Clone, Copy, Debug, PartialEq, Eq)]
pub enum SquashSpliceAction {
    /// Read up to that many bytes from the source and report them with
    /// `read_done`.
    Read(usize),
    /// Hand the operation to the worker of the codec, with what `input`
    /// holds as its input window and an output window of that many bytes,
    /// and report its answer with `work_done`.
    Work(SquashOperation, usize),
    /// Write that many bytes, which `output` holds, to the sink and report
    /// with `write_done`.
    Write(usize),
    /// Nothing: ask again.
    Again,
    /// Stop: the splice has ended with that status.
    Done(SquashStatus),
}

/// What a splice holds.
pub ghost struct SquashSpliceView<P> {
    /// What the stream of the splice holds.
    pub stream: SquashStreamView<P>,
    /// What has been read from the source and not taken by the stream.
    pub unread: Seq<u8>,
    /// What the stream has given and has not been written to the sink.
    pub unwritten: Seq<u8>,
    /// The size of the read that has been asked for and not reported.
    pub awaiting: Option<usize>,
    /// Whether nothing more will be read from the source.
    pub exhausted: bool,
    /// The status with which the splice has ended, once it has:
    /// `SQUASH_OK` when only writing is left to do, or a failure.
    pub ended: Option<SquashStatus>,
    /// How many uncompressed bytes may still be moved, if there is a limit.
    pub budget: Option<usize>,
    /// All that has been read from the source.
    pub source: Seq<u8>,
    /// All that has been written to the sink.
    pub sink: Seq<u8>,
}

impl<P> SquashSpliceView<P> {
    /// Whether the splice compresses.
    pub open spec fn compresses(self) -> bool {
        self.stream.stream_type == SquashStreamType::SQUASH_STREAM_COMPRESS
    }

    /// How many bytes the next read asks for: a buffer full, or what is
    /// left of the limit of a compressing splice if that is less.
    pub open spec fn read_size(self) -> usize {
        match self.budget {
            Some(left) => if self.compresses() {
                squash_min(SQUASH_SPLICE_BUF_SIZE as int, left as int) as usize
            } else {
                SQUASH_SPLICE_BUF_SIZE
            },
            None => SQUASH_SPLICE_BUF_SIZE,
        }
    }

    /// How much room the next run of the stream is given: a buffer full, or
    /// what is left of the limit of a decompressing splice if that is less.
    pub open spec fn room(self) -> usize {
        match self.budget {
            Some(left) => if self.compresses() {
                SQUASH_SPLICE_BUF_SIZE
            } else {
                squash_min(SQUASH_SPLICE_BUF_SIZE as int, left as int) as usize
            },
            None => SQUASH_SPLICE_BUF_SIZE,
        }
    }

    /// The splice after it has failed with `status`. A splice that has
    /// failed before keeps its first failure.
    pub open spec fn fail(self, status: SquashStatus) -> SquashSpliceView<P> {
        match self.ended {
            Some(first) => if first < 0 {
                self
            } else {
                SquashSpliceView { ended: Some(status), awaiting: None, ..self }
            },
            None => SquashSpliceView { ended: Some(status), awaiting: None, ..self },
        }
    }

    /// The operation that the stream runs next: it processes what is
    /// unread, or, when nothing is unread, finishes.
    pub open spec fn operation(self) -> SquashOperation {
        if self.unread.len() == 0 {
            SquashOperation::SQUASH_OPERATION_FINISH
        } else {
            SquashOperation::SQUASH_OPERATION_PROCESS
        }
    }

    /// What has to be done about a splice that stands still: report a
    /// failure, write what is unwritten, report the end, have the worker
    /// run, or read.
    pub open spec fn pending(self) -> Option<SquashSpliceAction> {
        let failed = match self.ended {
            Some(status) => status < 0,
            None => false,
        };
        if failed || (self.unwritten.len() == 0 && self.ended is Some) {
            Some(SquashSpliceAction::Done(self.ended->0))
        } else if self.unwritten.len() > 0 {
            Some(SquashSpliceAction::Write(self.unwritten.len() as usize))
        } else {
            match squash_stream_request(self.stream) {
                Some(request) => Some(
                    SquashSpliceAction::Work(request.operation, request.avail_out),
                ),
                None => match self.awaiting {
                    Some(size) => Some(SquashSpliceAction::Read(size)),
                    None => None,
                },
            }
        }
    }

    /// What the caller has to do about the splice as it stands.
    pub open spec fn action(self) -> SquashSpliceAction {
        match self.pending() {
            Some(action) => action,
            None => SquashSpliceAction::Again,
        }
    }

    /// The splice after its stream has run `operation` with the outcome
    /// `outcome`.
    ///
    /// What the stream took is no longer unread, and what it gave is
    /// unwritten. A failure of the stream ends the splice with that
    /// failure. The splice ends with `SQUASH_OK` when the stream has
    /// finished, when a decompressing stream has reached the end of its
    /// payload, and when the limit of a decompressing splice is reached. A
    /// stream that asks to go on without having moved a byte fails the
    /// splice with `SQUASH_FAILED`.
    pub open spec fn ran(
        self,
        operation: SquashOperation,
        outcome: SquashStreamOutcome<P>,
    ) -> SquashSpliceView<P> {
        let taken = outcome.view.next_in;
        let budget = match self.budget {
            Some(left) => if self.compresses() {
                Some(left)
            } else {
                Some((left - outcome.written.len()) as usize)
            },
            None => None,
        };
        let ended = if outcome.status < 0 {
            Some(outcome.status)
        } else if outcome.status == SQUASH_END_OF_STREAM || (operation
            == SquashOperation::SQUASH_OPERATION_FINISH && outcome.status == SQUASH_OK) {
            Some(SQUASH_OK)
        } else if !self.compresses() && budget == Some(0usize) {
            Some(SQUASH_OK)
        } else if outcome.status == SQUASH_PROCESSING && taken == 0 && outcome.written.len()
            == 0 {
            Some(SQUASH_FAILED)
        } else {
            None
        };
        SquashSpliceView {
            stream: outcome.view,
            unread: self.unread.subrange(taken as int, self.unread.len() as int),
            unwritten: outcome.written,
            ended,
            budget,
            ..self
        }
    }

    /// The splice after the caller has reported a read that returned
    /// `status` and brought `data`.
    ///
    /// A report that was not asked for fails the splice with
    /// `SQUASH_STATE`, a read that failed fails it with the status of the
    /// read, and more data than was asked for fails it with
    /// `SQUASH_INVALID_BUFFER`. Otherwise the data is taken in. The source
    /// is exhausted when the read says so with `SQUASH_END_OF_STREAM`, when
    /// it brings nothing, and when the limit of a compressing splice is
    /// reached.
    pub open spec fn read(self, status: SquashStatus, data: Seq<u8>) -> SquashSpliceView<P> {
        match self.awaiting {
            None => self.fail(SQUASH_STATE),
            Some(size) => if status < 0 {
                self.fail(status)
            } else if data.len() > size {
                self.fail(SQUASH_INVALID_BUFFER)
            } else {
                let budget = match self.budget {
                    Some(left) => if self.compresses() {
                        Some((left - data.len()) as usize)
                    } else {
                        Some(left)
                    },
                    None => None,
                };
                SquashSpliceView {
                    unread: data,
                    awaiting: None,
                    exhausted: status == SQUASH_END_OF_STREAM || data.len() == 0 || (
                    self.compresses() && budget == Some(0usize)),
                    budget,
                    source: self.source + data,
                    ..self
                }
            },
        }
    }

    /// The splice after the caller has reported a write that returned
    /// `status`.
    ///
    /// A report when nothing was to be written fails the splice with
    /// `SQUASH_STATE`, and a write that failed fails it with the status of
    /// the write. Otherwise what was unwritten has reached the sink.
    pub open spec fn written(self, status: SquashStatus) -> SquashSpliceView<P> {
        if self.unwritten.len() == 0 {
            self.fail(SQUASH_STATE)
        } else if status < 0 {
            self.fail(status)
        } else {
            SquashSpliceView {
                unwritten: Seq::empty(),
                sink: self.sink + self.unwritten,
                ..self
            }
        }
    }
}

/// What a step of a splice gives: the splice afterwards, and what the
/// caller has to do.
///
/// A splice that stands still tells what it waits for. Otherwise, if
/// nothing is unread and the source is not exhausted, it asks for a read.
/// Otherwise its stream runs once. A stream that runs by itself does so
/// within the step; after the run the caller writes what the stream has
/// given, or learns that the splice has ended, or asks again. For a stream
/// whose codec runs on a worker the step hands the operation to the worker:
/// the caller has the worker run, unless the stream refuses the operation,
/// which ends the splice.
pub open spec fn squash_splice_step<F: SquashCodecFuncs>(
    codec: &SquashCodec<F>,
    options: &SquashOptions,
    splice: SquashSpliceView<F::Private>,
) -> (SquashSpliceView<F::Private>, SquashSpliceAction) {
    match splice.pending() {
        Some(action) => (splice, action),
        None => if splice.unread.len() == 0 && !splice.exhausted {
            (
                SquashSpliceView { awaiting: Some(splice.read_size()), ..splice },
                SquashSpliceAction::Read(splice.read_size()),
            )
        } else if codec.strategy() is ThreadWrapped {
            let posted = squash_stream_post(
                codec,
                splice.stream,
                splice.operation(),
                splice.unread,
                splice.room(),
            );
            let after = SquashSpliceView {
                stream: posted.view,
                ended: if posted.status == SQUASH_OK {
                    None
                } else {
                    Some(posted.status)
                },
                ..splice
            };
            (after, after.action())
        } else {
            let after = splice.ran(
                splice.operation(),
                squash_stream_step(
                    codec,
                    options,
                    splice.stream,
                    splice.operation(),
                    splice.unread,
                    splice.room(),
                ),
            );
            (after, after.action())
        },
    }
}

/// The splice after the caller has reported the answer of the worker: the
/// worker returned `status`, took `consumed` bytes and wrote `produced`.
///
/// A report when no request awaits an answer, or after the splice has
/// ended, fails the splice with `SQUASH_STATE`. Otherwise the answer is
/// taken in as the outcome of the operation that was requested.
pub open spec fn squash_splice_worked<F: SquashCodecFuncs>(
    codec: &SquashCodec<F>,
    splice: SquashSpliceView<F::Private>,
    status: SquashStatus,
    consumed: usize,
    produced: Seq<u8>,
) -> SquashSpliceView<F::Private> {
    match squash_stream_request(splice.stream) {
        Some(request) => if splice.ended is Some {
            splice.fail(SQUASH_STATE)
        } else {
            splice.ran(
                request.operation,
                squash_stream_reply(
                    codec,
                    splice.stream,
                    status,
                    consumed,
                    produced,
                    request.avail_out,
                ),
            )
        },
        None => splice.fail(SQUASH_STATE),
    }
}

/// Whether `splice` is what a splice through `codec` may hold.
///
/// Its stream is what a stream may hold, and neither buffer holds more than
/// its size. All that was read from the source is what the stream has
/// taken and what is unread; all that the stream has given is what was
/// written to the sink and what is unwritten. A request that the worker
/// has not answered is for what is unread and for the room that the stream
/// is given. A splice that has ended with `SQUASH_OK`, and whose stream runs
/// by itself, has a stream that has ended well.
pub open spec fn squash_splice_wf<F: SquashCodecFuncs>(
    codec: &SquashCodec<F>,
    options: &SquashOptions,
    splice: SquashSpliceView<F::Private>,
) -> bool {
    &&& squash_stream_wf(codec, options, splice.stream)
    &&& splice.unread.len() <= SQUASH_SPLICE_BUF_SIZE
    &&& splice.unwritten.len() <= SQUASH_SPLICE_BUF_SIZE
    &&& splice.source == splice.stream.consumed + splice.unread
    &&& splice.stream.produced == splice.sink + splice.unwritten
    &&& splice.compresses() && splice.budget == Some(0usize) ==> splice.exhausted
    &&& !splice.compresses() && splice.budget == Some(0usize) ==> splice.ended is Some
    &&& splice.awaiting matches Some(size) ==> {
        &&& 0 < size <= SQUASH_SPLICE_BUF_SIZE
        &&& splice.unread.len() == 0
        &&& splice.ended is None
        &&& !splice.exhausted
        &&& splice.compresses() ==> (splice.budget matches Some(left) ==> size <= left)
        &&& squash_stream_request(splice.stream) is None
    }
    &&& squash_stream_request(splice.stream) matches Some(request) ==> {
        &&& squash_stream_window(splice.stream) == splice.unread
        &&& request.avail_out == splice.room()
        &&& splice.ended is None ==> splice.unwritten.len() == 0
    }
    &&& splice.ended == Some(SQUASH_OK) && !(codec.strategy() is ThreadWrapped)
        ==> if splice.compresses() {
        &&& splice.unread.len() == 0
        &&& codec.funcs().spec_decode(splice.stream.produced) == Some(splice.stream.consumed)
    } else {
        splice.budget is None ==> codec.funcs().spec_decode(splice.stream.consumed) == Some(
            splice.stream.produced,
        )
    }
}

/// What a splice keeps to.
///
/// Steps and reports leave a splice what a splice may hold. A step reads
/// and writes nothing by itself: the source and the sink stay as they are.
/// A read that is asked for is of at least one byte and of no more than a
/// buffer holds, a write is of what is unwritten, and the worker is given
/// what is unread and no more room than a buffer holds.
///
/// When a step tells that the splice is done with `SQUASH_OK`, nothing is
/// left unwritten. For a stream that runs by itself there is more: if the
/// splice compresses, all that was written to the sink stands for all that
/// was read from the source; if it decompresses without a limit, all that
/// was written to the sink is what the part of the source that the stream
/// has taken stands for, and what is unread of the source lies behind the
/// end of the compressed payload.
pub proof fn lemma_splice_step<F: SquashCodecFuncs>(
    codec: &SquashCodec<F>,
    options: &SquashOptions,
    splice: SquashSpliceView<F::Private>,
    status: SquashStatus,
    consumed: usize,
    data: Seq<u8>,
)
    requires
        squash_splice_wf(codec, options, splice),
    ensures
        ({
            let stepped = squash_splice_step(codec, options, splice);
            let after = stepped.0;
            &&& squash_splice_wf(codec, options, after)
            &&& after.source == splice.source
            &&& after.sink == splice.sink
            &&& after.budget is None == splice.budget is None
            &&& after.stream.stream_type == splice.stream.stream_type
            &&& stepped.1 matches SquashSpliceAction::Read(size) ==> 0 < size
                <= SQUASH_SPLICE_BUF_SIZE && after.awaiting == Some(size)
            &&& stepped.1 matches SquashSpliceAction::Write(size) ==> size
                == after.unwritten.len() && size > 0
            &&& stepped.1 matches SquashSpliceAction::Work(operation, room) ==> {
                &&& room <= SQUASH_SPLICE_BUF_SIZE
                &&& squash_stream_request(after.stream) == Some(
                    SquashRequest {
                        operation,
                        avail_in: after.unread.len() as usize,
                        avail_out: room,
                    },
                ) || splice.pending() is Some
                &&& squash_stream_window(after.stream) == after.unread
            }
            &&& stepped.1 == SquashSpliceAction::Done(SQUASH_OK) ==> {
                &&& after.unwritten.len() == 0
                &&& !(codec.strategy() is ThreadWrapped) ==> {
                    &&& after.compresses() ==> codec.funcs().spec_decode(after.sink) == Some(
                        after.source,
                    )
                    &&& !after.compresses() && after.budget is None ==> {
                        &&& codec.funcs().spec_decode(after.stream.consumed) == Some(after.sink)
                        &&& after.source == after.stream.consumed + after.unread
                    }
                }
            }
        }),
        squash_splice_wf(codec, options, splice.read(status, data)),
        squash_splice_wf(codec, options, splice.written(status)),
        squash_splice_wf(
            codec,
            options,
            squash_splice_worked(codec, splice, status, consumed, data),
        ),
        splice.read(status, data).sink == splice.sink,
        splice.written(status).source == splice.source,
        squash_splice_worked(codec, splice, status, consumed, data).source == splice.source,
        squash_splice_worked(codec, splice, status, consumed, data).sink == splice.sink,
{
    let operation = splice.operation();
    let room = splice.room();
    lemma_stream_handoff(
        codec,
        options,
        splice.stream,
        operation,
        splice.unread,
        status,
        consumed,
        data,
        match squash_stream_request(splice.stream) {
            Some(request) => request.avail_out,
            None => room,
        },
    );
    lemma_stream_handoff(
        codec,
        options,
        splice.stream,
        operation,
        splice.unread,
        status,
        consumed,
        data,
        room,
    );
    if splice.pending() is None && !(splice.unread.len() == 0 && !splice.exhausted) && !(
    codec.strategy() is ThreadWrapped) {
        let taken = squash_stream_step(
            codec,
            options,
            splice.stream,
            operation,
            splice.unread,
            room,
        ).view.next_in;
        lemma_stream_step(codec, options, splice.stream, operation, splice.unread, room);
        lemma_stream_end(codec, options, splice.stream, operation, splice.unread, room);
        assert(splice.source =~= splice.stream.consumed + splice.unread.subrange(0, taken as int)
            + splice.unread.subrange(taken as int, splice.unread.len() as int));
    }
    if squash_stream_request(splice.stream) is Some && splice.ended is None {
        let request = squash_stream_request(splice.stream)->0;
        let taken = squash_stream_reply(
            codec,
            splice.stream,
            status,
            consumed,
            data,
            request.avail_out,
        ).view.next_in;
        assert(splice.source =~= splice.stream.consumed + splice.unread.subrange(0, taken as int)
            + splice.unread.subrange(taken as int, splice.unread.len() as int));
        assert(splice.unread.subrange(0, splice.unread.len() as int) =~= splice.unread);
    }
}

/// What a new splice holds: a new stream, empty buffers, and the limit
/// `size`, where 0 stands for no limit.
pub open spec fn squash_splice_created<F: SquashCodecFuncs>(
    codec: &SquashCodec<F>,
    options: &SquashOptions,
    stream_type: SquashStreamType,
    size: usize,
) -> Option<SquashSpliceView<F::Private>> {
    match squash_stream_created(codec, options, stream_type) {
        Some(stream) => Some(
            SquashSpliceView {
                stream,
                unread: Seq::empty(),
                unwritten: Seq::empty(),
                awaiting: None,
                exhausted: false,
                ended: None,
                budget: if size == 0 {
                    None
                } else {
                    Some(size)
                },
                source: Seq::empty(),
                sink: Seq::empty(),
            },
        ),
        None => None,
    }
}

/// A splice: a stream between a source and a sink, with its two buffers.
pub struct SquashSplice<'a, F: SquashCodecFuncs> {
    stream: SquashStream<'a, F>,
    input: Vec<u8>,
    position: usize,
    output: Vec<u8>,
    filled: usize,
    awaiting: Option<usize>,
    exhausted: bool,
    ended: Option<SquashStatus>,
    budget: Option<usize>,
    source: Ghost<Seq<u8>>,
    sink: Ghost<Seq<u8>>,
}

impl<'a, F: SquashCodecFuncs> SquashSplice<'a, F> {
    /// What the splice holds.
    pub closed spec fn view(&self) -> SquashSpliceView<F::Private> {
        SquashSpliceView {
            stream: self.stream@,
            unread: self.input@.subrange(self.position as int, self.input@.len() as int),
            unwritten: self.output@.subrange(0, self.filled as int),
            awaiting: self.awaiting,
            exhausted: self.exhausted,
            ended: self.ended,
            budget: self.budget,
            source: self.source@,
            sink: self.sink@,
        }
    }

    /// The codec of the splice.
    pub closed spec fn codec(&self) -> &SquashCodec<F> {
        self.stream.codec()
    }

    /// The options of the splice.
    pub closed spec fn options(&self) -> &SquashOptions<'a> {
        self.stream.options()
    }

    /// Whether the two buffers are as the splice keeps them: neither is
    /// longer than its size, and the output buffer has the room that the
    /// next run of the stream is given.
    pub closed spec fn buffers_wf(&self) -> bool {
        &&& self.position <= self.input@.len() <= SQUASH_SPLICE_BUF_SIZE
        &&& self.filled <= self.output@.len() <= SQUASH_SPLICE_BUF_SIZE
        &&& self@.room() <= self.output@.len()
        &&& squash_stream_request(self@.stream) matches Some(request) ==> self.output@.len()
            == request.avail_out
    }

    /// Whether the splice is well formed. Every splice that `new` makes is,
    /// and every step and report keeps it so.
    pub open spec fn wf(&self) -> bool {
        &&& squash_splice_wf(self.codec(), self.options(), self@)
        &&& self.buffers_wf()
    }

    /// Creates a splice through `codec` that moves up to `size`
    /// uncompressed bytes, or all that the source has if `size` is 0.
    /// Nothing if the stream cannot be created.
    pub fn new(
        codec: &'a SquashCodec<F>,
        stream_type: SquashStreamType,
        size: usize,
        options: &'a SquashOptions<'a>,
    ) -> (created: Option<SquashSplice<'a, F>>)
        requires
            codec.wf(),
        ensures
            match created {
                Some(splice) => {
                    &&& squash_splice_created(codec, options, stream_type, size) == Some(splice@)
                    &&& splice.codec() == codec
                    &&& splice.options() == options
                    &&& splice.wf()
                },
                None => squash_splice_created(codec, options, stream_type, size) is None,
            },
    {
        let stream = match SquashStream::new(codec, stream_type, options) {
            Some(stream) => stream,
            None => {
                return None;
            },
        };
        let splice = SquashSplice {
            stream,
            input: Vec::new(),
            position: 0,
            output: squash_buffer_zeroed(SQUASH_SPLICE_BUF_SIZE),
            filled: 0,
            awaiting: None,
            exhausted: false,
            ended: None,
            budget: if size == 0 {
                None
            } else {
                Some(size)
            },
            source: Ghost(Seq::empty()),
            sink: Ghost(Seq::empty()),
        };
        proof {
            assert(splice@.stream.consumed + splice@.unread =~= splice@.source);
            assert(splice@.sink + splice@.unwritten =~= splice@.stream.produced);
        }
        Some(splice)
    }

    /// What has to be done about the splice as it stands, if anything.
    fn pending(&self) -> (action: Option<SquashSpliceAction>)
        requires
            self.wf(),
        ensures
            action == self@.pending(),
    {
        let failed: bool = match self.ended {
            Some(status) => status < 0,
            None => false,
        };
        if failed || (self.filled == 0 && self.ended.is_some()) {
            match self.ended {
                Some(status) => Some(SquashSpliceAction::Done(status)),
                None => None,
            }
        } else if self.filled > 0 {
            Some(SquashSpliceAction::Write(self.filled))
        } else {
            match self.stream.request() {
                Some(request) => Some(
                    SquashSpliceAction::Work(request.operation, request.avail_out),
                ),
                None => match self.awaiting {
                    Some(size) => Some(SquashSpliceAction::Read(size)),
                    None => None,
                },
            }
        }
    }

    /// Fails the splice with `status`, unless it has failed before.
    fn fail(&mut self, status: SquashStatus)
        ensures
            final(self)@ == old(self)@.fail(status),
            final(self).codec() == old(self).codec(),
            final(self).options() == old(self).options(),
            final(self).buffers_wf() == old(self).buffers_wf(),
    {
        let first: bool = match self.ended {
            Some(first) => first < 0,
            None => false,
        };
        if !first {
            self.ended = Some(squash_error(status));
            self.awaiting = None;
        }
    }

    /// What the caller has to do about the splice as it stands.
    fn action(&self) -> (action: SquashSpliceAction)
        requires
            self.wf(),
        ensures
            action == self@.action(),
    {
        match self.pending() {
            Some(action) => action,
            None => SquashSpliceAction::Again,
        }
    }

    /// Takes in what a run of the stream has come to: the stream has run
    /// `operation`, returned `status`, and left its cursors behind.
    fn ran(&mut self, operation: SquashOperation, status: SquashStatus)
        requires
            old(self).position + old(self).stream@.next_in <= old(self).input@.len(),
            old(self).stream@.next_out <= old(self).output@.len(),
            !old(self)@.compresses() ==> (old(self).budget matches Some(left)
                ==> old(self).stream@.next_out <= left),
        ensures
            final(self).stream == old(self).stream,
            final(self).input == old(self).input,
            final(self).output == old(self).output,
            final(self).position == old(self).position + old(self).stream@.next_in,
            final(self).filled == old(self).stream@.next_out,
            final(self).awaiting == old(self).awaiting,
            final(self).exhausted == old(self).exhausted,
            final(self).source == old(self).source,
            final(self).sink == old(self).sink,
            final(self).budget == match old(self).budget {
                Some(left) => if old(self)@.compresses() {
                    Some(left)
                } else {
                    Some((left - old(self).stream@.next_out) as usize)
                },
                None => None,
            },
            final(self).ended == if status < 0 {
                Some(status)
            } else if status == SQUASH_END_OF_STREAM || (operation
                == SquashOperation::SQUASH_OPERATION_FINISH && status == SQUASH_OK) {
                Some(SQUASH_OK)
            } else if !old(self)@.compresses() && final(self).budget == Some(0usize) {
                Some(SQUASH_OK)
            } else if status == SQUASH_PROCESSING && old(self).stream@.next_in == 0 && old(
                self,
            ).stream@.next_out == 0 {
                Some(SQUASH_FAILED)
            } else {
                None
            },
    {
        let compresses: bool = match self.stream.stream_type() {
            SquashStreamType::SQUASH_STREAM_COMPRESS => true,
            SquashStreamType::SQUASH_STREAM_DECOMPRESS => false,
        };
        let finishing: bool = match operation {
            SquashOperation::SQUASH_OPERATION_FINISH => true,
            _ => false,
        };
        let _: usize = self.input.len();
        let taken: usize = self.stream.next_in();
        let given: usize = self.stream.next_out();
        self.position = self.position + taken;
        self.filled = given;
        self.budget = match self.budget {
            Some(left) => if compresses {
                Some(left)
            } else {
                Some(left - given)
            },
            None => None,
        };
        let spent: bool = match self.budget {
            Some(left) => !compresses && left == 0,
            None => false,
        };
        self.ended = if status < 0 {
            Some(status)
        } else if status == SQUASH_END_OF_STREAM || (finishing && status == SQUASH_OK) {
            Some(SQUASH_OK)
        } else if spent {
            Some(SQUASH_OK)
        } else if status == SQUASH_PROCESSING && taken == 0 && given == 0 {
            Some(squash_error(SQUASH_FAILED))
        } else {
            None
        };
    }

    /// Takes the splice one step on and tells the caller what to do next.
    pub fn step(&mut self) -> (action: SquashSpliceAction)
        requires
            old(self).wf(),
        ensures
            final(self).wf(),
            final(self).codec() == old(self).codec(),
            final(self).options() == old(self).options(),
            (final(self)@, action) == squash_splice_step(
                old(self).codec(),
                old(self).options(),
                old(self)@,
            ),
    {
        let ghost before = self@;
        let ghost codec = self.codec();
        let ghost options = self.options();
        proof {
            lemma_splice_step(codec, options, before, SQUASH_OK, 0, Seq::empty());
        }
        match self.pending() {
            Some(action) => {
                return action;
            },
            None => {},
        }
        let compresses: bool = match self.stream.stream_type() {
            SquashStreamType::SQUASH_STREAM_COMPRESS => true,
            SquashStreamType::SQUASH_STREAM_DECOMPRESS => false,
        };
        let end: usize = self.input.len();
        let unread: usize = end - self.position;
        if unread == 0 && !self.exhausted {
            let size: usize = match self.budget {
                Some(left) => if compresses && left < SQUASH_SPLICE_BUF_SIZE {
                    left
                } else {
                    SQUASH_SPLICE_BUF_SIZE
                },
                None => SQUASH_SPLICE_BUF_SIZE,
            };
            self.awaiting = Some(size);
            return SquashSpliceAction::Read(size);
        }
        let room: usize = match self.budget {
            Some(left) => if !compresses && left < SQUASH_SPLICE_BUF_SIZE {
                left
            } else {
                SQUASH_SPLICE_BUF_SIZE
            },
            None => SQUASH_SPLICE_BUF_SIZE,
        };
        let operation = if unread == 0 {
            SquashOperation::SQUASH_OPERATION_FINISH
        } else {
            SquashOperation::SQUASH_OPERATION_PROCESS
        };
        self.output.truncate(room);
        let threaded: bool = match self.stream.get_codec() {
            SquashCodec::ThreadWrapped(_) => true,
            _ => false,
        };
        if threaded {
            let status: SquashStatus = self.stream.begin(
                operation,
                &self.input[self.position..end],
                room,
            );
            proof {
                lemma_stream_handoff(
                    codec,
                    options,
                    before.stream,
                    operation,
                    before.unread,
                    SQUASH_OK,
                    0,
                    Seq::empty(),
                    room,
                );
            }
            if status != SQUASH_OK {
                self.ended = Some(status);
            }
            proof {
                assert(self@.unwritten =~= before.unwritten);
            }
            return self.action();
        }
        let status: SquashStatus = match operation {
            SquashOperation::SQUASH_OPERATION_FINISH => self.stream.finish(
                &self.input[self.position..end],
                self.output.as_mut_slice(),
            ),
            _ => self.stream.process(&self.input[self.position..end], self.output.as_mut_slice()),
        };
        proof {
            lemma_stream_step(codec, options, before.stream, operation, before.unread, room);
        }
        self.ran(operation, status);
        proof {
            let taken = self.stream@.next_in;
            assert(self@.unread =~= before.unread.subrange(
                taken as int,
                before.unread.len() as int,
            ));
        }
        self.action()
    }

    /// What the last step asked to hand to the worker as its input window:
    /// what is unread.
    pub fn input(&self) -> (bytes: &[u8])
        requires
            self.wf(),
        ensures
            bytes@ == self@.unread,
    {
        let buffer: &[u8] = self.input.as_slice();
        &buffer[self.position..buffer.len()]
    }

    /// Reports the answer of the worker to what the last step asked to hand
    /// to it: the worker returned `status`, took `consumed` bytes of its
    /// input window and wrote `produced`.
    pub fn work_done(&mut self, status: SquashStatus, consumed: usize, produced: &[u8])
        requires
            old(self).wf(),
        ensures
            final(self).wf(),
            final(self).codec() == old(self).codec(),
            final(self).options() == old(self).options(),
            final(self)@ == squash_splice_worked(
                old(self).codec(),
                old(self)@,
                status,
                consumed,
                produced@,
            ),
    {
        let ghost before = self@;
        let ghost codec = self.codec();
        let ghost options = self.options();
        proof {
            lemma_splice_step(codec, options, before, status, consumed, produced@);
        }
        let request: SquashRequest = match self.stream.request() {
            Some(request) => request,
            None => {
                self.fail(SQUASH_STATE);
                return ;
            },
        };
        if self.ended.is_some() {
            self.fail(SQUASH_STATE);
            return ;
        }
        proof {
            lemma_stream_handoff(
                codec,
                options,
                before.stream,
                request.operation,
                Seq::empty(),
                status,
                consumed,
                produced@,
                request.avail_out,
            );
        }
        let outcome: SquashStatus = self.stream.complete(
            status,
            consumed,
            produced,
            self.output.as_mut_slice(),
        );
        self.ran(request.operation, outcome);
        proof {
            let taken = self.stream@.next_in;
            assert(self@.unread =~= before.unread.subrange(
                taken as int,
                before.unread.len() as int,
            ));
        }
    }

    /// Reports the read that the last step asked for: it returned `status`
    /// and brought `data`. A read that brings nothing, or returns
    /// `SQUASH_END_OF_STREAM`, tells that the source is exhausted.
    pub fn read_done(&mut self, status: SquashStatus, data: &[u8])
        requires
            old(self).wf(),
        ensures
            final(self).wf(),
            final(self).codec() == old(self).codec(),
            final(self).options() == old(self).options(),
            final(self)@ == old(self)@.read(status, data@),
    {
        let ghost before = self@;
        proof {
            lemma_splice_step(self.codec(), self.options(), before, status, 0, data@);
        }
        let size: usize = match self.awaiting {
            Some(size) => size,
            None => {
                self.fail(SQUASH_STATE);
                return ;
            },
        };
        if status < 0 {
            self.fail(status);
            return ;
        }
        let count: usize = data.len();
        if count > size {
            self.fail(SQUASH_INVALID_BUFFER);
            return ;
        }
        let compresses: bool = match self.stream.stream_type() {
            SquashStreamType::SQUASH_STREAM_COMPRESS => true,
            SquashStreamType::SQUASH_STREAM_DECOMPRESS => false,
        };
        self.input.clear();
        squash_buffer_append(&mut self.input, data, count);
        self.position = 0;
        self.awaiting = None;
        self.budget = match self.budget {
            Some(left) => if compresses {
                Some(left - count)
            } else {
                Some(left)
            },
            None => None,
        };
        let spent: bool = match self.budget {
            Some(left) => compresses && left == 0,
            None => false,
        };
        self.exhausted = status == SQUASH_END_OF_STREAM || count == 0 || spent;
        proof {
            self.source@ = self.source@ + data@;
            assert(self@.unread =~= data@);
        }
    }

    /// Reports the write that the last step asked for: it returned
    /// `status`.
    pub fn write_done(&mut self, status: SquashStatus)
        requires
            old(self).wf(),
        ensures
            final(self).wf(),
            final(self).codec() == old(self).codec(),
            final(self).options() == old(self).options(),
            final(self)@ == old(self)@.written(status),
    {
        let ghost before = self@;
        proof {
            lemma_splice_step(self.codec(), self.options(), before, status, 0, Seq::empty());
        }
        if self.filled == 0 {
            self.fail(SQUASH_STATE);
            return ;
        }
        if status < 0 {
            self.fail(status);
            return ;
        }
        proof {
            self.sink@ = self.sink@ + before.unwritten;
        }
        self.filled = 0;
        proof {
            assert(self@.unwritten =~= Seq::<u8>::empty());
        }
    }

    /// The bytes that the last step asked to write.
    pub fn output(&self) -> (bytes: &[u8])
        requires
            self.wf(),
        ensures
            bytes@ == self@.unwritten,
    {
        let buffer: &[u8] = self.output.as_slice();
        &buffer[0..self.filled]
    }

    /// Releases the splice. Returns what has to be done with the worker of
    /// its stream: `SQUASH_OPERATION_TERMINATE` if the codec runs on a
    /// worker that may still be running.
    pub fn release(self) -> (duty: Option<SquashOperation>)
        requires
            self.wf(),
        ensures
            duty == crate::stream::squash_stream_release(self@.stream),
            !(self.codec().strategy() is ThreadWrapped) ==> duty is None,
    {
        self.stream.release()
    }
}

} // verus!
