//! Buffer to buffer: compressing and decompressing a whole buffer with one
//! call.
//!
//! Where the codec provides a buffer-to-buffer function, it is called and no
//! stream is made. Where it does not, a stream is made, fed the whole input
//! and finished, and the caller never sees it.

use vstd::prelude::*;
use crate::buffer::{squash_buffer_append, squash_buffer_zeroed};
use crate::codec::{lemma_one_shot, SquashCodec, SquashCodecFuncs};
use crate::option::SquashOptions;
use crate::status::{
    squash_error, SquashStatus, SQUASH_BUFFER_FULL, SQUASH_END_OF_STREAM, SQUASH_FAILED,
    SQUASH_INVALID_OPERATION, SQUASH_OK, SQUASH_PROCESSING,
};
use crate::stream::{
    lemma_stream_end, lemma_stream_run, lemma_stream_step, squash_stream_created,
    squash_stream_run, squash_stream_step, squash_stream_wf, SquashCall, SquashOperation,
    SquashStream, SquashStreamType, SquashStreamView,
};

verus! {

/// What finishing a stream on all of `input` gives when no more than `room`
/// bytes may be written: the status, and the bytes written.
///
/// The stream is finished on what is left of the input, with what is left
/// of the room as its output window, for as long as it asks to be finished
/// again and takes or gives at least one byte. A stream that asks again
/// without having moved a byte fails: with `SQUASH_BUFFER_FULL` if no room
/// is left, with `SQUASH_FAILED` otherwise. A stream that ends before it has
/// taken all input fails with `SQUASH_FAILED`.
pub open spec fn squash_stream_drive<F: SquashCodecFuncs>(
    codec: &SquashCodec<F>,
    options: &SquashOptions,
    stream: SquashStreamView<F::Private>,
    input: Seq<u8>,
    room: usize,
) -> (SquashStatus, Seq<u8>)
    decreases input.len() + room,
{
    let outcome = squash_stream_step(
        codec,
        options,
        stream,
        SquashOperation::SQUASH_OPERATION_FINISH,
        input,
        room,
    );
    let taken = outcome.view.next_in;
    let given = outcome.written;
    if outcome.status == SQUASH_PROCESSING {
        if (taken > 0 || given.len() > 0) && taken <= input.len() && given.len() <= room {
            let rest = squash_stream_drive(
                codec,
                options,
                outcome.view,
                input.subrange(taken as int, input.len() as int),
                (room - given.len()) as usize,
            );
            (rest.0, given + rest.1)
        } else if room == 0 {
            (SQUASH_BUFFER_FULL, given)
        } else {
            (SQUASH_FAILED, given)
        }
    } else if outcome.status > 0 && taken < input.len() {
        (SQUASH_FAILED, given)
    } else {
        (outcome.status, given)
    }
}

/// What `squash_stream_drive` gives is `SQUASH_OK`, `SQUASH_END_OF_STREAM`
/// or a failure, and fits the room. When it is no failure, all that the
/// stream has given and all that it has taken, the whole input included,
/// are bound by the format of the codec.
pub proof fn lemma_stream_drive<F: SquashCodecFuncs>(
    codec: &SquashCodec<F>,
    options: &SquashOptions,
    stream: SquashStreamView<F::Private>,
    input: Seq<u8>,
    room: usize,
)
    requires
        squash_stream_wf(codec, options, stream),
        input.len() <= usize::MAX,
    ensures
        ({
            let driven = squash_stream_drive(codec, options, stream, input, room);
            &&& driven.0 == SQUASH_OK || driven.0 == SQUASH_END_OF_STREAM || driven.0 < 0
            &&& driven.1.len() <= room
            &&& driven.0 > 0 ==> match stream.stream_type {
                SquashStreamType::SQUASH_STREAM_COMPRESS => codec.funcs().spec_decode(
                    stream.produced + driven.1,
                ) == Some(stream.consumed + input),
                SquashStreamType::SQUASH_STREAM_DECOMPRESS => codec.funcs().spec_decode(
                    stream.consumed + input,
                ) == Some(stream.produced + driven.1),
            }
        }),
    decreases input.len() + room,
{
    let operation = SquashOperation::SQUASH_OPERATION_FINISH;
    let outcome = squash_stream_step(codec, options, stream, operation, input, room);
    let taken = outcome.view.next_in;
    let given = outcome.written;
    lemma_stream_step(codec, options, stream, operation, input, room);
    lemma_stream_end(codec, options, stream, operation, input, room);
    assert(input.subrange(0, input.len() as int) =~= input);
    if outcome.status == SQUASH_PROCESSING {
        if (taken > 0 || given.len() > 0) && taken <= input.len() && given.len() <= room {
            let rest_input = input.subrange(taken as int, input.len() as int);
            let rest_room = (room - given.len()) as usize;
            lemma_stream_drive(codec, options, outcome.view, rest_input, rest_room);
            let rest = squash_stream_drive(codec, options, outcome.view, rest_input, rest_room);
            assert(stream.consumed + input.subrange(0, taken as int) + rest_input
                =~= stream.consumed + input);
            assert(stream.produced + given + rest.1 =~= stream.produced + (given + rest.1));
        }
    }
}

impl<F: SquashCodecFuncs> SquashCodec<F> {
    /// What turning all of `input` into its other form through a stream of
    /// the codec gives when no more than `room` bytes may be written. Fails
    /// with `SQUASH_INVALID_OPERATION`, and makes no stream, if the codec
    /// runs on a worker; fails with `SQUASH_FAILED` if the stream cannot be
    /// created.
    pub open spec fn through_stream(
        &self,
        stream_type: SquashStreamType,
        input: Seq<u8>,
        room: usize,
        options: &SquashOptions,
    ) -> (SquashStatus, Seq<u8>) {
        if self.strategy() is ThreadWrapped {
            (SQUASH_INVALID_OPERATION, Seq::empty())
        } else {
            match squash_stream_created(self, options, stream_type) {
                Some(stream) => squash_stream_drive(self, options, stream, input, room),
                None => (SQUASH_FAILED, Seq::empty()),
            }
        }
    }

    /// What compressing `uncompressed` gives: the status, and the compressed
    /// bytes. The output has room for the maximum compressed size. A codec
    /// that compresses buffers does so in one call; for any other a stream
    /// is driven to its end.
    pub open spec fn compressed(&self, uncompressed: Seq<u8>, options: &SquashOptions) -> (
        SquashStatus,
        Seq<u8>,
    ) {
        if self.table().compresses() {
            let result = self.compress_once(uncompressed, options);
            (result.status, result.data)
        } else {
            self.through_stream(
                SquashStreamType::SQUASH_STREAM_COMPRESS,
                uncompressed,
                self.funcs().spec_max_compressed_size(uncompressed.len() as usize),
                options,
            )
        }
    }

    /// The room that decompressing `compressed` is given: the size that the
    /// caller expects, or else the size that the codec reads off the
    /// compressed data; nothing if neither is known.
    pub open spec fn decompressed_room(&self, compressed: Seq<u8>, expected: Option<usize>)
        -> Option<usize> {
        match expected {
            Some(size) => Some(size),
            None => self.uncompressed_size(compressed),
        }
    }

    /// What decompressing `compressed` gives: the status, and the
    /// decompressed bytes. Fails with `SQUASH_INVALID_OPERATION` if the size
    /// of the result is neither expected by the caller nor known to the
    /// codec. A codec that decompresses buffers does so in one call; for any
    /// other a stream is driven to its end.
    pub open spec fn decompressed(
        &self,
        compressed: Seq<u8>,
        options: &SquashOptions,
        expected: Option<usize>,
    ) -> (SquashStatus, Seq<u8>) {
        match self.decompressed_room(compressed, expected) {
            None => (SQUASH_INVALID_OPERATION, Seq::empty()),
            Some(room) => if self.table().decompress_buffer {
                let result = self.funcs().spec_decompress_buffer(compressed, room, options);
                (result.status, result.data)
            } else {
                self.through_stream(
                    SquashStreamType::SQUASH_STREAM_DECOMPRESS,
                    compressed,
                    room,
                    options,
                )
            },
        }
    }
}

/// What compressing gives is no request to go on: it is a success or a
/// failure. Compressed bytes stand for what was compressed, and they are no
/// more than the maximum compressed size.
pub proof fn lemma_compressed<F: SquashCodecFuncs>(
    codec: &SquashCodec<F>,
    uncompressed: Seq<u8>,
    options: &SquashOptions,
)
    requires
        codec.wf(),
        uncompressed.len() <= usize::MAX,
    ensures
        ({
            let result = codec.compressed(uncompressed, options);
            &&& result.0 == SQUASH_OK || result.0 == SQUASH_END_OF_STREAM || result.0 < 0
            &&& result.0 > 0 ==> {
                &&& codec.funcs().spec_decode(result.1) == Some(uncompressed)
                &&& result.1.len() <= codec.funcs().spec_max_compressed_size(
                    uncompressed.len() as usize,
                )
            }
        }),
{
    let stream_type = SquashStreamType::SQUASH_STREAM_COMPRESS;
    if codec.table().compresses() {
        lemma_one_shot(codec, stream_type, uncompressed, options);
    } else {
        crate::stream::lemma_stream_created(codec, options, stream_type);
        match squash_stream_created(codec, options, stream_type) {
            Some(stream) => {
                let room = codec.funcs().spec_max_compressed_size(uncompressed.len() as usize);
                lemma_stream_drive(codec, options, stream, uncompressed, room);
                let driven = squash_stream_drive(codec, options, stream, uncompressed, room);
            },
            None => {},
        }
    }
}

/// What decompressing gives is no request to go on: it is a success or a
/// failure. Decompressed bytes are what the compressed bytes stand for, and
/// they are no more than the room that decompressing was given.
pub proof fn lemma_decompressed<F: SquashCodecFuncs>(
    codec: &SquashCodec<F>,
    compressed: Seq<u8>,
    options: &SquashOptions,
    expected: Option<usize>,
)
    requires
        codec.wf(),
        compressed.len() <= usize::MAX,
    ensures
        ({
            let result = codec.decompressed(compressed, options, expected);
            &&& result.0 == SQUASH_OK || result.0 == SQUASH_END_OF_STREAM || result.0 < 0
            &&& result.0 > 0 ==> {
                &&& codec.funcs().spec_decode(compressed) == Some(result.1)
                &&& codec.decompressed_room(compressed, expected) matches Some(room)
                    && result.1.len() <= room
            }
        }),
{
    let stream_type = SquashStreamType::SQUASH_STREAM_DECOMPRESS;
    match codec.decompressed_room(compressed, expected) {
        None => {},
        Some(room) => {
            if codec.table().decompress_buffer {
                codec.funcs().law_buffer_results(compressed, room, options);
                codec.funcs().law_buffer_format(compressed, room, options);
            } else {
                crate::stream::lemma_stream_created(codec, options, stream_type);
                match squash_stream_created(codec, options, stream_type) {
                    Some(stream) => {
                        lemma_stream_drive(codec, options, stream, compressed, room);
                        let driven = squash_stream_drive(codec, options, stream, compressed, room);
                    },
                    None => {},
                }
            }
        },
    }
}

/// Round trip: whatever compressing some data gives, decompressing it gives
/// the data back. This holds of every codec, of all data, the empty buffer
/// included, of all options, and of every size that the caller may expect,
/// whenever both calls succeed.
pub proof fn lemma_round_trip<F: SquashCodecFuncs>(
    codec: &SquashCodec<F>,
    data: Seq<u8>,
    compress_options: &SquashOptions,
    decompress_options: &SquashOptions,
    expected: Option<usize>,
)
    requires
        codec.wf(),
        data.len() <= usize::MAX,
        codec.compressed(data, compress_options).0 > 0,
        codec.decompressed(
            codec.compressed(data, compress_options).1,
            decompress_options,
            expected,
        ).0 > 0,
    ensures
        codec.decompressed(
            codec.compressed(data, compress_options).1,
            decompress_options,
            expected,
        ).1 == data,
{
    lemma_compressed(codec, data, compress_options);
    lemma_decompressed(
        codec,
        codec.compressed(data, compress_options).1,
        decompress_options,
        expected,
    );
}

/// Chunking invariance: take a new compressing stream through any sequence
/// of operations, with windows however small, and finish it. If the finish
/// returns `SQUASH_OK`, the bytes that the stream has given stand for all
/// that it has taken; so they stand for the same data as the bytes that
/// compressing all of it in one call gives.
pub proof fn lemma_chunking_invariance<F: SquashCodecFuncs>(
    codec: &SquashCodec<F>,
    options: &SquashOptions,
    calls: Seq<SquashCall>,
    input: Seq<u8>,
    room: usize,
    one_call_options: &SquashOptions,
)
    requires
        codec.wf(),
        squash_stream_created(codec, options, SquashStreamType::SQUASH_STREAM_COMPRESS) is Some,
        forall|i: int| 0 <= i < calls.len() ==> (#[trigger] calls[i]).input.len() <= usize::MAX,
        input.len() <= usize::MAX,
        squash_stream_step(
            codec,
            options,
            squash_stream_run(
                codec,
                options,
                squash_stream_created(
                    codec,
                    options,
                    SquashStreamType::SQUASH_STREAM_COMPRESS,
                )->0,
                calls,
            ),
            SquashOperation::SQUASH_OPERATION_FINISH,
            input,
            room,
        ).status == SQUASH_OK,
    ensures
        ({
            let finished = squash_stream_step(
                codec,
                options,
                squash_stream_run(
                    codec,
                    options,
                    squash_stream_created(
                        codec,
                        options,
                        SquashStreamType::SQUASH_STREAM_COMPRESS,
                    )->0,
                    calls,
                ),
                SquashOperation::SQUASH_OPERATION_FINISH,
                input,
                room,
            ).view;
            let one_call = codec.compressed(finished.consumed, one_call_options);
            &&& finished.consumed.len() <= usize::MAX
            &&& codec.funcs().spec_decode(finished.produced) == Some(finished.consumed)
            &&& one_call.0 > 0 ==> codec.funcs().spec_decode(one_call.1)
                == codec.funcs().spec_decode(finished.produced)
        }),
{
    let operation = SquashOperation::SQUASH_OPERATION_FINISH;
    let fresh = squash_stream_created(
        codec,
        options,
        SquashStreamType::SQUASH_STREAM_COMPRESS,
    )->0;
    crate::stream::lemma_stream_created(
        codec,
        options,
        SquashStreamType::SQUASH_STREAM_COMPRESS,
    );
    lemma_stream_run(codec, options, fresh, calls);
    let stream = squash_stream_run(codec, options, fresh, calls);
    lemma_stream_step(codec, options, stream, operation, input, room);
    lemma_stream_end(codec, options, stream, operation, input, room);
    let finished = squash_stream_step(codec, options, stream, operation, input, room).view;
    lemma_compressed(codec, finished.consumed, one_call_options);
}

impl<F: SquashCodecFuncs> SquashCodec<F> {
    /// Finishes `stream` on all of `input`, with room for `room` bytes.
    fn drive<'a>(stream: &mut SquashStream<'a, F>, input: &[u8], room: usize) -> (driven: (
        SquashStatus,
        Vec<u8>,
    ))
        requires
            old(stream).wf(),
        ensures
            driven.0 == squash_stream_drive(
                old(stream).codec(),
                old(stream).options(),
                old(stream)@,
                input@,
                room,
            ).0,
            driven.1@ == squash_stream_drive(
                old(stream).codec(),
                old(stream).options(),
                old(stream)@,
                input@,
                room,
            ).1,
            final(stream).wf(),
            final(stream).codec() == old(stream).codec(),
    {
        let ghost codec = stream.codec();
        let ghost options = stream.options();
        let ghost whole = squash_stream_drive(codec, options, stream@, input@, room);
        let size: usize = input.len();
        let mut written: Vec<u8> = Vec::new();
        let mut position: usize = 0;
        let mut left: usize = room;
        proof {
            assert(input@.subrange(0, size as int) =~= input@);
        }
        loop
            invariant
                stream.wf(),
                stream.codec() == codec,
                stream.options() == options,
                codec == old(stream).codec(),
                options == old(stream).options(),
                whole == squash_stream_drive(codec, options, old(stream)@, input@, room),
                size == input@.len(),
                position <= size,
                left <= room,
                ({
                    let rest = squash_stream_drive(
                        codec,
                        options,
                        stream@,
                        input@.subrange(position as int, size as int),
                        left,
                    );
                    &&& whole.0 == rest.0
                    &&& whole.1 == written@ + rest.1
                }),
            decreases size - position + left,
        {
            let ghost before = stream@;
            let ghost unread = input@.subrange(position as int, size as int);
            let mut window: Vec<u8> = squash_buffer_zeroed(left);
            let status: SquashStatus = stream.finish(
                &input[position..size],
                window.as_mut_slice(),
            );
            let taken: usize = stream.next_in();
            let given: usize = stream.next_out();
            proof {
                lemma_stream_step(
                    codec,
                    options,
                    before,
                    SquashOperation::SQUASH_OPERATION_FINISH,
                    unread,
                    left,
                );
            }
            squash_buffer_append(&mut written, window.as_slice(), given);
            if status == SQUASH_PROCESSING {
                if taken > 0 || given > 0 {
                    proof {
                        assert(unread.subrange(taken as int, unread.len() as int)
                            =~= input@.subrange(position + taken, size as int));
                    }
                    position = position + taken;
                    left = left - given;
                } else if left == 0 {
                    return (squash_error(SQUASH_BUFFER_FULL), written);
                } else {
                    return (squash_error(SQUASH_FAILED), written);
                }
            } else if status > 0 && taken < size - position {
                return (squash_error(SQUASH_FAILED), written);
            } else {
                return (status, written);
            }
        }
    }

    /// Turns all of `input` into its other form through a stream of the
    /// codec, with room for `room` bytes.
    fn run_through_stream(
        &self,
        stream_type: SquashStreamType,
        input: &[u8],
        room: usize,
        options: &SquashOptions,
    ) -> (driven: (SquashStatus, Vec<u8>))
        requires
            self.wf(),
        ensures
            driven.0 == self.through_stream(stream_type, input@, room, options).0,
            driven.1@ == self.through_stream(stream_type, input@, room, options).1,
    {
        match self {
            SquashCodec::ThreadWrapped(_) => {
                return (squash_error(SQUASH_INVALID_OPERATION), Vec::new());
            },
            _ => {},
        }
        match SquashStream::new(self, stream_type, options) {
            Some(stream) => {
                let mut stream = stream;
                let driven = SquashCodec::drive(&mut stream, input, room);
                let duty = stream.release();
                assert(duty is None);
                driven
            },
            None => (squash_error(SQUASH_FAILED), Vec::new()),
        }
    }

    /// Compresses a buffer.
    ///
    /// Returns the compressed bytes, which are never more than
    /// `get_max_compressed_size` tells for the size of `uncompressed` and
    /// which stand for `uncompressed` in the format of the codec; or the
    /// status of the failure.
    pub fn compress(&self, uncompressed: &[u8], options: &SquashOptions) -> (result: Result<
        Vec<u8>,
        SquashStatus,
    >)
        requires
            self.wf(),
        ensures
            match result {
                Ok(compressed) => {
                    &&& self.compressed(uncompressed@, options).0 > 0
                    &&& compressed@ == self.compressed(uncompressed@, options).1
                    &&& self.funcs().spec_decode(compressed@) == Some(uncompressed@)
                    &&& compressed@.len() <= self.funcs().spec_max_compressed_size(
                        uncompressed@.len() as usize,
                    )
                },
                Err(status) => status < 0 && status == self.compressed(uncompressed@, options).0,
            },
    {
        let size: usize = uncompressed.len();
        proof {
            lemma_compressed(self, uncompressed@, options);
        }
        let table = self.get_impl();
        let done: (SquashStatus, Vec<u8>) = if table.compress_buffer
            || table.compress_buffer_unsafe {
            self.run_one_shot(SquashStreamType::SQUASH_STREAM_COMPRESS, uncompressed, options)
        } else {
            let room: usize = self.get_max_compressed_size(size);
            self.run_through_stream(
                SquashStreamType::SQUASH_STREAM_COMPRESS,
                uncompressed,
                room,
                options,
            )
        };
        if done.0 > 0 {
            Ok(done.1)
        } else {
            Err(done.0)
        }
    }

    /// Decompresses a buffer.
    ///
    /// `expected` is the size of the decompressed data, or a bound on it, if
    /// the caller knows one. Without it the size is asked of the codec; a
    /// codec that cannot tell it is not run, and the call fails with
    /// `SQUASH_INVALID_OPERATION`.
    ///
    /// Returns the decompressed bytes, which are what `compressed` stands
    /// for in the format of the codec; or the status of the failure.
    pub fn decompress(
        &self,
        compressed: &[u8],
        options: &SquashOptions,
        expected: Option<usize>,
    ) -> (result: Result<Vec<u8>, SquashStatus>)
        requires
            self.wf(),
        ensures
            match result {
                Ok(decompressed) => {
                    &&& self.decompressed(compressed@, options, expected).0 > 0
                    &&& decompressed@ == self.decompressed(compressed@, options, expected).1
                    &&& self.funcs().spec_decode(compressed@) == Some(decompressed@)
                    &&& expected matches Some(size) ==> decompressed@.len() <= size
                },
                Err(status) => status < 0 && status == self.decompressed(
                    compressed@,
                    options,
                    expected,
                ).0,
            },
    {
        let _: usize = compressed.len();
        proof {
            lemma_decompressed(self, compressed@, options, expected);
        }
        let room: usize = match expected {
            Some(room) => room,
            None => match self.get_uncompressed_size(compressed) {
                Some(room) => room,
                None => {
                    return Err(squash_error(SQUASH_INVALID_OPERATION));
                },
            },
        };
        let done: (SquashStatus, Vec<u8>) = if self.get_impl().decompress_buffer {
            self.call_decompress(compressed, room, options)
        } else {
            self.run_through_stream(
                SquashStreamType::SQUASH_STREAM_DECOMPRESS,
                compressed,
                room,
                options,
            )
        };
        if done.0 > 0 {
            Ok(done.1)
        } else {
            Err(done.0)
        }
    }
}

} // verus!
