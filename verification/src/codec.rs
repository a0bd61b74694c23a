//! Codecs: what a codec declares of itself, the functions it provides, and
//! the descriptor that the engine keeps of it.
//!
//! A codec is written as an implementation of `SquashCodecFuncs`. Its
//! function table, a `SquashCodecImpl`, says which of the functions it
//! really provides and what it is capable of. From the two the engine makes
//! a `SquashCodec`: it checks that the table is enough to compress and to
//! decompress, sets the capability bits that follow from the table, and
//! settles the strategy by which streams of the codec run.

use vstd::prelude::*;
use crate::buffer::squash_buffer_zeroed;
use crate::option::{
    squash_option_schema_check, squash_option_schema_wf, SquashOptionInfo, SquashOptions,
};
use crate::status::{
    squash_error, squash_status_is_reply, SquashStatus, SQUASH_BUFFER_FULL,
    SQUASH_END_OF_STREAM, SQUASH_OK, SQUASH_PROCESSING, SQUASH_UNABLE_TO_LOAD,
};
use crate::stream::{squash_stream_created, SquashOperation, SquashStream, SquashStreamType};

verus! {

/// Information about a codec: a mask of independent bits.
pub type SquashCodecInfo = u32;

/// No bit: the mask of a codec that is not valid.
pub const SQUASH_CODEC_INFO_INVALID: SquashCodecInfo = 0;

/// Flushing is supported.
pub const SQUASH_CODEC_INFO_CAN_FLUSH: SquashCodecInfo = 0x1;

/// The incremental functions of the codec run to completion once started, so
/// they must execute on a worker, off the thread that drives the stream.
pub const SQUASH_CODEC_INFO_RUN_IN_THREAD: SquashCodecInfo = 0x2;

/// The codec is safe to use when decompressing data that is not trusted.
///
/// Safety is something a codec claims by setting this bit. Of a codec that
/// leaves it unset nothing is known, and no other bit says anything of safety.
pub const SQUASH_CODEC_INFO_DECOMPRESS_SAFE: SquashCodecInfo = 0x4;

/// The bits that the engine sets by itself, from the functions that the codec
/// provides. What a codec declares under this mask is ignored.
pub const SQUASH_CODEC_INFO_AUTO_MASK: SquashCodecInfo = 0x00ff0000;

/// The codec is valid.
pub const SQUASH_CODEC_INFO_VALID: SquashCodecInfo = 0x10000;

/// The compressed data tells the size of the uncompressed data without
/// having to be decompressed.
pub const SQUASH_CODEC_INFO_KNOWS_UNCOMPRESSED_SIZE: SquashCodecInfo = 0x20000;

/// The codec natively supports a streaming interface.
pub const SQUASH_CODEC_INFO_NATIVE_STREAMING: SquashCodecInfo = 0x40000;

/// Every bit.
pub const SQUASH_CODEC_INFO_MASK: SquashCodecInfo = 0xffffffff;

/// Whether `info` has the bit (or one of the bits) of `flag`.
pub open spec fn squash_codec_info_has(info: SquashCodecInfo, flag: SquashCodecInfo) -> bool {
    info & flag != 0
}

/// Whether `info` has the bit (or one of the bits) of `flag`.
pub fn squash_codec_info_test(info: SquashCodecInfo, flag: SquashCodecInfo) -> (set: bool)
    ensures
        set == squash_codec_info_has(info, flag),
{
    info & flag != 0
}

/// What one call of a buffer-to-buffer function of a codec gives.
pub ghost struct SquashBufferResult {
    /// The status that the call returns.
    pub status: SquashStatus,
    /// The bytes that the call writes, from the start of the output buffer.
    pub data: Seq<u8>,
}

/// What one call of the streaming function of a codec gives.
pub ghost struct SquashStreamResult<P> {
    /// The status that the call returns.
    pub status: SquashStatus,
    /// How many bytes the call takes from the front of the input window.
    pub consumed: usize,
    /// The bytes that the call writes, from the start of the output window.
    pub produced: Seq<u8>,
    /// The working data of the codec after the call.
    pub private: P,
}

/// The function table of a codec: what the codec declares of itself and which
/// functions it provides. A function that is not provided is no error: the
/// engine makes up for it with the functions that are.
pub struct SquashCodecImpl {
    /// Capability information that the codec declares.
    pub info: SquashCodecInfo,
    /// The options that may be passed to the codec.
    pub options: Vec<SquashOptionInfo>,
    /// Whether the codec can create the working data of a stream.
    pub create_stream: bool,
    /// Whether the codec can process a stream.
    pub process_stream: bool,
    /// Whether the codec can decompress a buffer in one call.
    pub decompress_buffer: bool,
    /// Whether the codec can compress a buffer in one call.
    pub compress_buffer: bool,
    /// Whether the codec can compress a buffer in one call into an output
    /// buffer that is known to be large enough.
    pub compress_buffer_unsafe: bool,
    /// Whether the codec can tell the uncompressed size of compressed data.
    pub get_uncompressed_size: bool,
    /// Whether the codec can tell the maximum compressed size.
    pub get_max_compressed_size: bool,
}

/// The functions of a codec.
///
/// Each executable function has a specification function of the same
/// arguments that names what it returns, so that the engine built on them can
/// be specified exactly. The proof functions are the laws that the engine
/// relies on; whoever implements a codec proves them of it.
///
/// The engine calls an executable function only if the function table of the
/// codec says that the function is provided.
pub trait SquashCodecFuncs: Sized {
    /// The working data that the codec keeps for one stream.
    type Private;

    /// The format of the codec: the data that `compressed` stands for, if it
    /// is a complete and well-formed compressed payload.
    spec fn spec_decode(&self, compressed: Seq<u8>) -> Option<Seq<u8>>;

    /// That the working data `private` of a stream of kind `stream_type` fits
    /// a stream that has taken `consumed` and given `produced` so far.
    spec fn spec_stream_inv(
        &self,
        private: Self::Private,
        stream_type: SquashStreamType,
        consumed: Seq<u8>,
        produced: Seq<u8>,
    ) -> bool;

    /// What `get_max_compressed_size` returns.
    spec fn spec_max_compressed_size(&self, uncompressed_size: usize) -> usize;

    /// What `get_uncompressed_size` returns.
    spec fn spec_uncompressed_size(&self, compressed: Seq<u8>) -> usize;

    /// What `compress_buffer` gives for an output buffer of `capacity` bytes.
    spec fn spec_compress_buffer(
        &self,
        uncompressed: Seq<u8>,
        capacity: usize,
        options: &SquashOptions,
    ) -> SquashBufferResult;

    /// What `compress_buffer_unsafe` gives for an output buffer of `capacity`
    /// bytes.
    spec fn spec_compress_buffer_unsafe(
        &self,
        uncompressed: Seq<u8>,
        capacity: usize,
        options: &SquashOptions,
    ) -> SquashBufferResult;

    /// What `decompress_buffer` gives for an output buffer of `capacity`
    /// bytes.
    spec fn spec_decompress_buffer(
        &self,
        compressed: Seq<u8>,
        capacity: usize,
        options: &SquashOptions,
    ) -> SquashBufferResult;

    /// What `create_stream` returns.
    spec fn spec_create_stream(
        &self,
        stream_type: SquashStreamType,
        options: &SquashOptions,
    ) -> Option<Self::Private>;

    /// What `process_stream` gives for an output window of `room` bytes.
    spec fn spec_process_stream(
        &self,
        private: Self::Private,
        stream_type: SquashStreamType,
        operation: SquashOperation,
        input: Seq<u8>,
        room: usize,
    ) -> SquashStreamResult<Self::Private>;

    /// Makes the codec ready for use, and gives its function table. When it
    /// fails, with whatever status, the codec cannot be used.
    fn init_codec(&self) -> (made: Result<SquashCodecImpl, SquashStatus>);

    /// The maximum buffer size necessary to hold the compressed form of
    /// `uncompressed_size` bytes.
    fn get_max_compressed_size(&self, uncompressed_size: usize) -> (size: usize)
        ensures
            size == self.spec_max_compressed_size(uncompressed_size),
    ;

    /// The size of the data that `compressed` stands for, or 0 if unknown.
    fn get_uncompressed_size(&self, compressed: &[u8]) -> (size: usize)
        ensures
            size == self.spec_uncompressed_size(compressed@),
    ;

    /// Compresses `uncompressed` into `compressed` in one call. Returns the
    /// status and, with `SQUASH_OK`, the number of bytes written.
    fn compress_buffer(
        &self,
        compressed: &mut [u8],
        uncompressed: &[u8],
        options: &SquashOptions,
    ) -> (result: (SquashStatus, usize))
        ensures
            final(compressed)@.len() == old(compressed)@.len(),
            squash_buffer_call_gives(
                self.spec_compress_buffer(
                    uncompressed@,
                    old(compressed)@.len() as usize,
                    options,
                ),
                result,
                final(compressed)@,
            ),
    ;

    /// Compresses `uncompressed` into `compressed` in one call, for a caller
    /// that has made `compressed` at least as long as the maximum compressed
    /// size of `uncompressed`.
    fn compress_buffer_unsafe(
        &self,
        compressed: &mut [u8],
        uncompressed: &[u8],
        options: &SquashOptions,
    ) -> (result: (SquashStatus, usize))
        requires
            old(compressed)@.len() >= self.spec_max_compressed_size(uncompressed@.len() as usize),
        ensures
            final(compressed)@.len() == old(compressed)@.len(),
            squash_buffer_call_gives(
                self.spec_compress_buffer_unsafe(
                    uncompressed@,
                    old(compressed)@.len() as usize,
                    options,
                ),
                result,
                final(compressed)@,
            ),
    ;

    /// Decompresses `compressed` into `decompressed` in one call. Returns the
    /// status and, with `SQUASH_OK`, the number of bytes written.
    fn decompress_buffer(
        &self,
        decompressed: &mut [u8],
        compressed: &[u8],
        options: &SquashOptions,
    ) -> (result: (SquashStatus, usize))
        ensures
            final(decompressed)@.len() == old(decompressed)@.len(),
            squash_buffer_call_gives(
                self.spec_decompress_buffer(
                    compressed@,
                    old(decompressed)@.len() as usize,
                    options,
                ),
                result,
                final(decompressed)@,
            ),
    ;

    /// Creates the working data of a new stream, or nothing on failure.
    fn create_stream(&self, stream_type: SquashStreamType, options: &SquashOptions) -> (private:
        Option<Self::Private>)
        ensures
            private == self.spec_create_stream(stream_type, options),
    ;

    /// Performs `operation` on a stream: takes bytes from the front of
    /// `input`, writes bytes from the start of `output`. Returns the status,
    /// the number of bytes taken and the number of bytes written.
    fn process_stream(
        &self,
        private: &mut Self::Private,
        stream_type: SquashStreamType,
        operation: SquashOperation,
        input: &[u8],
        output: &mut [u8],
    ) -> (result: (SquashStatus, usize, usize))
        ensures
            final(output)@.len() == old(output)@.len(),
            squash_stream_call_gives(
                self.spec_process_stream(
                    *old(private),
                    stream_type,
                    operation,
                    input@,
                    old(output)@.len() as usize,
                ),
                result,
                *final(private),
                final(output)@,
            ),
    ;

    /// A buffer-to-buffer function returns `SQUASH_OK` or a failure, and
    /// writes no more than the output buffer holds.
    proof fn law_buffer_results(&self, data: Seq<u8>, capacity: usize, options: &SquashOptions)
        ensures
            squash_buffer_result_fits(self.spec_compress_buffer(data, capacity, options), capacity),
            squash_buffer_result_fits(
                self.spec_compress_buffer_unsafe(data, capacity, options),
                capacity,
            ),
            squash_buffer_result_fits(
                self.spec_decompress_buffer(data, capacity, options),
                capacity,
            ),
    ;

    /// What a buffer-to-buffer function gives with `SQUASH_OK` is bound to
    /// its input by the format of the codec: compressed bytes stand for what
    /// was compressed, and decompressed bytes are what the input stands for.
    proof fn law_buffer_format(&self, data: Seq<u8>, capacity: usize, options: &SquashOptions)
        ensures
            self.spec_compress_buffer(data, capacity, options).status == SQUASH_OK
                ==> self.spec_decode(self.spec_compress_buffer(data, capacity, options).data)
                == Some(data),
            self.spec_compress_buffer_unsafe(data, capacity, options).status == SQUASH_OK
                ==> self.spec_decode(
                self.spec_compress_buffer_unsafe(data, capacity, options).data,
            ) == Some(data),
            self.spec_decompress_buffer(data, capacity, options).status == SQUASH_OK
                ==> self.spec_decode(data) == Some(
                self.spec_decompress_buffer(data, capacity, options).data,
            ),
    ;

    /// A size that the codec reads off compressed data is the size of the
    /// data that the compressed data stands for.
    proof fn law_uncompressed_size(&self, compressed: Seq<u8>)
        ensures
            self.spec_uncompressed_size(compressed) != 0 ==> (self.spec_decode(compressed)
                matches Some(data) ==> data.len() == self.spec_uncompressed_size(compressed)),
    ;

    /// The working data of a new stream fits a stream that has taken and
    /// given nothing.
    proof fn law_create_stream(&self, stream_type: SquashStreamType, options: &SquashOptions)
        ensures
            self.spec_create_stream(stream_type, options) matches Some(private)
                ==> self.spec_stream_inv(
                private,
                stream_type,
                Seq::<u8>::empty(),
                Seq::<u8>::empty(),
            ),
    ;

    /// The streaming function keeps to its windows and returns a status of
    /// progress or a failure; with `SQUASH_OK` it has taken the whole input
    /// window, and with `SQUASH_PROCESSING` it has filled the output
    /// window. While it reports progress the working data goes
    /// on fitting what the stream has taken and given. When a compressing
    /// stream finishes, all that it has given stands for all that it has
    /// taken; when a decompressing stream ends, all that it has given is what
    /// all that it has taken stands for.
    proof fn law_process_stream(
        &self,
        private: Self::Private,
        stream_type: SquashStreamType,
        operation: SquashOperation,
        input: Seq<u8>,
        room: usize,
        consumed: Seq<u8>,
        produced: Seq<u8>,
    )
        requires
            self.spec_stream_inv(private, stream_type, consumed, produced),
            operation != SquashOperation::SQUASH_OPERATION_TERMINATE,
        ensures
            squash_stream_result_fits(
                self.spec_process_stream(private, stream_type, operation, input, room),
                input,
                room,
            ),
            ({
                let result = self.spec_process_stream(private, stream_type, operation, input, room);
                let taken = consumed + input.subrange(0, result.consumed as int);
                let given = produced + result.produced;
                result.status > 0 ==> {
                    &&& result.status == SQUASH_OK ==> result.consumed == input.len()
                    &&& result.status == SQUASH_PROCESSING ==> result.produced.len() == room
                    &&& self.spec_stream_inv(result.private, stream_type, taken, given)
                    &&& stream_type == SquashStreamType::SQUASH_STREAM_COMPRESS ==> {
                        &&& result.status != SQUASH_END_OF_STREAM
                        &&& operation == SquashOperation::SQUASH_OPERATION_FINISH && result.status
                            == SQUASH_OK ==> self.spec_decode(given) == Some(taken)
                    }
                    &&& stream_type == SquashStreamType::SQUASH_STREAM_DECOMPRESS ==> (
                    result.status == SQUASH_END_OF_STREAM || (operation
                        == SquashOperation::SQUASH_OPERATION_FINISH && result.status == SQUASH_OK))
                        ==> self.spec_decode(taken) == Some(given)
                }
            }),
    ;
}

/// That `named` is a result that a buffer-to-buffer function may give for an
/// output buffer of `capacity` bytes.
pub open spec fn squash_buffer_result_fits(named: SquashBufferResult, capacity: usize) -> bool {
    &&& named.status == SQUASH_OK || named.status < 0
    &&& named.data.len() <= capacity
}

/// That a call of a buffer-to-buffer function which returned `result` and
/// left `output` in the output buffer gave `named`.
pub open spec fn squash_buffer_call_gives(
    named: SquashBufferResult,
    result: (SquashStatus, usize),
    output: Seq<u8>,
) -> bool {
    &&& result.0 == named.status
    &&& result.0 == SQUASH_OK ==> {
        &&& result.1 == named.data.len()
        &&& result.1 <= output.len()
        &&& output.subrange(0, result.1 as int) == named.data
    }
}

/// That `named` is a result that the streaming function may give for the
/// input window `input` and an output window of `room` bytes.
pub open spec fn squash_stream_result_fits<P>(
    named: SquashStreamResult<P>,
    input: Seq<u8>,
    room: usize,
) -> bool {
    &&& squash_status_is_reply(named.status)
    &&& named.consumed <= input.len()
    &&& named.produced.len() <= room
}

/// That a call of the streaming function which returned `result` and left
/// `private` and `output` behind gave `named`.
pub open spec fn squash_stream_call_gives<P>(
    named: SquashStreamResult<P>,
    result: (SquashStatus, usize, usize),
    private: P,
    output: Seq<u8>,
) -> bool {
    &&& result.0 == named.status
    &&& result.1 == named.consumed
    &&& result.2 == named.produced.len()
    &&& result.2 <= output.len()
    &&& output.subrange(0, result.2 as int) == named.produced
    &&& private == named.private
}

/// How the engine runs the streams of a codec.
pub ghost enum SquashStrategy {
    /// The streaming function of the codec is called as it is.
    NativeStreaming,
    /// The codec has no streaming function that can be used: a stream
    /// gathers all input and calls a buffer-to-buffer function once.
    BufferOnly,
    /// The streaming function of the codec runs on a worker.
    ThreadWrapped,
}

impl SquashCodecImpl {
    /// A function table that declares and provides nothing.
    pub fn new() -> (funcs: SquashCodecImpl)
        ensures
            funcs.info == SQUASH_CODEC_INFO_INVALID,
            funcs.options@.len() == 0,
            !funcs.create_stream,
            !funcs.process_stream,
            !funcs.decompress_buffer,
            !funcs.compress_buffer,
            !funcs.compress_buffer_unsafe,
            !funcs.get_uncompressed_size,
            !funcs.get_max_compressed_size,
    {
        SquashCodecImpl {
            info: SQUASH_CODEC_INFO_INVALID,
            options: Vec::new(),
            create_stream: false,
            process_stream: false,
            decompress_buffer: false,
            compress_buffer: false,
            compress_buffer_unsafe: false,
            get_uncompressed_size: false,
            get_max_compressed_size: false,
        }
    }

    /// Whether the codec can stream: it provides both streaming functions.
    pub open spec fn streams(&self) -> bool {
        self.create_stream && self.process_stream
    }

    /// Whether the codec can compress a buffer in one call.
    pub open spec fn compresses(&self) -> bool {
        self.compress_buffer || self.compress_buffer_unsafe
    }

    /// Whether a codec can be used through this table: it can tell the
    /// maximum compressed size, it can stream or both compress and
    /// decompress a buffer, and its option schema is well formed.
    pub open spec fn usable(&self) -> bool {
        &&& self.get_max_compressed_size
        &&& self.streams() || (self.compresses() && self.decompress_buffer)
        &&& squash_option_schema_wf(self.options@)
    }

    /// How the engine runs the streams of a codec with this table.
    pub open spec fn strategy(&self) -> SquashStrategy {
        if !self.streams() {
            SquashStrategy::BufferOnly
        } else if squash_codec_info_has(self.info, SQUASH_CODEC_INFO_RUN_IN_THREAD) {
            SquashStrategy::ThreadWrapped
        } else {
            SquashStrategy::NativeStreaming
        }
    }

    /// The bits under `SQUASH_CODEC_INFO_AUTO_MASK` that fit this table.
    pub open spec fn auto_info(&self) -> SquashCodecInfo {
        let size = if self.get_uncompressed_size {
            SQUASH_CODEC_INFO_KNOWS_UNCOMPRESSED_SIZE
        } else {
            SQUASH_CODEC_INFO_INVALID
        };
        let native = if self.strategy() is NativeStreaming {
            SQUASH_CODEC_INFO_NATIVE_STREAMING
        } else {
            SQUASH_CODEC_INFO_INVALID
        };
        SQUASH_CODEC_INFO_VALID | size | native
    }

    /// The mask of a usable codec with this table: what the codec declares
    /// outside `SQUASH_CODEC_INFO_AUTO_MASK`, and under it the bits that fit
    /// the table.
    pub open spec fn resolved_info(&self) -> SquashCodecInfo {
        (self.info & !SQUASH_CODEC_INFO_AUTO_MASK) | self.auto_info()
    }

    /// Whether the information in the table has been resolved.
    pub open spec fn resolved(&self) -> bool {
        self.info == self.resolved_info()
    }

    /// Whether the codec can stream.
    pub fn can_stream(&self) -> (streams: bool)
        ensures
            streams == self.streams(),
    {
        self.create_stream && self.process_stream
    }

    /// Whether a codec can be used through this table.
    pub fn is_usable(&self) -> (usable: bool)
        ensures
            usable == self.usable(),
    {
        let compresses: bool = self.compress_buffer || self.compress_buffer_unsafe;
        self.get_max_compressed_size && (self.can_stream() || (compresses
            && self.decompress_buffer)) && squash_option_schema_check(&self.options)
    }

    /// Whether the streaming function of a codec with this table runs on a
    /// worker.
    pub fn runs_in_thread(&self) -> (threaded: bool)
        ensures
            threaded == (self.strategy() is ThreadWrapped),
    {
        self.can_stream() && squash_codec_info_test(self.info, SQUASH_CODEC_INFO_RUN_IN_THREAD)
    }

    /// The mask of a usable codec with this table.
    pub fn resolve_info(&self) -> (info: SquashCodecInfo)
        ensures
            info == self.resolved_info(),
    {
        let native: bool = self.can_stream() && !self.runs_in_thread();
        let mut auto: SquashCodecInfo = SQUASH_CODEC_INFO_VALID;
        if self.get_uncompressed_size {
            auto = auto | SQUASH_CODEC_INFO_KNOWS_UNCOMPRESSED_SIZE;
        }
        if native {
            auto = auto | SQUASH_CODEC_INFO_NATIVE_STREAMING;
        }
        proof {
            lemma_info_zero();
        }
        (self.info & !SQUASH_CODEC_INFO_AUTO_MASK) | auto
    }
}

/// What the engine keeps of a codec.
pub struct SquashCodecRecord<F> {
    name: String,
    extension: Option<String>,
    priority: u32,
    table: SquashCodecImpl,
    funcs: F,
}

/// A compression/decompression codec: its name, its file-extension hint, its
/// priority among the codecs of the same name, its function table and its
/// functions, under the strategy by which the engine runs its streams.
/// A codec is made once and never changes.
pub enum SquashCodec<F: SquashCodecFuncs> {
    /// A codec whose streaming function is called as it is.
    NativeStreaming(SquashCodecRecord<F>),
    /// A codec without a streaming function that can be used.
    BufferOnly(SquashCodecRecord<F>),
    /// A codec whose streaming function runs on a worker.
    ThreadWrapped(SquashCodecRecord<F>),
}

impl<F: SquashCodecFuncs> SquashCodec<F> {
    /// What the engine keeps of the codec.
    pub open spec fn record(&self) -> SquashCodecRecord<F> {
        match *self {
            SquashCodec::NativeStreaming(record) => record,
            SquashCodec::BufferOnly(record) => record,
            SquashCodec::ThreadWrapped(record) => record,
        }
    }

    /// The strategy that the codec stands under.
    pub open spec fn strategy(&self) -> SquashStrategy {
        match *self {
            SquashCodec::NativeStreaming(_) => SquashStrategy::NativeStreaming,
            SquashCodec::BufferOnly(_) => SquashStrategy::BufferOnly,
            SquashCodec::ThreadWrapped(_) => SquashStrategy::ThreadWrapped,
        }
    }

    /// The name of the codec.
    pub closed spec fn name(&self) -> Seq<char> {
        self.record().name@
    }

    /// The file-extension hint of the codec, if it has one.
    pub closed spec fn extension(&self) -> Option<Seq<char>> {
        match self.record().extension {
            Some(extension) => Some(extension@),
            None => None,
        }
    }

    /// The priority of the codec.
    pub closed spec fn priority(&self) -> u32 {
        self.record().priority
    }

    /// The function table of the codec.
    pub closed spec fn table(&self) -> SquashCodecImpl {
        self.record().table
    }

    /// The functions of the codec.
    pub closed spec fn funcs(&self) -> F {
        self.record().funcs
    }

    /// The capability mask of the codec.
    pub open spec fn info(&self) -> SquashCodecInfo {
        self.table().info
    }

    /// Whether the codec can flush.
    pub open spec fn can_flush(&self) -> bool {
        squash_codec_info_has(self.info(), SQUASH_CODEC_INFO_CAN_FLUSH)
    }

    /// Whether the codec is well formed: its table is usable, the
    /// information in it has been resolved, and the codec stands under the
    /// strategy that fits the table. Every codec that `new` or `load` makes
    /// is well formed.
    pub open spec fn wf(&self) -> bool {
        &&& self.table().usable()
        &&& self.table().resolved()
        &&& self.strategy() == self.table().strategy()
    }

    /// Makes a codec from a function table that has been filled in.
    ///
    /// Fails with `SQUASH_UNABLE_TO_LOAD` if the table is not usable. In the
    /// codec the information of the table is resolved.
    pub fn new(name: &str, extension: Option<&str>, priority: u32, table: SquashCodecImpl, funcs: F)
        -> (made: Result<SquashCodec<F>, SquashStatus>)
        ensures
            made is Ok <==> table.usable(),
            made matches Ok(codec) ==> {
                &&& codec.wf()
                &&& codec.name() == name@
                &&& codec.extension() == match extension {
                    Some(extension) => Some(extension@),
                    None => None,
                }
                &&& codec.priority() == priority
                &&& codec.funcs() == funcs
                &&& codec.table() == (SquashCodecImpl { info: table.resolved_info(), ..table })
            },
            made matches Err(status) ==> status == SQUASH_UNABLE_TO_LOAD,
    {
        if !table.is_usable() {
            return Err(squash_error(SQUASH_UNABLE_TO_LOAD));
        }
        let streams: bool = table.can_stream();
        let threaded: bool = table.runs_in_thread();
        let info: SquashCodecInfo = table.resolve_info();
        proof {
            lemma_info_declared(table);
        }
        let record = SquashCodecRecord {
            name: name.to_owned(),
            extension: match extension {
                Some(extension) => Some(extension.to_owned()),
                None => None,
            },
            priority,
            table: SquashCodecImpl { info, ..table },
            funcs,
        };
        if !streams {
            Ok(SquashCodec::BufferOnly(record))
        } else if threaded {
            Ok(SquashCodec::ThreadWrapped(record))
        } else {
            Ok(SquashCodec::NativeStreaming(record))
        }
    }

    /// Whether the codec is well formed. A codec is, unless its record has
    /// been put under another strategy by hand.
    pub fn check(&self) -> (valid: bool)
        ensures
            valid == self.wf(),
    {
        let table = self.get_impl();
        if !table.is_usable() || table.info != table.resolve_info() {
            return false;
        }
        match self {
            SquashCodec::NativeStreaming(_) => table.can_stream() && !table.runs_in_thread(),
            SquashCodec::BufferOnly(_) => !table.can_stream(),
            SquashCodec::ThreadWrapped(_) => table.runs_in_thread(),
        }
    }

    /// Creates a new stream of the codec with `options`, or nothing if the
    /// codec fails to create its working data.
    pub fn create_stream_with_options<'a>(
        &'a self,
        stream_type: SquashStreamType,
        options: &'a SquashOptions<'a>,
    ) -> (created: Option<SquashStream<'a, F>>)
        requires
            self.wf(),
        ensures
            match created {
                Some(stream) => {
                    &&& squash_stream_created(self, options, stream_type) == Some(stream@)
                    &&& stream.codec() == self
                    &&& stream.options() == options
                    &&& stream.wf()
                },
                None => squash_stream_created(self, options, stream_type) is None,
            },
    {
        SquashStream::new(self, stream_type, options)
    }

    /// Whether `made` is what making a codec gives when `init_codec` of its
    /// functions has given `table`.
    ///
    /// If `init_codec` fails, the codec cannot be made, and the failure is
    /// that of `init_codec`. If the table that `init_codec` gives is not
    /// usable, the failure is `SQUASH_UNABLE_TO_LOAD`. Otherwise the codec
    /// is made: it is well formed, it has the name, the extension, the
    /// priority and the functions that it was made with, and its table is
    /// the one that `init_codec` gave, with the information resolved.
    pub open spec fn loaded(
        made: Result<SquashCodec<F>, SquashStatus>,
        name: Seq<char>,
        extension: Option<Seq<char>>,
        priority: u32,
        funcs: F,
        table: Result<SquashCodecImpl, SquashStatus>,
    ) -> bool {
        match table {
            Ok(table) => if table.usable() {
                &&& made matches Ok(codec)
                &&& codec.wf()
                &&& codec.name() == name
                &&& codec.extension() == extension
                &&& codec.priority() == priority
                &&& codec.funcs() == funcs
                &&& codec.table() == (SquashCodecImpl { info: table.resolved_info(), ..table })
            } else {
                made == Err::<SquashCodec<F>, SquashStatus>(SQUASH_UNABLE_TO_LOAD)
            },
            Err(status) => made == Err::<SquashCodec<F>, SquashStatus>(status),
        }
    }

    /// Makes a codec from its functions: has them give their function
    /// table, and makes the codec from the table.
    ///
    /// Fails with the status of `init_codec` if that fails, and with
    /// `SQUASH_UNABLE_TO_LOAD` if the table is not usable.
    pub fn load(name: &str, extension: Option<&str>, priority: u32, funcs: F) -> (made: Result<
        SquashCodec<F>,
        SquashStatus,
    >)
        ensures
            exists|table: Result<SquashCodecImpl, SquashStatus>|
                #[trigger] F::init_codec.ensures((&funcs,), table) && SquashCodec::loaded(
                    made,
                    name@,
                    match extension {
                        Some(extension) => Some(extension@),
                        None => None,
                    },
                    priority,
                    funcs,
                    table,
                ),
    {
        match funcs.init_codec() {
            Ok(table) => SquashCodec::new(name, extension, priority, table, funcs),
            Err(status) => Err(status),
        }
    }

    /// What the engine keeps of the codec.
    fn get_record(&self) -> (record: &SquashCodecRecord<F>)
        ensures
            *record == self.record(),
    {
        match self {
            SquashCodec::NativeStreaming(record) => record,
            SquashCodec::BufferOnly(record) => record,
            SquashCodec::ThreadWrapped(record) => record,
        }
    }

    /// The name of the codec.
    pub fn get_name(&self) -> (name: &str)
        ensures
            name@ == self.name(),
    {
        self.get_record().name.as_str()
    }

    /// The priority of the codec.
    pub fn get_priority(&self) -> (priority: u32)
        ensures
            priority == self.priority(),
    {
        self.get_record().priority
    }

    /// The extension of the codec, or nothing if none is known.
    pub fn get_extension(&self) -> (extension: Option<&str>)
        ensures
            self.extension() == match extension {
                Some(extension) => Some(extension@),
                None => None,
            },
    {
        match &self.get_record().extension {
            Some(extension) => Some(extension.as_str()),
            None => None,
        }
    }

    /// The capability mask of the codec.
    pub fn get_info(&self) -> (info: SquashCodecInfo)
        ensures
            info == self.info(),
    {
        self.get_record().table.info
    }

    /// The options that may be passed to the codec.
    pub fn get_option_info(&self) -> (schema: &Vec<SquashOptionInfo>)
        ensures
            *schema == self.table().options,
    {
        &self.get_record().table.options
    }

    /// The function table of the codec.
    pub fn get_impl(&self) -> (table: &SquashCodecImpl)
        ensures
            *table == self.table(),
    {
        &self.get_record().table
    }

    /// The functions of the codec.
    pub fn get_funcs(&self) -> (funcs: &F)
        ensures
            *funcs == self.funcs(),
    {
        &self.get_record().funcs
    }

    /// The maximum buffer size necessary to hold the compressed form of
    /// `uncompressed_size` bytes.
    pub fn get_max_compressed_size(&self, uncompressed_size: usize) -> (size: usize)
        requires
            self.wf(),
        ensures
            size == self.funcs().spec_max_compressed_size(uncompressed_size),
    {
        self.get_record().funcs.get_max_compressed_size(uncompressed_size)
    }

    /// The size of the data that `compressed` stands for, where the codec
    /// can read it off the compressed data.
    pub open spec fn uncompressed_size(&self, compressed: Seq<u8>) -> Option<usize> {
        if self.table().get_uncompressed_size && self.funcs().spec_uncompressed_size(compressed)
            != 0 {
            Some(self.funcs().spec_uncompressed_size(compressed))
        } else {
            None
        }
    }

    /// The size of the data that `compressed` stands for, or nothing if it is
    /// unknown: the codec does not read sizes off compressed data, or cannot
    /// tell the size of this data.
    pub fn get_uncompressed_size(&self, compressed: &[u8]) -> (size: Option<usize>)
        requires
            self.wf(),
        ensures
            size == self.uncompressed_size(compressed@),
            size is Some ==> squash_codec_info_has(
                self.info(),
                SQUASH_CODEC_INFO_KNOWS_UNCOMPRESSED_SIZE,
            ),
    {
        let record = self.get_record();
        if !record.table.get_uncompressed_size {
            return None;
        }
        proof {
            lemma_info_bits(self.table());
        }
        let size: usize = record.funcs.get_uncompressed_size(compressed);
        if size == 0 {
            None
        } else {
            Some(size)
        }
    }
}

/// Setting no bit changes no mask.
proof fn lemma_info_zero()
    ensures
        forall|info: SquashCodecInfo| #[trigger] (info | SQUASH_CODEC_INFO_INVALID) == info,
{
    assert(forall|info: u32| #[trigger] (info | 0u32) == info) by (bit_vector);
}

/// Resolving a mask leaves what the codec declares as it is: each of the
/// bits outside `SQUASH_CODEC_INFO_AUTO_MASK` can be tested by itself, and
/// is set in the resolved mask exactly if the codec has set it.
pub proof fn lemma_info_declared(table: SquashCodecImpl)
    ensures
        squash_codec_info_has(table.resolved_info(), SQUASH_CODEC_INFO_CAN_FLUSH)
            == squash_codec_info_has(table.info, SQUASH_CODEC_INFO_CAN_FLUSH),
        squash_codec_info_has(table.resolved_info(), SQUASH_CODEC_INFO_RUN_IN_THREAD)
            == squash_codec_info_has(table.info, SQUASH_CODEC_INFO_RUN_IN_THREAD),
        squash_codec_info_has(table.resolved_info(), SQUASH_CODEC_INFO_DECOMPRESS_SAFE)
            == squash_codec_info_has(table.info, SQUASH_CODEC_INFO_DECOMPRESS_SAFE),
        (SquashCodecImpl { info: table.resolved_info(), ..table }).strategy() == table.strategy(),
        (SquashCodecImpl { info: table.resolved_info(), ..table }).resolved(),
{
    assert(forall|d: u32, s: u32, n: u32|
        (s == 0 || s == 0x20000) && (n == 0 || n == 0x40000) ==> {
            let info = #[trigger] ((d & !0x00ff0000u32) | (0x10000u32 | s | n));
            &&& (info & 0x1 != 0) == (d & 0x1 != 0)
            &&& (info & 0x2 != 0) == (d & 0x2 != 0)
            &&& (info & 0x4 != 0) == (d & 0x4 != 0)
            &&& (info & !0x00ff0000u32) | (0x10000u32 | s | n) == info
        }) by (bit_vector);
}

/// In a resolved mask the bits under `SQUASH_CODEC_INFO_AUTO_MASK` say what
/// the table provides.
pub proof fn lemma_info_bits(table: SquashCodecImpl)
    requires
        table.resolved(),
    ensures
        squash_codec_info_has(table.info, SQUASH_CODEC_INFO_VALID),
        squash_codec_info_has(table.info, SQUASH_CODEC_INFO_KNOWS_UNCOMPRESSED_SIZE)
            == table.get_uncompressed_size,
        squash_codec_info_has(table.info, SQUASH_CODEC_INFO_NATIVE_STREAMING)
            == table.strategy() is NativeStreaming,
{
    let d: u32 = table.info;
    assert(forall|d: u32, s: u32, n: u32|
        (s == 0 || s == 0x20000) && (n == 0 || n == 0x40000) ==> {
            let info = #[trigger] ((d & !0x00ff0000u32) | (0x10000u32 | s | n));
            &&& info & 0x10000 != 0
            &&& (info & 0x20000 != 0) == (s != 0)
            &&& (info & 0x40000 != 0) == (n != 0)
        }) by (bit_vector);
}

/// The size of the first output buffer that is tried when data of unknown
/// size is decompressed in one call.
pub const SQUASH_BUFFER_FIRST_GUESS: usize = 4096;

/// What decompressing `compressed` in one call gives when the size of the
/// result is unknown: the output buffer starts at `capacity` bytes and
/// doubles for as long as the codec reports that it is full.
pub open spec fn squash_decompress_growing<F: SquashCodecFuncs>(
    funcs: F,
    compressed: Seq<u8>,
    capacity: usize,
    options: &SquashOptions,
) -> SquashBufferResult
    decreases usize::MAX - capacity,
{
    let result = funcs.spec_decompress_buffer(compressed, capacity, options);
    if result.status == SQUASH_BUFFER_FULL && 0 < capacity <= usize::MAX / 2 {
        squash_decompress_growing(funcs, compressed, (2 * capacity) as usize, options)
    } else {
        result
    }
}

/// What `squash_decompress_growing` gives fits some output buffer, and with
/// `SQUASH_OK` it is what the compressed data stands for.
pub proof fn lemma_decompress_growing<F: SquashCodecFuncs>(
    funcs: F,
    compressed: Seq<u8>,
    capacity: usize,
    options: &SquashOptions,
)
    ensures
        ({
            let result = squash_decompress_growing(funcs, compressed, capacity, options);
            &&& result.status == SQUASH_OK || result.status < 0
            &&& result.data.len() <= usize::MAX
            &&& result.status == SQUASH_OK ==> funcs.spec_decode(compressed) == Some(result.data)
        }),
    decreases usize::MAX - capacity,
{
    let result = funcs.spec_decompress_buffer(compressed, capacity, options);
    funcs.law_buffer_results(compressed, capacity, options);
    funcs.law_buffer_format(compressed, capacity, options);
    if result.status == SQUASH_BUFFER_FULL && 0 < capacity <= usize::MAX / 2 {
        lemma_decompress_growing(funcs, compressed, (2 * capacity) as usize, options);
    }
}

impl<F: SquashCodecFuncs> SquashCodec<F> {
    /// What compressing `uncompressed` with one call of a buffer-to-buffer
    /// function of the codec gives. The output buffer has the maximum
    /// compressed size, and the function that relies on that is preferred.
    pub open spec fn compress_once(
        &self,
        uncompressed: Seq<u8>,
        options: &SquashOptions,
    ) -> SquashBufferResult {
        let capacity = self.funcs().spec_max_compressed_size(uncompressed.len() as usize);
        if self.table().compress_buffer_unsafe {
            self.funcs().spec_compress_buffer_unsafe(uncompressed, capacity, options)
        } else {
            self.funcs().spec_compress_buffer(uncompressed, capacity, options)
        }
    }

    /// What decompressing `compressed` with the buffer-to-buffer function of
    /// the codec gives when the caller does not know the size of the result:
    /// one call with the size that the codec reads off the compressed data,
    /// or else calls with a growing output buffer.
    pub open spec fn decompress_once(
        &self,
        compressed: Seq<u8>,
        options: &SquashOptions,
    ) -> SquashBufferResult {
        match self.uncompressed_size(compressed) {
            Some(size) => self.funcs().spec_decompress_buffer(compressed, size, options),
            None => squash_decompress_growing(
                self.funcs(),
                compressed,
                SQUASH_BUFFER_FIRST_GUESS,
                options,
            ),
        }
    }

    /// What turning all of `data` into its other form with the
    /// buffer-to-buffer functions of the codec gives.
    pub open spec fn one_shot(
        &self,
        stream_type: SquashStreamType,
        data: Seq<u8>,
        options: &SquashOptions,
    ) -> SquashBufferResult {
        match stream_type {
            SquashStreamType::SQUASH_STREAM_COMPRESS => self.compress_once(data, options),
            SquashStreamType::SQUASH_STREAM_DECOMPRESS => self.decompress_once(data, options),
        }
    }

    /// Calls a buffer-to-buffer function of the codec once, on an output
    /// buffer of `capacity` bytes that it makes, and cuts the buffer down to
    /// what was written.
    fn call_buffer(
        &self,
        stream_type: SquashStreamType,
        careful: bool,
        data: &[u8],
        capacity: usize,
        options: &SquashOptions,
    ) -> (result: (SquashStatus, Vec<u8>))
        requires
            stream_type is SQUASH_STREAM_COMPRESS && !careful ==> capacity
                >= self.funcs().spec_max_compressed_size(data@.len() as usize),
        ensures
            ({
                let named = match stream_type {
                    SquashStreamType::SQUASH_STREAM_COMPRESS => if careful {
                        self.funcs().spec_compress_buffer(data@, capacity, options)
                    } else {
                        self.funcs().spec_compress_buffer_unsafe(data@, capacity, options)
                    },
                    SquashStreamType::SQUASH_STREAM_DECOMPRESS => {
                        self.funcs().spec_decompress_buffer(data@, capacity, options)
                    },
                };
                &&& result.0 == named.status
                &&& result.0 == SQUASH_OK ==> result.1@ == named.data
                &&& result.0 == SQUASH_OK || result.0 < 0
            }),
    {
        let funcs = self.get_funcs();
        let mut buffer: Vec<u8> = squash_buffer_zeroed(capacity);
        proof {
            funcs.law_buffer_results(data@, capacity, options);
        }
        let outcome: (SquashStatus, usize) = match stream_type {
            SquashStreamType::SQUASH_STREAM_COMPRESS => {
                if careful {
                    funcs.compress_buffer(buffer.as_mut_slice(), data, options)
                } else {
                    funcs.compress_buffer_unsafe(buffer.as_mut_slice(), data, options)
                }
            },
            SquashStreamType::SQUASH_STREAM_DECOMPRESS => {
                funcs.decompress_buffer(buffer.as_mut_slice(), data, options)
            },
        };
        if outcome.0 == SQUASH_OK {
            buffer.truncate(outcome.1);
        }
        (outcome.0, buffer)
    }

    /// Decompresses `compressed` with one call of the buffer-to-buffer
    /// function of the codec, on an output buffer of `capacity` bytes.
    pub(crate) fn call_decompress(
        &self,
        compressed: &[u8],
        capacity: usize,
        options: &SquashOptions,
    ) -> (result: (SquashStatus, Vec<u8>))
        ensures
            result.0 == self.funcs().spec_decompress_buffer(compressed@, capacity, options).status,
            result.0 == SQUASH_OK ==> result.1@ == self.funcs().spec_decompress_buffer(
                compressed@,
                capacity,
                options,
            ).data,
            result.0 == SQUASH_OK || result.0 < 0,
    {
        self.call_buffer(
            SquashStreamType::SQUASH_STREAM_DECOMPRESS,
            true,
            compressed,
            capacity,
            options,
        )
    }

    /// Turns all of `data` into its other form with the buffer-to-buffer
    /// functions of the codec.
    pub(crate) fn run_one_shot(
        &self,
        stream_type: SquashStreamType,
        data: &[u8],
        options: &SquashOptions,
    ) -> (result: (SquashStatus, Vec<u8>))
        requires
            self.wf(),
            stream_type is SQUASH_STREAM_COMPRESS ==> self.table().compresses(),
            stream_type is SQUASH_STREAM_DECOMPRESS ==> self.table().decompress_buffer,
        ensures
            result.0 == self.one_shot(stream_type, data@, options).status,
            result.0 == SQUASH_OK ==> result.1@ == self.one_shot(stream_type, data@, options).data,
            result.0 == SQUASH_OK || result.0 < 0,
    {
        match stream_type {
            SquashStreamType::SQUASH_STREAM_COMPRESS => {
                let capacity: usize = self.get_max_compressed_size(data.len());
                let careful: bool = !self.get_impl().compress_buffer_unsafe;
                self.call_buffer(stream_type, careful, data, capacity, options)
            },
            SquashStreamType::SQUASH_STREAM_DECOMPRESS => {
                match self.get_uncompressed_size(data) {
                    Some(size) => self.call_buffer(stream_type, true, data, size, options),
                    None => {
                        let mut capacity: usize = SQUASH_BUFFER_FIRST_GUESS;
                        loop
                            invariant
                                squash_decompress_growing(self.funcs(), data@, capacity, options)
                                    == squash_decompress_growing(
                                    self.funcs(),
                                    data@,
                                    SQUASH_BUFFER_FIRST_GUESS,
                                    options,
                                ),
                                self.uncompressed_size(data@) is None,
                                stream_type is SQUASH_STREAM_DECOMPRESS,
                            decreases usize::MAX - capacity,
                        {
                            let result = self.call_decompress(data, capacity, options);
                            if result.0 == SQUASH_BUFFER_FULL && 0 < capacity && capacity
                                <= usize::MAX / 2 {
                                capacity = 2 * capacity;
                            } else {
                                return result;
                            }
                        }
                    },
                }
            },
        }
    }
}

/// What `one_shot` gives is `SQUASH_OK` or a failure, fits a buffer, and
/// with `SQUASH_OK` is bound to the data by the format of the codec.
pub proof fn lemma_one_shot<F: SquashCodecFuncs>(
    codec: &SquashCodec<F>,
    stream_type: SquashStreamType,
    data: Seq<u8>,
    options: &SquashOptions,
)
    requires
        data.len() <= usize::MAX,
    ensures
        ({
            let result = codec.one_shot(stream_type, data, options);
            &&& result.status == SQUASH_OK || result.status < 0
            &&& result.data.len() <= usize::MAX
            &&& result.status == SQUASH_OK ==> match stream_type {
                SquashStreamType::SQUASH_STREAM_COMPRESS => {
                    &&& codec.funcs().spec_decode(result.data) == Some(data)
                    &&& result.data.len() <= codec.funcs().spec_max_compressed_size(
                        data.len() as usize,
                    )
                },
                SquashStreamType::SQUASH_STREAM_DECOMPRESS => codec.funcs().spec_decode(data)
                    == Some(result.data),
            }
        }),
{
    let funcs = codec.funcs();
    match stream_type {
        SquashStreamType::SQUASH_STREAM_COMPRESS => {
            let capacity = funcs.spec_max_compressed_size(data.len() as usize);
            funcs.law_buffer_results(data, capacity, options);
            funcs.law_buffer_format(data, capacity, options);
        },
        SquashStreamType::SQUASH_STREAM_DECOMPRESS => {
            match codec.uncompressed_size(data) {
                Some(size) => {
                    funcs.law_buffer_results(data, size, options);
                    funcs.law_buffer_format(data, size, options);
                },
                None => {
                    lemma_decompress_growing(funcs, data, SQUASH_BUFFER_FIRST_GUESS, options);
                },
            }
        },
    }
}

} // verus!
