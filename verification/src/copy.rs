//! The `copy` codec: the identity. Compressed data is the data itself.

use vstd::prelude::*;
use crate::buffer::{squash_buffer_copy, squash_min};
use crate::codec::{
    lemma_info_declared, SquashBufferResult, SquashCodec, SquashCodecFuncs, SquashCodecImpl,
    SquashStreamResult, SQUASH_CODEC_INFO_CAN_FLUSH, SQUASH_CODEC_INFO_DECOMPRESS_SAFE,
    SQUASH_CODEC_INFO_RUN_IN_THREAD,
};
use crate::option::{squash_option_schema_wf, SquashOptions};
use crate::status::{SquashStatus, SQUASH_BUFFER_FULL, SQUASH_OK, SQUASH_PROCESSING};
use crate::stream::{SquashOperation, SquashStreamType};

verus! {

/// The functions of the `copy` codec.
pub struct SquashCopy {}

/// What the `copy` codec declares of itself: it can flush, and it is safe on
/// data that is not trusted.
pub const SQUASH_COPY_INFO: u32 = 0x5;

/// Whether `table` is the function table of the `copy` codec: the codec has
/// no options, and provides every function but the one that compresses into
/// a buffer without looking at its size.
pub open spec fn squash_copy_table(table: SquashCodecImpl) -> bool {
    &&& table.info == SQUASH_COPY_INFO
    &&& table.options@.len() == 0
    &&& table.create_stream
    &&& table.process_stream
    &&& table.decompress_buffer
    &&& table.compress_buffer
    &&& !table.compress_buffer_unsafe
    &&& table.get_uncompressed_size
    &&& table.get_max_compressed_size
}

/// What a buffer-to-buffer function of the `copy` codec gives.
pub open spec fn squash_copy_buffer(data: Seq<u8>, capacity: usize) -> SquashBufferResult {
    if data.len() <= capacity {
        SquashBufferResult { status: SQUASH_OK, data }
    } else {
        SquashBufferResult { status: SQUASH_BUFFER_FULL, data: Seq::empty() }
    }
}

impl SquashCopy {
    /// The `copy` codec.
    pub fn new() -> (copy: SquashCopy) {
        SquashCopy {  }
    }

    /// Copies `source` to the front of `target` if it fits.
    fn copy_buffer(target: &mut [u8], source: &[u8]) -> (result: (SquashStatus, usize))
        ensures
            final(target)@.len() == old(target)@.len(),
            crate::codec::squash_buffer_call_gives(
                squash_copy_buffer(source@, old(target)@.len() as usize),
                result,
                final(target)@,
            ),
    {
        let size: usize = source.len();
        if size > target.len() {
            return (SQUASH_BUFFER_FULL, 0);
        }
        squash_buffer_copy(target, source, 0, size);
        proof {
            assert(source@.subrange(0, size as int) =~= source@);
        }
        (SQUASH_OK, size)
    }
}

impl SquashCodecFuncs for SquashCopy {
    type Private = ();

    open spec fn spec_decode(&self, compressed: Seq<u8>) -> Option<Seq<u8>> {
        Some(compressed)
    }

    open spec fn spec_stream_inv(
        &self,
        private: (),
        stream_type: SquashStreamType,
        consumed: Seq<u8>,
        produced: Seq<u8>,
    ) -> bool {
        produced == consumed
    }

    open spec fn spec_max_compressed_size(&self, uncompressed_size: usize) -> usize {
        uncompressed_size
    }

    open spec fn spec_uncompressed_size(&self, compressed: Seq<u8>) -> usize {
        if compressed.len() <= usize::MAX {
            compressed.len() as usize
        } else {
            0
        }
    }

    open spec fn spec_compress_buffer(
        &self,
        uncompressed: Seq<u8>,
        capacity: usize,
        options: &SquashOptions,
    ) -> SquashBufferResult {
        squash_copy_buffer(uncompressed, capacity)
    }

    open spec fn spec_compress_buffer_unsafe(
        &self,
        uncompressed: Seq<u8>,
        capacity: usize,
        options: &SquashOptions,
    ) -> SquashBufferResult {
        squash_copy_buffer(uncompressed, capacity)
    }

    open spec fn spec_decompress_buffer(
        &self,
        compressed: Seq<u8>,
        capacity: usize,
        options: &SquashOptions,
    ) -> SquashBufferResult {
        squash_copy_buffer(compressed, capacity)
    }

    open spec fn spec_create_stream(
        &self,
        stream_type: SquashStreamType,
        options: &SquashOptions,
    ) -> Option<()> {
        Some(())
    }

    open spec fn spec_process_stream(
        &self,
        private: (),
        stream_type: SquashStreamType,
        operation: SquashOperation,
        input: Seq<u8>,
        room: usize,
    ) -> SquashStreamResult<()> {
        let count = squash_min(input.len() as int, room as int);
        SquashStreamResult {
            status: if count < input.len() {
                SQUASH_PROCESSING
            } else {
                SQUASH_OK
            },
            consumed: count as usize,
            produced: input.subrange(0, count),
            private: (),
        }
    }

    fn init_codec(&self) -> (made: Result<SquashCodecImpl, SquashStatus>)
        ensures
            made matches Ok(table) && squash_copy_table(table),
    {
        assert(SQUASH_CODEC_INFO_CAN_FLUSH | SQUASH_CODEC_INFO_DECOMPRESS_SAFE == SQUASH_COPY_INFO)
            by (bit_vector);
        Ok(
            SquashCodecImpl {
                info: SQUASH_CODEC_INFO_CAN_FLUSH | SQUASH_CODEC_INFO_DECOMPRESS_SAFE,
                options: Vec::new(),
                create_stream: true,
                process_stream: true,
                decompress_buffer: true,
                compress_buffer: true,
                compress_buffer_unsafe: false,
                get_uncompressed_size: true,
                get_max_compressed_size: true,
            },
        )
    }

    fn get_max_compressed_size(&self, uncompressed_size: usize) -> (size: usize) {
        uncompressed_size
    }

    fn get_uncompressed_size(&self, compressed: &[u8]) -> (size: usize) {
        compressed.len()
    }

    fn compress_buffer(
        &self,
        compressed: &mut [u8],
        uncompressed: &[u8],
        _options: &SquashOptions,
    ) -> (result: (SquashStatus, usize)) {
        SquashCopy::copy_buffer(compressed, uncompressed)
    }

    fn compress_buffer_unsafe(
        &self,
        compressed: &mut [u8],
        uncompressed: &[u8],
        _options: &SquashOptions,
    ) -> (result: (SquashStatus, usize)) {
        SquashCopy::copy_buffer(compressed, uncompressed)
    }

    fn decompress_buffer(
        &self,
        decompressed: &mut [u8],
        compressed: &[u8],
        _options: &SquashOptions,
    ) -> (result: (SquashStatus, usize)) {
        SquashCopy::copy_buffer(decompressed, compressed)
    }

    fn create_stream(&self, _stream_type: SquashStreamType, _options: &SquashOptions) -> (private:
        Option<()>) {
        Some(())
    }

    fn process_stream(
        &self,
        _private: &mut (),
        _stream_type: SquashStreamType,
        _operation: SquashOperation,
        input: &[u8],
        output: &mut [u8],
    ) -> (result: (SquashStatus, usize, usize)) {
        let count: usize = if input.len() <= output.len() {
            input.len()
        } else {
            output.len()
        };
        squash_buffer_copy(output, input, 0, count);
        if count < input.len() {
            (SQUASH_PROCESSING, count, count)
        } else {
            (SQUASH_OK, count, count)
        }
    }

    proof fn law_buffer_results(&self, data: Seq<u8>, capacity: usize, options: &SquashOptions) {
    }

    proof fn law_buffer_format(&self, data: Seq<u8>, capacity: usize, options: &SquashOptions) {
    }

    proof fn law_uncompressed_size(&self, compressed: Seq<u8>) {
    }

    proof fn law_create_stream(&self, stream_type: SquashStreamType, options: &SquashOptions) {
    }

    proof fn law_process_stream(
        &self,
        private: (),
        stream_type: SquashStreamType,
        operation: SquashOperation,
        input: Seq<u8>,
        room: usize,
        consumed: Seq<u8>,
        produced: Seq<u8>,
    ) {
    }
}

/// The priority of the `copy` codec among the codecs of its name.
pub const SQUASH_COPY_PRIORITY: u32 = 50;

/// Whether `codec` is the `copy` codec as its own functions set it up: it
/// streams natively, compresses and decompresses buffers, and tells sizes.
pub open spec fn squash_copy_loaded(codec: &SquashCodec<SquashCopy>) -> bool {
    &&& codec.wf()
    &&& codec.strategy() is NativeStreaming
    &&& codec.table().compress_buffer
    &&& !codec.table().compress_buffer_unsafe
    &&& codec.table().decompress_buffer
    &&& codec.table().get_uncompressed_size
    &&& codec.can_flush()
}

/// A codec that is made from the functions of the `copy` codec is the
/// `copy` codec as its own functions set it up.
pub proof fn lemma_copy_loaded(
    made: Result<SquashCodec<SquashCopy>, SquashStatus>,
    name: Seq<char>,
    extension: Option<Seq<char>>,
    priority: u32,
    table: Result<SquashCodecImpl, SquashStatus>,
)
    requires
        table matches Ok(filled) && squash_copy_table(filled),
        SquashCodec::loaded(made, name, extension, priority, SquashCopy {  }, table),
    ensures
        made matches Ok(codec) && squash_copy_loaded(&codec),
{
    let filled = table->Ok_0;
    lemma_info_declared(filled);
    assert(SQUASH_COPY_INFO & SQUASH_CODEC_INFO_RUN_IN_THREAD == 0) by (bit_vector);
    assert(SQUASH_COPY_INFO & SQUASH_CODEC_INFO_CAN_FLUSH != 0) by (bit_vector);
}

/// The `copy` codec, loaded.
pub fn squash_copy_codec() -> (codec: SquashCodec<SquashCopy>)
    ensures
        squash_copy_loaded(&codec),
        codec.name() == "copy"@,
        codec.extension() is None,
        codec.priority() == SQUASH_COPY_PRIORITY,
{
    let made = SquashCodec::load("copy", None, SQUASH_COPY_PRIORITY, SquashCopy::new());
    proof {
        let table = choose|table: Result<SquashCodecImpl, SquashStatus>|
            #[trigger] SquashCopy::init_codec.ensures((&SquashCopy {  },), table)
                && SquashCodec::loaded(
                made,
                "copy"@,
                None,
                SQUASH_COPY_PRIORITY,
                SquashCopy {  },
                table,
            );
        lemma_copy_loaded(made, "copy"@, None, SQUASH_COPY_PRIORITY, table);
    }
    match made {
        Ok(codec) => codec,
        Err(_) => vstd::pervasive::unreached(),
    }
}

/// The `copy` codec is the identity. Compressing gives the data itself, and
/// never fails. Decompressing gives the data itself whenever the caller
/// expects at least as many bytes as there are, and, for data that is not
/// empty, also when the caller expects nothing.
pub proof fn lemma_copy_identity(
    codec: &SquashCodec<SquashCopy>,
    data: Seq<u8>,
    options: &SquashOptions,
    expected: Option<usize>,
)
    requires
        squash_copy_loaded(codec),
        data.len() <= usize::MAX,
    ensures
        codec.funcs().spec_max_compressed_size(data.len() as usize) == data.len(),
        codec.compressed(data, options) == (SQUASH_OK, data),
        (match expected {
            Some(size) => size >= data.len(),
            None => data.len() > 0,
        }) ==> codec.decompressed(data, options, expected) == (SQUASH_OK, data),
{
}

} // verus!
