use squash::codec::{
    squash_codec_info_test, SquashBufferResult, SquashStreamResult,
    SQUASH_CODEC_INFO_KNOWS_UNCOMPRESSED_SIZE, SQUASH_CODEC_INFO_RUN_IN_THREAD,
};
use squash::splice::{SquashSplice, SquashSpliceAction};
use squash::status::{
    SQUASH_BUFFER_FULL, SQUASH_END_OF_STREAM, SQUASH_FAILED, SQUASH_INVALID_OPERATION, SQUASH_OK,
    SQUASH_PROCESSING, SQUASH_RANGE, SQUASH_STATE, SQUASH_UNABLE_TO_LOAD,
};
use squash::stream::SQUASH_STREAM_STATE_FINISHED;
use squash::{
    SquashCodec, SquashCodecFuncs, SquashCodecImpl, SquashOperation, SquashOptions, SquashStatus,
    SquashStream, SquashStreamType,
};
use squash::context::SquashContext;
use vstd::seq::Seq;

/// A codec for data of up to 255 bytes: the compressed form is one byte
/// that tells the length, and then the data.
#[derive(Clone, Copy)]
struct Framed {
    streams: bool,
    buffers: bool,
    sizes: bool,
    threaded: bool,
    loads: bool,
    stuck: bool,
}

const FRAMED: Framed = Framed {
    streams: true,
    buffers: true,
    sizes: true,
    threaded: false,
    loads: true,
    stuck: false,
};

#[derive(Default)]
struct FramedStream {
    gathered: Vec<u8>,
    out: Vec<u8>,
    position: usize,
    built: bool,
    length: Option<usize>,
    seen: usize,
    terminated: bool,
    stuck: bool,
}

fn frame(data: &[u8]) -> Vec<u8> {
    let mut framed = vec![data.len() as u8];
    framed.extend_from_slice(data);
    framed
}

impl Framed {
    fn buffer(target: &mut [u8], source: &[u8]) -> (SquashStatus, usize) {
        if source.len() > target.len() {
            return (SQUASH_BUFFER_FULL, 0);
        }
        target[..source.len()].copy_from_slice(source);
        (SQUASH_OK, source.len())
    }
}

impl SquashCodecFuncs for Framed {
    type Private = FramedStream;

    fn spec_decode(&self, _: Seq<u8>) -> Option<Seq<u8>> {
        unreachable!()
    }

    fn spec_stream_inv(
        &self,
        _: FramedStream,
        _: SquashStreamType,
        _: Seq<u8>,
        _: Seq<u8>,
    ) -> bool {
        unreachable!()
    }

    fn spec_max_compressed_size(&self, _: usize) -> usize {
        unreachable!()
    }

    fn spec_uncompressed_size(&self, _: Seq<u8>) -> usize {
        unreachable!()
    }

    fn spec_compress_buffer(&self, _: Seq<u8>, _: usize, _: &SquashOptions) -> SquashBufferResult {
        unreachable!()
    }

    fn spec_compress_buffer_unsafe(
        &self,
        _: Seq<u8>,
        _: usize,
        _: &SquashOptions,
    ) -> SquashBufferResult {
        unreachable!()
    }

    fn spec_decompress_buffer(
        &self,
        _: Seq<u8>,
        _: usize,
        _: &SquashOptions,
    ) -> SquashBufferResult {
        unreachable!()
    }

    fn spec_create_stream(&self, _: SquashStreamType, _: &SquashOptions) -> Option<FramedStream> {
        unreachable!()
    }

    fn spec_process_stream(
        &self,
        _: FramedStream,
        _: SquashStreamType,
        _: SquashOperation,
        _: Seq<u8>,
        _: usize,
    ) -> SquashStreamResult<FramedStream> {
        unreachable!()
    }

    fn init_codec(&self) -> Result<SquashCodecImpl, SquashStatus> {
        if !self.loads {
            return Err(SQUASH_UNABLE_TO_LOAD);
        }
        let mut funcs = SquashCodecImpl::new();
        funcs.info = if self.threaded { SQUASH_CODEC_INFO_RUN_IN_THREAD } else { 0 };
        funcs.create_stream = self.streams;
        funcs.process_stream = self.streams;
        funcs.compress_buffer = self.buffers;
        funcs.decompress_buffer = self.buffers;
        funcs.get_uncompressed_size = self.sizes;
        funcs.get_max_compressed_size = true;
        Ok(funcs)
    }

    fn get_max_compressed_size(&self, uncompressed_size: usize) -> usize {
        uncompressed_size.saturating_add(1)
    }

    fn get_uncompressed_size(&self, compressed: &[u8]) -> usize {
        assert!(self.sizes);
        if compressed.is_empty() {
            0
        } else {
            compressed[0] as usize
        }
    }

    fn compress_buffer(
        &self,
        compressed: &mut [u8],
        uncompressed: &[u8],
        _: &SquashOptions,
    ) -> (SquashStatus, usize) {
        assert!(self.buffers);
        if uncompressed.len() > 255 {
            return (SQUASH_RANGE, 0);
        }
        Framed::buffer(compressed, &frame(uncompressed))
    }

    fn compress_buffer_unsafe(
        &self,
        _: &mut [u8],
        _: &[u8],
        _: &SquashOptions,
    ) -> (SquashStatus, usize) {
        panic!("not provided")
    }

    fn decompress_buffer(
        &self,
        decompressed: &mut [u8],
        compressed: &[u8],
        _: &SquashOptions,
    ) -> (SquashStatus, usize) {
        assert!(self.buffers);
        if compressed.is_empty() || compressed.len() != 1 + compressed[0] as usize {
            return (SQUASH_FAILED, 0);
        }
        Framed::buffer(decompressed, &compressed[1..])
    }

    fn create_stream(&self, _: SquashStreamType, _: &SquashOptions) -> Option<FramedStream> {
        assert!(self.streams);
        Some(FramedStream { stuck: self.stuck, ..FramedStream::default() })
    }

    fn process_stream(
        &self,
        private: &mut FramedStream,
        stream_type: SquashStreamType,
        operation: SquashOperation,
        input: &[u8],
        output: &mut [u8],
    ) -> (SquashStatus, usize, usize) {
        assert!(self.streams);
        if operation == SquashOperation::SQUASH_OPERATION_TERMINATE {
            private.terminated = true;
            return (SQUASH_OK, 0, 0);
        }
        if private.stuck {
            return (SQUASH_PROCESSING, 0, 0);
        }
        if stream_type == SquashStreamType::SQUASH_STREAM_COMPRESS {
            private.gathered.extend_from_slice(input);
            if private.gathered.len() > 255 {
                return (SQUASH_RANGE, input.len(), 0);
            }
            if operation != SquashOperation::SQUASH_OPERATION_FINISH {
                return (SQUASH_OK, input.len(), 0);
            }
            if !private.built {
                private.out = frame(&private.gathered);
                private.built = true;
            }
            let count = (private.out.len() - private.position).min(output.len());
            output[..count]
                .copy_from_slice(&private.out[private.position..private.position + count]);
            private.position += count;
            if private.position < private.out.len() {
                (SQUASH_PROCESSING, input.len(), count)
            } else {
                (SQUASH_OK, input.len(), count)
            }
        } else {
            let mut taken = 0;
            if private.length.is_none() {
                if input.is_empty() {
                    return if operation == SquashOperation::SQUASH_OPERATION_FINISH {
                        (SQUASH_FAILED, 0, 0)
                    } else {
                        (SQUASH_OK, 0, 0)
                    };
                }
                private.length = Some(input[0] as usize);
                taken = 1;
            }
            let left = private.length.unwrap() - private.seen;
            let count = left.min(input.len() - taken).min(output.len());
            output[..count].copy_from_slice(&input[taken..taken + count]);
            private.seen += count;
            taken += count;
            if private.seen == private.length.unwrap() {
                (SQUASH_END_OF_STREAM, taken, count)
            } else if taken < input.len() {
                (SQUASH_PROCESSING, taken, count)
            } else if operation == SquashOperation::SQUASH_OPERATION_FINISH {
                (SQUASH_FAILED, taken, count)
            } else {
                (SQUASH_OK, taken, count)
            }
        }
    }

    fn law_buffer_results(&self, _: Seq<u8>, _: usize, _: &SquashOptions) {}

    fn law_buffer_format(&self, _: Seq<u8>, _: usize, _: &SquashOptions) {}

    fn law_uncompressed_size(&self, _: Seq<u8>) {}

    fn law_create_stream(&self, _: SquashStreamType, _: &SquashOptions) {}

    fn law_process_stream(
        &self,
        _: FramedStream,
        _: SquashStreamType,
        _: SquashOperation,
        _: Seq<u8>,
        _: usize,
        _: Seq<u8>,
        _: Seq<u8>,
    ) {
    }
}

fn load(funcs: Framed) -> SquashCodec<Framed> {
    SquashCodec::load("framed", Some("fr"), 10, funcs).unwrap()
}

fn variants() -> Vec<SquashCodec<Framed>> {
    vec![
        load(FRAMED),
        load(Framed { buffers: false, ..FRAMED }),
        load(Framed { streams: false, ..FRAMED }),
        load(Framed { streams: false, sizes: false, ..FRAMED }),
        load(Framed { buffers: false, sizes: false, ..FRAMED }),
    ]
}

#[test]
fn framed_codec_loads_under_each_strategy() {
    assert!(matches!(load(FRAMED), SquashCodec::NativeStreaming(_)));
    assert!(matches!(load(Framed { streams: false, ..FRAMED }), SquashCodec::BufferOnly(_)));
    assert!(matches!(load(Framed { threaded: true, ..FRAMED }), SquashCodec::ThreadWrapped(_)));
    assert!(squash_codec_info_test(
        load(FRAMED).get_info(),
        SQUASH_CODEC_INFO_KNOWS_UNCOMPRESSED_SIZE
    ));
    assert_eq!(
        SquashCodec::load("framed", None, 1, Framed { loads: false, ..FRAMED }).err(),
        Some(SQUASH_UNABLE_TO_LOAD)
    );
    assert_eq!(
        SquashCodec::load("framed", None, 1, Framed { streams: false, buffers: false, ..FRAMED })
            .err(),
        Some(SQUASH_UNABLE_TO_LOAD)
    );
}

#[test]
fn framed_round_trip_on_every_path() {
    for codec in variants() {
        let options = SquashOptions::new(codec.get_option_info()).unwrap();
        for size in [0usize, 1, 2, 100, 255] {
            let data: Vec<u8> = (0..size).map(|i| (i * 7 + 3) as u8).collect();
            let compressed = codec.compress(&data, &options).unwrap();
            assert_eq!(compressed, frame(&data));
            assert!(compressed.len() <= codec.get_max_compressed_size(size));
            assert_eq!(codec.decompress(&compressed, &options, Some(size)).unwrap(), data);
            assert_eq!(codec.decompress(&compressed, &options, Some(size + 9)).unwrap(), data);
        }
    }
}

#[test]
fn framed_data_tells_its_size() {
    let codec = load(FRAMED);
    let options = SquashOptions::new(codec.get_option_info()).unwrap();
    assert_eq!(codec.get_uncompressed_size(&frame(b"hello")), Some(5));
    assert_eq!(codec.get_uncompressed_size(&frame(b"")), None);
    assert_eq!(codec.get_uncompressed_size(b""), None);
    assert_eq!(codec.decompress(&frame(b"hello"), &options, None).unwrap(), b"hello");
    let streaming = load(Framed { buffers: false, ..FRAMED });
    let options = SquashOptions::new(streaming.get_option_info()).unwrap();
    assert_eq!(streaming.decompress(&frame(b"hello"), &options, None).unwrap(), b"hello");
    let blind = load(Framed { sizes: false, ..FRAMED });
    let options = SquashOptions::new(blind.get_option_info()).unwrap();
    assert_eq!(blind.get_uncompressed_size(&frame(b"hello")), None);
    assert_eq!(
        blind.decompress(&frame(b"hello"), &options, None),
        Err(SQUASH_INVALID_OPERATION)
    );
}

#[test]
fn failures_of_the_codec_come_through() {
    for codec in variants() {
        let options = SquashOptions::new(codec.get_option_info()).unwrap();
        let long = vec![1u8; 256];
        assert_eq!(codec.compress(&long, &options), Err(SQUASH_RANGE));
        assert_eq!(codec.decompress(b"\x05hell", &options, Some(5)), Err(SQUASH_FAILED));
        assert_eq!(codec.decompress(b"", &options, Some(5)), Err(SQUASH_FAILED));
        assert_eq!(codec.decompress(b"\x05hello", &options, Some(4)), Err(SQUASH_BUFFER_FULL));
    }
}

#[test]
fn data_behind_the_payload_is_refused() {
    for codec in variants() {
        let options = SquashOptions::new(codec.get_option_info()).unwrap();
        assert_eq!(codec.decompress(b"\x02hello", &options, Some(5)), Err(SQUASH_FAILED));
    }
}

#[test]
fn decompressing_stream_tells_the_end_of_the_payload() {
    let codec = load(FRAMED);
    let options = SquashOptions::new(codec.get_option_info()).unwrap();
    let mut stream =
        SquashStream::new(&codec, SquashStreamType::SQUASH_STREAM_DECOMPRESS, &options).unwrap();
    let mut out = [0u8; 3];
    assert_eq!(stream.process(b"\x05he", &mut out), SQUASH_OK);
    assert_eq!(&out[..2], b"he");
    assert_eq!(stream.next_out(), 2);
    assert_eq!(stream.process(b"llo and more", &mut out), SQUASH_END_OF_STREAM);
    assert_eq!(&out, b"llo");
    assert_eq!(stream.next_in(), 3);
    assert_eq!(stream.avail_in(), 9);
    assert_eq!(stream.total_in(), 6);
    assert_eq!(stream.total_out(), 5);
    assert_eq!(stream.state(), SQUASH_STREAM_STATE_FINISHED);
    assert_eq!(stream.process(b" and more", &mut out), SQUASH_STATE);
    assert_eq!(stream.finish(b"", &mut out), SQUASH_STATE);
}

#[test]
fn a_failure_ends_the_stream() {
    let codec = load(FRAMED);
    let options = SquashOptions::new(codec.get_option_info()).unwrap();
    let mut stream =
        SquashStream::new(&codec, SquashStreamType::SQUASH_STREAM_COMPRESS, &options).unwrap();
    let mut out = [0u8; 8];
    assert_eq!(stream.process(&[1u8; 200], &mut out), SQUASH_OK);
    assert_eq!(stream.process(&[1u8; 100], &mut out), SQUASH_RANGE);
    assert_eq!(stream.total_in(), 300);
    assert_eq!(stream.state(), SQUASH_STREAM_STATE_FINISHED);
    assert_eq!(stream.finish(b"", &mut out), SQUASH_STATE);
    assert_eq!(stream.total_in(), 300);
}

#[test]
fn gathered_data_of_unknown_size_is_given_more_room() {
    let codec = load(Framed { streams: false, sizes: false, ..FRAMED });
    let options = SquashOptions::new(codec.get_option_info()).unwrap();
    let data: Vec<u8> = (0..255).map(|i| i as u8).collect();
    let mut stream =
        SquashStream::new(&codec, SquashStreamType::SQUASH_STREAM_DECOMPRESS, &options).unwrap();
    let mut out = [0u8; 300];
    assert_eq!(stream.process(&frame(&data)[..100], &mut out), SQUASH_OK);
    assert_eq!(stream.finish(&frame(&data)[100..], &mut out), SQUASH_OK);
    assert_eq!(&out[..255], &data[..]);
    assert_eq!(stream.total_out(), 255);
}

#[test]
fn a_stream_that_does_not_move_is_given_up() {
    let codec = load(Framed { buffers: false, stuck: true, ..FRAMED });
    let options = SquashOptions::new(codec.get_option_info()).unwrap();
    assert_eq!(codec.compress(b"hello", &options), Err(SQUASH_FAILED));
    assert_eq!(codec.decompress(b"hello", &options, Some(0)), Err(SQUASH_BUFFER_FULL));
    let mut splice =
        SquashSplice::new(&codec, SquashStreamType::SQUASH_STREAM_COMPRESS, 0, &options).unwrap();
    assert_eq!(splice.step(), SquashSpliceAction::Read(512));
    splice.read_done(SQUASH_OK, b"hello");
    assert_eq!(splice.step(), SquashSpliceAction::Done(SQUASH_FAILED));
}

#[test]
fn splice_through_a_codec_that_changes_the_data() {
    for codec in variants() {
        let options = SquashOptions::new(codec.get_option_info()).unwrap();
        let data: Vec<u8> = (0..200).map(|i| (i * 3) as u8).collect();
        let mut compressed = Vec::new();
        let mut decompressed = Vec::new();
        for (stream_type, input, sink) in [
            (SquashStreamType::SQUASH_STREAM_COMPRESS, data.clone(), &mut compressed),
            (SquashStreamType::SQUASH_STREAM_DECOMPRESS, frame(&data), &mut decompressed),
        ] {
            let mut splice = SquashSplice::new(&codec, stream_type, 0, &options).unwrap();
            let mut position = 0;
            loop {
                match splice.step() {
                    SquashSpliceAction::Read(wanted) => {
                        let count = wanted.min(37).min(input.len() - position);
                        splice.read_done(SQUASH_OK, &input[position..position + count]);
                        position += count;
                    }
                    SquashSpliceAction::Write(_) => {
                        sink.extend_from_slice(splice.output());
                        splice.write_done(SQUASH_OK);
                    }
                    SquashSpliceAction::Work(_, _) => panic!("there is no worker"),
                    SquashSpliceAction::Again => {}
                    SquashSpliceAction::Done(status) => {
                        assert_eq!(status, SQUASH_OK);
                        break;
                    }
                }
            }
        }
        assert_eq!(compressed, frame(&data));
        assert_eq!(decompressed, data);
    }
}

#[test]
fn releasing_an_unfinished_stream_terminates_its_worker() {
    let codec = load(Framed { threaded: true, buffers: false, ..FRAMED });
    let options = SquashOptions::new(codec.get_option_info()).unwrap();
    let stream_type = SquashStreamType::SQUASH_STREAM_COMPRESS;
    let mut stream = SquashStream::new(&codec, stream_type, &options).unwrap();
    // the worker
    let funcs = codec.get_funcs();
    let mut private = funcs.create_stream(stream_type, &options).unwrap();
    let mut window = [0u8; 16];
    let mut out = [0u8; 16];

    let operation = SquashOperation::SQUASH_OPERATION_PROCESS;
    assert_eq!(stream.begin(operation, b"hello", 16), SQUASH_OK);
    let (status, taken, given) =
        funcs.process_stream(&mut private, stream_type, operation, b"hello", &mut window);
    assert_eq!(stream.complete(status, taken, &window[..given], &mut out), SQUASH_OK);
    assert_eq!(stream.total_in(), 5);

    let operation = SquashOperation::SQUASH_OPERATION_FINISH;
    assert_eq!(stream.begin(operation, b"", 2), SQUASH_OK);
    let (status, taken, given) =
        funcs.process_stream(&mut private, stream_type, operation, b"", &mut window[..2]);
    assert_eq!(stream.complete(status, taken, &window[..given], &mut out), SQUASH_PROCESSING);
    assert_eq!(&out[..2], b"\x05h");

    assert!(!private.terminated);
    let duty = stream.release();
    assert_eq!(duty, Some(SquashOperation::SQUASH_OPERATION_TERMINATE));
    let (status, _, _) =
        funcs.process_stream(&mut private, stream_type, duty.unwrap(), b"", &mut window);
    assert_eq!(status, SQUASH_OK);
    assert!(private.terminated);
}

#[test]
fn releasing_a_finished_stream_leaves_its_worker_alone() {
    let codec = load(Framed { threaded: true, buffers: false, ..FRAMED });
    let options = SquashOptions::new(codec.get_option_info()).unwrap();
    let stream_type = SquashStreamType::SQUASH_STREAM_COMPRESS;
    let mut stream = SquashStream::new(&codec, stream_type, &options).unwrap();
    let funcs = codec.get_funcs();
    let mut private = funcs.create_stream(stream_type, &options).unwrap();
    let mut window = [0u8; 16];
    let mut out = [0u8; 16];
    let operation = SquashOperation::SQUASH_OPERATION_FINISH;
    assert_eq!(stream.begin(operation, b"hello", 16), SQUASH_OK);
    let (status, taken, given) =
        funcs.process_stream(&mut private, stream_type, operation, b"hello", &mut window);
    assert_eq!(stream.complete(status, taken, &window[..given], &mut out), SQUASH_OK);
    assert_eq!(&out[..6], b"\x05hello");
    assert_eq!(stream.state(), SQUASH_STREAM_STATE_FINISHED);
    assert_eq!(stream.release(), None);
    assert!(!private.terminated);
}

#[test]
fn a_codec_that_fails_to_load_is_not_found() {
    let mut context = SquashContext::new();
    context.add_codec("framed", Some("fr"), 20, Framed { loads: false, ..FRAMED });
    context.add_codec("framed", Some("fr"), 10, FRAMED);
    context.add_codec("sound", Some("so"), 10, FRAMED);
    assert!(context.get_codec("framed").is_none());
    assert!(context.get_codec("framed").is_none());
    assert!(context.get_codec_from_extension("fr").is_none());
    assert!(context.get_codec("sound").is_some());
    assert!(context.get_codec_from_extension("so").is_some());
    assert_eq!(context.len(), 3);
}
