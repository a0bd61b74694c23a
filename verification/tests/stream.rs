use squash::codec::SQUASH_CODEC_INFO_RUN_IN_THREAD;
use squash::status::{
    SQUASH_INVALID_OPERATION, SQUASH_OK, SQUASH_PROCESSING, SQUASH_STATE,
};
use squash::stream::{
    SQUASH_STREAM_STATE_FINISHED, SQUASH_STREAM_STATE_FINISHING, SQUASH_STREAM_STATE_IDLE,
    SQUASH_STREAM_STATE_RUNNING,
};
use squash::{
    SquashCodec, SquashCodecFuncs, SquashCodecImpl, SquashCopy, SquashOperation, SquashOptions,
    SquashStream, SquashStreamType,
};

fn copy_table() -> SquashCodecImpl {
    match SquashCopy::new().init_codec() {
        Ok(table) => table,
        Err(status) => panic!("copy gave no table: {}", status),
    }
}

fn copy_codec() -> SquashCodec<SquashCopy> {
    match SquashCodec::load("copy", None, 50, SquashCopy::new()) {
        Ok(codec) => codec,
        Err(status) => panic!("copy did not load: {}", status),
    }
}

fn buffer_only_codec() -> SquashCodec<SquashCopy> {
    let mut table = copy_table();
    table.create_stream = false;
    table.process_stream = false;
    match SquashCodec::new("copy", None, 50, table, SquashCopy::new()) {
        Ok(codec) => codec,
        Err(status) => panic!("copy did not load: {}", status),
    }
}

fn threaded_codec() -> SquashCodec<SquashCopy> {
    let mut table = copy_table();
    table.info |= SQUASH_CODEC_INFO_RUN_IN_THREAD;
    match SquashCodec::new("copy", None, 50, table, SquashCopy::new()) {
        Ok(codec) => codec,
        Err(status) => panic!("copy did not load: {}", status),
    }
}

#[test]
fn native_stream_copies_in_small_windows() {
    let codec = copy_codec();
    assert!(matches!(codec, SquashCodec::NativeStreaming(_)));
    let options = SquashOptions::new(codec.get_option_info()).unwrap();
    let mut stream =
        SquashStream::new(&codec, SquashStreamType::SQUASH_STREAM_COMPRESS, &options).unwrap();
    assert_eq!(stream.state(), SQUASH_STREAM_STATE_IDLE);
    let input = b"hello";
    let mut out = [0u8; 2];
    assert_eq!(stream.process(input, &mut out), SQUASH_PROCESSING);
    assert_eq!(&out, b"he");
    assert_eq!(stream.next_in(), 2);
    assert_eq!(stream.avail_in(), 3);
    assert_eq!(stream.next_out(), 2);
    assert_eq!(stream.avail_out(), 0);
    assert_eq!(stream.state(), SQUASH_STREAM_STATE_RUNNING);
    assert_eq!(stream.process(&input[2..], &mut out), SQUASH_PROCESSING);
    assert_eq!(&out, b"ll");
    let mut last = [0u8; 4];
    assert_eq!(stream.finish(&input[4..], &mut last), SQUASH_OK);
    assert_eq!(last[0], b'o');
    assert_eq!(stream.next_out(), 1);
    assert_eq!(stream.avail_out(), 3);
    assert_eq!(stream.total_in(), 5);
    assert_eq!(stream.total_out(), 5);
    assert_eq!(stream.state(), SQUASH_STREAM_STATE_FINISHED);
    assert_eq!(stream.process(b"x", &mut last), SQUASH_STATE);
    assert_eq!(stream.total_in(), 5);
    assert_eq!(stream.release(), None);
}

#[test]
fn buffered_stream_gives_nothing_before_finish() {
    let codec = buffer_only_codec();
    assert!(matches!(codec, SquashCodec::BufferOnly(_)));
    let options = SquashOptions::new(codec.get_option_info()).unwrap();
    let mut stream =
        SquashStream::new(&codec, SquashStreamType::SQUASH_STREAM_COMPRESS, &options).unwrap();
    let mut out = [0u8; 3];
    assert_eq!(stream.process(b"hel", &mut out), SQUASH_OK);
    assert_eq!(stream.next_out(), 0);
    assert_eq!(stream.total_in(), 3);
    assert_eq!(stream.process(b"lo", &mut out), SQUASH_OK);
    assert_eq!(stream.total_out(), 0);
    assert_eq!(stream.finish(b"!", &mut out), SQUASH_PROCESSING);
    assert_eq!(&out, b"hel");
    assert_eq!(stream.state(), SQUASH_STREAM_STATE_FINISHING);
    assert_eq!(stream.total_in(), 6);
    assert_eq!(stream.finish(b"", &mut out), SQUASH_OK);
    assert_eq!(&out, b"lo!");
    assert_eq!(stream.total_out(), 6);
    assert_eq!(stream.state(), SQUASH_STREAM_STATE_FINISHED);
}

#[test]
fn threaded_stream_is_driven_through_its_worker() {
    let codec = threaded_codec();
    assert!(matches!(codec, SquashCodec::ThreadWrapped(_)));
    let options = SquashOptions::new(codec.get_option_info()).unwrap();
    let mut stream =
        SquashStream::new(&codec, SquashStreamType::SQUASH_STREAM_COMPRESS, &options).unwrap();
    let input = b"hello";
    assert_eq!(stream.begin(SquashOperation::SQUASH_OPERATION_PROCESS, input, 4), SQUASH_OK);
    // the worker
    let mut private = ();
    let mut window = [0u8; 4];
    let (status, consumed, written) = codec.get_funcs().process_stream(
        &mut private,
        SquashStreamType::SQUASH_STREAM_COMPRESS,
        SquashOperation::SQUASH_OPERATION_PROCESS,
        input,
        &mut window,
    );
    let mut out = [0u8; 4];
    assert_eq!(stream.complete(status, consumed, &window[..written], &mut out), SQUASH_PROCESSING);
    assert_eq!(&out, b"hell");
    assert_eq!(stream.total_in(), 4);
    assert_eq!(stream.release(), Some(SquashOperation::SQUASH_OPERATION_TERMINATE));
}

#[test]
fn threaded_stream_refuses_to_run_on_the_calling_thread() {
    let codec = threaded_codec();
    let options = SquashOptions::new(codec.get_option_info()).unwrap();
    let mut stream =
        SquashStream::new(&codec, SquashStreamType::SQUASH_STREAM_COMPRESS, &options).unwrap();
    let mut out = [0u8; 4];
    assert_eq!(stream.process(b"hello", &mut out), SQUASH_INVALID_OPERATION);
    assert_eq!(stream.total_in(), 0);
    assert_eq!(stream.release(), Some(SquashOperation::SQUASH_OPERATION_TERMINATE));
}

fn sample(size: usize) -> Vec<u8> {
    let mut state: u32 = 2463534242;
    let mut bytes = Vec::new();
    for _ in 0..size {
        state ^= state << 13;
        state ^= state >> 17;
        state ^= state << 5;
        bytes.push(state as u8);
    }
    bytes
}

/// Drives `stream` over `data` with windows of the sizes that `sizes` gives
/// in turn, and returns all output.
fn run_in_windows(
    stream: &mut SquashStream<SquashCopy>,
    data: &[u8],
    sizes: &mut dyn FnMut() -> (usize, usize),
) -> Vec<u8> {
    let mut output = Vec::new();
    let mut position = 0;
    let mut total_in = 0;
    let mut total_out = 0;
    while position < data.len() {
        let (window, room) = sizes();
        let end = (position + window).min(data.len());
        let mut out = vec![0u8; room];
        let status = stream.process(&data[position..end], &mut out);
        assert!(status == SQUASH_OK || status == SQUASH_PROCESSING);
        assert_eq!(stream.next_in() + stream.avail_in(), end - position);
        assert_eq!(stream.next_out() + stream.avail_out(), room);
        assert!(stream.total_in() >= total_in);
        assert!(stream.total_out() >= total_out);
        assert_eq!(stream.total_in(), total_in + stream.next_in());
        assert_eq!(stream.total_out(), total_out + stream.next_out());
        if status == SQUASH_OK {
            assert_eq!(stream.avail_in(), 0);
        }
        total_in = stream.total_in();
        total_out = stream.total_out();
        position += stream.next_in();
        output.extend_from_slice(&out[..stream.next_out()]);
    }
    loop {
        let (_, room) = sizes();
        let mut out = vec![0u8; room];
        let status = stream.finish(&[], &mut out);
        assert!(stream.total_in() >= total_in);
        assert!(stream.total_out() >= total_out);
        total_out = stream.total_out();
        output.extend_from_slice(&out[..stream.next_out()]);
        if status == SQUASH_OK {
            break;
        }
        assert_eq!(status, SQUASH_PROCESSING);
        assert_eq!(stream.state(), SQUASH_STREAM_STATE_FINISHING);
    }
    assert_eq!(stream.state(), SQUASH_STREAM_STATE_FINISHED);
    assert_eq!(stream.total_in(), data.len());
    assert_eq!(stream.total_out(), output.len());
    output
}

#[test]
fn one_byte_at_a_time_gives_what_one_call_gives() {
    let data = sample(700);
    for codec in [copy_codec(), buffer_only_codec()] {
        let options = SquashOptions::new(codec.get_option_info()).unwrap();
        let in_one_call = codec.compress(&data, &options).unwrap();
        let mut stream =
            SquashStream::new(&codec, SquashStreamType::SQUASH_STREAM_COMPRESS, &options).unwrap();
        let streamed = run_in_windows(&mut stream, &data, &mut || (1, 1));
        assert_eq!(
            codec.decompress(&streamed, &options, Some(data.len())).unwrap(),
            codec.decompress(&in_one_call, &options, Some(data.len())).unwrap()
        );
        assert_eq!(codec.decompress(&streamed, &options, Some(data.len())).unwrap(), data);
    }
}

#[test]
fn windows_of_changing_sizes_give_what_one_call_gives() {
    let data = sample(5000);
    let mut state: u32 = 77;
    let mut sizes = move || {
        state = state.wrapping_mul(1664525).wrapping_add(1013904223);
        let window = 1 + (state >> 24) as usize % 17;
        let room = 1 + (state >> 16) as usize % 13;
        (window, room)
    };
    for codec in [copy_codec(), buffer_only_codec()] {
        let options = SquashOptions::new(codec.get_option_info()).unwrap();
        for stream_type in [
            SquashStreamType::SQUASH_STREAM_COMPRESS,
            SquashStreamType::SQUASH_STREAM_DECOMPRESS,
        ] {
            let mut stream = SquashStream::new(&codec, stream_type, &options).unwrap();
            assert_eq!(stream.stream_type(), stream_type);
            let streamed = run_in_windows(&mut stream, &data, &mut sizes);
            assert_eq!(streamed, data);
        }
    }
}

#[test]
fn empty_input_finishes_at_once() {
    for codec in [copy_codec(), buffer_only_codec()] {
        let options = SquashOptions::new(codec.get_option_info()).unwrap();
        let mut stream =
            SquashStream::new(&codec, SquashStreamType::SQUASH_STREAM_COMPRESS, &options).unwrap();
        let mut out = [0u8; 8];
        assert_eq!(stream.finish(&[], &mut out), SQUASH_OK);
        assert_eq!(stream.total_in(), 0);
        assert_eq!(stream.total_out(), 0);
        assert_eq!(stream.state(), SQUASH_STREAM_STATE_FINISHED);
    }
}

#[test]
fn finished_stream_refuses_every_operation() {
    for codec in [copy_codec(), buffer_only_codec()] {
        let options = SquashOptions::new(codec.get_option_info()).unwrap();
        let mut stream =
            SquashStream::new(&codec, SquashStreamType::SQUASH_STREAM_COMPRESS, &options).unwrap();
        let mut out = [0u8; 8];
        assert_eq!(stream.finish(b"abc", &mut out), SQUASH_OK);
        assert_eq!(stream.process(b"def", &mut out), SQUASH_STATE);
        assert_eq!(stream.flush(b"def", &mut out), SQUASH_STATE);
        assert_eq!(stream.finish(b"def", &mut out), SQUASH_STATE);
        assert_eq!(stream.finish(&[], &mut out), SQUASH_STATE);
        assert_eq!(stream.total_in(), 3);
        assert_eq!(stream.total_out(), 3);
        assert_eq!(stream.next_in(), 0);
        assert_eq!(stream.avail_in(), 0);
        assert_eq!(stream.next_out(), 0);
        assert_eq!(stream.avail_out(), 8);
        assert_eq!(stream.state(), SQUASH_STREAM_STATE_FINISHED);
    }
}

#[test]
fn refused_operation_leaves_the_windows_untouched() {
    let codec = copy_codec();
    let options = SquashOptions::new(codec.get_option_info()).unwrap();
    let mut stream =
        SquashStream::new(&codec, SquashStreamType::SQUASH_STREAM_COMPRESS, &options).unwrap();
    let mut out = [7u8; 4];
    assert_eq!(stream.finish(b"ab", &mut out), SQUASH_OK);
    let mut out = [7u8; 4];
    assert_eq!(stream.process(b"cdef", &mut out), SQUASH_STATE);
    assert_eq!(out, [7u8; 4]);
    assert_eq!(stream.avail_in(), 4);
    assert_eq!(stream.avail_out(), 4);
}

#[test]
fn unfinished_flush_or_finish_can_only_be_repeated() {
    let codec = copy_codec();
    let options = SquashOptions::new(codec.get_option_info()).unwrap();

    let mut stream =
        SquashStream::new(&codec, SquashStreamType::SQUASH_STREAM_COMPRESS, &options).unwrap();
    let mut out = [0u8; 2];
    assert_eq!(stream.flush(b"abcd", &mut out), SQUASH_PROCESSING);
    assert_eq!(stream.state(), squash::stream::SQUASH_STREAM_STATE_FLUSHING);
    assert_eq!(stream.flush(b"cd", &mut out), SQUASH_OK);
    assert_eq!(stream.state(), SQUASH_STREAM_STATE_RUNNING);
    assert_eq!(stream.process(b"e", &mut out), SQUASH_OK);

    let mut stream =
        SquashStream::new(&codec, SquashStreamType::SQUASH_STREAM_COMPRESS, &options).unwrap();
    assert_eq!(stream.flush(b"abcd", &mut out), SQUASH_PROCESSING);
    assert_eq!(stream.process(b"cd", &mut out), SQUASH_STATE);
    assert_eq!(stream.state(), SQUASH_STREAM_STATE_FINISHED);
    assert_eq!(stream.total_in(), 2);

    let mut stream =
        SquashStream::new(&codec, SquashStreamType::SQUASH_STREAM_COMPRESS, &options).unwrap();
    assert_eq!(stream.flush(b"abcd", &mut out), SQUASH_PROCESSING);
    assert_eq!(stream.finish(b"cd", &mut out), SQUASH_STATE);

    let mut stream =
        SquashStream::new(&codec, SquashStreamType::SQUASH_STREAM_COMPRESS, &options).unwrap();
    assert_eq!(stream.finish(b"abcd", &mut out), SQUASH_PROCESSING);
    assert_eq!(stream.state(), SQUASH_STREAM_STATE_FINISHING);
    assert_eq!(stream.flush(b"cd", &mut out), SQUASH_STATE);

    let mut stream =
        SquashStream::new(&codec, SquashStreamType::SQUASH_STREAM_COMPRESS, &options).unwrap();
    assert_eq!(stream.finish(b"abcd", &mut out), SQUASH_PROCESSING);
    assert_eq!(stream.process(b"cd", &mut out), SQUASH_STATE);
}

#[test]
fn flush_needs_a_codec_that_can_flush() {
    let mut table = copy_table();
    table.info = 0;
    let codec = SquashCodec::new("copy", None, 50, table, SquashCopy::new()).unwrap();
    let options = SquashOptions::new(codec.get_option_info()).unwrap();
    let mut stream =
        SquashStream::new(&codec, SquashStreamType::SQUASH_STREAM_COMPRESS, &options).unwrap();
    let mut out = [0u8; 8];
    assert_eq!(stream.process(b"ab", &mut out), SQUASH_OK);
    assert_eq!(stream.flush(b"cd", &mut out), SQUASH_INVALID_OPERATION);
    assert_eq!(stream.total_in(), 2);
    assert_eq!(stream.avail_in(), 2);
    assert_eq!(stream.state(), SQUASH_STREAM_STATE_FINISHED);
    assert_eq!(stream.process(b"cd", &mut out), SQUASH_STATE);
}

#[test]
fn flush_of_gathered_input_gives_nothing() {
    let codec = buffer_only_codec();
    let options = SquashOptions::new(codec.get_option_info()).unwrap();
    let mut stream =
        SquashStream::new(&codec, SquashStreamType::SQUASH_STREAM_COMPRESS, &options).unwrap();
    let mut out = [0u8; 8];
    assert_eq!(stream.flush(b"abc", &mut out), SQUASH_OK);
    assert_eq!(stream.next_out(), 0);
    assert_eq!(stream.total_in(), 3);
    assert_eq!(stream.state(), SQUASH_STREAM_STATE_RUNNING);
    assert_eq!(stream.finish(b"d", &mut out), SQUASH_OK);
    assert_eq!(&out[..4], b"abcd");
}

#[test]
fn gathered_stream_takes_no_input_once_it_hands_out() {
    let codec = buffer_only_codec();
    let options = SquashOptions::new(codec.get_option_info()).unwrap();
    let mut stream =
        SquashStream::new(&codec, SquashStreamType::SQUASH_STREAM_COMPRESS, &options).unwrap();
    let mut out = [0u8; 2];
    assert_eq!(stream.finish(b"abcd", &mut out), SQUASH_PROCESSING);
    assert_eq!(stream.finish(b"e", &mut out), SQUASH_STATE);
    assert_eq!(stream.total_in(), 4);
    assert_eq!(stream.avail_in(), 1);
    assert_eq!(stream.total_out(), 2);
}

#[test]
fn gathered_stream_decompresses_data_of_unknown_size() {
    let mut table = copy_table();
    table.create_stream = false;
    table.process_stream = false;
    table.get_uncompressed_size = false;
    let codec = SquashCodec::new("copy", None, 50, table, SquashCopy::new()).unwrap();
    let options = SquashOptions::new(codec.get_option_info()).unwrap();
    let data = sample(20000);
    let mut stream =
        SquashStream::new(&codec, SquashStreamType::SQUASH_STREAM_DECOMPRESS, &options).unwrap();
    let streamed = run_in_windows(&mut stream, &data, &mut || (1000, 300));
    assert_eq!(streamed, data);
}

#[test]
fn worker_handoff_keeps_the_order_of_request_and_answer() {
    let codec = threaded_codec();
    let options = SquashOptions::new(codec.get_option_info()).unwrap();
    let mut stream =
        SquashStream::new(&codec, SquashStreamType::SQUASH_STREAM_COMPRESS, &options).unwrap();
    let mut out = [0u8; 8];
    assert_eq!(stream.begin(SquashOperation::SQUASH_OPERATION_PROCESS, b"abc", 8), SQUASH_OK);
    assert_eq!(stream.avail_in(), 3);
    assert_eq!(stream.avail_out(), 8);
    assert_eq!(stream.complete(SQUASH_OK, 3, b"abc", &mut out), SQUASH_OK);
    assert_eq!(&out[..3], b"abc");
    assert_eq!(stream.total_in(), 3);
    assert_eq!(stream.total_out(), 3);
    assert_eq!(stream.next_out(), 3);
    assert_eq!(stream.avail_out(), 5);
    assert_eq!(stream.state(), SQUASH_STREAM_STATE_RUNNING);
    assert_eq!(stream.begin(SquashOperation::SQUASH_OPERATION_FINISH, b"", 8), SQUASH_OK);
    assert_eq!(stream.complete(SQUASH_OK, 0, b"", &mut out), SQUASH_OK);
    assert_eq!(stream.state(), SQUASH_STREAM_STATE_FINISHED);
    assert_eq!(stream.total_in(), 3);
    assert_eq!(stream.release(), None);
}

#[test]
fn worker_handoff_refuses_what_does_not_fit() {
    let codec = threaded_codec();
    let options = SquashOptions::new(codec.get_option_info()).unwrap();
    let mut out = [0u8; 8];

    let mut stream =
        SquashStream::new(&codec, SquashStreamType::SQUASH_STREAM_COMPRESS, &options).unwrap();
    assert_eq!(stream.complete(SQUASH_OK, 0, b"", &mut out), SQUASH_STATE);
    assert_eq!(stream.release(), Some(SquashOperation::SQUASH_OPERATION_TERMINATE));

    let mut stream =
        SquashStream::new(&codec, SquashStreamType::SQUASH_STREAM_COMPRESS, &options).unwrap();
    assert_eq!(stream.begin(SquashOperation::SQUASH_OPERATION_PROCESS, b"abc", 8), SQUASH_OK);
    assert_eq!(stream.begin(SquashOperation::SQUASH_OPERATION_PROCESS, b"abc", 8), SQUASH_STATE);
    assert_eq!(stream.release(), Some(SquashOperation::SQUASH_OPERATION_TERMINATE));

    let mut stream =
        SquashStream::new(&codec, SquashStreamType::SQUASH_STREAM_COMPRESS, &options).unwrap();
    assert_eq!(stream.begin(SquashOperation::SQUASH_OPERATION_PROCESS, b"abc", 8), SQUASH_OK);
    assert_eq!(stream.complete(SQUASH_OK, 4, b"abc", &mut out), squash::status::SQUASH_FAILED);
    assert_eq!(stream.total_in(), 0);
    assert_eq!(stream.release(), Some(SquashOperation::SQUASH_OPERATION_TERMINATE));

    let mut stream =
        SquashStream::new(&codec, SquashStreamType::SQUASH_STREAM_COMPRESS, &options).unwrap();
    assert_eq!(stream.begin(SquashOperation::SQUASH_OPERATION_PROCESS, b"abc", 2), SQUASH_OK);
    assert_eq!(stream.complete(SQUASH_OK, 3, b"abc", &mut out), squash::status::SQUASH_FAILED);

    let mut stream =
        SquashStream::new(&codec, SquashStreamType::SQUASH_STREAM_COMPRESS, &options).unwrap();
    assert_eq!(stream.begin(SquashOperation::SQUASH_OPERATION_PROCESS, b"abc", 8), SQUASH_OK);
    assert_eq!(stream.complete(0, 3, b"abc", &mut out), squash::status::SQUASH_FAILED);

    let mut stream =
        SquashStream::new(&codec, SquashStreamType::SQUASH_STREAM_COMPRESS, &options).unwrap();
    assert_eq!(stream.begin(SquashOperation::SQUASH_OPERATION_PROCESS, b"abc", 8), SQUASH_OK);
    assert_eq!(stream.complete(SQUASH_OK, 2, b"ab", &mut out), squash::status::SQUASH_FAILED);

    let mut stream =
        SquashStream::new(&codec, SquashStreamType::SQUASH_STREAM_COMPRESS, &options).unwrap();
    assert_eq!(stream.begin(SquashOperation::SQUASH_OPERATION_PROCESS, b"abc", 8), SQUASH_OK);
    assert_eq!(
        stream.complete(SQUASH_PROCESSING, 2, b"ab", &mut out),
        squash::status::SQUASH_FAILED
    );

    let mut stream =
        SquashStream::new(&codec, SquashStreamType::SQUASH_STREAM_COMPRESS, &options).unwrap();
    assert_eq!(stream.begin(SquashOperation::SQUASH_OPERATION_PROCESS, b"abc", 2), SQUASH_OK);
    assert_eq!(stream.complete(SQUASH_PROCESSING, 2, b"ab", &mut out), SQUASH_PROCESSING);
    assert_eq!(stream.avail_in(), 1);
    assert_eq!(stream.avail_out(), 0);

    let mut stream =
        SquashStream::new(&codec, SquashStreamType::SQUASH_STREAM_COMPRESS, &options).unwrap();
    assert_eq!(
        stream.begin(SquashOperation::SQUASH_OPERATION_TERMINATE, b"abc", 8),
        SQUASH_STATE
    );

    let native = copy_codec();
    let options = SquashOptions::new(native.get_option_info()).unwrap();
    let mut stream =
        SquashStream::new(&native, SquashStreamType::SQUASH_STREAM_COMPRESS, &options).unwrap();
    assert_eq!(
        stream.begin(SquashOperation::SQUASH_OPERATION_PROCESS, b"abc", 8),
        SQUASH_INVALID_OPERATION
    );
    let mut stream =
        SquashStream::new(&native, SquashStreamType::SQUASH_STREAM_COMPRESS, &options).unwrap();
    assert_eq!(stream.complete(SQUASH_OK, 0, b"", &mut out), SQUASH_INVALID_OPERATION);
    assert_eq!(stream.release(), None);
}

#[test]
fn a_failure_of_the_worker_ends_the_stream_and_the_worker() {
    let codec = threaded_codec();
    let options = SquashOptions::new(codec.get_option_info()).unwrap();
    let mut out = [0u8; 8];
    let mut stream =
        SquashStream::new(&codec, SquashStreamType::SQUASH_STREAM_COMPRESS, &options).unwrap();
    assert_eq!(stream.begin(SquashOperation::SQUASH_OPERATION_PROCESS, b"abc", 8), SQUASH_OK);
    assert_eq!(
        stream.complete(squash::status::SQUASH_MEMORY, 1, b"", &mut out),
        squash::status::SQUASH_MEMORY
    );
    assert_eq!(stream.total_in(), 1);
    assert_eq!(stream.state(), SQUASH_STREAM_STATE_FINISHED);
    assert_eq!(stream.begin(SquashOperation::SQUASH_OPERATION_PROCESS, b"abc", 8), SQUASH_STATE);
    assert_eq!(stream.release(), None);
}

#[test]
fn numbers_of_stream_types_and_operations() {
    assert_eq!(SquashStreamType::SQUASH_STREAM_COMPRESS.code(), 1);
    assert_eq!(SquashStreamType::SQUASH_STREAM_DECOMPRESS.code(), 2);
    assert_eq!(SquashStreamType::from_code(1), Some(SquashStreamType::SQUASH_STREAM_COMPRESS));
    assert_eq!(SquashStreamType::from_code(2), Some(SquashStreamType::SQUASH_STREAM_DECOMPRESS));
    assert_eq!(SquashStreamType::from_code(0), None);
    assert_eq!(SquashStreamType::from_code(3), None);
    assert_eq!(SquashOperation::SQUASH_OPERATION_PROCESS.code(), 1);
    assert_eq!(SquashOperation::SQUASH_OPERATION_FLUSH.code(), 2);
    assert_eq!(SquashOperation::SQUASH_OPERATION_FINISH.code(), 3);
    assert_eq!(SquashOperation::SQUASH_OPERATION_TERMINATE.code(), 4);
    for code in 1..=4 {
        assert_eq!(SquashOperation::from_code(code).unwrap().code(), code);
    }
    assert_eq!(SquashOperation::from_code(0), None);
    assert_eq!(SquashOperation::from_code(5), None);
    assert_eq!(SQUASH_STREAM_STATE_IDLE, 0);
    assert_eq!(SQUASH_STREAM_STATE_RUNNING, 1);
    assert_eq!(squash::stream::SQUASH_STREAM_STATE_FLUSHING, 2);
    assert_eq!(SQUASH_STREAM_STATE_FINISHING, 3);
    assert_eq!(SQUASH_STREAM_STATE_FINISHED, 4);
}

#[test]
fn windows_that_the_totals_cannot_count_are_refused() {
    let codec = threaded_codec();
    let options = SquashOptions::new(codec.get_option_info()).unwrap();
    let mut stream =
        SquashStream::new(&codec, SquashStreamType::SQUASH_STREAM_COMPRESS, &options).unwrap();
    let mut out = [0u8; 8];
    assert_eq!(
        stream.begin(SquashOperation::SQUASH_OPERATION_PROCESS, b"abc", usize::MAX),
        SQUASH_OK
    );
    assert_eq!(stream.complete(SQUASH_OK, 3, b"abc", &mut out), SQUASH_OK);
    assert_eq!(stream.total_out(), 3);
    assert_eq!(stream.avail_out(), usize::MAX - 3);
    assert_eq!(
        stream.begin(SquashOperation::SQUASH_OPERATION_PROCESS, b"", usize::MAX - 2),
        squash::status::SQUASH_RANGE
    );
    assert_eq!(stream.total_out(), 3);
    assert_eq!(stream.state(), SQUASH_STREAM_STATE_FINISHED);
    assert_eq!(stream.release(), Some(SquashOperation::SQUASH_OPERATION_TERMINATE));

    let mut stream =
        SquashStream::new(&codec, SquashStreamType::SQUASH_STREAM_COMPRESS, &options).unwrap();
    assert_eq!(
        stream.begin(SquashOperation::SQUASH_OPERATION_PROCESS, b"abc", usize::MAX),
        SQUASH_OK
    );
    assert_eq!(stream.complete(SQUASH_OK, 3, b"abc", &mut out), SQUASH_OK);
    assert_eq!(
        stream.begin(SquashOperation::SQUASH_OPERATION_PROCESS, b"", usize::MAX - 3),
        SQUASH_OK
    );
}
