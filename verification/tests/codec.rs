use squash::codec::{
    squash_codec_info_test, SQUASH_CODEC_INFO_AUTO_MASK, SQUASH_CODEC_INFO_CAN_FLUSH,
    SQUASH_CODEC_INFO_DECOMPRESS_SAFE, SQUASH_CODEC_INFO_INVALID,
    SQUASH_CODEC_INFO_KNOWS_UNCOMPRESSED_SIZE, SQUASH_CODEC_INFO_MASK,
    SQUASH_CODEC_INFO_NATIVE_STREAMING, SQUASH_CODEC_INFO_RUN_IN_THREAD, SQUASH_CODEC_INFO_VALID,
};
use squash::copy::{squash_copy_codec, SQUASH_COPY_INFO, SQUASH_COPY_PRIORITY};
use squash::option::{
    SQUASH_OPTION_TYPE_BOOL, SQUASH_OPTION_TYPE_INT, SQUASH_OPTION_TYPE_RANGE_INT,
};
use squash::status::{SQUASH_OK, SQUASH_UNABLE_TO_LOAD};
use squash::{
    SquashCodec, SquashCodecFuncs, SquashCodecImpl, SquashCopy, SquashOptionInfo,
    SquashOptionInfoRangeInt, SquashOptionInfoUnion, SquashOptionValue,
};

fn copy_table() -> SquashCodecImpl {
    match SquashCopy::new().init_codec() {
        Ok(table) => table,
        Err(status) => panic!("copy gave no table: {}", status),
    }
}

fn status_of(made: Result<SquashCodec<SquashCopy>, i32>) -> i32 {
    match made {
        Ok(_) => SQUASH_OK,
        Err(status) => status,
    }
}

#[test]
fn capability_bits_have_their_positions() {
    assert_eq!(SQUASH_CODEC_INFO_INVALID, 0);
    assert_eq!(SQUASH_CODEC_INFO_CAN_FLUSH, 1 << 0);
    assert_eq!(SQUASH_CODEC_INFO_RUN_IN_THREAD, 1 << 1);
    assert_eq!(SQUASH_CODEC_INFO_DECOMPRESS_SAFE, 1 << 2);
    assert_eq!(SQUASH_CODEC_INFO_VALID, 1 << 16);
    assert_eq!(SQUASH_CODEC_INFO_KNOWS_UNCOMPRESSED_SIZE, 1 << 17);
    assert_eq!(SQUASH_CODEC_INFO_NATIVE_STREAMING, 1 << 18);
    assert_eq!(SQUASH_CODEC_INFO_AUTO_MASK, 0x00ff0000);
    assert_eq!(SQUASH_CODEC_INFO_MASK, 0xffffffff);
}

#[test]
fn capability_bits_are_tested_one_by_one() {
    let bits = [
        SQUASH_CODEC_INFO_CAN_FLUSH,
        SQUASH_CODEC_INFO_RUN_IN_THREAD,
        SQUASH_CODEC_INFO_DECOMPRESS_SAFE,
        SQUASH_CODEC_INFO_VALID,
        SQUASH_CODEC_INFO_KNOWS_UNCOMPRESSED_SIZE,
        SQUASH_CODEC_INFO_NATIVE_STREAMING,
    ];
    for (i, bit) in bits.iter().enumerate() {
        for (k, other) in bits.iter().enumerate() {
            assert_eq!(squash_codec_info_test(*bit, *other), i == k);
            assert!(squash_codec_info_test(*bit | *other, *bit));
            assert!(squash_codec_info_test(*bit | *other, *other));
        }
        assert!(!squash_codec_info_test(SQUASH_CODEC_INFO_INVALID, *bit));
        assert!(squash_codec_info_test(SQUASH_CODEC_INFO_MASK, *bit));
    }
}

#[test]
fn empty_table_provides_nothing() {
    let table = SquashCodecImpl::new();
    assert_eq!(table.info, SQUASH_CODEC_INFO_INVALID);
    assert!(table.options.is_empty());
    assert!(!table.create_stream);
    assert!(!table.process_stream);
    assert!(!table.compress_buffer);
    assert!(!table.compress_buffer_unsafe);
    assert!(!table.decompress_buffer);
    assert!(!table.get_uncompressed_size);
    assert!(!table.get_max_compressed_size);
    assert_eq!(
        status_of(SquashCodec::new("none", None, 1, table, SquashCopy::new())),
        SQUASH_UNABLE_TO_LOAD
    );
}

#[test]
fn copy_fills_in_its_table() {
    let table = copy_table();
    assert_eq!(table.info, SQUASH_COPY_INFO);
    assert_eq!(table.info, SQUASH_CODEC_INFO_CAN_FLUSH | SQUASH_CODEC_INFO_DECOMPRESS_SAFE);
    assert!(table.options.is_empty());
    assert!(table.create_stream);
    assert!(table.process_stream);
    assert!(table.compress_buffer);
    assert!(!table.compress_buffer_unsafe);
    assert!(table.decompress_buffer);
    assert!(table.get_uncompressed_size);
    assert!(table.get_max_compressed_size);
}

#[test]
fn loaded_codec_has_its_information_resolved() {
    let codec = squash_copy_codec();
    assert!(matches!(codec, SquashCodec::NativeStreaming(_)));
    assert_eq!(codec.get_name(), "copy");
    assert_eq!(codec.get_extension(), None);
    assert_eq!(codec.get_priority(), SQUASH_COPY_PRIORITY);
    assert_eq!(codec.get_priority(), 50);
    assert_eq!(
        codec.get_info(),
        SQUASH_CODEC_INFO_CAN_FLUSH
            | SQUASH_CODEC_INFO_DECOMPRESS_SAFE
            | SQUASH_CODEC_INFO_VALID
            | SQUASH_CODEC_INFO_KNOWS_UNCOMPRESSED_SIZE
            | SQUASH_CODEC_INFO_NATIVE_STREAMING
    );
    assert_eq!(codec.get_impl().info, codec.get_info());
    assert!(codec.get_option_info().is_empty());
}

#[test]
fn declared_bits_under_the_auto_mask_are_ignored() {
    let mut table = copy_table();
    table.info = SQUASH_CODEC_INFO_CAN_FLUSH | 0x00ff0000;
    table.get_uncompressed_size = false;
    table.create_stream = false;
    let codec = SquashCodec::new("copy", Some("cp"), 7, table, SquashCopy::new()).unwrap();
    assert!(matches!(codec, SquashCodec::BufferOnly(_)));
    assert_eq!(codec.get_info(), SQUASH_CODEC_INFO_CAN_FLUSH | SQUASH_CODEC_INFO_VALID);
    assert_eq!(codec.get_extension(), Some("cp"));
    assert_eq!(codec.get_priority(), 7);
}

#[test]
fn strategy_follows_the_table() {
    let mut threaded = copy_table();
    threaded.info |= SQUASH_CODEC_INFO_RUN_IN_THREAD;
    let codec = SquashCodec::new("copy", None, 1, threaded, SquashCopy::new()).unwrap();
    assert!(matches!(codec, SquashCodec::ThreadWrapped(_)));
    assert!(!squash_codec_info_test(codec.get_info(), SQUASH_CODEC_INFO_NATIVE_STREAMING));
    assert!(squash_codec_info_test(codec.get_info(), SQUASH_CODEC_INFO_RUN_IN_THREAD));

    let mut buffers = copy_table();
    buffers.process_stream = false;
    buffers.info |= SQUASH_CODEC_INFO_RUN_IN_THREAD;
    let codec = SquashCodec::new("copy", None, 1, buffers, SquashCopy::new()).unwrap();
    assert!(matches!(codec, SquashCodec::BufferOnly(_)));
    assert!(!squash_codec_info_test(codec.get_info(), SQUASH_CODEC_INFO_NATIVE_STREAMING));

    let mut native = copy_table();
    native.compress_buffer = false;
    native.decompress_buffer = false;
    let codec = SquashCodec::new("copy", None, 1, native, SquashCopy::new()).unwrap();
    assert!(matches!(codec, SquashCodec::NativeStreaming(_)));
    assert!(squash_codec_info_test(codec.get_info(), SQUASH_CODEC_INFO_NATIVE_STREAMING));
}

#[test]
fn unusable_tables_are_refused() {
    let mut no_size = copy_table();
    no_size.get_max_compressed_size = false;
    assert_eq!(
        status_of(SquashCodec::new("copy", None, 1, no_size, SquashCopy::new())),
        SQUASH_UNABLE_TO_LOAD
    );

    let mut one_way = copy_table();
    one_way.create_stream = false;
    one_way.decompress_buffer = false;
    assert_eq!(
        status_of(SquashCodec::new("copy", None, 1, one_way, SquashCopy::new())),
        SQUASH_UNABLE_TO_LOAD
    );

    let mut other_way = copy_table();
    other_way.process_stream = false;
    other_way.compress_buffer = false;
    assert_eq!(
        status_of(SquashCodec::new("copy", None, 1, other_way, SquashCopy::new())),
        SQUASH_UNABLE_TO_LOAD
    );

    let mut unsafe_only = copy_table();
    unsafe_only.process_stream = false;
    unsafe_only.compress_buffer = false;
    unsafe_only.compress_buffer_unsafe = true;
    assert_eq!(
        status_of(SquashCodec::new("copy", None, 1, unsafe_only, SquashCopy::new())),
        SQUASH_OK
    );
}

#[test]
fn a_schema_that_refuses_its_own_default_is_refused() {
    let mut table = copy_table();
    table.options.push(SquashOptionInfo {
        name: String::from("level"),
        option_type: SQUASH_OPTION_TYPE_RANGE_INT,
        info: SquashOptionInfoUnion::RangeInt(SquashOptionInfoRangeInt {
            min: 1,
            max: 9,
            modulus: 0,
            allow_zero: false,
        }),
        default_value: SquashOptionValue::Int(10),
    });
    assert_eq!(
        status_of(SquashCodec::new("copy", None, 1, table, SquashCopy::new())),
        SQUASH_UNABLE_TO_LOAD
    );

    let mut table = copy_table();
    table.options.push(SquashOptionInfo {
        name: String::from("level"),
        option_type: SQUASH_OPTION_TYPE_INT,
        info: SquashOptionInfoUnion::Unconstrained,
        default_value: SquashOptionValue::Bool(true),
    });
    assert_eq!(
        status_of(SquashCodec::new("copy", None, 1, table, SquashCopy::new())),
        SQUASH_UNABLE_TO_LOAD
    );

    let mut table = copy_table();
    table.options.push(SquashOptionInfo {
        name: String::from("verbose"),
        option_type: SQUASH_OPTION_TYPE_BOOL,
        info: SquashOptionInfoUnion::Unconstrained,
        default_value: SquashOptionValue::Bool(true),
    });
    let codec = SquashCodec::new("copy", None, 1, table, SquashCopy::new()).unwrap();
    assert_eq!(codec.get_option_info().len(), 1);
    assert_eq!(codec.get_option_info()[0].name, "verbose");
}

#[test]
fn sizes_are_asked_of_the_codec() {
    let codec = squash_copy_codec();
    assert_eq!(codec.get_max_compressed_size(0), 0);
    assert_eq!(codec.get_max_compressed_size(5), 5);
    assert_eq!(codec.get_max_compressed_size(usize::MAX), usize::MAX);
    assert_eq!(codec.get_uncompressed_size(b"hello"), Some(5));
    assert_eq!(codec.get_uncompressed_size(b""), None);

    let mut table = copy_table();
    table.get_uncompressed_size = false;
    let codec = SquashCodec::new("copy", None, 1, table, SquashCopy::new()).unwrap();
    assert_eq!(codec.get_uncompressed_size(b"hello"), None);
    assert!(!squash_codec_info_test(
        codec.get_info(),
        SQUASH_CODEC_INFO_KNOWS_UNCOMPRESSED_SIZE
    ));
}
