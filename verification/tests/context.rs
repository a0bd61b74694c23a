use squash::context::SquashContext;
use squash::status::{SQUASH_OK, SQUASH_PROCESSING};
use squash::{SquashCodec, SquashCopy, SquashOptions, SquashStream, SquashStreamType};

#[test]
fn found_codecs() {
    let mut context = SquashContext::get_default();
    assert!(context.len() > 0);
    println!("found {} codecs", context.len());

    let mut names = Vec::new();
    for index in 0..context.len() {
        let name = String::from(context.get_name_at(index).unwrap());
        println!("found codec: {}", name);
        names.push(name);
    }
    let mut error_occurred = false;
    for name in names {
        if context.get_codec(&name).is_none() {
            error_occurred = true;
        }
    }
    assert!(!error_occurred, "memory error while loading codecs");
}

#[test]
fn default_registry_has_copy() {
    let mut context = SquashContext::get_default();
    assert_eq!(context.len(), 1);
    assert_eq!(context.get_name_at(0), Some("copy"));
    assert_eq!(context.get_name_at(1), None);
    let codec = context.get_codec("copy").unwrap();
    assert_eq!(codec.get_name(), "copy");
    assert_eq!(codec.get_priority(), 50);
    assert!(matches!(codec, SquashCodec::NativeStreaming(_)));
    let options = SquashOptions::new(codec.get_option_info()).unwrap();
    assert_eq!(codec.compress(b"hello", &options).unwrap(), b"hello");
    let mut stream =
        SquashStream::new(codec, SquashStreamType::SQUASH_STREAM_DECOMPRESS, &options).unwrap();
    let mut out = [0u8; 3];
    assert_eq!(stream.process(b"hello", &mut out), SQUASH_PROCESSING);
    assert_eq!(stream.finish(b"lo", &mut out), SQUASH_OK);
    assert!(context.get_codec("Copy").is_none());
    assert!(context.get_codec("").is_none());
    assert!(context.get_codec_from_extension("copy").is_none());
}

#[test]
fn empty_registry_finds_nothing() {
    let mut context: SquashContext<SquashCopy> = SquashContext::new();
    assert_eq!(context.len(), 0);
    assert!(context.get_codec("copy").is_none());
    assert!(context.get_codec_from_extension("cp").is_none());
    assert_eq!(context.get_name_at(0), None);
}

#[test]
fn highest_priority_wins_and_the_first_of_equals() {
    let mut context = SquashContext::new();
    context.add_codec("copy", Some("a"), 10, SquashCopy::new());
    context.add_codec("copy", Some("b"), 30, SquashCopy::new());
    context.add_codec("other", Some("c"), 99, SquashCopy::new());
    context.add_codec("copy", Some("d"), 30, SquashCopy::new());
    context.add_codec("copy", Some("e"), 20, SquashCopy::new());
    assert_eq!(context.len(), 5);
    let codec = context.get_codec("copy").unwrap();
    assert_eq!(codec.get_priority(), 30);
    assert_eq!(codec.get_extension(), Some("b"));
    let codec = context.get_codec("copy").unwrap();
    assert_eq!(codec.get_extension(), Some("b"));
    let codec = context.get_codec("other").unwrap();
    assert_eq!(codec.get_priority(), 99);
    assert_eq!(codec.get_name(), "other");

    context.add_codec("copy", Some("f"), 31, SquashCopy::new());
    let codec = context.get_codec("copy").unwrap();
    assert_eq!(codec.get_priority(), 31);
    assert_eq!(codec.get_extension(), Some("f"));
}

#[test]
fn codecs_are_found_by_extension() {
    let mut context = SquashContext::new();
    context.add_codec("copy", Some("cp"), 10, SquashCopy::new());
    context.add_codec("same", Some("cp"), 20, SquashCopy::new());
    context.add_codec("bare", None, 30, SquashCopy::new());
    let codec = context.get_codec_from_extension("cp").unwrap();
    assert_eq!(codec.get_name(), "same");
    assert_eq!(codec.get_extension(), Some("cp"));
    assert!(context.get_codec_from_extension("bare").is_none());
    assert!(context.get_codec_from_extension("").is_none());
    assert!(context.get_codec_from_extension("CP").is_none());
    assert_eq!(context.get_codec("copy").unwrap().get_extension(), Some("cp"));
    assert_eq!(context.get_codec("bare").unwrap().get_extension(), None);
}
