use parakeet_tdt::error::ModelError;
use parakeet_tdt::files::{
    context_companions, context_filename, ctx_filename, find_decoder_joint, find_encoder,
    SearchStep,
};
use std::path::PathBuf;

fn names(names: &[&str]) -> Vec<String> {
    names.iter().map(|name| name.to_string()).collect()
}

fn probed(step: SearchStep) -> &'static str {
    match step {
        SearchStep::Probe(name) => name,
        _ => panic!("a question was due"),
    }
}

fn found(step: SearchStep) -> String {
    match step {
        SearchStep::Found(name) => name,
        _ => panic!("a file was due"),
    }
}

fn missing(step: SearchStep) -> String {
    match step {
        SearchStep::Missing(ModelError::Config(message)) => message,
        _ => panic!("an error was due"),
    }
}

const NO: [bool; 5] = [false; 5];

#[test]
fn encoder_candidates_are_probed_in_order() {
    let expected = [
        "encoder-model.fp32.static.npu.onnx",
        "encoder-model.onnx",
        "encoder.onnx",
        "encoder-model.int8.onnx",
        "encoder/model.onnx",
    ];
    for i in 0..5 {
        assert_eq!(probed(find_encoder("dir", &NO[..i].to_vec(), &None)), expected[i]);
        let mut probes = NO[..i].to_vec();
        probes.push(true);
        assert_eq!(found(find_encoder("dir", &probes, &None)), expected[i]);
    }
}

#[test]
fn encoder_is_taken_from_the_listing_last() {
    assert!(matches!(find_encoder("dir", &NO.to_vec(), &None), SearchStep::List));
    let listing = Some(names(&[
        "config.json",
        "encoder.bin",
        "my-encoder.onnx",
        "encoder-v2.onnx",
        "encoder-v3.onnx",
    ]));
    assert_eq!(found(find_encoder("dir", &NO.to_vec(), &listing)), "encoder-v2.onnx");
    let listing = Some(names(&["decoder.onnx", "encode", ".onnx", ""]));
    assert_eq!(
        missing(find_encoder("/some/dir", &NO.to_vec(), &listing)),
        "No encoder model found in /some/dir"
    );
}

#[test]
fn decoder_candidates_are_probed_in_order() {
    let expected = [
        "decoder_joint-model.fp32.static.onnx",
        "decoder_joint-model.onnx",
        "decoder_joint-model.int8.onnx",
        "decoder_joint.onnx",
        "decoder-model.onnx",
    ];
    for i in 0..5 {
        assert_eq!(probed(find_decoder_joint("dir", &NO[..i].to_vec())), expected[i]);
        let mut probes = NO[..i].to_vec();
        probes.push(true);
        assert_eq!(found(find_decoder_joint("dir", &probes)), expected[i]);
    }
    assert_eq!(
        missing(find_decoder_joint("models", &NO.to_vec())),
        "No decoder_joint model found in models"
    );
}

#[test]
fn context_model_is_named_after_the_stem() {
    assert_eq!(context_filename(Some("encoder-model")), "encoder-model_ctx.onnx");
    assert_eq!(context_filename(Some("")), "_ctx.onnx");
    assert_eq!(context_filename(None), "model_ctx.onnx");
    assert_ne!(
        context_filename(Some("encoder-model")),
        context_filename(Some("decoder_joint-model"))
    );
}

#[test]
fn context_model_is_named_after_the_file() {
    let name = |path: &str| ctx_filename(&PathBuf::from(path));
    assert_eq!(name("models/encoder-model.onnx"), "encoder-model_ctx.onnx");
    assert_eq!(name("models/encoder/model.onnx"), "model_ctx.onnx");
    assert_eq!(
        name("models/encoder-model.fp32.static.npu.onnx"),
        "encoder-model.fp32.static.npu_ctx.onnx"
    );
    assert_eq!(name("encoder"), "encoder_ctx.onnx");
    assert_eq!(name(".."), "model_ctx.onnx");
    assert_eq!(name(""), "model_ctx.onnx");
}

#[test]
fn halves_are_kept_apart() {
    let encoders = [
        "encoder-model.fp32.static.npu.onnx",
        "encoder-model.onnx",
        "encoder.onnx",
        "encoder-model.int8.onnx",
        "encoder/model.onnx",
        "encoder-decoder_joint.onnx",
    ];
    let decoders = [
        "decoder_joint-model.fp32.static.onnx",
        "decoder_joint-model.onnx",
        "decoder_joint-model.int8.onnx",
        "decoder_joint.onnx",
        "decoder-model.onnx",
    ];
    for encoder in encoders {
        for decoder in decoders {
            let one = ctx_filename(&PathBuf::from(encoder));
            let other = ctx_filename(&PathBuf::from(decoder));
            assert!(!one.starts_with(&other) && !other.starts_with(&one));
            let listing = vec![format!("{}_0.bin", one), format!("{}_0.bin", other)];
            assert_eq!(context_companions(&one, &listing), listing[..1].to_vec());
            assert_eq!(context_companions(&other, &listing), listing[1..].to_vec());
        }
    }
}

#[test]
fn companions_begin_with_the_context_and_end_in_bin() {
    let listing = names(&[
        "encoder_ctx.onnx",
        "encoder_ctx.onnx_QNNExecutionProvider_1.bin",
        "decoder_ctx.onnx_QNNExecutionProvider_1.bin",
        "encoder_ctx.onnx.bin",
        "encoder_ctx.onnx.bin.old",
        "encoder_ctx.bin",
    ]);
    assert_eq!(
        context_companions("encoder_ctx.onnx", &listing),
        names(&["encoder_ctx.onnx_QNNExecutionProvider_1.bin", "encoder_ctx.onnx.bin"])
    );
    assert!(context_companions("other", &listing).is_empty());
}
