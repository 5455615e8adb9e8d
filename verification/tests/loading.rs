use parakeet_tdt::error::ModelError;
use parakeet_tdt::execution::ExecutionProvider;
use parakeet_tdt::loading::{LoadEvent, LoadStage, ModelPart, SessionLoad};

fn load(part: ModelPart, provider: ExecutionProvider, keeps_contexts: bool) -> SessionLoad<u32> {
    SessionLoad::new(part, provider, keeps_contexts, "encoder_ctx.onnx".to_string())
}

fn error(message: &str) -> ModelError {
    ModelError::Model(message.to_string())
}

fn failure(load: SessionLoad<u32>) -> String {
    match load.into_outcome() {
        Some(Err(ModelError::Model(message))) => message,
        _ => panic!("loading was to fail"),
    }
}

#[test]
fn without_a_directory_the_model_is_compiled() {
    let mut load = load(ModelPart::Encoder, ExecutionProvider::QNN, false);
    assert!(matches!(load.current(), LoadStage::Compile));
    load.advance(LoadEvent::Opened(7));
    assert!(matches!(load.current(), LoadStage::Opened(7)));
}

#[test]
fn model_that_does_not_compile_fails() {
    let mut load = load(ModelPart::DecoderJoint, ExecutionProvider::Cpu, false);
    load.advance(LoadEvent::NotOpened(error("first")));
    assert!(matches!(load.current(), LoadStage::Failed(_)));
}

#[test]
fn context_model_that_is_there_is_opened() {
    for opens in [true, false] {
        let mut load = load(ModelPart::Encoder, ExecutionProvider::QNN, true);
        assert!(matches!(load.current(), LoadStage::FindContext));
        load.advance(LoadEvent::Exists(true));
        assert!(matches!(load.current(), LoadStage::OpenContext));
        if opens {
            load.advance(LoadEvent::Opened(7));
            assert!(matches!(load.current(), LoadStage::Opened(7)));
        } else {
            load.advance(LoadEvent::NotOpened(error("first")));
            assert!(matches!(load.current(), LoadStage::Failed(_)));
        }
    }
}

#[test]
fn context_model_is_kept() {
    let mut load = load(ModelPart::DecoderJoint, ExecutionProvider::Cuda, true);
    load.advance(LoadEvent::Exists(false));
    assert!(matches!(load.current(), LoadStage::CompileAndCache));
    load.advance(LoadEvent::Opened(7));
    assert!(matches!(load.current(), LoadStage::Opened(7)));
}

#[test]
fn context_model_that_cannot_be_kept_is_cleared_up() {
    let mut load = load(ModelPart::Encoder, ExecutionProvider::QNN, true);
    load.advance(LoadEvent::Exists(false));
    load.advance(LoadEvent::NotOpened(error("first")));
    assert!(matches!(load.current(), LoadStage::RemoveContext));
    load.advance(LoadEvent::Removed);
    assert!(matches!(load.current(), LoadStage::ListCompanions));
    load.advance(LoadEvent::Listed(vec![
        "decoder_ctx.onnx.bin".to_string(),
        "encoder_ctx.onnx_QNNExecutionProvider_0.bin".to_string(),
    ]));
    match load.current() {
        LoadStage::RemoveCompanions(names) => {
            assert_eq!(names, &vec!["encoder_ctx.onnx_QNNExecutionProvider_0.bin".to_string()])
        }
        _ => panic!("companions were to be removed"),
    }
    load.advance(LoadEvent::Removed);
    assert!(matches!(load.current(), LoadStage::Compile));
    load.advance(LoadEvent::Opened(7));
    assert!(matches!(load.current(), LoadStage::Opened(7)));
}

#[test]
fn decoder_of_a_qnn_model_runs_on_the_cpu() {
    for keeps_contexts in [true, false] {
        let mut load = load(ModelPart::DecoderJoint, ExecutionProvider::QNN, keeps_contexts);
        assert!(matches!(load.current(), LoadStage::OpenOnCpu));
        load.advance(LoadEvent::NotOpened(error("first")));
        assert!(matches!(load.current(), LoadStage::Failed(_)));
    }
}

#[test]
fn only_one_stage_opens_the_context_model() {
    assert!(LoadStage::<u32>::OpenContext.opens_context());
    for stage in [
        LoadStage::FindContext,
        LoadStage::CompileAndCache,
        LoadStage::Compile,
        LoadStage::OpenOnCpu,
        LoadStage::Opened(7),
    ] {
        assert!(!stage.opens_context());
    }
}

#[test]
fn second_attempt_decides() {
    for opens in [true, false] {
        let mut load = load(ModelPart::Encoder, ExecutionProvider::QNN, true);
        load.advance(LoadEvent::Exists(false));
        load.settle(Err(error("first")));
        load.advance(LoadEvent::Removed);
        load.advance(LoadEvent::Listed(Vec::new()));
        load.advance(LoadEvent::Removed);
        assert!(matches!(load.current(), LoadStage::Compile));
        if opens {
            load.settle(Ok(7));
            assert!(matches!(load.into_outcome(), Some(Ok(7))));
        } else {
            load.settle(Err(error("second")));
            assert_eq!(failure(load), "second");
        }
    }
}

#[test]
fn first_attempt_that_succeeds_is_kept() {
    let mut load = load(ModelPart::Encoder, ExecutionProvider::QNN, true);
    load.advance(LoadEvent::Exists(false));
    load.settle(Ok(7));
    assert!(matches!(load.into_outcome(), Some(Ok(7))));
}

#[test]
fn context_model_that_does_not_open_gives_its_error() {
    let mut load = load(ModelPart::Encoder, ExecutionProvider::QNN, true);
    load.advance(LoadEvent::Exists(true));
    load.settle(Err(error("context")));
    assert_eq!(failure(load), "context");
}

#[test]
fn loading_that_is_not_over_has_no_outcome() {
    let load = load(ModelPart::Encoder, ExecutionProvider::QNN, true);
    assert!(load.into_outcome().is_none());
}
