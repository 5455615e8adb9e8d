use parakeet_tdt::error::ModelError;
use parakeet_tdt::loading::ModelPart;
use parakeet_tdt::pretrained::{PretrainedEvent, PretrainedStep};

fn failure() -> PretrainedEvent {
    PretrainedEvent::Failed(ModelError::Config("gone".to_string()))
}

fn assert_failed(step: PretrainedStep) {
    match step {
        PretrainedStep::Failed(ModelError::Config(message)) => assert_eq!(message, "gone"),
        _ => panic!("loading was to end"),
    }
}

#[test]
fn model_is_loaded_in_order() {
    let step = PretrainedStep::first();
    assert!(matches!(step, PretrainedStep::Find(ModelPart::Encoder)));
    let step = step.next(false, PretrainedEvent::Succeeded);
    assert!(matches!(step, PretrainedStep::Find(ModelPart::DecoderJoint)));
    let step = step.next(false, PretrainedEvent::Succeeded);
    assert!(matches!(step, PretrainedStep::Open(ModelPart::Encoder)));
    let step = step.next(false, PretrainedEvent::Succeeded);
    assert!(matches!(step, PretrainedStep::Open(ModelPart::DecoderJoint)));
    let step = step.next(false, PretrainedEvent::Succeeded);
    assert!(matches!(step, PretrainedStep::Loaded));
}

#[test]
fn directory_for_context_models_is_created_before_anything_is_opened() {
    for created in [true, false] {
        let step = PretrainedStep::Find(ModelPart::DecoderJoint);
        let step = step.next(true, PretrainedEvent::Succeeded);
        assert!(matches!(step, PretrainedStep::CreateContextDirectory));
        let step = step.next(true, PretrainedEvent::Created(created));
        assert!(matches!(step, PretrainedStep::Open(ModelPart::Encoder)));
    }
}

#[test]
fn failed_search_ends_loading() {
    for keeps_contexts in [true, false] {
        assert_failed(PretrainedStep::first().next(keeps_contexts, failure()));
        let step = PretrainedStep::Find(ModelPart::DecoderJoint);
        assert_failed(step.next(keeps_contexts, failure()));
    }
}

#[test]
fn session_that_does_not_open_ends_loading() {
    for part in [ModelPart::Encoder, ModelPart::DecoderJoint] {
        assert_failed(PretrainedStep::Open(part).next(true, failure()));
    }
}
