//! The order in which a model is loaded: both files are searched for, and only when both have been
//! found is anything created or opened, the encoder first.
use crate::error::ModelError;
use crate::loading::ModelPart;
use vstd::prelude::*;

verus! {

/// What is to be done next to load a model.
#[derive(Debug)]
pub enum PretrainedStep {
    /// Search for the file of this half.
    Find(ModelPart),
    /// Create the directory for context models.
    CreateContextDirectory,
    /// Open the session of this half.
    Open(ModelPart),
    /// The model is loaded.
    Loaded,
    /// The model could not be loaded.
    Failed(ModelError),
}

/// How it went.
#[derive(Debug)]
pub enum PretrainedEvent {
    /// The file was found, or the session is open.
    Succeeded,
    /// The file was not found, or the session could not be opened.
    Failed(ModelError),
    /// Whether the directory is there now.
    Created(bool),
}

/// The steps of a model that is loaded without a failure, in order.
pub open spec fn steps_in_order(keeps_contexts: bool) -> Seq<PretrainedStep> {
    if keeps_contexts {
        seq![
            PretrainedStep::Find(ModelPart::Encoder),
            PretrainedStep::Find(ModelPart::DecoderJoint),
            PretrainedStep::CreateContextDirectory,
            PretrainedStep::Open(ModelPart::Encoder),
            PretrainedStep::Open(ModelPart::DecoderJoint),
            PretrainedStep::Loaded,
        ]
    } else {
        seq![
            PretrainedStep::Find(ModelPart::Encoder),
            PretrainedStep::Find(ModelPart::DecoderJoint),
            PretrainedStep::Open(ModelPart::Encoder),
            PretrainedStep::Open(ModelPart::DecoderJoint),
            PretrainedStep::Loaded,
        ]
    }
}

impl PretrainedStep {
    /// The event answers what the step asks for.
    pub open spec fn accepts(self, event: PretrainedEvent) -> bool {
        match self {
            PretrainedStep::Find(_) => event is Succeeded || event is Failed,
            PretrainedStep::CreateContextDirectory => event is Created,
            PretrainedStep::Open(_) => event is Succeeded || event is Failed,
            PretrainedStep::Loaded => false,
            PretrainedStep::Failed(_) => false,
        }
    }

    /// What comes after: an error ends loading and is passed on; a directory that could not be
    /// created does not. `keeps_contexts` says whether there is to be a directory for context
    /// models.
    pub open spec fn after(self, keeps_contexts: bool, event: PretrainedEvent) -> PretrainedStep {
        match (self, event) {
            (_, PretrainedEvent::Failed(error)) => PretrainedStep::Failed(error),
            (PretrainedStep::Find(ModelPart::Encoder), _) => PretrainedStep::Find(
                ModelPart::DecoderJoint,
            ),
            (PretrainedStep::Find(ModelPart::DecoderJoint), _) => if keeps_contexts {
                PretrainedStep::CreateContextDirectory
            } else {
                PretrainedStep::Open(ModelPart::Encoder)
            },
            (PretrainedStep::CreateContextDirectory, _) => PretrainedStep::Open(ModelPart::Encoder),
            (PretrainedStep::Open(ModelPart::Encoder), _) => PretrainedStep::Open(
                ModelPart::DecoderJoint,
            ),
            _ => PretrainedStep::Loaded,
        }
    }

    /// Where loading stands after these events.
    pub open spec fn run(keeps_contexts: bool, events: Seq<PretrainedEvent>) -> PretrainedStep
        decreases events.len(),
    {
        if events.len() == 0 {
            PretrainedStep::Find(ModelPart::Encoder)
        } else {
            PretrainedStep::run(keeps_contexts, events.drop_last()).after(
                keeps_contexts,
                events.last(),
            )
        }
    }

    /// Each of these events answers what loading asks for at its turn.
    pub open spec fn accepts_all(keeps_contexts: bool, events: Seq<PretrainedEvent>) -> bool
        decreases events.len(),
    {
        events.len() > 0 ==> {
            let front = events.drop_last();
            &&& PretrainedStep::accepts_all(keeps_contexts, front)
            &&& PretrainedStep::run(keeps_contexts, front).accepts(events.last())
        }
    }

    /// Where loading begins.
    pub fn first() -> (r: PretrainedStep)
        ensures
            r == PretrainedStep::Find(ModelPart::Encoder),
    {
        PretrainedStep::Find(ModelPart::Encoder)
    }

    /// What is to be done after this step.
    pub fn next(&self, keeps_contexts: bool, event: PretrainedEvent) -> (r: PretrainedStep)
        requires
            self.accepts(event),
        ensures
            r == self.after(keeps_contexts, event),
    {
        match (self, event) {
            (_, PretrainedEvent::Failed(error)) => PretrainedStep::Failed(error),
            (PretrainedStep::Find(ModelPart::Encoder), _) => PretrainedStep::Find(
                ModelPart::DecoderJoint,
            ),
            (PretrainedStep::Find(ModelPart::DecoderJoint), _) => if keeps_contexts {
                PretrainedStep::CreateContextDirectory
            } else {
                PretrainedStep::Open(ModelPart::Encoder)
            },
            (PretrainedStep::CreateContextDirectory, _) => PretrainedStep::Open(ModelPart::Encoder),
            (PretrainedStep::Open(ModelPart::Encoder), _) => PretrainedStep::Open(
                ModelPart::DecoderJoint,
            ),
            _ => PretrainedStep::Loaded,
        }
    }
}

/// A model is loaded in a fixed order, one step for each event, until it is loaded or something
/// fails; what fails ends loading there and then, with its own error.
pub proof fn law_steps_come_in_order(keeps_contexts: bool, events: Seq<PretrainedEvent>)
    requires
        PretrainedStep::accepts_all(keeps_contexts, events),
    ensures
        events.len() < steps_in_order(keeps_contexts).len(),
        match PretrainedStep::run(keeps_contexts, events) {
            PretrainedStep::Failed(error) => events.len() > 0 && events.last()
                == PretrainedEvent::Failed(error) && forall|i: int|
                0 <= i < events.len() - 1 ==> !(#[trigger] events[i] is Failed),
            step => step == steps_in_order(keeps_contexts)[events.len() as int] && forall|i: int|
                0 <= i < events.len() ==> !(#[trigger] events[i] is Failed),
        },
    decreases events.len(),
{
    if events.len() > 0 {
        let front = events.drop_last();
        law_steps_come_in_order(keeps_contexts, front);
        assert forall|i: int| 0 <= i < events.len() - 1 implies !(#[trigger] events[i]
            is Failed) by {
            assert(front[i] == events[i]);
        }
    }
}

/// Nothing is created or opened before both files have been found, and the encoder is searched for
/// first: where a search fails, loading ends with its error.
pub proof fn law_both_files_are_found_first(keeps_contexts: bool, events: Seq<PretrainedEvent>)
    requires
        PretrainedStep::accepts_all(keeps_contexts, events),
    ensures
        PretrainedStep::run(keeps_contexts, events) is CreateContextDirectory
            || PretrainedStep::run(keeps_contexts, events) is Open || PretrainedStep::run(
            keeps_contexts,
            events,
        ) is Loaded ==> events.len() >= 2 && events[0] is Succeeded && events[1] is Succeeded,
        forall|error: ModelError, part: ModelPart| #[trigger]
            PretrainedStep::Find(part).after(keeps_contexts, PretrainedEvent::Failed(error))
                == PretrainedStep::Failed(error),
    decreases events.len(),
{
    law_steps_come_in_order(keeps_contexts, events);
    if events.len() > 0 {
        let front = events.drop_last();
        law_steps_come_in_order(keeps_contexts, front);
        law_both_files_are_found_first(keeps_contexts, front);
        if front.len() >= 2 {
            assert(front[0] == events[0] && front[1] == events[1]);
        } else if front.len() == 1 {
            assert(front.last() == events[0]);
            reveal_with_fuel(PretrainedStep::accepts_all, 2);
        }
    }
}

/// A model counts as loaded only where both sessions were opened, the encoder's before the
/// decoder's.
pub proof fn law_loaded_means_both_are_open(keeps_contexts: bool, events: Seq<PretrainedEvent>)
    requires
        PretrainedStep::accepts_all(keeps_contexts, events),
        PretrainedStep::run(keeps_contexts, events) is Loaded,
    ensures
        events.len() >= 4,
        events.last() is Succeeded,
        events[events.len() - 2] is Succeeded,
        PretrainedStep::run(keeps_contexts, events.drop_last()) == PretrainedStep::Open(
            ModelPart::DecoderJoint,
        ),
        PretrainedStep::run(keeps_contexts, events.drop_last().drop_last()) == PretrainedStep::Open(
            ModelPart::Encoder,
        ),
{
    let front = events.drop_last();
    reveal_with_fuel(PretrainedStep::accepts_all, 2);
    law_steps_come_in_order(keeps_contexts, events);
    law_steps_come_in_order(keeps_contexts, front);
    law_steps_come_in_order(keeps_contexts, front.drop_last());
    assert(front.last() == events[events.len() - 2]);
}

/// A directory for context models that cannot be created does not stand in the way of loading.
pub proof fn law_missing_directory_is_passed_over(keeps_contexts: bool, created: bool)
    ensures
        PretrainedStep::CreateContextDirectory.after(
            keeps_contexts,
            PretrainedEvent::Created(created),
        ) == PretrainedStep::Open(ModelPart::Encoder),
{
}

/// What is done first, and what is done next: the encoder is searched for, then the decoder; then
/// the directory for context models is created where there is to be one, whether that succeeds or
/// not; then the encoder is opened, and then the decoder. A failed search or a session that could
/// not be opened ends it with its error.
pub proof fn law_what_is_done_next(
    first: PretrainedStep,
    step: &PretrainedStep,
    keeps_contexts: bool,
    event: PretrainedEvent,
    r: PretrainedStep,
)
    requires
        call_ensures(PretrainedStep::first, (), first),
        call_ensures(PretrainedStep::next, (step, keeps_contexts, event), r),
    ensures
        first == PretrainedStep::Find(ModelPart::Encoder),
        event matches PretrainedEvent::Failed(error) ==> r == PretrainedStep::Failed(error),
        !(event is Failed) ==> {
            &&& *step == PretrainedStep::Find(ModelPart::Encoder) ==> r == PretrainedStep::Find(
                ModelPart::DecoderJoint,
            )
            &&& *step == PretrainedStep::Find(ModelPart::DecoderJoint) && keeps_contexts ==> r
                is CreateContextDirectory
            &&& *step == PretrainedStep::Find(ModelPart::DecoderJoint) && !keeps_contexts ==> r
                == PretrainedStep::Open(ModelPart::Encoder)
            &&& step is CreateContextDirectory ==> r == PretrainedStep::Open(ModelPart::Encoder)
            &&& *step == PretrainedStep::Open(ModelPart::Encoder) ==> r == PretrainedStep::Open(
                ModelPart::DecoderJoint,
            )
            &&& *step == PretrainedStep::Open(ModelPart::DecoderJoint) ==> r is Loaded
        },
{
}

/// Every answer to what a step asks for is taken: that a search or an attempt to open a session
/// succeeded or failed, and whether the directory is there.
pub proof fn law_every_answer_moves_on(
    step: &PretrainedStep,
    keeps_contexts: bool,
    event: PretrainedEvent,
)
    ensures
        (step is Find || step is Open) && (event is Succeeded || event is Failed) ==> call_requires(
            PretrainedStep::next,
            (step, keeps_contexts, event),
        ),
        step is CreateContextDirectory && event is Created ==> call_requires(
            PretrainedStep::next,
            (step, keeps_contexts, event),
        ),
{
}

}
