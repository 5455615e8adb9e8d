//! How the sessions of a model are opened, with context models kept for the next time.
//!
//! A `SessionLoad` says what is to be done next to open one session, and is told how it went,
//! until it holds the session or the error of the attempt that ended loading. Each session is
//! loaded on its own, so that a failure to keep a context model of one does not stand in the way
//! of the other.
use crate::error::ModelError;
use crate::execution::{
    builder_outcome, comes_to, has_nul_option, law_configuration_is_applied, law_valid_option_texts,
    lemma_told_next, refused, told, ExecutionProvider, ModelConfig,
};
use crate::files::{companions, context_companions, is_companion, texts};
use crate::runtime::{
    builder_options, refuses, refuses_config_entry, tell_config_entry, tell_intra_threads,
    tell_optimization, SessionOption,
};
use ort::session::builder::{GraphOptimizationLevel, SessionBuilder};
use vstd::prelude::*;

verus! {

/// The two halves of a model.
#[derive(Debug, Clone, Copy, PartialEq, Eq, Structural)]
pub enum ModelPart {
    Encoder,
    DecoderJoint,
}

/// What is to be done next to open a session of type `S`.
#[derive(Debug)]
pub enum LoadStage<S> {
    /// Ask whether the context model is there.
    FindContext,
    /// Open the context model.
    OpenContext,
    /// Open the model and have the runtime keep a context model.
    CompileAndCache,
    /// Remove the context model.
    RemoveContext,
    /// List the names in the directory of the context model.
    ListCompanions,
    /// Remove these files from the directory of the context model.
    RemoveCompanions(Vec<String>),
    /// Open the model.
    Compile,
    /// Open the model on the CPU alone.
    OpenOnCpu,
    /// This is the session.
    Opened(S),
    /// The session could not be opened.
    Failed(ModelError),
}

/// How it went.
#[derive(Debug)]
pub enum LoadEvent<S> {
    /// Whether the file is there.
    Exists(bool),
    /// The session is open.
    Opened(S),
    /// The session could not be set up or opened.
    NotOpened(ModelError),
    /// The names in the directory.
    Listed(Vec<String>),
    /// What was to be removed has been removed as far as it could be.
    Removed,
}

/// A stage with the names in it as texts.
pub enum Stage<S> {
    FindContext,
    OpenContext,
    CompileAndCache,
    RemoveContext,
    ListCompanions,
    RemoveCompanions(Seq<Seq<char>>),
    Compile,
    OpenOnCpu,
    Opened(S),
    Failed(ModelError),
}

/// An event with the names in it as texts.
pub enum Event<S> {
    Exists(bool),
    Opened(S),
    NotOpened(ModelError),
    Listed(Seq<Seq<char>>),
    Removed,
}

impl<S> View for LoadStage<S> {
    type V = Stage<S>;

    open spec fn view(&self) -> Stage<S> {
        match *self {
            LoadStage::FindContext => Stage::FindContext,
            LoadStage::OpenContext => Stage::OpenContext,
            LoadStage::CompileAndCache => Stage::CompileAndCache,
            LoadStage::RemoveContext => Stage::RemoveContext,
            LoadStage::ListCompanions => Stage::ListCompanions,
            LoadStage::RemoveCompanions(names) => Stage::RemoveCompanions(texts(names@)),
            LoadStage::Compile => Stage::Compile,
            LoadStage::OpenOnCpu => Stage::OpenOnCpu,
            LoadStage::Opened(session) => Stage::Opened(session),
            LoadStage::Failed(error) => Stage::Failed(error),
        }
    }
}

impl<S> View for LoadEvent<S> {
    type V = Event<S>;

    open spec fn view(&self) -> Event<S> {
        match *self {
            LoadEvent::Exists(answer) => Event::Exists(answer),
            LoadEvent::Opened(session) => Event::Opened(session),
            LoadEvent::NotOpened(error) => Event::NotOpened(error),
            LoadEvent::Listed(names) => Event::Listed(texts(names@)),
            LoadEvent::Removed => Event::Removed,
        }
    }
}

impl<S> Event<S> {
    /// An attempt to open the session came to this.
    pub open spec fn attempted(outcome: Result<S, ModelError>) -> Event<S> {
        match outcome {
            Ok(session) => Event::Opened(session),
            Err(error) => Event::NotOpened(error),
        }
    }
}

impl<S> LoadStage<S> {
    /// Whether the file to be opened is the context model and not the model.
    pub fn opens_context(&self) -> (r: bool)
        ensures
            r == (self@ is OpenContext),
    {
        match self {
            LoadStage::OpenContext => true,
            _ => false,
        }
    }
}

impl<S> Stage<S> {
    /// Where loading begins. The decoder of a QNN model runs on the CPU, whose session needs no
    /// context model; otherwise a context model is looked for where there is a directory for them.
    pub open spec fn first(
        part: ModelPart,
        provider: ExecutionProvider,
        keeps_contexts: bool,
    ) -> Stage<S> {
        if part == ModelPart::DecoderJoint && provider == ExecutionProvider::QNN {
            Stage::OpenOnCpu
        } else if keeps_contexts {
            Stage::FindContext
        } else {
            Stage::Compile
        }
    }

    /// Loading is over and came to this.
    pub open spec fn ended(outcome: Result<S, ModelError>) -> Stage<S> {
        match outcome {
            Ok(session) => Stage::Opened(session),
            Err(error) => Stage::Failed(error),
        }
    }

    /// The stage opens a session.
    pub open spec fn opens(self) -> bool {
        self is OpenContext || self is CompileAndCache || self is Compile || self is OpenOnCpu
    }

    /// Loading is over.
    pub open spec fn is_over(self) -> bool {
        self is Opened || self is Failed
    }

    /// The event answers what the stage asks for.
    pub open spec fn accepts(self, event: Event<S>) -> bool {
        match self {
            Stage::FindContext => event is Exists,
            Stage::RemoveContext => event is Removed,
            Stage::ListCompanions => event is Listed,
            Stage::RemoveCompanions(_) => event is Removed,
            Stage::Opened(_) => false,
            Stage::Failed(_) => false,
            _ => event is Opened || event is NotOpened,
        }
    }

    /// What comes after: a context model that is there is opened; otherwise the model is opened
    /// with a context model to be kept, and where that fails, what is left of the context model is
    /// removed and the model is opened without one. The session is the one that was opened, and an
    /// error that ends loading is passed on.
    pub open spec fn next(self, context: Seq<char>, event: Event<S>) -> Stage<S> {
        match (self, event) {
            (Stage::FindContext, Event::Exists(answer)) => if answer {
                Stage::OpenContext
            } else {
                Stage::CompileAndCache
            },
            (Stage::CompileAndCache, Event::NotOpened(_)) => Stage::RemoveContext,
            (Stage::RemoveContext, _) => Stage::ListCompanions,
            (Stage::ListCompanions, Event::Listed(names)) => Stage::RemoveCompanions(
                companions(context, names),
            ),
            (Stage::RemoveCompanions(_), _) => Stage::Compile,
            (_, Event::Opened(session)) => Stage::Opened(session),
            (_, Event::NotOpened(error)) => Stage::Failed(error),
            _ => self,
        }
    }

    /// A bound on the events that are still to come.
    pub open spec fn remaining(self) -> nat {
        match self {
            Stage::FindContext => 6,
            Stage::CompileAndCache => 5,
            Stage::RemoveContext => 4,
            Stage::ListCompanions => 3,
            Stage::RemoveCompanions(_) => 2,
            Stage::OpenContext => 1,
            Stage::Compile => 1,
            Stage::OpenOnCpu => 1,
            Stage::Opened(_) => 0,
            Stage::Failed(_) => 0,
        }
    }

    /// Where loading stands after these events.
    pub open spec fn run(self, context: Seq<char>, events: Seq<Event<S>>) -> Stage<S>
        decreases events.len(),
    {
        if events.len() == 0 {
            self
        } else {
            self.run(context, events.drop_last()).next(context, events.last())
        }
    }

    /// Each of these events answers what loading asks for at its turn.
    pub open spec fn accepts_all(self, context: Seq<char>, events: Seq<Event<S>>) -> bool
        decreases events.len(),
    {
        events.len() > 0 ==> {
            let front = events.drop_last();
            &&& self.accepts_all(context, front)
            &&& self.run(context, front).accepts(events.last())
        }
    }
}

/// One session of type `S` that is being opened.
#[derive(Debug)]
pub struct SessionLoad<S> {
    context: String,
    stage: LoadStage<S>,
}

impl<S> SessionLoad<S> {
    /// The name of the context model.
    pub closed spec fn context(self) -> Seq<char> {
        self.context@
    }

    /// What is to be done next.
    pub closed spec fn stage(self) -> Stage<S> {
        self.stage@
    }

    /// A session to be opened. `context` is the name of its context model, and `keeps_contexts`
    /// says whether there is a directory for context models.
    pub fn new(
        part: ModelPart,
        provider: ExecutionProvider,
        keeps_contexts: bool,
        context: String,
    ) -> (r: SessionLoad<S>)
        ensures
            r.context() == context@,
            r.stage() == Stage::<S>::first(part, provider, keeps_contexts),
    {
        let stage = if part == ModelPart::DecoderJoint && provider == ExecutionProvider::QNN {
            LoadStage::OpenOnCpu
        } else if keeps_contexts {
            LoadStage::FindContext
        } else {
            LoadStage::Compile
        };
        SessionLoad { context, stage }
    }

    /// What is to be done next.
    pub fn current(&self) -> (r: &LoadStage<S>)
        ensures
            r@ == self.stage(),
    {
        &self.stage
    }

    /// Goes on after what was done.
    pub fn advance(&mut self, event: LoadEvent<S>)
        requires
            old(self).stage().accepts(event@),
        ensures
            final(self).context() == old(self).context(),
            final(self).stage() == old(self).stage().next(old(self).context(), event@),
    {
        let next = match (&self.stage, event) {
            (LoadStage::FindContext, LoadEvent::Exists(answer)) => if answer {
                LoadStage::OpenContext
            } else {
                LoadStage::CompileAndCache
            },
            (LoadStage::CompileAndCache, LoadEvent::NotOpened(_)) => LoadStage::RemoveContext,
            (LoadStage::RemoveContext, _) => LoadStage::ListCompanions,
            (LoadStage::ListCompanions, LoadEvent::Listed(names)) => LoadStage::RemoveCompanions(
                context_companions(self.context.as_str(), &names),
            ),
            (LoadStage::RemoveCompanions(_), _) => LoadStage::Compile,
            (_, LoadEvent::Opened(session)) => LoadStage::Opened(session),
            (_, LoadEvent::NotOpened(error)) => LoadStage::Failed(error),
            _ => {
                return;
            },
        };
        self.stage = next;
    }

    /// Goes on after an attempt to open the session, which came to this.
    pub fn settle(&mut self, outcome: Result<S, ModelError>)
        requires
            old(self).stage().opens(),
        ensures
            final(self).context() == old(self).context(),
            final(self).stage() == old(self).stage().next(
                old(self).context(),
                Event::attempted(outcome),
            ),
    {
        match outcome {
            Ok(session) => self.advance(LoadEvent::Opened(session)),
            Err(error) => self.advance(LoadEvent::NotOpened(error)),
        }
    }

    /// What loading came to: the session, or the error of the attempt that ended loading; `None`
    /// where it is not over.
    pub fn into_outcome(self) -> (r: Option<Result<S, ModelError>>)
        ensures
            match r {
                Some(outcome) => self.stage() == Stage::ended(outcome),
                None => !self.stage().is_over(),
            },
    {
        match self.stage {
            LoadStage::Opened(session) => Some(Ok(session)),
            LoadStage::Failed(error) => Some(Err(error)),
            _ => None,
        }
    }
}

/// Every event brings loading closer to its end.
pub proof fn law_event_makes_progress<S>(stage: Stage<S>, context: Seq<char>, event: Event<S>)
    requires
        stage.accepts(event),
    ensures
        stage.next(context, event).remaining() < stage.remaining(),
{
}

/// Loading is over after at most six events, and it is over exactly when nothing is left to come.
pub proof fn law_loading_ends<S>(stage: Stage<S>, context: Seq<char>, events: Seq<Event<S>>)
    requires
        stage.accepts_all(context, events),
    ensures
        events.len() + stage.run(context, events).remaining() <= stage.remaining(),
        events.len() <= 6,
        stage.run(context, events).is_over() <==> stage.run(context, events).remaining() == 0,
    decreases events.len(),
{
    if events.len() > 0 {
        let front = events.drop_last();
        law_loading_ends(stage, context, front);
        law_event_makes_progress(stage.run(context, front), context, events.last());
    }
}

/// A session counts as open only where it was opened, and loading fails only where the context
/// model, the model without a context model, or the model on the CPU could not be opened: a
/// context model that could not be kept is no failure. What comes out is the session that was
/// opened then, or the error that came then.
pub proof fn law_outcome_comes_from_opening<S>(stage: Stage<S>, context: Seq<char>, event: Event<S>)
    requires
        stage.accepts(event),
    ensures
        stage.next(context, event) matches Stage::Opened(session) ==> stage.opens() && event
            == Event::Opened(session),
        stage.next(context, event) matches Stage::Failed(error) ==> event == Event::<S>::NotOpened(
            error,
        ) && (stage is OpenContext || stage is Compile || stage is OpenOnCpu),
{
}

/// However loading went, its outcome is that of the last event: the session that was opened last,
/// or the error of the attempt that ended loading, never that of an attempt before it.
pub proof fn law_last_attempt_decides<S>(
    part: ModelPart,
    provider: ExecutionProvider,
    keeps_contexts: bool,
    context: Seq<char>,
    events: Seq<Event<S>>,
)
    requires
        Stage::<S>::first(part, provider, keeps_contexts).accepts_all(context, events),
    ensures
        forall|outcome: Result<S, ModelError>|
            Stage::<S>::first(part, provider, keeps_contexts).run(context, events)
                == #[trigger] Stage::ended(outcome) ==> events.len() > 0 && events.last()
                == Event::attempted(outcome),
{
    if events.len() > 0 {
        let front = events.drop_last();
        law_outcome_comes_from_opening(
            Stage::<S>::first(part, provider, keeps_contexts).run(context, front),
            context,
            events.last(),
        );
    }
}

/// Where no context model could be kept, whatever the error, the attempt without one decides: the
/// outcome is its session, or its own error.
pub proof fn law_second_attempt_decides<S>(
    context: Seq<char>,
    first_error: ModelError,
    names: Seq<Seq<char>>,
    second: Result<S, ModelError>,
)
    ensures
        ({
            let events = seq![
                Event::<S>::Exists(false),
                Event::NotOpened(first_error),
                Event::Removed,
                Event::Listed(names),
                Event::Removed,
            ];
            &&& Stage::<S>::FindContext.accepts_all(context, events)
            &&& Stage::<S>::FindContext.run(context, events) is Compile
            &&& Stage::<S>::FindContext.run(context, events.push(Event::attempted(second)))
                == Stage::ended(second)
        }),
{
    let begin = Stage::<S>::FindContext;
    let e0 = Seq::<Event<S>>::empty();
    let e1 = seq![Event::<S>::Exists(false)];
    let e2 = e1.push(Event::NotOpened(first_error));
    let e3 = e2.push(Event::Removed);
    let e4 = e3.push(Event::Listed(names));
    let e5 = e4.push(Event::Removed);
    assert(begin.run(context, e0) == begin && begin.accepts_all(context, e0));
    assert(e1.drop_last() =~= e0);
    assert(begin.run(context, e1) is CompileAndCache && begin.accepts_all(context, e1));
    assert(e2.drop_last() =~= e1);
    assert(begin.run(context, e2) is RemoveContext && begin.accepts_all(context, e2));
    assert(e3.drop_last() =~= e2);
    assert(begin.run(context, e3) is ListCompanions && begin.accepts_all(context, e3));
    assert(e4.drop_last() =~= e3);
    assert(begin.run(context, e4) is RemoveCompanions && begin.accepts_all(context, e4));
    assert(e5.drop_last() =~= e4);
    assert(begin.run(context, e5) is Compile && begin.accepts_all(context, e5));
    let events = seq![
        Event::<S>::Exists(false),
        Event::NotOpened(first_error),
        Event::Removed,
        Event::Listed(names),
        Event::Removed,
    ];
    assert(events =~= e5);
    assert(events.push(Event::attempted(second)).drop_last() =~= events);
}

/// Where no context model could be kept, the model is opened without one, after the context model
/// and the files that go with it have been removed.
pub proof fn law_failed_context_is_cleaned_up<S>(
    context: Seq<char>,
    error: ModelError,
    names: Seq<Seq<char>>,
)
    ensures
        Stage::<S>::CompileAndCache.next(context, Event::NotOpened(error))
            == Stage::<S>::RemoveContext,
        Stage::<S>::RemoveContext.next(context, Event::Removed) == Stage::<S>::ListCompanions,
        Stage::<S>::ListCompanions.next(context, Event::Listed(names))
            == Stage::<S>::RemoveCompanions(companions(context, names)),
        Stage::<S>::RemoveCompanions(companions(context, names)).next(context, Event::Removed)
            == Stage::<S>::Compile,
        forall|name: Seq<char>|
            companions(context, names).contains(name) <==> names.contains(name) && is_companion(
                context,
                name,
            ),
{
    let wanted = |name: Seq<char>| is_companion(context, name);
    assert forall|name: Seq<char>|
        companions(context, names).contains(name) <==> names.contains(name) && is_companion(
            context,
            name,
        ) by {
        assert(companions(context, names) == names.filter(wanted));
        if companions(context, names).contains(name) {
            let i = choose|i: int|
                0 <= i < companions(context, names).len() && companions(context, names)[i] == name;
            names.lemma_filter_pred(wanted, i);
            names.lemma_filter_contains_rev(wanted, name);
        }
        if names.contains(name) && is_companion(context, name) {
            let i = choose|i: int| 0 <= i < names.len() && names[i] == name;
            names.lemma_filter_contains(wanted, i);
        }
    }
}

/// A context model that is there is opened and nothing is compiled, whatever comes of it.
pub proof fn law_kept_context_skips_compilation<S>(context: Seq<char>, event: Event<S>)
    requires
        Stage::OpenContext.accepts(event),
    ensures
        Stage::<S>::FindContext.next(context, Event::Exists(true)) == Stage::<S>::OpenContext,
        Stage::OpenContext.next(context, event).is_over(),
{
}

/// The decoder of a QNN model is opened on the CPU, whether or not context models are kept, and
/// no other session is; the encoder's context model is looked for all the same.
pub proof fn law_only_the_qnn_decoder_runs_on_the_cpu<S>(
    part: ModelPart,
    provider: ExecutionProvider,
    keeps_contexts: bool,
    context: Seq<char>,
    events: Seq<Event<S>>,
)
    requires
        Stage::<S>::first(part, provider, keeps_contexts).accepts_all(context, events),
    ensures
        ({
            let stage = Stage::<S>::first(part, provider, keeps_contexts).run(context, events);
            if part == ModelPart::DecoderJoint && provider == ExecutionProvider::QNN {
                stage is OpenOnCpu || stage.is_over()
            } else {
                !(stage is OpenOnCpu)
            }
        }),
        Stage::<S>::first(ModelPart::Encoder, ExecutionProvider::QNN, true) is FindContext,
    decreases events.len(),
{
    if events.len() > 0 {
        law_only_the_qnn_decoder_runs_on_the_cpu(
            part,
            provider,
            keeps_contexts,
            context,
            events.drop_last(),
        );
    }
}

/// Without a directory for context models none is looked for, opened, kept or removed.
pub proof fn law_no_context_without_directory<S>(
    part: ModelPart,
    provider: ExecutionProvider,
    context: Seq<char>,
    events: Seq<Event<S>>,
)
    requires
        Stage::<S>::first(part, provider, false).accepts_all(context, events),
    ensures
        ({
            let stage = Stage::<S>::first(part, provider, false).run(context, events);
            stage is Compile || stage is OpenOnCpu || stage.is_over()
        }),
    decreases events.len(),
{
    if events.len() > 0 {
        law_no_context_without_directory(part, provider, context, events.drop_last());
    }
}

/// What a session builder is told so that the runtime keeps a context model at this path, in a
/// file of its own beside it.
pub open spec fn context_options(path: Seq<char>) -> Seq<SessionOption> {
    seq![
        SessionOption::ConfigEntry("ep.context_enable"@, "1"@),
        SessionOption::ConfigEntry("ep.context_file_path"@, path),
        SessionOption::ConfigEntry("ep.context_embed_mode"@, "0"@),
    ]
}

/// What a session builder is told for a decoder that runs on the CPU alone.
pub open spec fn decoder_cpu_options() -> Seq<SessionOption> {
    seq![
        SessionOption::Optimization(GraphOptimizationLevel::Disable),
        SessionOption::IntraThreads(4),
    ]
}

/// What telling a builder these options can come to: a builder that has been told all of them, or
/// the error of the first of them that was refused.
pub open spec fn tells(
    builder: SessionBuilder,
    options: Seq<SessionOption>,
    outcome: Result<SessionBuilder, ModelError>,
) -> bool {
    match outcome {
        Ok(next) => told(builder, options, next),
        Err(ModelError::Builder(error)) => refused(builder, options, error),
        Err(_) => false,
    }
}

/// Has the runtime keep a context model at this path.
pub fn keep_context(builder: SessionBuilder, path: &str) -> (r: Result<SessionBuilder, ModelError>)
    ensures
        tells(builder, context_options(path@), r),
{
    let ghost start = builder;
    let ghost options = context_options(path@);
    assert(told(start, options.take(0), builder));
    let builder = match builder_outcome(tell_config_entry(builder, "ep.context_enable", "1")) {
        Ok(next) => {
            proof {
                lemma_told_next(start, options, 0, builder, next);
            }
            next
        },
        Err(error) => {
            return Err(error);
        },
    };
    let builder = match builder_outcome(tell_config_entry(builder, "ep.context_file_path", path)) {
        Ok(next) => {
            proof {
                lemma_told_next(start, options, 1, builder, next);
            }
            next
        },
        Err(error) => {
            return Err(error);
        },
    };
    let builder = match builder_outcome(tell_config_entry(builder, "ep.context_embed_mode", "0")) {
        Ok(next) => {
            proof {
                lemma_told_next(start, options, 2, builder, next);
            }
            next
        },
        Err(error) => {
            return Err(error);
        },
    };
    assert(options.take(options.len() as int) =~= options);
    Ok(builder)
}

/// Sets up a session builder for a decoder that runs on the CPU alone: no execution provider and
/// no graph optimization.
pub fn decoder_on_cpu(builder: SessionBuilder) -> (r: Result<SessionBuilder, ModelError>)
    ensures
        tells(builder, decoder_cpu_options(), r),
{
    let ghost start = builder;
    let ghost options = decoder_cpu_options();
    assert(told(start, options.take(0), builder));
    let builder = match builder_outcome(
        tell_optimization(builder, GraphOptimizationLevel::Disable),
    ) {
        Ok(next) => {
            proof {
                lemma_told_next(start, options, 0, builder, next);
            }
            next
        },
        Err(error) => {
            return Err(error);
        },
    };
    let builder = match builder_outcome(tell_intra_threads(builder, 4)) {
        Ok(next) => {
            proof {
                lemma_told_next(start, options, 1, builder, next);
            }
            next
        },
        Err(error) => {
            return Err(error);
        },
    };
    assert(options.take(options.len() as int) =~= options);
    Ok(builder)
}

impl<C: Fn(SessionBuilder) -> Result<SessionBuilder, ort::Error>> ModelConfig<C> {
    /// What setting up a builder for a stage that opens a session can come to.
    pub open spec fn prepares<S>(
        self,
        stage: Stage<S>,
        context_path: Seq<char>,
        builder: SessionBuilder,
        outcome: Result<SessionBuilder, ModelError>,
    ) -> bool {
        match stage {
            Stage::OpenOnCpu => tells(builder, decoder_cpu_options(), outcome),
            Stage::CompileAndCache => {
                ||| outcome is Err && self.applies(builder, outcome)
                ||| exists|mid: SessionBuilder| #[trigger]
                    self.applies(builder, Ok(mid)) && tells(
                        mid,
                        context_options(context_path),
                        outcome,
                    )
            },
            _ => self.applies(builder, outcome),
        }
    }

    /// Sets up a session builder for a stage that opens a session. `context_path` is where the
    /// context model is to be kept.
    pub fn prepare_builder<S>(
        &self,
        stage: &LoadStage<S>,
        context_path: &str,
        builder: SessionBuilder,
    ) -> (r: Result<SessionBuilder, ModelError>)
        requires
            stage@ is OpenOnCpu || self.has_valid_option_texts(),
            self.can_configure(),
        ensures
            self.prepares(stage@, context_path@, builder, r),
    {
        match stage {
            LoadStage::OpenOnCpu => decoder_on_cpu(builder),
            LoadStage::CompileAndCache => match self.apply_to_session_builder(builder) {
                Ok(mid) => keep_context(mid, context_path),
                Err(error) => Err(error),
            },
            _ => self.apply_to_session_builder(builder),
        }
    }

    /// Sets up a session builder for a stage that opens a session where the option texts can be
    /// handed to C or are not needed; `None` where they are needed and cannot.
    pub fn checked_prepare_builder<S>(
        &self,
        stage: &LoadStage<S>,
        context_path: &str,
        builder: SessionBuilder,
    ) -> (r: Option<Result<SessionBuilder, ModelError>>)
        requires
            self.can_configure(),
        ensures
            match r {
                Some(outcome) => (stage@ is OpenOnCpu || self.has_valid_option_texts())
                    && self.prepares(stage@, context_path@, builder, outcome),
                None => !(stage@ is OpenOnCpu) && !self.has_valid_option_texts(),
            },
    {
        let valid = match stage {
            LoadStage::OpenOnCpu => true,
            _ => self.check_option_texts(),
        };
        if valid {
            Some(self.prepare_builder(stage, context_path, builder))
        } else {
            None
        }
    }
}

/// Keeping a context model is asked for with these three entries, one after the other, and nothing
/// else.
pub open spec fn is_told_to_keep_context(
    builder: SessionBuilder,
    path: Seq<char>,
    next: SessionBuilder,
) -> bool {
    let before = builder_options(builder);
    let now = builder_options(next);
    let n = before.len() as int;
    &&& before.is_prefix_of(now)
    &&& now.len() == n + 3
    &&& now[n] == SessionOption::ConfigEntry("ep.context_enable"@, "1"@)
    &&& now[n + 1] == SessionOption::ConfigEntry("ep.context_file_path"@, path)
    &&& now[n + 2] == SessionOption::ConfigEntry("ep.context_embed_mode"@, "0"@)
}

/// An error of the builder is that of the first of the three entries that was refused.
pub open spec fn is_first_refused_entry(
    builder: SessionBuilder,
    path: Seq<char>,
    error: ort::Error<SessionBuilder>,
) -> bool {
    let before = builder_options(builder);
    let first = before.push(SessionOption::ConfigEntry("ep.context_enable"@, "1"@));
    let second = first.push(SessionOption::ConfigEntry("ep.context_file_path"@, path));
    ||| exists|mid: SessionBuilder|
        builder_options(mid) == before && #[trigger] refuses_config_entry(
            mid,
            "ep.context_enable"@,
            "1"@,
            error,
        )
    ||| exists|mid: SessionBuilder|
        builder_options(mid) == first && #[trigger] refuses_config_entry(
            mid,
            "ep.context_file_path"@,
            path,
            error,
        )
    ||| exists|mid: SessionBuilder|
        builder_options(mid) == second && #[trigger] refuses_config_entry(
            mid,
            "ep.context_embed_mode"@,
            "0"@,
            error,
        )
}

/// What asking for a context model comes to.
proof fn lemma_context_is_kept(
    builder: SessionBuilder,
    path: Seq<char>,
    outcome: Result<SessionBuilder, ModelError>,
)
    requires
        tells(builder, context_options(path), outcome),
    ensures
        match outcome {
            Ok(next) => is_told_to_keep_context(builder, path, next),
            Err(ModelError::Builder(error)) => is_first_refused_entry(builder, path, error),
            Err(_) => false,
        },
{
    let options = context_options(path);
    let before = builder_options(builder);
    let first = before.push(SessionOption::ConfigEntry("ep.context_enable"@, "1"@));
    let second = first.push(SessionOption::ConfigEntry("ep.context_file_path"@, path));
    match outcome {
        Ok(next) => {
            assert(before =~= builder_options(next).subrange(0, before.len() as int));
        },
        Err(ModelError::Builder(error)) => {
            let (i, mid) = choose|i: int, mid: SessionBuilder|
                0 <= i < options.len() && #[trigger] told(builder, options.take(i), mid) && refuses(
                    mid,
                    options[i],
                    error,
                );
            if i == 0 {
                assert(builder_options(mid) =~= before);
            } else if i == 1 {
                assert(builder_options(mid) =~= first);
            } else {
                assert(builder_options(mid) =~= second);
            }
        },
        Err(_) => {},
    }
}

/// `keep_context` asks for a context model at the path, and an error of it is that of the first
/// entry that was refused.
pub proof fn law_keep_context(
    builder: SessionBuilder,
    path: &str,
    r: Result<SessionBuilder, ModelError>,
)
    requires
        call_ensures(keep_context, (builder, path), r),
    ensures
        match r {
            Ok(next) => is_told_to_keep_context(builder, path@, next),
            Err(ModelError::Builder(error)) => is_first_refused_entry(builder, path@, error),
            Err(_) => false,
        },
{
    lemma_context_is_kept(builder, path@, r);
}

/// What setting up the decoder of a QNN model comes to: the builder is told to optimize nothing and
/// to use four threads, and nothing else, so that only the CPU is left; or the error of the first
/// of the two that was refused.
pub open spec fn is_set_up_for_the_cpu(
    builder: SessionBuilder,
    outcome: Result<SessionBuilder, ModelError>,
) -> bool {
    let before = builder_options(builder);
    let level = GraphOptimizationLevel::Disable;
    let first = before.push(SessionOption::Optimization(level));
    match outcome {
        Ok(next) => builder_options(next) == first.push(SessionOption::IntraThreads(4)),
        Err(ModelError::Builder(error)) => {
            let reply = Err::<SessionBuilder, ort::Error<SessionBuilder>>(error);
            ||| exists|mid: SessionBuilder|
                builder_options(mid) == before && #[trigger] call_ensures(
                    SessionBuilder::with_optimization_level,
                    (mid, level),
                    reply,
                )
            ||| exists|mid: SessionBuilder|
                builder_options(mid) == first && #[trigger] call_ensures(
                    SessionBuilder::with_intra_threads,
                    (mid, 4usize),
                    reply,
                )
        },
        Err(_) => false,
    }
}

/// What telling a builder the options of the CPU comes to.
proof fn lemma_cpu_is_set_up(builder: SessionBuilder, outcome: Result<SessionBuilder, ModelError>)
    requires
        tells(builder, decoder_cpu_options(), outcome),
    ensures
        is_set_up_for_the_cpu(builder, outcome),
{
    let options = decoder_cpu_options();
    let before = builder_options(builder);
    let first = before.push(SessionOption::Optimization(GraphOptimizationLevel::Disable));
    match outcome {
        Ok(next) => {
            assert(builder_options(next) =~= first.push(SessionOption::IntraThreads(4)));
        },
        Err(ModelError::Builder(error)) => {
            let (i, mid) = choose|i: int, mid: SessionBuilder|
                0 <= i < options.len() && #[trigger] told(builder, options.take(i), mid) && refuses(
                    mid,
                    options[i],
                    error,
                );
            if i == 0 {
                assert(builder_options(mid) =~= before);
            } else {
                assert(builder_options(mid) =~= first);
            }
        },
        Err(_) => {},
    }
}

/// `decoder_on_cpu` sets a builder up for the CPU alone.
pub proof fn law_decoder_on_cpu(builder: SessionBuilder, r: Result<SessionBuilder, ModelError>)
    requires
        call_ensures(decoder_on_cpu, (builder,), r),
    ensures
        is_set_up_for_the_cpu(builder, r),
{
    lemma_cpu_is_set_up(builder, r);
}

/// What setting up a builder for a stage comes to. To open the model on the CPU, it is set up for
/// the CPU alone. To have a context model kept, it is set up as the configuration says and then
/// told to keep one. To open a context model or a model, it is set up as the configuration says.
pub open spec fn stage_comes_to<C: Fn(SessionBuilder) -> Result<SessionBuilder, ort::Error>, S>(
    config: ModelConfig<C>,
    stage: LoadStage<S>,
    context_path: Seq<char>,
    builder: SessionBuilder,
    outcome: Result<SessionBuilder, ModelError>,
) -> bool {
    match stage {
        LoadStage::OpenOnCpu => is_set_up_for_the_cpu(builder, outcome),
        LoadStage::CompileAndCache => match outcome {
            Ok(next) => exists|mid: SessionBuilder|
                comes_to(config, builder, Ok(mid)) && #[trigger] is_told_to_keep_context(
                    mid,
                    context_path,
                    next,
                ),
            Err(ModelError::Builder(error)) => comes_to(config, builder, outcome) || exists|
                mid: SessionBuilder,
            |
                comes_to(config, builder, Ok(mid)) && #[trigger] is_first_refused_entry(
                    mid,
                    context_path,
                    error,
                ),
            Err(_) => comes_to(config, builder, outcome),
        },
        _ => comes_to(config, builder, outcome),
    }
}

/// `prepare_builder` sets a builder up for its stage.
pub proof fn law_prepare_builder<
    C: Fn(SessionBuilder) -> Result<SessionBuilder, ort::Error>,
    S,
>(
    config: &ModelConfig<C>,
    stage: &LoadStage<S>,
    context_path: &str,
    builder: SessionBuilder,
    r: Result<SessionBuilder, ModelError>,
)
    requires
        call_ensures(
            ModelConfig::<C>::prepare_builder::<S>,
            (config, stage, context_path, builder),
            r,
        ),
    ensures
        stage_comes_to(*config, *stage, context_path@, builder, r),
{
    lemma_stage_comes_to(*config, *stage, context_path@, builder, r);
}

/// What setting up a builder for a stage comes to.
proof fn lemma_stage_comes_to<C: Fn(SessionBuilder) -> Result<SessionBuilder, ort::Error>, S>(
    config: ModelConfig<C>,
    stage: LoadStage<S>,
    context_path: Seq<char>,
    builder: SessionBuilder,
    outcome: Result<SessionBuilder, ModelError>,
)
    requires
        config.prepares(stage@, context_path, builder, outcome),
    ensures
        stage_comes_to(config, stage, context_path, builder, outcome),
{
    match stage {
        LoadStage::OpenOnCpu => {
            lemma_cpu_is_set_up(builder, outcome);
        },
        LoadStage::CompileAndCache => {
            if outcome is Err && config.applies(builder, outcome) {
                law_configuration_is_applied(config, builder, outcome);
            } else {
                let mid = choose|mid: SessionBuilder| #[trigger]
                    config.applies(builder, Ok(mid)) && tells(
                        mid,
                        context_options(context_path),
                        outcome,
                    );
                law_configuration_is_applied(config, builder, Ok(mid));
                lemma_context_is_kept(mid, context_path, outcome);
            }
        },
        _ => {
            law_configuration_is_applied(config, builder, outcome);
        },
    }
}

/// `checked_prepare_builder` sets a builder up for its stage, unless a text that the execution
/// provider would be given as an option has a NUL in it.
pub proof fn law_checked_prepare_builder<
    C: Fn(SessionBuilder) -> Result<SessionBuilder, ort::Error>,
    S,
>(
    config: &ModelConfig<C>,
    stage: &LoadStage<S>,
    context_path: &str,
    builder: SessionBuilder,
    r: Option<Result<SessionBuilder, ModelError>>,
)
    requires
        call_ensures(
            ModelConfig::<C>::checked_prepare_builder::<S>,
            (config, stage, context_path, builder),
            r,
        ),
    ensures
        r is None <==> !(stage is OpenOnCpu) && has_nul_option(*config),
        r matches Some(outcome) ==> stage_comes_to(
            *config,
            *stage,
            context_path@,
            builder,
            outcome,
        ),
{
    law_valid_option_texts(*config);
    if let Some(outcome) = r {
        lemma_stage_comes_to(*config, *stage, context_path@, builder, outcome);
    }
}

/// Without a function that has the last word: the last three things that a builder has been told
/// when a context model is to be kept are the entries that ask for it, and when a context model or
/// a model is opened, it has been told no entry at all.
pub proof fn law_only_caching_asks_for_a_context<
    C: Fn(SessionBuilder) -> Result<SessionBuilder, ort::Error>,
    S,
>(
    config: &ModelConfig<C>,
    stage: &LoadStage<S>,
    context_path: &str,
    builder: SessionBuilder,
    next: SessionBuilder,
)
    requires
        config.configure is None,
        call_ensures(
            ModelConfig::<C>::prepare_builder::<S>,
            (config, stage, context_path, builder),
            Ok::<SessionBuilder, ModelError>(next),
        ),
    ensures
        ({
            let before = builder_options(builder);
            let now = builder_options(next);
            let last = now.len() as int - 1;
            &&& before.is_prefix_of(now)
            &&& stage is CompileAndCache ==> now.len() >= before.len() + 3 && now[last - 2]
                == SessionOption::ConfigEntry("ep.context_enable"@, "1"@) && now[last - 1]
                == SessionOption::ConfigEntry("ep.context_file_path"@, context_path@) && now[last]
                == SessionOption::ConfigEntry("ep.context_embed_mode"@, "0"@)
            &&& !(stage is CompileAndCache) ==> forall|i: int|
                before.len() <= i < now.len() ==> !(#[trigger] now[i] is ConfigEntry)
        }),
{
    lemma_stage_comes_to(*config, *stage, context_path@, builder, Ok(next));
    let before = builder_options(builder);
    let now = builder_options(next);
    match *stage {
        LoadStage::OpenOnCpu => {
            assert(before =~= now.subrange(0, before.len() as int));
        },
        LoadStage::CompileAndCache => {
            let mid = choose|mid: SessionBuilder|
                comes_to(*config, builder, Ok(mid)) && #[trigger] is_told_to_keep_context(
                    mid,
                    context_path@,
                    next,
                );
            let middle = builder_options(mid);
            assert forall|i: int| 0 <= i < before.len() implies #[trigger] now[i] == before[i] by {
                assert(middle.subrange(0, before.len() as int)[i] == middle[i]);
                assert(now.subrange(0, middle.len() as int)[i] == now[i]);
            }
            assert(before =~= now.subrange(0, before.len() as int));
        },
        _ => {},
    }
}

/// How opening a session begins: on the CPU for the decoder of a QNN model, else with the search
/// for a context model where there is a directory for them, else with the model itself.
pub proof fn law_how_opening_begins<S>(
    part: ModelPart,
    provider: ExecutionProvider,
    keeps_contexts: bool,
    context: String,
    load: SessionLoad<S>,
    stage: &LoadStage<S>,
)
    requires
        call_ensures(
            SessionLoad::<S>::new,
            (part, provider, keeps_contexts, context),
            load,
        ),
        call_ensures(SessionLoad::<S>::current, (&load,), stage),
    ensures
        load.context() == context@,
        part is DecoderJoint && provider is QNN ==> stage is OpenOnCpu,
        (part is Encoder || !(provider is QNN)) && keeps_contexts ==> stage is FindContext,
        (part is Encoder || !(provider is QNN)) && !keeps_contexts ==> stage is Compile,
{
}

/// How opening a session goes on, stage by stage and event by event: a context model that is there
/// is opened, one that is not there is compiled and kept; what was opened is the outcome; a context
/// model that could not be kept is removed with the files that go with it and the model is opened
/// without one; any other failure is the outcome.
pub proof fn law_how_opening_goes_on<S>(
    load: &mut SessionLoad<S>,
    before: &SessionLoad<S>,
    after: &SessionLoad<S>,
    event: LoadEvent<S>,
    from: &LoadStage<S>,
    to: &LoadStage<S>,
)
    requires
        *old(load) == *before,
        *final(load) == *after,
        call_ensures(SessionLoad::<S>::advance, (load, event), ()),
        call_ensures(SessionLoad::<S>::current, (before,), from),
        call_ensures(SessionLoad::<S>::current, (after,), to),
    ensures
        after.context() == before.context(),
        from is FindContext && event == LoadEvent::<S>::Exists(true) ==> to is OpenContext,
        from is FindContext && event == LoadEvent::<S>::Exists(false) ==> to is CompileAndCache,
        (from is OpenContext || from is CompileAndCache || from is Compile || from is OpenOnCpu)
            && event is Opened ==> to@ == Stage::Opened(event->Opened_0),
        (from is OpenContext || from is Compile || from is OpenOnCpu) && event is NotOpened ==> to@
            == Stage::<S>::Failed(event->NotOpened_0),
        from is CompileAndCache && event is NotOpened ==> to is RemoveContext,
        from is RemoveContext && event is Removed ==> to is ListCompanions,
        from is ListCompanions && event is Listed ==> (to matches LoadStage::RemoveCompanions(
            found,
        ) && forall|name: Seq<char>|
            texts(found@).contains(name) <==> texts(event->Listed_0@).contains(name)
                && before.context().is_prefix_of(name) && ".bin"@.is_suffix_of(name)),
        from is RemoveCompanions && event is Removed ==> to is Compile,
{
    if from is ListCompanions && event is Listed {
        let names = texts(event->Listed_0@);
        let error = ModelError::Model(arbitrary());
        law_failed_context_is_cleaned_up::<S>(before.context(), error, names);
    }
}

/// What opening a session came to is handed out exactly where it is over: the session, or the
/// error that ended it. `settle` hands an attempt in as the event that it is.
pub proof fn law_outcome_is_handed_out<S>(
    load: &mut SessionLoad<S>,
    before: &SessionLoad<S>,
    after: SessionLoad<S>,
    attempt: Result<S, ModelError>,
    from: &LoadStage<S>,
    to: &LoadStage<S>,
    outcome: Option<Result<S, ModelError>>,
)
    requires
        *old(load) == *before,
        *final(load) == after,
        call_ensures(SessionLoad::<S>::settle, (load, attempt), ()),
        call_ensures(SessionLoad::<S>::current, (before,), from),
        call_ensures(SessionLoad::<S>::current, (&after,), to),
        call_ensures(SessionLoad::<S>::into_outcome, (after,), outcome),
        from is OpenContext || from is CompileAndCache || from is Compile || from is OpenOnCpu,
    ensures
        after.context() == before.context(),
        attempt is Ok ==> outcome == Some(attempt),
        attempt is Err && !(from is CompileAndCache) ==> outcome == Some(attempt),
        attempt is Err && from is CompileAndCache ==> outcome is None && to is RemoveContext,
{
}

/// Only the stage that opens a context model opens one.
pub proof fn law_which_file_is_opened<S>(stage: &LoadStage<S>, r: bool)
    requires
        call_ensures(LoadStage::<S>::opens_context, (stage,), r),
    ensures
        r <==> stage is OpenContext,
{
}

/// Every answer to what a stage asks for is taken: whether the file is there, that the session was
/// opened or was not, that files were removed, or which names there are.
pub proof fn law_every_answer_is_taken<S>(
    load: &mut SessionLoad<S>,
    before: &SessionLoad<S>,
    stage: &LoadStage<S>,
    event: LoadEvent<S>,
    attempt: Result<S, ModelError>,
)
    requires
        *old(load) == *before,
        call_ensures(SessionLoad::<S>::current, (before,), stage),
    ensures
        stage is FindContext && event is Exists ==> call_requires(
            SessionLoad::<S>::advance,
            (load, event),
        ),
        (stage is OpenContext || stage is CompileAndCache || stage is Compile || stage is OpenOnCpu)
            && (event is Opened || event is NotOpened) ==> call_requires(
            SessionLoad::<S>::advance,
            (load, event),
        ),
        (stage is RemoveContext || stage is RemoveCompanions) && event is Removed ==> call_requires(
            SessionLoad::<S>::advance,
            (load, event),
        ),
        stage is ListCompanions && event is Listed ==> call_requires(
            SessionLoad::<S>::advance,
            (load, event),
        ),
        stage is OpenContext || stage is CompileAndCache || stage is Compile || stage is OpenOnCpu
            ==> call_requires(SessionLoad::<S>::settle, (load, attempt)),
{
}

/// A builder can be set up for any stage, whatever the configuration, as long as the function that
/// has the last word can be called and no option text that is needed has a NUL in it; the checked
/// form does without the latter.
pub proof fn law_any_builder_can_be_prepared<
    C: Fn(SessionBuilder) -> Result<SessionBuilder, ort::Error>,
    S,
>(config: &ModelConfig<C>, stage: &LoadStage<S>, context_path: &str, builder: SessionBuilder)
    requires
        config.configure matches Some(configure) ==> forall|any: SessionBuilder|
            call_requires(configure, (any,)),
    ensures
        stage is OpenOnCpu || !has_nul_option(*config) ==> call_requires(
            ModelConfig::<C>::prepare_builder::<S>,
            (config, stage, context_path, builder),
        ),
        call_requires(
            ModelConfig::<C>::checked_prepare_builder::<S>,
            (config, stage, context_path, builder),
        ),
        !has_nul_option(*config) ==> call_requires(
            ModelConfig::<C>::apply_to_session_builder,
            (config, builder),
        ),
        call_requires(
            ModelConfig::<C>::checked_apply_to_session_builder,
            (config, builder),
        ),
        call_requires(keep_context, (builder, context_path)),
        call_requires(decoder_on_cpu, (builder,)),
{
    law_valid_option_texts(*config);
}

}
