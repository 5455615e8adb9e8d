//! Greedy decoding of the encoded frames, one run of the joint network at a time.
//!
//! A `GreedyDecoder` says what the joint network is to be given next, and takes back what came
//! out of it, until every frame has been passed.
use crate::encoder::{reported_dim, reported_fault};
use crate::error::ModelError;
use crate::logits::{choose_token, chosen, law_chosen_is_suggested, suggests, TokenChoice};
use crate::model_tdt::TDTModelConfig;
use crate::tensor::{
    addressable3, axis_factor, size3, tensor_middle_axis, Tensor, TensorData, TensorModel,
};
use vstd::prelude::*;

verus! {

/// No more tokens than this are taken from one frame.
pub const MAX_TOKENS_PER_STEP: usize = 10;

/// The layers of a state of the prediction network.
pub const STATE_LAYERS: usize = 2;

/// The batch of a state of the prediction network.
pub const STATE_BATCH: usize = 1;

/// The hidden dimension of a state of the prediction network.
pub const STATE_HIDDEN: usize = 640;

/// What the joint network is given.
#[derive(Debug)]
pub struct JointInput {
    /// One encoded frame, by batch, encoder dimension and time.
    pub frame: TensorData,
    /// The last token that was emitted, or the blank.
    pub target: i32,
    /// The number of targets.
    pub target_length: i32,
    /// The states of the prediction network.
    pub state_h: TensorData,
    pub state_c: TensorData,
}

/// A state as the joint network hands it out.
#[derive(Debug)]
pub struct StateOutput {
    pub shape: Vec<i64>,
    pub data: Vec<u32>,
}

/// Where decoding stands.
pub struct Decoding {
    pub vocab_size: usize,
    /// The encoded frames, by batch, encoder dimension and time.
    pub encoded: TensorModel,
    pub state_h: TensorModel,
    pub state_c: TensorModel,
    /// The tokens emitted so far, with the frame and the duration of each.
    pub tokens: Seq<usize>,
    pub frame_indices: Seq<usize>,
    pub durations: Seq<usize>,
    /// The frame to look at next.
    pub frame: int,
    /// How many tokens that frame has emitted.
    pub emitted: int,
    /// The token that the prediction network is given.
    pub target: i32,
}

/// How often a frame occurs among the frames of the tokens.
pub open spec fn occurrences(frames: Seq<usize>, frame: int) -> int
    decreases frames.len(),
{
    if frames.len() == 0 {
        0
    } else {
        occurrences(frames.drop_last(), frame) + if frames.last() == frame {
            1int
        } else {
            0int
        }
    }
}

/// A state of zeros.
pub open spec fn blank_state() -> TensorModel {
    let dim = (STATE_LAYERS, STATE_BATCH, STATE_HIDDEN);
    TensorModel { dim, elements: Seq::new(size3(dim) as nat, |n: int| 0u32) }
}

/// The state after a token: the one that the joint network handed out, where it did.
pub open spec fn updated_state(state: TensorModel, output: Option<StateOutput>) -> TensorModel {
    match output {
        Some(output) => TensorModel {
            dim: reported_dim(output.shape@),
            elements: output.data@,
        },
        None => state,
    }
}

/// Why a state cannot be taken over; `None` when it can.
pub open spec fn state_fault(output: Option<StateOutput>) -> Option<Seq<char>> {
    match output {
        Some(output) => reported_fault(output.shape@, output.data@.len() as int),
        None => None,
    }
}

impl Decoding {
    /// Where decoding begins.
    pub open spec fn initial(vocab_size: usize, encoded: TensorModel) -> Decoding {
        Decoding {
            vocab_size,
            encoded,
            state_h: blank_state(),
            state_c: blank_state(),
            tokens: seq![],
            frame_indices: seq![],
            durations: seq![],
            frame: 0,
            emitted: 0,
            target: ((vocab_size - 1) as usize) as i32,
        }
    }

    /// The number of encoded frames.
    pub open spec fn time_steps(self) -> int {
        self.encoded.dim.2 as int
    }

    /// Every frame has been passed.
    pub open spec fn finished(self) -> bool {
        self.frame >= self.time_steps()
    }

    /// The token that stands for no token: the last of the vocabulary.
    pub open spec fn blank(self) -> int {
        self.vocab_size - 1
    }

    /// A choice with this token is a choice of this model.
    pub open spec fn admits(self, choice: TokenChoice) -> bool {
        choice.token < self.vocab_size
    }

    /// The choice emits a token.
    pub open spec fn emits(self, choice: TokenChoice) -> bool {
        choice.token != self.blank()
    }

    /// A token is written down with its frame and its duration, and the states change; the blank
    /// changes nothing.
    pub open spec fn recorded(
        self,
        choice: TokenChoice,
        state_h: TensorModel,
        state_c: TensorModel,
    ) -> Decoding {
        if self.emits(choice) {
            Decoding {
                state_h,
                state_c,
                tokens: self.tokens.push(choice.token),
                frame_indices: self.frame_indices.push(self.frame as usize),
                durations: self.durations.push(choice.duration),
                emitted: self.emitted + 1,
                target: choice.token as i32,
                ..self
            }
        } else {
            self
        }
    }

    /// Decoding moves on by this many frames.
    pub open spec fn moved(self, frames: int) -> Decoding {
        Decoding { frame: self.frame + frames, emitted: 0, ..self }
    }

    /// Where decoding stands after a choice: a duration skips that many frames; without one, a
    /// blank or the last token that a frame may emit leads to the next frame.
    pub open spec fn after(
        self,
        choice: TokenChoice,
        state_h: TensorModel,
        state_c: TensorModel,
    ) -> Decoding {
        let next = self.recorded(choice, state_h, state_c);
        if choice.duration > 0 {
            next.moved(choice.duration as int)
        } else if !self.emits(choice) || next.emitted >= MAX_TOKENS_PER_STEP {
            next.moved(1)
        } else {
            next
        }
    }

    /// What holds throughout decoding.
    pub open spec fn well_formed(self) -> bool {
        &&& self.vocab_size > 0
        &&& self.encoded.well_formed()
        &&& self.encoded.dim.0 > 0 || self.encoded.dim.2 == 0
        &&& 0 <= self.frame
        &&& 0 <= self.emitted < MAX_TOKENS_PER_STEP
        &&& self.tokens.len() == self.frame_indices.len()
        &&& self.tokens.len() == self.durations.len()
        &&& self.target == if self.tokens.len() == 0 {
            (self.blank() as usize) as i32
        } else {
            self.tokens.last() as i32
        }
        &&& forall|i: int|
            0 <= i < self.tokens.len() ==> #[trigger] self.tokens[i] < self.blank()
        &&& forall|i: int|
            0 <= i < self.frame_indices.len() ==> #[trigger] self.frame_indices[i]
                < self.time_steps()
        &&& forall|i: int|
            0 <= i < self.frame_indices.len() ==> #[trigger] self.frame_indices[i]
                + self.durations[i] <= self.frame
        &&& forall|i: int, j: int|
            0 <= i < j < self.frame_indices.len() ==> #[trigger] self.frame_indices[i]
                + self.durations[i] <= #[trigger] self.frame_indices[j]
        &&& forall|f: int| #[trigger]
            occurrences(self.frame_indices, f) <= MAX_TOKENS_PER_STEP
        &&& occurrences(self.frame_indices, self.frame) == self.emitted
    }
}

/// A frame that comes after all others does not occur among them.
proof fn lemma_no_occurrences(frames: Seq<usize>, frame: int)
    requires
        forall|i: int| 0 <= i < frames.len() ==> #[trigger] frames[i] < frame,
    ensures
        occurrences(frames, frame) == 0,
    decreases frames.len(),
{
    if frames.len() > 0 {
        assert(forall|i: int| 0 <= i < frames.len() - 1 ==> frames.drop_last()[i] == frames[i]);
        lemma_no_occurrences(frames.drop_last(), frame);
    }
}

/// A step of decoding keeps what holds throughout decoding.
pub proof fn law_step_keeps_well_formed(
    decoding: Decoding,
    choice: TokenChoice,
    state_h: TensorModel,
    state_c: TensorModel,
)
    requires
        decoding.well_formed(),
        !decoding.finished(),
        decoding.admits(choice),
    ensures
        decoding.after(choice, state_h, state_c).well_formed(),
{
    let next = decoding.recorded(choice, state_h, state_c);
    let frames = decoding.frame_indices;
    assert(decoding.time_steps() <= usize::MAX);
    if decoding.emits(choice) {
        assert(next.frame_indices.drop_last() =~= frames);
        assert forall|f: int| #[trigger]
            occurrences(next.frame_indices, f) == occurrences(frames, f) + if f
                == decoding.frame {
            1int
        } else {
            0int
        } by {}
    }
    let after = decoding.after(choice, state_h, state_c);
    if after.frame > decoding.frame {
        assert forall|i: int| 0 <= i < after.frame_indices.len() implies #[trigger] after.frame_indices[i]
            < after.frame by {
            if i < frames.len() {
                assert(frames[i] + decoding.durations[i] <= decoding.frame);
            }
        }
        lemma_no_occurrences(after.frame_indices, after.frame);
    }
}

/// What one run of the joint network led to: a choice, and the states that go with it.
pub struct JointReply {
    pub choice: TokenChoice,
    pub state_h: TensorModel,
    pub state_c: TensorModel,
}

impl Decoding {
    /// Where decoding stands after these replies.
    pub open spec fn run(self, replies: Seq<JointReply>) -> Decoding
        decreases replies.len(),
    {
        if replies.len() == 0 {
            self
        } else {
            let reply = replies.last();
            self.run(replies.drop_last()).after(reply.choice, reply.state_h, reply.state_c)
        }
    }

    /// Decoding asks for each of these replies: it is not finished before it gets one.
    pub open spec fn asks_for(self, replies: Seq<JointReply>) -> bool
        decreases replies.len(),
    {
        replies.len() > 0 ==> {
            let front = replies.drop_last();
            &&& self.asks_for(front)
            &&& !self.run(front).finished()
            &&& self.admits(replies.last().choice)
        }
    }

    /// A bound on the replies that decoding still asks for.
    pub open spec fn remaining(self) -> int {
        if self.finished() {
            0
        } else {
            MAX_TOKENS_PER_STEP * (self.time_steps() - self.frame) - self.emitted
        }
    }
}

/// Decoding that asks for another reply comes closer to its end with every reply.
pub proof fn law_step_makes_progress(
    decoding: Decoding,
    choice: TokenChoice,
    state_h: TensorModel,
    state_c: TensorModel,
)
    requires
        decoding.well_formed(),
        !decoding.finished(),
    ensures
        0 <= decoding.after(choice, state_h, state_c).remaining() < decoding.remaining(),
{
}

/// What holds throughout decoding holds after any replies of the joint network, and decoding is
/// finished after at most ten replies for every frame.
pub proof fn law_run_is_well_formed_and_ends(decoding: Decoding, replies: Seq<JointReply>)
    requires
        decoding.well_formed(),
        decoding.asks_for(replies),
    ensures
        decoding.run(replies).well_formed(),
        decoding.run(replies).vocab_size == decoding.vocab_size,
        decoding.run(replies).encoded == decoding.encoded,
        replies.len() + decoding.run(replies).remaining() <= decoding.remaining(),
        replies.len() <= MAX_TOKENS_PER_STEP * decoding.time_steps(),
    decreases replies.len(),
{
    if replies.len() > 0 {
        let front = replies.drop_last();
        let reply = replies.last();
        law_run_is_well_formed_and_ends(decoding, front);
        law_step_keeps_well_formed(
            decoding.run(front),
            reply.choice,
            reply.state_h,
            reply.state_c,
        );
        law_step_makes_progress(decoding.run(front), reply.choice, reply.state_h, reply.state_c);
    }
}

/// What has been emitted stays: further replies only add to the tokens, their frames and their
/// durations.
pub proof fn law_run_only_adds(decoding: Decoding, replies: Seq<JointReply>)
    ensures
        decoding.tokens.is_prefix_of(decoding.run(replies).tokens),
        decoding.frame_indices.is_prefix_of(decoding.run(replies).frame_indices),
        decoding.durations.is_prefix_of(decoding.run(replies).durations),
    decreases replies.len(),
{
    if replies.len() > 0 {
        law_run_only_adds(decoding, replies.drop_last());
    }
}

/// Where decoding begins, everything that holds throughout decoding holds.
pub proof fn law_initial_is_well_formed(vocab_size: usize, encoded: TensorModel)
    requires
        vocab_size > 0,
        encoded.well_formed(),
        encoded.dim.0 > 0 || encoded.dim.2 == 0,
    ensures
        Decoding::initial(vocab_size, encoded).well_formed(),
{
}

/// What greedy decoding hands out, whatever the joint network replies: every token has a frame and
/// a duration, no token is the blank, a token comes no earlier than the duration of each token
/// before it allows, and no frame has more than ten tokens.
pub proof fn law_transcript(vocab_size: usize, encoded: TensorModel, replies: Seq<JointReply>)
    requires
        vocab_size > 0,
        encoded.well_formed(),
        encoded.dim.0 > 0 || encoded.dim.2 == 0,
        Decoding::initial(vocab_size, encoded).asks_for(replies),
    ensures
        ({
            let decoding = Decoding::initial(vocab_size, encoded).run(replies);
            &&& decoding.frame_indices.len() == decoding.tokens.len()
            &&& decoding.durations.len() == decoding.tokens.len()
            &&& decoding.tokens.len() <= replies.len()
            &&& forall|i: int|
                0 <= i < decoding.tokens.len() ==> #[trigger] decoding.tokens[i] < vocab_size - 1
            &&& forall|i: int|
                0 <= i < decoding.tokens.len() ==> #[trigger] decoding.frame_indices[i]
                    < encoded.dim.2
            &&& forall|i: int, j: int|
                0 <= i < j < decoding.tokens.len() ==> #[trigger] decoding.frame_indices[i]
                    + decoding.durations[i] <= #[trigger] decoding.frame_indices[j]
            &&& forall|f: int| #[trigger]
                occurrences(decoding.frame_indices, f) <= MAX_TOKENS_PER_STEP
        }),
    decreases replies.len(),
{
    let start = Decoding::initial(vocab_size, encoded);
    law_initial_is_well_formed(vocab_size, encoded);
    law_run_is_well_formed_and_ends(start, replies);
    if replies.len() > 0 {
        law_transcript(vocab_size, encoded, replies.drop_last());
    }
}

/// The states and the target of the prediction network change only with a token: the blank leaves
/// everything as it is but the frame.
pub proof fn law_blank_only_moves_on(
    decoding: Decoding,
    choice: TokenChoice,
    state_h: TensorModel,
    state_c: TensorModel,
)
    requires
        !decoding.emits(choice),
    ensures
        decoding.after(choice, state_h, state_c) == decoding.moved(
            if choice.duration > 0 {
                choice.duration as int
            } else {
                1
            },
        ),
{
}

/// Greedy decoding under way.
pub struct GreedyDecoder {
    vocab_size: usize,
    encoded: Tensor,
    state_h: Tensor,
    state_c: Tensor,
    tokens: Vec<usize>,
    frame_indices: Vec<usize>,
    durations: Vec<usize>,
    frame: usize,
    emitted: usize,
    target: i32,
}

impl View for GreedyDecoder {
    type V = Decoding;

    closed spec fn view(&self) -> Decoding {
        Decoding {
            vocab_size: self.vocab_size,
            encoded: self.encoded@,
            state_h: self.state_h@,
            state_c: self.state_c@,
            tokens: self.tokens@,
            frame_indices: self.frame_indices@,
            durations: self.durations@,
            frame: self.frame as int,
            emitted: self.emitted as int,
            target: self.target,
        }
    }
}

impl TDTModelConfig {
    /// The decoder for these encoded frames, which come by batch, encoder dimension and time.
    pub fn decoder(&self, encoded: Tensor) -> (r: GreedyDecoder)
        requires
            self.vocab_size > 0,
            encoded@.dim.0 > 0 || encoded@.dim.2 == 0,
        ensures
            r@ == Decoding::initial(self.vocab_size, encoded@),
            r@.well_formed(),
    {
        let _ = encoded.dim();
        assert(addressable3((2usize, 1usize, 640usize)));
        assert(size3((2usize, 1usize, 640usize)) == 1280);
        GreedyDecoder {
            vocab_size: self.vocab_size,
            encoded,
            state_h: Tensor::zeros((STATE_LAYERS, STATE_BATCH, STATE_HIDDEN)),
            state_c: Tensor::zeros((STATE_LAYERS, STATE_BATCH, STATE_HIDDEN)),
            tokens: Vec::new(),
            frame_indices: Vec::new(),
            durations: Vec::new(),
            frame: 0,
            emitted: 0,
            target: #[verifier::truncate] ((self.vocab_size - 1) as i32),
        }
    }

    /// The decoder for these encoded frames; `None` where the vocabulary is empty, or where there
    /// are frames to decode but the batch is empty.
    pub fn checked_decoder(&self, encoded: Tensor) -> (r: Option<GreedyDecoder>)
        ensures
            match r {
                Some(decoder) => self.vocab_size > 0 && (encoded@.dim.0 > 0 || encoded@.dim.2 == 0)
                    && decoder@ == Decoding::initial(self.vocab_size, encoded@)
                    && decoder@.well_formed(),
                None => self.vocab_size == 0 || encoded@.dim.0 == 0 && encoded@.dim.2 > 0,
            },
    {
        let dim = encoded.dim();
        if self.vocab_size > 0 && (dim.0 > 0 || dim.2 == 0) {
            Some(self.decoder(encoded))
        } else {
            None
        }
    }
}

/// One frame of the encoded frames, by batch, encoder dimension and time.
pub open spec fn frame_of(encoded: TensorModel, frame: int) -> TensorModel {
    TensorModel {
        dim: (1, encoded.dim.1, 1),
        elements: Seq::new(encoded.dim.1 as nat, |d: int| encoded.at(0, d, frame)),
    }
}

impl GreedyDecoder {
    /// The frame to look at next.
    pub fn frame(&self) -> (r: usize)
        ensures
            r == self@.frame,
    {
        self.frame
    }

    /// What the joint network is to be given; `None` once every frame has been passed.
    pub fn joint_input(&self) -> (r: Option<JointInput>)
        requires
            self@.well_formed(),
        ensures
            match r {
                Some(input) => !self@.finished() && input.frame@ == frame_of(
                    self@.encoded,
                    self@.frame,
                ) && input.target == self@.target && input.target_length == 1
                    && input.state_h@ == self@.state_h && input.state_c@ == self@.state_c,
                None => self@.finished(),
            },
    {
        let dim = self.encoded.dim();
        if self.frame >= dim.2 {
            return None;
        }
        let data = tensor_middle_axis(&self.encoded, 0, self.frame);
        let frame = TensorData { dim: (1, dim.1, 1), data };
        assert(frame@.elements =~= frame_of(self@.encoded, self@.frame).elements);
        Some(
            JointInput {
                frame,
                target: self.target,
                target_length: 1,
                state_h: self.state_h.to_data(),
                state_c: self.state_c.to_data(),
            },
        )
    }

    /// The token and the duration that the joint network suggests.
    pub fn choice(&self, logits: &Vec<u32>) -> (r: TokenChoice)
        requires
            self@.well_formed(),
        ensures
            r == chosen(logits@, self@.vocab_size),
            self@.admits(r),
    {
        choose_token(logits, self.vocab_size)
    }

    /// Whether a choice emits a token.
    pub fn emits(&self, choice: TokenChoice) -> (r: bool)
        requires
            self@.well_formed(),
        ensures
            r == self@.emits(choice),
    {
        choice.token != self.vocab_size - 1
    }

    /// Takes in what the joint network led to: the choice, and for a token the states that came
    /// with it. A state that did not come stays as it is; one that cannot have the shape it came
    /// with is an error, and then nothing changes.
    pub fn advance(
        &mut self,
        choice: TokenChoice,
        state_h: Option<StateOutput>,
        state_c: Option<StateOutput>,
    ) -> (r: Result<(), ModelError>)
        requires
            old(self)@.well_formed(),
            !old(self)@.finished(),
            old(self)@.admits(choice),
            old(self)@.frame + choice.duration <= usize::MAX,
            old(self)@.emits(choice) ==> has_three_axes(state_h),
            old(self)@.emits(choice) && state_fault(state_h) is None ==> has_three_axes(state_c),
        ensures
            final(self)@.well_formed(),
            if !old(self)@.emits(choice) || state_fault(state_h) is None && state_fault(
                state_c,
            ) is None {
                r is Ok && final(self)@ == old(self)@.after(
                    choice,
                    updated_state(old(self)@.state_h, state_h),
                    updated_state(old(self)@.state_c, state_c),
                )
            } else {
                final(self)@ == old(self)@ && match state_fault(state_h) {
                    Some(text) => r matches Err(ModelError::Model(message)) && message@
                        == "Failed to update state_h: "@ + text,
                    None => r matches Err(ModelError::Model(message)) && message@
                        == "Failed to update state_c: "@ + state_fault(state_c)->0,
                }
            },
    {
        let ghost before = self@;
        let ghost next_h = updated_state(before.state_h, state_h);
        let ghost next_c = updated_state(before.state_c, state_c);
        proof {
            law_step_keeps_well_formed(before, choice, next_h, next_c);
        }
        let emits = self.emits(choice);
        if emits {
            let new_h = match take_state("Failed to update state_h: ", state_h) {
                Ok(state) => state,
                Err(error) => {
                    return Err(error);
                },
            };
            let new_c = match take_state("Failed to update state_c: ", state_c) {
                Ok(state) => state,
                Err(error) => {
                    return Err(error);
                },
            };
            if let Some(state) = new_h {
                self.state_h = state;
            }
            if let Some(state) = new_c {
                self.state_c = state;
            }
            self.tokens.push(choice.token);
            self.frame_indices.push(self.frame);
            self.durations.push(choice.duration);
            self.target = #[verifier::truncate] (choice.token as i32);
            self.emitted += 1;
        }
        if choice.duration > 0 {
            self.frame += choice.duration;
            self.emitted = 0;
        } else if !emits || self.emitted >= MAX_TOKENS_PER_STEP {
            self.frame += 1;
            self.emitted = 0;
        }
        Ok(())
    }

    /// The tokens with the frame and the duration of each.
    pub fn into_result(self) -> (r: (Vec<usize>, Vec<usize>, Vec<usize>))
        ensures
            r.0@ == self@.tokens,
            r.1@ == self@.frame_indices,
            r.2@ == self@.durations,
    {
        (self.tokens, self.frame_indices, self.durations)
    }
}

/// A state that came has at least three axes.
pub open spec fn has_three_axes(output: Option<StateOutput>) -> bool {
    output matches Some(output) ==> output.shape@.len() >= 3
}

/// The state that came, as a tensor. A failure reads `what` followed by the words of `ndarray`.
fn take_state(what: &str, output: Option<StateOutput>) -> (r: Result<Option<Tensor>, ModelError>)
    requires
        has_three_axes(output),
    ensures
        match state_fault(output) {
            None => r matches Ok(state) && match output {
                Some(output) => state matches Some(tensor) && tensor@ == (TensorModel {
                    dim: reported_dim(output.shape@),
                    elements: output.data@,
                }),
                None => state is None,
            },
            Some(text) => r matches Err(ModelError::Model(message)) && message@ == what@ + text,
        },
{
    match output {
        Some(output) => {
            let dim: (usize, usize, usize) = (
                #[verifier::truncate] (output.shape[0] as usize),
                #[verifier::truncate] (output.shape[1] as usize),
                #[verifier::truncate] (output.shape[2] as usize),
            );
            match Tensor::from_shape_vec(what, dim, output.data) {
                Ok(tensor) => Ok(Some(tensor)),
                Err(error) => Err(error),
            }
        },
        None => Ok(None),
    }
}

/// How many of the frames are this one.
pub open spec fn tokens_of(frames: Seq<usize>, frame: int) -> nat {
    frames.filter(|other: usize| other == frame).len()
}

/// Counting occurrences and filtering agree.
proof fn lemma_occurrences_are_tokens(frames: Seq<usize>, frame: int)
    ensures
        occurrences(frames, frame) == tokens_of(frames, frame),
    decreases frames.len(),
{
    reveal(Seq::filter);
    if frames.len() > 0 {
        lemma_occurrences_are_tokens(frames.drop_last(), frame);
    }
}

/// The elements of a state that the joint network hands out fill its first three axes, and it can
/// be addressed.
pub open spec fn state_fits(output: StateOutput) -> bool {
    let first = output.shape@[0] as usize;
    let second = output.shape@[1] as usize;
    let third = output.shape@[2] as usize;
    &&& first * second * third == output.data@.len()
    &&& axis_factor(first) * axis_factor(second) * axis_factor(third) <= isize::MAX
}

/// The state is the one that was handed out: its elements, on its first three axes. One that was
/// not handed out is the one from before.
pub open spec fn is_taken_over(
    before: TensorModel,
    output: Option<StateOutput>,
    after: TensorModel,
) -> bool {
    match output {
        Some(output) => after.elements == output.data@ && after.dim.0 == output.shape@[0] as usize
            && after.dim.1 == output.shape@[1] as usize && after.dim.2 == output.shape@[2] as usize,
        None => after == before,
    }
}

/// Whatever went before, a step with a token replaces both states by those that came with it,
/// writes the token down with its frame and its duration, and makes it the next target.
pub proof fn law_every_token_counts(
    decoding: Decoding,
    choice: TokenChoice,
    state_h: TensorModel,
    state_c: TensorModel,
)
    requires
        choice.token != decoding.vocab_size - 1,
    ensures
        ({
            let after = decoding.after(choice, state_h, state_c);
            &&& after.state_h == state_h
            &&& after.state_c == state_c
            &&& after.tokens == decoding.tokens.push(choice.token)
            &&& after.frame_indices == decoding.frame_indices.push(decoding.frame as usize)
            &&& after.durations == decoding.durations.push(choice.duration)
            &&& after.target == choice.token as i32
            &&& after.vocab_size == decoding.vocab_size
            &&& after.encoded == decoding.encoded
        }),
{
}

/// A step with the blank, which is the last token of the vocabulary, changes nothing but where
/// decoding looks next.
pub proof fn law_blank_changes_nothing_else(
    decoding: Decoding,
    choice: TokenChoice,
    state_h: TensorModel,
    state_c: TensorModel,
)
    requires
        choice.token == decoding.vocab_size - 1,
    ensures
        ({
            let after = decoding.after(choice, state_h, state_c);
            &&& after.state_h == decoding.state_h
            &&& after.state_c == decoding.state_c
            &&& after.tokens == decoding.tokens
            &&& after.frame_indices == decoding.frame_indices
            &&& after.durations == decoding.durations
            &&& after.target == decoding.target
            &&& after.vocab_size == decoding.vocab_size
            &&& after.encoded == decoding.encoded
            &&& after.emitted == 0
        }),
{
}

/// How far a step goes: as many frames as the duration says; without a duration to the next frame
/// after the blank or after the tenth token of a frame, and nowhere after any other token.
pub proof fn law_how_far_a_step_goes(
    decoding: Decoding,
    choice: TokenChoice,
    state_h: TensorModel,
    state_c: TensorModel,
)
    requires
        decoding.well_formed(),
        !decoding.finished(),
    ensures
        ({
            let after = decoding.after(choice, state_h, state_c);
            let frame = decoding.frame;
            &&& choice.duration > 0 ==> after.frame == frame + choice.duration
            &&& choice.duration == 0 && choice.token == decoding.vocab_size - 1 ==> after.frame
                == frame + 1
            &&& choice.duration == 0 && choice.token != decoding.vocab_size - 1 ==> after.frame
                == if tokens_of(after.frame_indices, frame) < 10 {
                frame
            } else {
                frame + 1
            }
            &&& decoding.emitted == tokens_of(decoding.frame_indices, frame)
        }),
{
    let after = decoding.after(choice, state_h, state_c);
    lemma_occurrences_are_tokens(decoding.frame_indices, decoding.frame);
    lemma_occurrences_are_tokens(after.frame_indices, decoding.frame);
    if choice.token != decoding.vocab_size - 1 {
        assert(after.frame_indices.drop_last() =~= decoding.frame_indices);
        assert(after.frame_indices.last() == decoding.frame);
    }
}

/// No frame has more than ten tokens, and as long as decoding looks at a frame it has fewer.
pub proof fn law_ten_tokens_per_frame(decoding: Decoding, frame: int)
    requires
        decoding.well_formed(),
    ensures
        tokens_of(decoding.frame_indices, frame) <= 10,
        tokens_of(decoding.frame_indices, decoding.frame) < 10,
{
    lemma_occurrences_are_tokens(decoding.frame_indices, frame);
    lemma_occurrences_are_tokens(decoding.frame_indices, decoding.frame);
    assert(occurrences(decoding.frame_indices, frame) <= 10);
}

/// The replies that emit a token: all whose token is not the last of the vocabulary.
pub open spec fn emitting(vocab_size: usize, replies: Seq<JointReply>) -> Seq<JointReply> {
    replies.filter(|reply: JointReply| reply.choice.token != vocab_size - 1)
}

/// Decoding hands out the tokens of all the replies that emit one, with their durations, in order,
/// and the states are those of the last of these replies.
pub proof fn law_run_is_the_emitting_replies(decoding: Decoding, replies: Seq<JointReply>)
    ensures
        ({
            let after = decoding.run(replies);
            let emitting = emitting(decoding.vocab_size, replies);
            &&& after.tokens == decoding.tokens + emitting.map_values(
                |reply: JointReply| reply.choice.token,
            )
            &&& after.durations == decoding.durations + emitting.map_values(
                |reply: JointReply| reply.choice.duration,
            )
            &&& after.frame_indices.len() == decoding.frame_indices.len() + emitting.len()
            &&& emitting.len() > 0 ==> after.state_h == emitting.last().state_h && after.state_c
                == emitting.last().state_c && after.target == emitting.last().choice.token as i32
            &&& emitting.len() == 0 ==> after.state_h == decoding.state_h && after.state_c
                == decoding.state_c && after.target == decoding.target
            &&& after.vocab_size == decoding.vocab_size
            &&& after.encoded == decoding.encoded
        }),
    decreases replies.len(),
{
    reveal(Seq::filter);
    let shown = emitting(decoding.vocab_size, replies);
    if replies.len() > 0 {
        let front = replies.drop_last();
        let reply = replies.last();
        law_run_is_the_emitting_replies(decoding, front);
        let earlier = emitting(decoding.vocab_size, front);
        let before = decoding.run(front);
        if reply.choice.token != decoding.vocab_size - 1 {
            assert(shown == earlier.push(reply));
            law_every_token_counts(before, reply.choice, reply.state_h, reply.state_c);
            assert(shown.map_values(|reply: JointReply| reply.choice.token)
                =~= earlier.map_values(|reply: JointReply| reply.choice.token).push(
                reply.choice.token,
            ));
            assert(shown.map_values(|reply: JointReply| reply.choice.duration)
                =~= earlier.map_values(|reply: JointReply| reply.choice.duration).push(
                reply.choice.duration,
            ));
        } else {
            assert(shown == earlier);
            law_blank_changes_nothing_else(before, reply.choice, reply.state_h, reply.state_c);
        }
    } else {
        assert(shown =~= seq![]);
    }
}

/// A decoder begins with nothing emitted, at the first frame, with states of zeros and with the
/// blank as the target.
pub proof fn law_decoder_begins_blank(
    config: &TDTModelConfig,
    encoded: Tensor,
    decoder: GreedyDecoder,
)
    requires
        config.vocab_size > 0,
        call_ensures(TDTModelConfig::decoder, (config, encoded), decoder),
    ensures
        decoder@.vocab_size == config.vocab_size,
        decoder@.encoded == encoded@,
        decoder@.tokens.len() == 0,
        decoder@.frame_indices.len() == 0,
        decoder@.durations.len() == 0,
        decoder@.frame == 0,
        decoder@.emitted == 0,
        decoder@.target == ((config.vocab_size - 1) as usize) as i32,
        decoder@.state_h.dim == (2usize, 1usize, 640usize),
        decoder@.state_h.elements.len() == 1280,
        forall|n: int| 0 <= n < 1280 ==> #[trigger] decoder@.state_h.elements[n] == 0,
        decoder@.state_c == decoder@.state_h,
        decoder@.well_formed(),
{
    assert(size3((2usize, 1usize, 640usize)) == 1280);
}

/// Every encoded output of a model with a vocabulary can be decoded, unless there are frames in an
/// empty batch.
pub proof fn law_which_outputs_can_be_decoded(
    config: &TDTModelConfig,
    encoded: Tensor,
    r: Option<GreedyDecoder>,
)
    requires
        call_ensures(TDTModelConfig::checked_decoder, (config, encoded), r),
    ensures
        r is None <==> config.vocab_size == 0 || encoded@.dim.0 == 0 && encoded@.dim.2 > 0,
        r matches Some(decoder) ==> decoder@.encoded == encoded@ && decoder@.vocab_size
            == config.vocab_size && decoder@.frame == 0 && decoder@.tokens.len() == 0,
{
}

/// The joint network is run for every frame before the last has been passed. It is given the
/// encoder's output at the frame, of the first item of the batch, with the last token and the
/// states.
pub proof fn law_what_the_joint_network_is_given(decoder: &GreedyDecoder, r: Option<JointInput>)
    requires
        decoder@.well_formed(),
        call_ensures(GreedyDecoder::joint_input, (decoder,), r),
    ensures
        r is Some <==> decoder@.frame < decoder@.encoded.dim.2,
        r matches Some(input) ==> {
            let encoded = decoder@.encoded;
            &&& input.frame.dim == (1usize, encoded.dim.1, 1usize)
            &&& input.frame.data@.len() == encoded.dim.1
            &&& forall|d: int|
                0 <= d < encoded.dim.1 ==> #[trigger] input.frame.data@[d] == encoded.elements[d
                    * encoded.dim.2 + decoder@.frame]
            &&& input.target == if decoder@.tokens.len() == 0 {
                ((decoder@.vocab_size - 1) as usize) as i32
            } else {
                decoder@.tokens.last() as i32
            }
            &&& input.target_length == 1
            &&& input.state_h.dim == decoder@.state_h.dim
            &&& input.state_h.data@ == decoder@.state_h.elements
            &&& input.state_c.dim == decoder@.state_c.dim
            &&& input.state_c.data@ == decoder@.state_c.elements
        },
{
    if let Some(input) = r {
        let encoded = decoder@.encoded;
        assert forall|d: int| 0 <= d < encoded.dim.1 implies #[trigger] input.frame.data@[d]
            == encoded.elements[d * encoded.dim.2 + decoder@.frame] by {
            assert(input.frame@.elements[d] == encoded.at(0, d, decoder@.frame));
            assert((0 * encoded.dim.1 + d) * encoded.dim.2 == d * encoded.dim.2);
        }
    }
}

/// The choice of a decoder is the one that the logits suggest, and it emits unless it is the last
/// of the vocabulary.
pub proof fn law_choice_of_a_decoder(
    decoder: &GreedyDecoder,
    logits: &Vec<u32>,
    choice: TokenChoice,
    emits: bool,
)
    requires
        decoder@.well_formed(),
        logits@.len() <= usize::MAX,
        call_ensures(GreedyDecoder::choice, (decoder, logits), choice),
        call_ensures(GreedyDecoder::emits, (decoder, choice), emits),
    ensures
        suggests(logits@, decoder@.vocab_size as int, choice),
        emits <==> choice.token != decoder@.vocab_size - 1,
{
    law_chosen_is_suggested(logits@, decoder@.vocab_size);
}

/// A reply is refused exactly where it comes with a token and a state that does not fit its shape.
/// The first state is looked at first, and then nothing changes.
pub proof fn law_which_replies_are_refused(
    decoder: &mut GreedyDecoder,
    choice: TokenChoice,
    state_h: Option<StateOutput>,
    state_c: Option<StateOutput>,
    r: Result<(), ModelError>,
)
    requires
        call_ensures(GreedyDecoder::advance, (decoder, choice, state_h, state_c), r),
    ensures
        r is Ok <==> choice.token == old(decoder)@.vocab_size - 1 || ((state_h matches Some(output)
            ==> state_fits(output)) && (state_c matches Some(output) ==> state_fits(output))),
        r is Err ==> final(decoder)@ == old(decoder)@ && r->Err_0 is Model,
        r is Err && (state_h matches Some(output) && !state_fits(output))
            ==> "Failed to update state_h: "@.is_prefix_of(r->Err_0->Model_0@),
        r is Err && (state_h matches Some(output) ==> state_fits(output))
            ==> "Failed to update state_c: "@.is_prefix_of(r->Err_0->Model_0@),
{
    if let Err(ModelError::Model(message)) = r {
        let first = "Failed to update state_h: "@;
        let second = "Failed to update state_c: "@;
        match state_fault(state_h) {
            Some(text) => {
                assert(first =~= (first + text).subrange(0, first.len() as int));
            },
            None => {
                let text = state_fault(state_c)->0;
                assert(second =~= (second + text).subrange(0, second.len() as int));
            },
        }
    }
}

/// A token that is taken in is the last of the result, with the frame that was looked at and with
/// its duration, and the joint network is next given that token and the states that came with it.
pub proof fn law_token_is_taken_in(
    decoder: &mut GreedyDecoder,
    before: &GreedyDecoder,
    after: &GreedyDecoder,
    choice: TokenChoice,
    state_h: Option<StateOutput>,
    state_c: Option<StateOutput>,
    frame: usize,
    result_before: (Vec<usize>, Vec<usize>, Vec<usize>),
    result_after: (Vec<usize>, Vec<usize>, Vec<usize>),
    input_before: JointInput,
    input_after: Option<JointInput>,
)
    requires
        before@.well_formed(),
        *old(decoder) == *before,
        *final(decoder) == *after,
        call_ensures(
            GreedyDecoder::advance,
            (decoder, choice, state_h, state_c),
            Ok::<(), ModelError>(()),
        ),
        choice.token != before@.vocab_size - 1,
        call_ensures(GreedyDecoder::frame, (before,), frame),
        call_ensures(GreedyDecoder::into_result, (*before,), result_before),
        call_ensures(GreedyDecoder::into_result, (*after,), result_after),
        call_ensures(GreedyDecoder::joint_input, (before,), Some(input_before)),
        call_ensures(GreedyDecoder::joint_input, (after,), input_after),
    ensures
        result_after.0@ == result_before.0@.push(choice.token),
        result_after.1@ == result_before.1@.push(frame),
        result_after.2@ == result_before.2@.push(choice.duration),
        after@.well_formed(),
        after@.vocab_size == before@.vocab_size,
        after@.encoded == before@.encoded,
        is_taken_over(before@.state_h, state_h, after@.state_h),
        is_taken_over(before@.state_c, state_c, after@.state_c),
        input_after matches Some(input) ==> input.target == choice.token as i32 && is_taken_over(
            input_before.state_h@,
            state_h,
            input.state_h@,
        ) && is_taken_over(input_before.state_c@, state_c, input.state_c@),
{
}

/// A blank that is taken in leaves the result as it is, and the joint network is next given the
/// same token and the same states, whatever states came with the blank.
pub proof fn law_blank_is_taken_in(
    decoder: &mut GreedyDecoder,
    before: &GreedyDecoder,
    after: &GreedyDecoder,
    choice: TokenChoice,
    state_h: Option<StateOutput>,
    state_c: Option<StateOutput>,
    r: Result<(), ModelError>,
    result_before: (Vec<usize>, Vec<usize>, Vec<usize>),
    result_after: (Vec<usize>, Vec<usize>, Vec<usize>),
    input_before: JointInput,
    input_after: Option<JointInput>,
)
    requires
        before@.well_formed(),
        *old(decoder) == *before,
        *final(decoder) == *after,
        call_ensures(GreedyDecoder::advance, (decoder, choice, state_h, state_c), r),
        choice.token == before@.vocab_size - 1,
        call_ensures(GreedyDecoder::into_result, (*before,), result_before),
        call_ensures(GreedyDecoder::into_result, (*after,), result_after),
        call_ensures(GreedyDecoder::joint_input, (before,), Some(input_before)),
        call_ensures(GreedyDecoder::joint_input, (after,), input_after),
    ensures
        r is Ok,
        result_after.0@ == result_before.0@,
        result_after.1@ == result_before.1@,
        result_after.2@ == result_before.2@,
        after@.well_formed(),
        after@.vocab_size == before@.vocab_size,
        after@.encoded == before@.encoded,
        input_after matches Some(input) ==> input.target == input_before.target && input.state_h@
            == input_before.state_h@ && input.state_c@ == input_before.state_c@,
{
}

/// Where a decoder looks after a reply: as many frames on as the duration says; without a duration
/// at the next frame after the blank or after the tenth token of a frame, and at the same frame
/// after any other token.
pub proof fn law_where_decoding_looks_next(
    decoder: &mut GreedyDecoder,
    before: &GreedyDecoder,
    after: &GreedyDecoder,
    choice: TokenChoice,
    state_h: Option<StateOutput>,
    state_c: Option<StateOutput>,
    from: usize,
    to: usize,
    result: (Vec<usize>, Vec<usize>, Vec<usize>),
)
    requires
        before@.well_formed(),
        !before@.finished(),
        *old(decoder) == *before,
        *final(decoder) == *after,
        call_ensures(
            GreedyDecoder::advance,
            (decoder, choice, state_h, state_c),
            Ok::<(), ModelError>(()),
        ),
        call_ensures(GreedyDecoder::frame, (before,), from),
        call_ensures(GreedyDecoder::frame, (after,), to),
        call_ensures(GreedyDecoder::into_result, (*after,), result),
    ensures
        to == from + if choice.duration > 0 {
            choice.duration as int
        } else if choice.token == before@.vocab_size - 1 {
            1int
        } else if tokens_of(result.1@, from as int) < 10 {
            0int
        } else {
            1int
        },
{
    law_how_far_a_step_goes(
        before@,
        choice,
        updated_state(before@.state_h, state_h),
        updated_state(before@.state_c, state_c),
    );
}

/// What a decoder can be asked and told. There is one for every encoded output of a model with a
/// vocabulary, unless there are frames in an empty batch. Before the last frame has been passed it
/// takes any token of the vocabulary with any duration that can be counted, and any states of
/// three axes or more.
pub proof fn law_what_a_decoder_takes(
    config: &TDTModelConfig,
    encoded: Tensor,
    decoder: &mut GreedyDecoder,
    before: &GreedyDecoder,
    logits: &Vec<u32>,
    choice: TokenChoice,
    state_h: Option<StateOutput>,
    state_c: Option<StateOutput>,
)
    requires
        *old(decoder) == *before,
        before@.well_formed(),
    ensures
        config.vocab_size > 0 && (encoded@.dim.0 > 0 || encoded@.dim.2 == 0) ==> call_requires(
            TDTModelConfig::decoder,
            (config, encoded),
        ),
        call_requires(GreedyDecoder::joint_input, (before,)),
        call_requires(GreedyDecoder::choice, (before, logits)),
        call_requires(GreedyDecoder::emits, (before, choice)),
        before@.frame < before@.encoded.dim.2 && choice.token < before@.vocab_size && before@.frame
            + choice.duration <= usize::MAX && (state_h matches Some(output) ==> output.shape@.len()
            >= 3) && (state_c matches Some(output) ==> output.shape@.len() >= 3) ==> call_requires(
            GreedyDecoder::advance,
            (decoder, choice, state_h, state_c),
        ),
        before@.frame < before@.encoded.dim.2 && choice.token == before@.vocab_size - 1
            && before@.frame + choice.duration <= usize::MAX ==> call_requires(
            GreedyDecoder::advance,
            (decoder, choice, state_h, state_c),
        ),
{
}

}
