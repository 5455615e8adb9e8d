//! The model and its configuration.
use ort::session::Session;
use vstd::prelude::*;

verus! {

/// Configuration of a TDT model.
#[derive(Debug, Clone)]
pub struct TDTModelConfig {
    /// The number of tokens, the blank token counted.
    pub vocab_size: usize,
    /// The number of frames that a model of fixed shape takes. Where it is set, the input of the
    /// encoder is filled up with zeros to this many frames and the number of frames that are
    /// meant goes with it.
    pub fixed_frames: Option<usize>,
}

impl TDTModelConfig {
    /// A configuration with this vocabulary and no fixed shape.
    pub fn new(vocab_size: usize) -> (r: Self)
        ensures
            r == (TDTModelConfig { vocab_size, fixed_frames: None }),
    {
        TDTModelConfig { vocab_size, fixed_frames: None }
    }
}

/// A TDT model: the sessions of its two halves and its configuration.
pub struct ParakeetTDTModel {
    pub encoder: Session,
    pub decoder_joint: Session,
    pub config: TDTModelConfig,
}

impl ParakeetTDTModel {
    /// The model of these sessions. `vocab_size` is the number of tokens, the blank token counted.
    pub fn from_sessions(encoder: Session, decoder_joint: Session, vocab_size: usize) -> (r: Self)
        ensures
            r == (ParakeetTDTModel {
                encoder,
                decoder_joint,
                config: TDTModelConfig { vocab_size, fixed_frames: None },
            }),
    {
        ParakeetTDTModel { encoder, decoder_joint, config: TDTModelConfig::new(vocab_size) }
    }

    /// Sets the number of frames that the encoder takes.
    pub fn set_fixed_frames(&mut self, frames: usize)
        ensures
            *final(self) == (ParakeetTDTModel {
                config: TDTModelConfig { fixed_frames: Some(frames), ..old(self).config },
                ..*old(self)
            }),
    {
        self.config.fixed_frames = Some(frames);
    }
}

/// A model keeps each session in its own place, with the vocabulary it was given; a fixed number of
/// frames is only there once it is set, and setting it changes nothing else.
pub proof fn law_model_keeps_what_it_is_given(
    encoder: Session,
    decoder_joint: Session,
    vocab_size: usize,
    made: ParakeetTDTModel,
    config: TDTModelConfig,
    model: &mut ParakeetTDTModel,
    frames: usize,
)
    requires
        call_ensures(
            ParakeetTDTModel::from_sessions,
            (encoder, decoder_joint, vocab_size),
            made,
        ),
        call_ensures(TDTModelConfig::new, (vocab_size,), config),
        call_ensures(ParakeetTDTModel::set_fixed_frames, (model, frames), ()),
    ensures
        made.encoder == encoder,
        made.decoder_joint == decoder_joint,
        made.config == config,
        config.vocab_size == vocab_size,
        config.fixed_frames is None,
        final(model).encoder == old(model).encoder,
        final(model).decoder_joint == old(model).decoder_joint,
        final(model).config.vocab_size == old(model).config.vocab_size,
        final(model).config.fixed_frames == Some(frames),
{
}

}
