//! What goes into the encoder and what comes out of it.
use crate::error::ModelError;
use crate::model_tdt::TDTModelConfig;
use crate::tensor::{
    addressable3, axis_factor, lemma_offset2_bounds, lemma_offset2_injective, matrix_at,
    matrix_transposed_to_shape, offset2, offset3, shape_fault, size2, size3, tensor_set, Matrix,
    MatrixModel, Tensor, TensorData, TensorModel,
};
use crate::text::{joined, list, list_text};
use vstd::prelude::*;

verus! {

/// The input of one run of the encoder.
#[derive(Debug)]
pub struct EncoderInput {
    /// The features, by batch, feature and frame.
    pub signal: TensorData,
    /// How many of the frames hold features.
    pub length: i64,
}

/// The number of frames that the encoder is given for `frames` frames of features.
pub open spec fn padded_frames(fixed_frames: Option<usize>, frames: usize) -> usize {
    match fixed_frames {
        Some(fixed) => fixed,
        None => frames,
    }
}

/// The number of frames that hold features: no more than there are, and no more than fit.
pub open spec fn actual_frames(fixed_frames: Option<usize>, frames: usize) -> usize {
    if frames <= padded_frames(fixed_frames, frames) {
        frames
    } else {
        padded_frames(fixed_frames, frames)
    }
}

/// The signal for the encoder holds in frame `f` the features of frame `f`, and zeros after the
/// last frame of features.
pub open spec fn is_encoder_signal(
    features: MatrixModel,
    padded: usize,
    signal: TensorModel,
) -> bool {
    &&& signal.dim == (1usize, features.dim.1, padded)
    &&& signal.well_formed()
    &&& forall|m: int, f: int|
        0 <= m < features.dim.1 && 0 <= f < padded ==> #[trigger] signal.at(0, m, f) == if f
            < features.dim.0 {
            features.at(f, m)
        } else {
            0u32
        }
}

impl TDTModelConfig {
    /// The signal for features of this shape fits into memory.
    pub open spec fn signal_fits(self, dim: (usize, usize)) -> bool {
        let signal = (1usize, dim.1, padded_frames(self.fixed_frames, dim.0));
        signal.2 != dim.0 ==> addressable3(signal) && 4 * size3(signal) <= isize::MAX
    }

    /// Whether the signal for these features fits into memory.
    fn check_signal(&self, features: &Matrix) -> (r: bool)
        ensures
            r == self.signal_fits(features@.dim),
    {
        let (frames, bins) = features.dim();
        match self.fixed_frames {
            Some(fixed) => fixed == frames || fits(bins, fixed),
            None => true,
        }
    }

    /// What the encoder is given for these features, which come frame by frame: the features with
    /// the frames along the last axis, cut off or filled up with zeros to the fixed number of
    /// frames, and the number of frames that hold features.
    pub fn encoder_input(&self, features: &Matrix) -> (r: EncoderInput)
        requires
            self.signal_fits(features@.dim),
        ensures
            is_encoder_signal(
                features@,
                padded_frames(self.fixed_frames, features@.dim.0),
                r.signal@,
            ),
            r.length == actual_frames(self.fixed_frames, features@.dim.0),
    {
        let (frames, bins) = features.dim();
        let padded: usize = match self.fixed_frames {
            Some(fixed) => fixed,
            None => frames,
        };
        let actual: usize = if frames <= padded {
            frames
        } else {
            padded
        };
        let signal = if padded == frames {
            transposed(features, frames, bins)
        } else {
            zero_padded(features, bins, padded, actual)
        };
        proof {
            lemma_axis_addressable(frames, bins);
        }
        EncoderInput { signal: signal.to_data(), length: actual as i64 }
    }

    /// What the encoder is given for these features where the signal fits into memory; `None`
    /// where it does not.
    pub fn checked_encoder_input(&self, features: &Matrix) -> (r: Option<EncoderInput>)
        ensures
            match r {
                Some(input) => self.signal_fits(features@.dim) && is_encoder_signal(
                    features@,
                    padded_frames(self.fixed_frames, features@.dim.0),
                    input.signal@,
                ) && input.length == actual_frames(self.fixed_frames, features@.dim.0),
                None => !self.signal_fits(features@.dim),
            },
    {
        if self.check_signal(features) {
            Some(self.encoder_input(features))
        } else {
            None
        }
    }
}

/// Whether a batch of one with these axes can be addressed and fits into memory.
fn fits(bins: usize, frames: usize) -> (r: bool)
    ensures
        r == (addressable3((1usize, bins, frames)) && 4 * size3((1usize, bins, frames))
            <= isize::MAX),
{
    let bins_factor: u128 = if bins == 0 {
        1
    } else {
        bins as u128
    };
    let frames_factor: u128 = if frames == 0 {
        1
    } else {
        frames as u128
    };
    assert(bins_factor * frames_factor <= 0xffff_ffff_ffff_ffff * 0xffff_ffff_ffff_ffff)
        by (nonlinear_arith)
        requires
            0 <= bins_factor <= 0xffff_ffff_ffff_ffff,
            0 <= frames_factor <= 0xffff_ffff_ffff_ffff,
    ;
    assert(bins * frames <= bins_factor * frames_factor) by (nonlinear_arith)
        requires
            0 <= bins <= bins_factor,
            0 <= frames <= frames_factor,
    ;
    assert(1 * bins_factor * frames_factor == axis_factor(1) * axis_factor(bins) * axis_factor(
        frames,
    ));
    assert(size3((1usize, bins, frames)) == bins * frames) by (nonlinear_arith)
        requires
            size3((1usize, bins, frames)) == 1 * bins * frames,
    ;
    assert(bins * frames >= 0) by (nonlinear_arith)
        requires
            bins >= 0,
            frames >= 0,
    ;
    let limit: u128 = isize::MAX as u128;
    bins_factor * frames_factor <= limit && (bins as u128) * (frames as u128) <= limit / 4
}

/// The output of the encoder that holds the encoded frames: the one named `outputs`, or else the
/// one named `output_0`; the arguments say which of the two there are.
pub fn encoder_output_name(has_named: bool, has_numbered: bool) -> (r: Result<&'static str, ModelError>)
    ensures
        match r {
            Ok(name) => (has_named || has_numbered) && name@ == if has_named {
                "outputs"@
            } else {
                "output_0"@
            },
            Err(ModelError::Model(message)) => !has_named && !has_numbered && message@
                == "No encoder output tensor found (tried 'outputs', 'output_0')"@,
            Err(_) => false,
        },
{
    if has_named {
        Ok("outputs")
    } else if has_numbered {
        Ok("output_0")
    } else {
        Err(
            ModelError::Model(
                "No encoder output tensor found (tried 'outputs', 'output_0')".to_owned(),
            ),
        )
    }
}

/// The output of the encoder that holds the number of encoded frames: the one named
/// `encoded_lengths`, or else the one named `output_1`; the arguments say which of the two there
/// are.
pub fn encoder_lengths_name(has_named: bool, has_numbered: bool) -> (r: Result<
    &'static str,
    ModelError,
>)
    ensures
        match r {
            Ok(name) => (has_named || has_numbered) && name@ == if has_named {
                "encoded_lengths"@
            } else {
                "output_1"@
            },
            Err(ModelError::Model(message)) => !has_named && !has_numbered && message@
                == "No encoder lengths tensor found (tried 'encoded_lengths', 'output_1')"@,
            Err(_) => false,
        },
{
    if has_named {
        Ok("encoded_lengths")
    } else if has_numbered {
        Ok("output_1")
    } else {
        Err(
            ModelError::Model(
                "No encoder lengths tensor found (tried 'encoded_lengths', 'output_1')".to_owned(),
            ),
        )
    }
}

/// The first three axis lengths as ONNX Runtime reports them, cast to `usize`.
pub open spec fn reported_dim(shape: Seq<i64>) -> (usize, usize, usize) {
    (shape[0] as usize, shape[1] as usize, shape[2] as usize)
}

/// Why the elements cannot take the shape that ONNX Runtime reports; `None` when they can.
pub open spec fn reported_fault(shape: Seq<i64>, len: int) -> Option<Seq<char>> {
    shape_fault(addressable3(reported_dim(shape)), size3(reported_dim(shape)), len)
}

/// The encoded frames, by batch, encoder dimension and time, and the number of frames that the
/// encoder reports for the first item of the batch.
pub fn encoder_output(shape: &Vec<i64>, data: Vec<u32>, lengths: &Vec<i64>) -> (r: Result<
    (Tensor, i64),
    ModelError,
>)
    requires
        shape@.len() == 3 && reported_fault(shape@, data@.len() as int) is None ==> lengths@.len()
            > 0,
    ensures
        if shape@.len() != 3 {
            r matches Err(ModelError::Model(message)) && message@
                == "Expected 3D encoder output, got shape: "@ + list_text(shape@)
        } else {
            match reported_fault(shape@, data@.len() as int) {
                None => r matches Ok((frames, length)) && frames@ == (TensorModel {
                    dim: reported_dim(shape@),
                    elements: data@,
                }) && length == lengths@[0],
                Some(text) => r matches Err(ModelError::Model(message)) && message@
                    == "Failed to create encoder array: "@ + text,
            }
        },
{
    if shape.len() != 3 {
        let found = list(shape);
        return Err(
            ModelError::Model(joined("Expected 3D encoder output, got shape: ", found.as_str())),
        );
    }
    let dim: (usize, usize, usize) = (shape[0] as usize, shape[1] as usize, shape[2] as usize);
    match Tensor::from_shape_vec("Failed to create encoder array: ", dim, data) {
        Ok(frames) => Ok((frames, lengths[0])),
        Err(error) => Err(error),
    }
}

/// An axis of an addressable matrix is no longer than the largest `isize`.
proof fn lemma_axis_addressable(rows: usize, columns: usize)
    requires
        axis_factor(rows) * axis_factor(columns) <= isize::MAX,
    ensures
        rows <= isize::MAX,
{
    assert(axis_factor(rows) <= axis_factor(rows) * axis_factor(columns)) by (nonlinear_arith)
        requires
            axis_factor(rows) >= 1,
            axis_factor(columns) >= 1,
    ;
}

/// The features with the frames along the last axis.
fn transposed(features: &Matrix, frames: usize, bins: usize) -> (r: Tensor)
    requires
        features@.dim == (frames, bins),
        features@.well_formed(),
    ensures
        is_encoder_signal(features@, frames, r@),
{
    let dim: (usize, usize, usize) = (1, bins, frames);
    assert(size3(dim) == size2((frames, bins))) by (nonlinear_arith)
        requires
            size3(dim) == 1 * bins * frames,
            size2((frames, bins)) == frames * bins,
    ;
    assert(addressable3(dim)) by (nonlinear_arith)
        requires
            axis_factor(frames) * axis_factor(bins) <= isize::MAX,
            dim == (1usize, bins, frames),
    ;
    match matrix_transposed_to_shape(features, dim) {
        Ok(signal) => {
            proof {
                assert forall|m: int, f: int| 0 <= m < bins && 0 <= f < frames implies signal@.at(
                    0,
                    m,
                    f,
                ) == features@.at(f, m) by {
                    let _ = features@.elements[offset2(features@.dim, f, m)];
                }
            }
            signal
        },
        Err(_) => vstd::pervasive::unreached(),
    }
}

/// The first `actual` frames of the features with the frames along the last axis, filled up with
/// zeros to `padded` frames.
fn zero_padded(features: &Matrix, bins: usize, padded: usize, actual: usize) -> (r: Tensor)
    requires
        features@.dim.1 == bins,
        features@.well_formed(),
        actual <= padded,
        actual <= features@.dim.0,
        actual == padded || actual == features@.dim.0,
        addressable3((1usize, bins, padded)),
        4 * size3((1usize, bins, padded)) <= isize::MAX,
    ensures
        is_encoder_signal(features@, padded, r@),
{
    let mut signal = Tensor::zeros((1, bins, padded));
    let mut f: usize = 0;
    proof {
        lemma_signal_offsets(bins, padded);
    }
    while f < actual
        invariant
            f <= actual <= padded,
            actual <= features@.dim.0,
            features@.dim.1 == bins,
            filled(features@, bins, padded, f as int, 0, signal@),
        decreases actual - f,
    {
        let mut m: usize = 0;
        while m < bins
            invariant
                f < actual <= padded,
                actual <= features@.dim.0,
                features@.dim.1 == bins,
                m <= bins,
                filled(features@, bins, padded, f as int, m as int, signal@),
            decreases bins - m,
        {
            let ghost before = signal@;
            tensor_set(&mut signal, 0, m, f, matrix_at(features, f, m));
            proof {
                lemma_filled_step(features@, bins, padded, f as int, m as int, before, signal@);
            }
            m += 1;
        }
        f += 1;
    }
    signal
}

/// The frames before `f`, and of frame `f` the features before `m`, are copied; the rest is zero.
spec fn filled(
    features: MatrixModel,
    bins: usize,
    padded: usize,
    f: int,
    m: int,
    signal: TensorModel,
) -> bool {
    &&& signal.dim == (1usize, bins, padded)
    &&& signal.well_formed()
    &&& forall|n: int, g: int|
        0 <= n < bins && 0 <= g < padded ==> #[trigger] signal.at(0, n, g) == if g < f || g == f
            && n < m {
            features.at(g, n)
        } else {
            0u32
        }
}

/// In a batch of one the features are the rows.
proof fn lemma_signal_offsets(bins: usize, padded: usize)
    ensures
        size3((1usize, bins, padded)) == size2((bins, padded)),
        forall|m: int, f: int|
            #![trigger offset3((1usize, bins, padded), 0, m, f)]
            0 <= m < bins && 0 <= f < padded ==> {
                &&& offset3((1usize, bins, padded), 0, m, f) == offset2((bins, padded), m, f)
                &&& 0 <= offset2((bins, padded), m, f) < size2((bins, padded))
            },
{
    assert forall|m: int, f: int|
        #![trigger offset3((1usize, bins, padded), 0, m, f)]
        0 <= m < bins && 0 <= f < padded implies {
        &&& offset3((1usize, bins, padded), 0, m, f) == offset2((bins, padded), m, f)
        &&& 0 <= offset2((bins, padded), m, f) < size2((bins, padded))
    } by {
        lemma_offset2_bounds((bins, padded), m, f);
    }
}

/// Copying one more feature.
proof fn lemma_filled_step(
    features: MatrixModel,
    bins: usize,
    padded: usize,
    f: int,
    m: int,
    before: TensorModel,
    after: TensorModel,
)
    requires
        filled(features, bins, padded, f, m, before),
        0 <= m < bins,
        0 <= f < padded,
        after.dim == before.dim,
        after.elements == before.elements.update(
            offset3((1usize, bins, padded), 0, m, f),
            features.at(f, m),
        ),
    ensures
        filled(features, bins, padded, f, m + 1, after),
{
    lemma_signal_offsets(bins, padded);
    assert forall|n: int, g: int| 0 <= n < bins && 0 <= g < padded implies #[trigger] after.at(
        0,
        n,
        g,
    ) == if g < f || g == f && n < m + 1 {
        features.at(g, n)
    } else {
        0u32
    } by {
        let _ = before.at(0, n, g);
        assert(offset3((1usize, bins, padded), 0, n, g) == offset2((bins, padded), n, g));
        assert(offset3((1usize, bins, padded), 0, m, f) == offset2((bins, padded), m, f));
        if !(n == m && g == f) {
            if offset2((bins, padded), n, g) == offset2((bins, padded), m, f) {
                lemma_offset2_injective((bins, padded), n, g, m, f);
            }
        }
    }
}

/// The number of frames that go into the encoder: the fixed number, or else those of the features.
pub open spec fn signal_frames(config: TDTModelConfig, features: MatrixModel) -> int {
    match config.fixed_frames {
        Some(fixed) => fixed as int,
        None => features.dim.0 as int,
    }
}

/// The input of the encoder for these features: feature `m` of frame `f` stands in row `m` and
/// column `f` of the signal, as far as the frames of the signal go; where they go further than the
/// features, zeros follow. The length is the number of frames that were copied.
pub open spec fn is_input_for(
    config: TDTModelConfig,
    features: MatrixModel,
    input: EncoderInput,
) -> bool {
    let frames = features.dim.0;
    let bins = features.dim.1;
    let signal = input.signal@;
    &&& signal.dim.0 == 1
    &&& signal.dim.1 == bins
    &&& signal.dim.2 == signal_frames(config, features)
    &&& signal.elements.len() == bins * signal.dim.2
    &&& forall|m: int, f: int|
        0 <= m < bins && 0 <= f < signal.dim.2 && f < frames ==> #[trigger] signal.at(0, m, f)
            == features.at(f, m)
    &&& forall|m: int, f: int|
        0 <= m < bins && frames <= f < signal.dim.2 ==> #[trigger] signal.at(0, m, f) == 0
    &&& input.length <= frames && input.length <= signal.dim.2
    &&& input.length == frames || input.length == signal.dim.2
}

/// A signal for the encoder is the input for the features.
proof fn lemma_input_is_for(config: TDTModelConfig, features: MatrixModel, input: EncoderInput)
    requires
        is_encoder_signal(
            features,
            padded_frames(config.fixed_frames, features.dim.0),
            input.signal@,
        ),
        input.length == actual_frames(config.fixed_frames, features.dim.0),
    ensures
        is_input_for(config, features, input),
{
    let bins = features.dim.1;
    let width = input.signal.dim.2;
    assert(size3((1usize, bins, width)) == bins * width) by (nonlinear_arith)
        requires
            size3((1usize, bins, width)) == 1 * bins * width,
    ;
}

/// What goes into the encoder is the input for the features. Among the elements, feature `m` of
/// frame `f` is `m` rows and `f` columns in, or a zero where there is no such frame.
pub proof fn law_what_goes_into_the_encoder(
    config: &TDTModelConfig,
    features: &Matrix,
    input: EncoderInput,
    m: int,
    f: int,
)
    requires
        call_ensures(TDTModelConfig::encoder_input, (config, features), input),
    ensures
        is_input_for(*config, features@, input),
        0 <= m < features@.dim.1 && 0 <= f < signal_frames(*config, features@)
            ==> input.signal.data@[m * signal_frames(*config, features@) + f] == if f
            < features@.dim.0 {
            features@.elements[f * features@.dim.1 + m]
        } else {
            0u32
        },
{
    lemma_input_is_for(*config, features@, input);
    if 0 <= m < features@.dim.1 && 0 <= f < signal_frames(*config, features@) {
        let found = input.signal@.at(0, m, f);
        assert(0 * features@.dim.1 + m == m);
        assert(found == if f < features@.dim.0 {
            features@.at(f, m)
        } else {
            0u32
        });
    }
}

/// The encoder can be given any features, unless they are to be filled up or cut off to a signal
/// that is too large for memory. What it is given then is the input for the features.
pub proof fn law_which_features_fit(
    config: &TDTModelConfig,
    features: &Matrix,
    r: Option<EncoderInput>,
)
    requires
        call_ensures(TDTModelConfig::checked_encoder_input, (config, features), r),
    ensures
        r is None <==> (config.fixed_frames matches Some(fixed) && fixed != features@.dim.0 && (
        axis_factor(features@.dim.1) * axis_factor(fixed) > isize::MAX || 4 * (features@.dim.1
            * fixed) > isize::MAX)),
        r matches Some(input) ==> is_input_for(*config, features@, input),
{
    if let Some(input) = r {
        lemma_input_is_for(*config, features@, input);
    }
    if let Some(fixed) = config.fixed_frames {
        let bins = features@.dim.1;
        assert(1 * axis_factor(bins) * axis_factor(fixed) == axis_factor(bins) * axis_factor(fixed))
            by (nonlinear_arith);
        assert(1 * bins * fixed == bins * fixed) by (nonlinear_arith);
    }
}

/// What comes after the frames that the encoder takes plays no part: features that agree on those
/// frames give the same input.
pub proof fn law_only_the_frames_that_fit_count(
    config: &TDTModelConfig,
    features: &Matrix,
    others: &Matrix,
    input: EncoderInput,
    other: EncoderInput,
    fixed: usize,
)
    requires
        config.fixed_frames == Some(fixed),
        fixed <= features@.dim.0,
        fixed <= others@.dim.0,
        features@.dim.1 == others@.dim.1,
        forall|n: int|
            0 <= n < fixed * features@.dim.1 ==> #[trigger] features@.elements[n]
                == others@.elements[n],
        call_ensures(TDTModelConfig::encoder_input, (config, features), input),
        call_ensures(TDTModelConfig::encoder_input, (config, others), other),
    ensures
        input.signal@ == other.signal@,
        input.length == fixed,
        other.length == fixed,
{
    lemma_input_is_for(*config, features@, input);
    lemma_input_is_for(*config, others@, other);
    let bins = features@.dim.1;
    assert forall|n: int| 0 <= n < bins * fixed implies #[trigger] input.signal.data@[n]
        == other.signal.data@[n] by {
        let m = n / (fixed as int);
        let f = n % (fixed as int);
        assert(fixed > 0) by (nonlinear_arith)
            requires
                0 <= n < bins * fixed,
                bins >= 0,
                fixed >= 0,
        ;
        assert(n == m * fixed + f && 0 <= f < fixed && 0 <= m < bins) by (nonlinear_arith)
            requires
                fixed > 0,
                0 <= n < bins * fixed,
                m == n / (fixed as int),
                f == n % (fixed as int),
        ;
        assert(0 <= f * bins + m < fixed * bins) by (nonlinear_arith)
            requires
                0 <= f < fixed,
                0 <= m < bins,
        ;
        assert(features@.elements[f * bins + m] == others@.elements[f * bins + m]);
        law_what_goes_into_the_encoder(config, features, input, m, f);
        law_what_goes_into_the_encoder(config, others, other, m, f);
    }
    assert(input.signal.data@ =~= other.signal.data@);
}

/// An output under its own name is taken before one under a number, each for its own purpose; only
/// where there is neither is there an error.
pub proof fn law_which_outputs_are_taken(
    has_named: bool,
    has_numbered: bool,
    frames: Result<&'static str, ModelError>,
    lengths: Result<&'static str, ModelError>,
)
    requires
        call_ensures(encoder_output_name, (has_named, has_numbered), frames),
        call_ensures(encoder_lengths_name, (has_named, has_numbered), lengths),
    ensures
        has_named ==> (frames matches Ok(name) && name@ == "outputs"@) && (lengths matches Ok(name)
            && name@ == "encoded_lengths"@),
        !has_named && has_numbered ==> (frames matches Ok(name) && name@ == "output_0"@) && (
        lengths matches Ok(name) && name@ == "output_1"@),
        !has_named && !has_numbered ==> (frames matches Err(ModelError::Model(message)) && message@
            == "No encoder output tensor found (tried 'outputs', 'output_0')"@) && (
        lengths matches Err(ModelError::Model(message)) && message@
            == "No encoder lengths tensor found (tried 'encoded_lengths', 'output_1')"@),
{
}

/// The output of the encoder is taken over as it is where it has three axes that its elements
/// fill, together with the first of the reported lengths; otherwise it is an error that says why.
pub proof fn law_what_comes_out_of_the_encoder(
    shape: &Vec<i64>,
    data: Vec<u32>,
    lengths: &Vec<i64>,
    r: Result<(Tensor, i64), ModelError>,
)
    requires
        call_ensures(encoder_output, (shape, data, lengths), r),
    ensures
        r is Ok <==> shape@.len() == 3 && (shape@[0] as usize) * (shape@[1] as usize) * (
        shape@[2] as usize) == data@.len() && axis_factor(shape@[0] as usize) * axis_factor(
            shape@[1] as usize,
        ) * axis_factor(shape@[2] as usize) <= isize::MAX,
        r matches Ok((frames, length)) ==> frames@.elements == data@ && frames@.dim.0
            == shape@[0] as usize && frames@.dim.1 == shape@[1] as usize && frames@.dim.2
            == shape@[2] as usize && length == lengths@[0],
        shape@.len() != 3 ==> (r matches Err(ModelError::Model(message)) && message@
            == "Expected 3D encoder output, got shape: "@ + list_text(shape@)),
        shape@.len() == 3 && r is Err ==> (r matches Err(ModelError::Model(message))
            && "Failed to create encoder array: "@.is_prefix_of(message@)),
{
    if shape@.len() == 3 {
        if let Err(ModelError::Model(message)) = r {
            let what = "Failed to create encoder array: "@;
            let text = reported_fault(shape@, data@.len() as int)->0;
            assert(what =~= (what + text).subrange(0, what.len() as int));
        }
    }
}

/// Any features can be tried, and those that are not to be filled up or cut off can be given
/// straight away. Any output can be taken over as long as a length is reported with it.
pub proof fn law_any_features_can_be_tried(
    config: &TDTModelConfig,
    features: &Matrix,
    shape: &Vec<i64>,
    data: Vec<u32>,
    lengths: &Vec<i64>,
)
    ensures
        call_requires(TDTModelConfig::checked_encoder_input, (config, features)),
        config.fixed_frames is None || config.fixed_frames == Some(features@.dim.0)
            ==> call_requires(TDTModelConfig::encoder_input, (config, features)),
        lengths@.len() > 0 ==> call_requires(encoder_output, (shape, data, lengths)),
{
}

}
