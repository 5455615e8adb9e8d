use parakeet_tdt::encoder::{encoder_lengths_name, encoder_output, encoder_output_name};
use parakeet_tdt::error::ModelError;
use parakeet_tdt::model_tdt::TDTModelConfig;
use parakeet_tdt::tensor::{Matrix, Tensor};

fn features() -> Matrix {
    Matrix::from_shape_vec((2, 3), vec![1, 2, 3, 4, 5, 6]).unwrap()
}

fn config(fixed_frames: Option<usize>) -> TDTModelConfig {
    TDTModelConfig {
        vocab_size: 5,
        fixed_frames,
    }
}

fn model_message<T>(r: Result<T, ModelError>) -> String {
    match r {
        Err(ModelError::Model(message)) => message,
        _ => panic!("a model error was due"),
    }
}

#[test]
fn new_config_has_no_fixed_shape() {
    let config = TDTModelConfig::new(1025);
    assert_eq!(config.vocab_size, 1025);
    assert_eq!(config.fixed_frames, None);
}

#[test]
fn signal_is_transposed() {
    let input = config(None).encoder_input(&features());
    assert_eq!(input.signal.dim, (1, 3, 2));
    assert_eq!(input.signal.data, vec![1, 4, 2, 5, 3, 6]);
    assert_eq!(input.length, 2);
}

#[test]
fn signal_of_the_fixed_length_is_transposed() {
    let input = config(Some(2)).encoder_input(&features());
    assert_eq!(input.signal.data, vec![1, 4, 2, 5, 3, 6]);
    assert_eq!(input.length, 2);
}

#[test]
fn short_signal_is_filled_up_with_zeros() {
    let input = config(Some(4)).encoder_input(&features());
    assert_eq!(input.signal.dim, (1, 3, 4));
    assert_eq!(
        input.signal.data,
        vec![1, 4, 0, 0, 2, 5, 0, 0, 3, 6, 0, 0]
    );
    assert_eq!(input.length, 2);
}

#[test]
fn long_signal_is_cut_off() {
    let input = config(Some(1)).encoder_input(&features());
    assert_eq!(input.signal.dim, (1, 3, 1));
    assert_eq!(input.signal.data, vec![1, 2, 3]);
    assert_eq!(input.length, 1);
}

#[test]
fn signal_of_no_frames_is_zeros() {
    let none = Matrix::from_shape_vec((0, 2), vec![]).unwrap();
    let input = config(Some(3)).encoder_input(&none);
    assert_eq!(input.signal.dim, (1, 2, 3));
    assert_eq!(input.signal.data, vec![0; 6]);
    assert_eq!(input.length, 0);
    let input = config(None).encoder_input(&none);
    assert_eq!(input.signal.dim, (1, 2, 0));
    assert!(input.signal.data.is_empty());
}

#[test]
fn signal_that_does_not_fit_is_told() {
    assert!(config(Some(usize::MAX)).checked_encoder_input(&features()).is_none());
    assert!(config(Some(isize::MAX as usize / 4)).checked_encoder_input(&features()).is_none());
    let input = config(Some(3)).checked_encoder_input(&features()).unwrap();
    assert_eq!(input.signal.data, vec![1, 4, 0, 2, 5, 0, 3, 6, 0]);
}

#[test]
fn output_names_are_preferred_in_order() {
    assert_eq!(encoder_output_name(true, true).unwrap(), "outputs");
    assert_eq!(encoder_output_name(true, false).unwrap(), "outputs");
    assert_eq!(encoder_output_name(false, true).unwrap(), "output_0");
    assert_eq!(
        model_message(encoder_output_name(false, false)),
        "No encoder output tensor found (tried 'outputs', 'output_0')"
    );
    assert_eq!(encoder_lengths_name(true, false).unwrap(), "encoded_lengths");
    assert_eq!(encoder_lengths_name(false, true).unwrap(), "output_1");
    assert_eq!(
        model_message(encoder_lengths_name(false, false)),
        "No encoder lengths tensor found (tried 'encoded_lengths', 'output_1')"
    );
}

#[test]
fn output_takes_the_reported_shape() {
    let (frames, length) =
        encoder_output(&vec![1, 2, 3], vec![1, 2, 3, 4, 5, 6], &vec![7, 8]).unwrap();
    assert_eq!(frames.dim(), (1, 2, 3));
    assert_eq!(frames.to_data().data, vec![1, 2, 3, 4, 5, 6]);
    assert_eq!(length, 7);
}

#[test]
fn output_of_other_than_three_axes_is_refused() {
    assert_eq!(
        model_message(encoder_output(&vec![1, -20], vec![], &vec![])),
        "Expected 3D encoder output, got shape: [1, -20]"
    );
    assert_eq!(
        model_message(encoder_output(&vec![], vec![], &vec![])),
        "Expected 3D encoder output, got shape: []"
    );
    assert_eq!(
        model_message(encoder_output(
            &vec![i64::MIN, 0, i64::MAX, 10],
            vec![],
            &vec![]
        )),
        "Expected 3D encoder output, got shape: [-9223372036854775808, 0, 9223372036854775807, 10]"
    );
    let shape = vec![3i64, 40, 500, -6000];
    assert_eq!(
        model_message(encoder_output(&shape, vec![], &vec![])),
        format!("Expected 3D encoder output, got shape: {shape:?}")
    );
}

#[test]
fn output_that_does_not_fill_its_shape_is_refused() {
    assert_eq!(
        model_message(encoder_output(&vec![1, 2, 3], vec![1, 2], &vec![])),
        "Failed to create encoder array: ShapeError/OutOfBounds: out of bounds indexing"
    );
    assert_eq!(
        model_message(encoder_output(&vec![1, 1, 1], vec![1, 2], &vec![])),
        "Failed to create encoder array: ShapeError/IncompatibleShape: incompatible shapes"
    );
    assert_eq!(
        model_message(encoder_output(&vec![1, -1, 1], vec![1, 2], &vec![])),
        "Failed to create encoder array: ShapeError/Overflow: arithmetic overflow"
    );
    assert_eq!(
        model_message(encoder_output(&vec![0, -1, 1], vec![], &vec![])),
        "Failed to create encoder array: ShapeError/Overflow: arithmetic overflow"
    );
}

#[test]
fn matrix_takes_exactly_its_elements() {
    assert_eq!(features().dim(), (2, 3));
    assert_eq!(
        model_message(Matrix::from_shape_vec((2, 3), vec![1])),
        "ShapeError/OutOfBounds: out of bounds indexing"
    );
    assert_eq!(
        model_message(Matrix::from_shape_vec((1, 0), vec![1])),
        "ShapeError/IncompatibleShape: incompatible shapes"
    );
    assert_eq!(
        model_message(Matrix::from_shape_vec((usize::MAX, 2), vec![1])),
        "ShapeError/Overflow: arithmetic overflow"
    );
}

#[test]
fn tensor_hands_out_what_it_was_given() {
    let tensor = Tensor::from_shape_vec("tensor: ", (2, 1, 2), vec![9, 8, 7, 6]).unwrap();
    assert_eq!(tensor.dim(), (2, 1, 2));
    let data = tensor.to_data();
    assert_eq!(data.dim, (2, 1, 2));
    assert_eq!(data.data, vec![9, 8, 7, 6]);
    assert_eq!(
        model_message(Tensor::from_shape_vec("tensor: ", (2, 1, 2), vec![])),
        "tensor: ShapeError/OutOfBounds: out of bounds indexing"
    );
}
