use parakeet_tdt::decode::{GreedyDecoder, StateOutput};
use parakeet_tdt::error::ModelError;
use parakeet_tdt::logits::TokenChoice;
use parakeet_tdt::model_tdt::TDTModelConfig;
use parakeet_tdt::tensor::Tensor;

const BLANK: usize = 4;

fn encoded(time_steps: usize) -> Tensor {
    let data = (0..2 * time_steps as u32).collect();
    Tensor::from_shape_vec("encoded: ", (1, 2, time_steps), data).unwrap()
}

fn decoder(time_steps: usize) -> GreedyDecoder {
    TDTModelConfig::new(BLANK + 1).decoder(encoded(time_steps))
}

fn choice(token: usize, duration: usize) -> TokenChoice {
    TokenChoice { token, duration }
}

fn state(shape: Vec<i64>, data: Vec<u32>) -> Option<StateOutput> {
    Some(StateOutput { shape, data })
}

#[test]
fn decoding_begins_with_the_blank_and_zero_states() {
    let input = decoder(3).joint_input().unwrap();
    assert_eq!(input.frame.dim, (1, 2, 1));
    assert_eq!(input.frame.data, vec![0, 3]);
    assert_eq!(input.target, 4);
    assert_eq!(input.target_length, 1);
    assert_eq!(input.state_h.dim, (2, 1, 640));
    assert_eq!(input.state_h.data, vec![0; 1280]);
    assert_eq!(input.state_c.dim, (2, 1, 640));
    assert_eq!(input.state_c.data, vec![0; 1280]);
}

#[test]
fn blank_of_a_large_vocabulary_is_cast() {
    let decoder = TDTModelConfig::new(1usize << 32).decoder(encoded(1));
    assert_eq!(decoder.joint_input().unwrap().target, -1);
}

#[test]
fn decoding_of_no_frames_is_over_at_once() {
    let decoder = decoder(0);
    assert!(decoder.joint_input().is_none());
    assert_eq!(decoder.into_result(), (vec![], vec![], vec![]));
}

#[test]
fn decoding_needs_a_blank_and_a_batch() {
    assert!(TDTModelConfig::new(0).checked_decoder(encoded(1)).is_none());
    let empty = Tensor::from_shape_vec("", (0, 2, 3), vec![]).unwrap();
    assert!(TDTModelConfig::new(5).checked_decoder(empty).is_none());
    let nothing = Tensor::from_shape_vec("", (0, 2, 0), vec![]).unwrap();
    assert!(TDTModelConfig::new(5).checked_decoder(nothing).is_some());
    assert!(TDTModelConfig::new(5).checked_decoder(encoded(2)).is_some());
}

#[test]
fn blank_leads_to_the_next_frame() {
    let mut decoder = decoder(3);
    decoder.advance(choice(BLANK, 0), None, None).unwrap();
    assert_eq!(decoder.frame(), 1);
    let input = decoder.joint_input().unwrap();
    assert_eq!(input.frame.data, vec![1, 4]);
    assert_eq!(input.target, 4);
    decoder.advance(choice(BLANK, 2), None, None).unwrap();
    assert_eq!(decoder.frame(), 3);
    assert!(decoder.joint_input().is_none());
    assert_eq!(decoder.into_result(), (vec![], vec![], vec![]));
}

#[test]
fn choice_is_read_from_the_logits() {
    let decoder = decoder(3);
    let logits = [0.0f32, 1.0, 5.0, 2.0, 3.0, 0.0, 0.0, 4.0, 0.0, 0.0];
    let bits = logits.iter().map(|logit| logit.to_bits()).collect();
    let choice = decoder.choice(&bits);
    assert_eq!(choice.token, 2);
    assert_eq!(choice.duration, 2);
    assert!(decoder.emits(choice));
    assert!(!decoder.emits(decoder.choice(&vec![])));
}

#[test]
fn blank_ignores_states() {
    let mut decoder = decoder(3);
    decoder
        .advance(choice(BLANK, 0), state(vec![1, 1, 1], vec![9]), state(vec![7, 7, 7], vec![]))
        .unwrap();
    let input = decoder.joint_input().unwrap();
    assert_eq!(input.state_h.data, vec![0; 1280]);
    assert_eq!(input.state_c.data, vec![0; 1280]);
}

#[test]
fn token_is_written_down_and_changes_the_states() {
    let mut decoder = decoder(5);
    decoder
        .advance(choice(2, 0), state(vec![2, 1, 1], vec![7, 8]), state(vec![1, 1, 1], vec![9]))
        .unwrap();
    assert_eq!(decoder.frame(), 0);
    let input = decoder.joint_input().unwrap();
    assert_eq!(input.target, 2);
    assert_eq!(input.state_h.dim, (2, 1, 1));
    assert_eq!(input.state_h.data, vec![7, 8]);
    assert_eq!(input.state_c.dim, (1, 1, 1));
    assert_eq!(input.state_c.data, vec![9]);
    decoder.advance(choice(0, 3), None, None).unwrap();
    assert_eq!(decoder.frame(), 3);
    let input = decoder.joint_input().unwrap();
    assert_eq!(input.state_h.data, vec![7, 8]);
    assert_eq!(input.target, 0);
    decoder.advance(choice(1, 4), None, None).unwrap();
    assert!(decoder.joint_input().is_none());
    assert_eq!(
        decoder.into_result(),
        (vec![2, 0, 1], vec![0, 0, 3], vec![0, 3, 4])
    );
}

#[test]
fn axes_behind_the_third_are_not_read() {
    let mut decoder = decoder(2);
    decoder
        .advance(choice(1, 0), state(vec![1, 1, 2, 50], vec![5, 6]), None)
        .unwrap();
    assert_eq!(decoder.joint_input().unwrap().state_h.dim, (1, 1, 2));
}

#[test]
fn states_that_do_not_fill_their_shape_are_refused() {
    let mut decoder = decoder(2);
    match decoder.advance(choice(1, 0), state(vec![1, 1, 2], vec![5]), state(vec![1], vec![])) {
        Err(ModelError::Model(message)) => assert_eq!(
            message,
            "Failed to update state_h: ShapeError/OutOfBounds: out of bounds indexing"
        ),
        _ => panic!("an error was due"),
    }
    match decoder.advance(choice(1, 0), state(vec![1, 1, 1], vec![5]), state(vec![1, 1, 1], vec![5, 6])) {
        Err(ModelError::Model(message)) => assert_eq!(
            message,
            "Failed to update state_c: ShapeError/IncompatibleShape: incompatible shapes"
        ),
        _ => panic!("an error was due"),
    }
    let input = decoder.joint_input().unwrap();
    assert_eq!(input.state_h.data, vec![0; 1280]);
    assert_eq!(input.target, 4);
    assert_eq!(decoder.into_result(), (vec![], vec![], vec![]));
}

#[test]
fn a_frame_emits_no_more_than_ten_tokens() {
    let mut decoder = decoder(2);
    let mut steps = 0;
    while decoder.joint_input().is_some() {
        decoder.advance(choice(steps % 4, 0), None, None).unwrap();
        steps += 1;
    }
    assert_eq!(steps, 20);
    let (tokens, frames, durations) = decoder.into_result();
    assert_eq!(tokens.len(), 20);
    assert_eq!(frames[..10], [0; 10]);
    assert_eq!(frames[10..], [1; 10]);
    assert_eq!(durations, vec![0; 20]);
}

#[test]
fn a_blank_starts_the_count_again() {
    let mut decoder = decoder(2);
    for _ in 0..9 {
        decoder.advance(choice(0, 0), None, None).unwrap();
        assert_eq!(decoder.frame(), 0);
    }
    decoder.advance(choice(BLANK, 0), None, None).unwrap();
    assert_eq!(decoder.frame(), 1);
    for _ in 0..9 {
        decoder.advance(choice(0, 0), None, None).unwrap();
        assert_eq!(decoder.frame(), 1);
    }
    decoder.advance(choice(0, 0), None, None).unwrap();
    assert!(decoder.joint_input().is_none());
}

#[test]
fn transcript_keeps_its_order() {
    let mut decoder = decoder(40);
    let mut steps = 0;
    let mut before = 0;
    while decoder.joint_input().is_some() {
        assert!(decoder.frame() >= before);
        before = decoder.frame();
        let next = choice((steps * 7 + 3) % 5, (steps * steps) % 3);
        decoder.advance(next, None, None).unwrap();
        steps += 1;
    }
    assert!(steps <= 10 * 40);
    let (tokens, frames, durations) = decoder.into_result();
    assert_eq!(tokens.len(), frames.len());
    assert_eq!(tokens.len(), durations.len());
    assert!(!tokens.is_empty());
    assert!(tokens.iter().all(|token| *token < BLANK));
    for i in 1..frames.len() {
        assert!(frames[i - 1] + durations[i - 1] <= frames[i]);
    }
    assert!(frames.iter().all(|frame| *frame < 40));
}
