use parakeet_tdt::logits::{argmax, choose_token, TokenChoice};

fn bits(values: &[f32]) -> Vec<u32> {
    values.iter().map(|value| value.to_bits()).collect()
}

fn by_floats(values: &[f32]) -> Option<usize> {
    values
        .iter()
        .enumerate()
        .max_by(|(_, a), (_, b)| a.partial_cmp(b).unwrap_or(std::cmp::Ordering::Equal))
        .map(|(index, _)| index)
}

fn agrees(values: &[f32]) {
    assert_eq!(
        argmax(&bits(values), 0, values.len()),
        by_floats(values),
        "on {values:?}"
    );
}

#[test]
fn argmax_is_the_last_greatest() {
    assert_eq!(argmax(&bits(&[1.0, 3.0, 2.0]), 0, 3), Some(1));
    assert_eq!(argmax(&bits(&[3.0, 1.0, 3.0]), 0, 3), Some(2));
    assert_eq!(argmax(&bits(&[3.0, 1.0, 3.0]), 0, 2), Some(0));
    assert_eq!(argmax(&bits(&[3.0, 1.0, 3.0]), 1, 3), Some(1));
    assert_eq!(argmax(&bits(&[3.0]), 1, 1), None);
}

#[test]
fn argmax_orders_as_floats_do() {
    let values = [
        0.0,
        -0.0,
        1.0,
        -1.0,
        f32::MIN_POSITIVE,
        -f32::MIN_POSITIVE,
        f32::MAX,
        f32::MIN,
        f32::INFINITY,
        f32::NEG_INFINITY,
        f32::NAN,
        -f32::NAN,
    ];
    for a in values {
        agrees(&[a]);
        for b in values {
            agrees(&[a, b]);
            for c in values {
                agrees(&[a, b, c]);
            }
        }
    }
}

#[test]
fn what_is_no_number_takes_the_place() {
    agrees(&[5.0, f32::NAN, 1.0]);
    assert_eq!(argmax(&bits(&[5.0, f32::NAN, 1.0]), 0, 3), Some(2));
    assert_eq!(argmax(&bits(&[5.0, f32::NAN]), 0, 2), Some(1));
}

#[test]
fn token_and_duration_are_chosen_apart() {
    let logits = bits(&[0.1, 0.9, 0.5, 9.0, 2.0, 8.0, 1.0, 0.0]);
    assert_eq!(
        choose_token(&logits, 3),
        TokenChoice {
            token: 1,
            duration: 0
        }
    );
    let logits = bits(&[0.1, -0.9, -0.5, 2.0, 2.5, 8.0, 1.0, 0.0]);
    assert_eq!(
        choose_token(&logits, 3),
        TokenChoice {
            token: 0,
            duration: 2
        }
    );
}

#[test]
fn missing_logits_mean_blank_and_no_duration() {
    assert_eq!(
        choose_token(&vec![], 4),
        TokenChoice {
            token: 3,
            duration: 0
        }
    );
    assert_eq!(
        choose_token(&bits(&[1.0, 2.0]), 4),
        TokenChoice {
            token: 1,
            duration: 0
        }
    );
    assert_eq!(
        choose_token(&bits(&[1.0, 2.0]), 2),
        TokenChoice {
            token: 1,
            duration: 0
        }
    );
}

#[test]
fn choice_is_greatest_among_numbers() {
    let values = [-3.0f32, 0.25, -0.0, 0.25, 7.5, -1.0, 7.5, 2.0];
    let choice = choose_token(&bits(&values), 4);
    assert_eq!(choice.token, 3);
    assert_eq!(choice.duration, 2);
    assert!(values[..4].iter().all(|value| *value <= values[choice.token]));
    assert!(values[4..].iter().all(|value| *value <= values[4 + choice.duration]));
}
