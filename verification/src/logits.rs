//! The choice of a token and of a duration from the logits of the joint network.
//!
//! A logit is the bit pattern of a 32-bit float.
use vstd::arithmetic::power2::{
    lemma_pow2_pos, lemma_pow2_strictly_increases, lemma_pow2_unfold, pow2,
};
use vstd::prelude::*;

verus! {

/// The bit of the sign.
pub const SIGN: u32 = 0x8000_0000;

/// The bits of positive infinity.
pub const INFINITY: u32 = 0x7f80_0000;

/// The bits below the sign.
pub open spec fn magnitude(bits: u32) -> int {
    if bits >= SIGN {
        bits - SIGN
    } else {
        bits as int
    }
}

/// The bits stand for no number.
pub open spec fn is_nan(bits: u32) -> bool {
    magnitude(bits) > INFINITY
}

/// Where a number stands in the order of the numbers. The two zeros stand at the same place.
pub open spec fn rank(bits: u32) -> int {
    if bits >= SIGN {
        -magnitude(bits)
    } else {
        magnitude(bits)
    }
}

/// The first is greater than the second. What is no number is neither greater nor less than
/// anything.
pub open spec fn exceeds(a: u32, b: u32) -> bool {
    &&& !is_nan(a)
    &&& !is_nan(b)
    &&& rank(a) > rank(b)
}

/// The index that is left when the values are gone through in order and each value takes the
/// place of the one kept so far unless that one exceeds it.
pub open spec fn kept_index(values: Seq<u32>) -> int
    decreases values.len(),
{
    if values.len() <= 1 {
        0
    } else {
        let before = kept_index(values.drop_last());
        if exceeds(values[before], values.last()) {
            before
        } else {
            values.len() - 1
        }
    }
}

/// What the joint network suggests at a frame.
#[derive(Debug, Clone, Copy, PartialEq, Eq, Structural)]
pub struct TokenChoice {
    /// The token; the last of the vocabulary is the blank.
    pub token: usize,
    /// How many frames the token lasts.
    pub duration: usize,
}

/// How many of the logits belong to the vocabulary.
pub open spec fn vocab_logits(logits: Seq<u32>, vocab_size: usize) -> int {
    if logits.len() < vocab_size {
        logits.len() as int
    } else {
        vocab_size as int
    }
}

/// The token and the duration with the greatest logit each. The logits of the durations follow
/// those of the vocabulary; where there are none, the duration is 0, and where there are no
/// logits at all, the token is the blank.
pub open spec fn chosen(logits: Seq<u32>, vocab_size: usize) -> TokenChoice {
    let split = vocab_logits(logits, vocab_size);
    let vocab = logits.take(split);
    let durations = logits.skip(split);
    TokenChoice {
        token: if vocab.len() == 0 {
            (vocab_size - 1) as usize
        } else {
            kept_index(vocab) as usize
        },
        duration: kept_index(durations) as usize,
    }
}

/// Whether one logit is greater than another.
fn is_greater(a: u32, b: u32) -> (r: bool)
    ensures
        r == exceeds(a, b),
{
    let a_negative = a >= SIGN;
    let b_negative = b >= SIGN;
    let a_magnitude: u32 = if a_negative {
        a - SIGN
    } else {
        a
    };
    let b_magnitude: u32 = if b_negative {
        b - SIGN
    } else {
        b
    };
    if a_magnitude > INFINITY || b_magnitude > INFINITY {
        false
    } else if a_negative {
        b_negative && a_magnitude < b_magnitude
    } else if b_negative {
        a_magnitude > 0 || b_magnitude > 0
    } else {
        a_magnitude > b_magnitude
    }
}

/// The index, counted from `from`, of the greatest of the values from `from` on and before `to`;
/// of several greatest ones, the last. `None` where there are no such values.
pub fn argmax(values: &Vec<u32>, from: usize, to: usize) -> (r: Option<usize>)
    requires
        from <= to <= values@.len(),
    ensures
        match r {
            Some(index) => from < to && index == kept_index(
                values@.subrange(from as int, to as int),
            ) && index < to - from,
            None => from == to,
        },
{
    if from == to {
        return None;
    }
    let mut best: usize = from;
    let mut i: usize = from + 1;
    assert(values@.subrange(from as int, i as int).len() == 1);
    while i < to
        invariant
            from < i <= to <= values@.len(),
            from <= best < i,
            best - from == kept_index(values@.subrange(from as int, i as int)),
        decreases to - i,
    {
        proof {
            let seen = values@.subrange(from as int, i + 1);
            assert(seen.drop_last() =~= values@.subrange(from as int, i as int));
        }
        if !is_greater(values[best], values[i]) {
            best = i;
        }
        i += 1;
    }
    Some(best - from)
}

/// The token and the duration that the joint network suggests.
pub fn choose_token(logits: &Vec<u32>, vocab_size: usize) -> (r: TokenChoice)
    requires
        vocab_size > 0,
    ensures
        r == chosen(logits@, vocab_size),
        r.token < vocab_size,
        r.duration < logits@.len() - vocab_size || r.duration == 0,
{
    let split: usize = if logits.len() < vocab_size {
        logits.len()
    } else {
        vocab_size
    };
    let token: usize = match argmax(logits, 0, split) {
        Some(index) => index,
        None => vocab_size - 1,
    };
    let duration: usize = match argmax(logits, split, logits.len()) {
        Some(index) => index,
        None => 0,
    };
    TokenChoice { token, duration }
}

/// Among numbers, the index that `kept_index` leaves is that of the greatest, and of several
/// greatest ones it is the last.
pub proof fn law_kept_index_is_last_greatest(values: Seq<u32>)
    requires
        values.len() > 0,
        forall|i: int| 0 <= i < values.len() ==> !is_nan(#[trigger] values[i]),
    ensures
        0 <= kept_index(values) < values.len(),
        forall|i: int|
            0 <= i < values.len() ==> rank(#[trigger] values[i]) <= rank(
                values[kept_index(values)],
            ),
        forall|i: int|
            kept_index(values) < i < values.len() ==> rank(#[trigger] values[i]) < rank(
                values[kept_index(values)],
            ),
    decreases values.len(),
{
    if values.len() > 1 {
        let front = values.drop_last();
        assert(forall|i: int| 0 <= i < front.len() ==> front[i] == values[i]);
        law_kept_index_is_last_greatest(front);
    }
}

/// Where the logits are numbers, no token of the vocabulary has a greater logit than the chosen
/// one, and no duration a greater one than the chosen duration.
pub proof fn law_choice_is_greatest(logits: Seq<u32>, vocab_size: usize)
    requires
        0 < vocab_size < logits.len() <= usize::MAX,
        forall|i: int| 0 <= i < logits.len() ==> !is_nan(#[trigger] logits[i]),
    ensures
        ({
            let choice = chosen(logits, vocab_size);
            &&& choice.token < vocab_size
            &&& vocab_size + choice.duration < logits.len()
            &&& forall|i: int|
                0 <= i < vocab_size ==> rank(#[trigger] logits[i]) <= rank(
                    logits[choice.token as int],
                )
            &&& forall|i: int|
                vocab_size <= i < logits.len() ==> rank(#[trigger] logits[i]) <= rank(
                    logits[vocab_size + choice.duration],
                )
        }),
{
    let vocab = logits.take(vocab_size as int);
    let durations = logits.skip(vocab_size as int);
    law_kept_index_is_last_greatest(vocab);
    law_kept_index_is_last_greatest(durations);
    assert forall|i: int| 0 <= i < vocab_size implies rank(#[trigger] logits[i]) <= rank(
        logits[chosen(logits, vocab_size).token as int],
    ) by {
        assert(vocab[i] == logits[i]);
    }
    assert forall|i: int| vocab_size <= i < logits.len() implies rank(#[trigger] logits[i])
        <= rank(logits[vocab_size + chosen(logits, vocab_size).duration]) by {
        assert(durations[i - vocab_size] == logits[i]);
    }
}

/// The exponent field of a 32-bit float.
pub open spec fn exponent_field(bits: u32) -> int {
    (bits as int % 0x8000_0000) / 0x80_0000
}

/// The fraction field of a 32-bit float.
pub open spec fn fraction_field(bits: u32) -> int {
    bits as int % 0x80_0000
}

/// The bit pattern stands for a number: not both fields say otherwise.
pub open spec fn stands_for_number(bits: u32) -> bool {
    exponent_field(bits) != 255 || fraction_field(bits) == 0
}

/// The absolute value of the number that a bit pattern stands for, in units of the smallest
/// positive number. Infinity is what comes next after the largest finite number.
pub open spec fn float_size(bits: u32) -> int {
    if exponent_field(bits) == 0 {
        fraction_field(bits)
    } else {
        (0x80_0000 + fraction_field(bits)) * pow2((exponent_field(bits) - 1) as nat)
    }
}

/// The number that a bit pattern stands for, in units of the smallest positive number.
pub open spec fn float_value(bits: u32) -> int {
    if bits < 0x8000_0000 {
        float_size(bits)
    } else {
        -float_size(bits)
    }
}

/// The smaller bit pattern without its sign stands for the smaller absolute value.
proof fn lemma_float_size_grows(a: u32, b: u32)
    requires
        a as int % 0x8000_0000 < b as int % 0x8000_0000,
    ensures
        0 <= float_size(a) < float_size(b),
{
    let low = exponent_field(a);
    let high = exponent_field(b);
    assert(fraction_field(a) == (a as int % 0x8000_0000) % 0x80_0000);
    assert(fraction_field(b) == (b as int % 0x8000_0000) % 0x80_0000);
    assert(low <= high);
    if low > 0 {
        lemma_pow2_pos((low - 1) as nat);
    }
    if high > 0 {
        lemma_pow2_pos((high - 1) as nat);
    }
    if low == high {
        assert(fraction_field(a) < fraction_field(b));
        if low > 0 {
            let unit = pow2((low - 1) as nat) as int;
            let more = fraction_field(b) - fraction_field(a);
            assert((0x80_0000 + fraction_field(b)) * unit == (0x80_0000 + fraction_field(a)) * unit
                + more * unit && more * unit > 0 && (0x80_0000 + fraction_field(a)) * unit >= 0)
                by (nonlinear_arith)
                requires
                    unit > 0,
                    more > 0,
                    fraction_field(a) >= 0,
                    fraction_field(b) == fraction_field(a) + more,
            ;
        }
    } else {
        let unit = pow2((high - 1) as nat) as int;
        assert((0x80_0000 + fraction_field(b)) * unit >= 0x80_0000 * unit && 0x80_0000 * unit
            >= 0x80_0000) by (nonlinear_arith)
            requires
                unit > 0,
                fraction_field(b) >= 0,
        ;
        if low > 0 {
            let small = pow2((low - 1) as nat) as int;
            lemma_pow2_unfold(low as nat);
            assert(pow2(low as nat) == 2 * small);
            if low < high - 1 {
                lemma_pow2_strictly_increases(low as nat, (high - 1) as nat);
            }
            assert(2 * small <= unit);
            assert(0 <= (0x80_0000 + fraction_field(a)) * small < 0x80_0000 * (2 * small))
                by (nonlinear_arith)
                requires
                    small > 0,
                    0 <= fraction_field(a) < 0x80_0000,
            ;
            assert(0x80_0000 * (2 * small) <= 0x80_0000 * unit) by (nonlinear_arith)
                requires
                    2 * small <= unit,
            ;
        }
    }
}

/// The order of the logits is that of the numbers that their bit patterns stand for, and a bit
/// pattern that stands for no number is recognised as such.
pub proof fn law_rank_is_the_order_of_floats(a: u32, b: u32)
    ensures
        is_nan(a) <==> !stands_for_number(a),
        stands_for_number(a) && stands_for_number(b) ==> (rank(a) > rank(b) <==> float_value(a)
            > float_value(b)),
        exceeds(a, b) <==> stands_for_number(a) && stands_for_number(b) && float_value(a)
            > float_value(b),
{
    let zero: u32 = 0;
    assert(float_size(zero) == 0);
    let low = a as int % 0x8000_0000;
    let high = b as int % 0x8000_0000;
    assert(fraction_field(a) == low % 0x80_0000);
    if low < high {
        lemma_float_size_grows(a, b);
    } else if high < low {
        lemma_float_size_grows(b, a);
    } else {
        assert(fraction_field(b) == high % 0x80_0000);
    }
    if low > 0 {
        lemma_float_size_grows(zero, a);
    } else {
        assert(float_size(a) == 0);
    }
    if high > 0 {
        lemma_float_size_grows(zero, b);
    } else {
        assert(float_size(b) == 0);
    }
}

/// As bit patterns: numbers without the sign are ordered as their bits are, numbers with it the
/// other way round, and none with it exceeds one without.
pub proof fn law_rank_orders_bit_patterns(a: u32, b: u32)
    requires
        a % 0x8000_0000 <= 0x7f80_0000,
        b % 0x8000_0000 <= 0x7f80_0000,
    ensures
        a < 0x8000_0000 && b < 0x8000_0000 ==> (exceeds(a, b) <==> a > b),
        a >= 0x8000_0000 && b >= 0x8000_0000 ==> (exceeds(a, b) <==> a < b),
        a >= 0x8000_0000 && b < 0x8000_0000 ==> !exceeds(a, b),
        a < 0x8000_0000 && b >= 0x8000_0000 ==> (exceeds(a, b) <==> a != 0 || b != 0x8000_0000),
{
}

/// Of the values from `from` on and before `to`, the one at `k` is the greatest, and the last of
/// several greatest ones. What is no number cannot be compared with: the values up to it count no
/// more, and where nothing comes after it, it is the one itself.
pub open spec fn is_last_greatest(values: Seq<u32>, from: int, to: int, k: int) -> bool {
    &&& from <= k < to
    &&& forall|i: int|
        k < i < to ==> stands_for_number(values[k]) && stands_for_number(#[trigger] values[i])
            && float_value(values[i]) < float_value(values[k])
    &&& forall|i: int|
        from <= i < k ==> float_value(#[trigger] values[i]) <= float_value(values[k]) || exists|
            j: int,
        |
            i <= j <= k && !stands_for_number(#[trigger] values[j])
}

/// No two values are the last greatest.
pub proof fn law_last_greatest_is_unique(values: Seq<u32>, from: int, to: int, k: int, l: int)
    requires
        is_last_greatest(values, from, to, k),
        is_last_greatest(values, from, to, l),
    ensures
        k == l,
{
    if k < l {
        assert(float_value(values[l]) < float_value(values[k]));
        assert(stands_for_number(values[k]));
        assert(forall|j: int| k <= j <= l ==> stands_for_number(#[trigger] values[j]));
    } else if l < k {
        assert(float_value(values[k]) < float_value(values[l]));
        assert(stands_for_number(values[l]));
        assert(forall|j: int| l <= j <= k ==> stands_for_number(#[trigger] values[j]));
    }
}

/// The index that is kept is that of the last greatest.
proof fn lemma_kept_is_last_greatest(values: Seq<u32>)
    requires
        values.len() > 0,
    ensures
        is_last_greatest(values, 0, values.len() as int, kept_index(values)),
    decreases values.len(),
{
    let k = kept_index(values);
    if values.len() > 1 {
        let front = values.drop_last();
        let last = values.len() - 1;
        let before = kept_index(front);
        lemma_kept_is_last_greatest(front);
        assert(forall|i: int| 0 <= i < last ==> front[i] == values[i]);
        law_rank_is_the_order_of_floats(values[before], values[last]);
        assert forall|i: int| 0 <= i < k implies float_value(#[trigger] values[i]) <= float_value(
            values[k],
        ) || exists|j: int| i <= j <= k && !stands_for_number(#[trigger] values[j]) by {
            if i < before {
                assert(front[i] == values[i]);
                if !(float_value(front[i]) <= float_value(front[before])) {
                    let j = choose|j: int|
                        i <= j <= before && !stands_for_number(#[trigger] front[j]);
                    assert(front[j] == values[j]);
                }
            } else if i > before {
                assert(front[i] == values[i]);
                assert(float_value(front[i]) < float_value(front[before]));
            }
            if k == last && !stands_for_number(values[before]) {
                if i > before {
                    assert(stands_for_number(front[before]));
                }
            }
        }
        assert forall|i: int| k < i < values.len() implies stands_for_number(values[k])
            && stands_for_number(#[trigger] values[i]) && float_value(values[i]) < float_value(
            values[k],
        ) by {
            if i < last {
                assert(front[i] == values[i]);
            }
        }
    }
}

/// The index that is kept in a part of some values is that of the last greatest there.
proof fn lemma_kept_in_part(values: Seq<u32>, from: int, to: int)
    requires
        0 <= from < to <= values.len(),
    ensures
        is_last_greatest(values, from, to, from + kept_index(values.subrange(from, to))),
{
    let part = values.subrange(from, to);
    let kept = kept_index(part);
    let k = from + kept;
    lemma_kept_is_last_greatest(part);
    assert forall|i: int| from <= i < k implies float_value(#[trigger] values[i]) <= float_value(
        values[k],
    ) || exists|j: int| i <= j <= k && !stands_for_number(#[trigger] values[j]) by {
        assert(part[i - from] == values[i]);
        if !(float_value(part[i - from]) <= float_value(part[kept])) {
            let j = choose|j: int| i - from <= j <= kept && !stands_for_number(#[trigger] part[j]);
            assert(part[j] == values[from + j]);
        }
    }
    assert forall|i: int| k < i < to implies stands_for_number(values[k]) && stands_for_number(
        #[trigger] values[i],
    ) && float_value(values[i]) < float_value(values[k]) by {
        assert(part[i - from] == values[i]);
    }
}

/// `argmax` gives the last greatest of the values, whatever they are.
pub proof fn law_argmax_is_last_greatest(
    values: &Vec<u32>,
    from: usize,
    to: usize,
    r: Option<usize>,
)
    requires
        from <= to <= values@.len(),
        call_ensures(argmax, (values, from, to), r),
    ensures
        match r {
            Some(index) => is_last_greatest(values@, from as int, to as int, from + index),
            None => from == to,
        },
{
    if from < to {
        lemma_kept_in_part(values@, from as int, to as int);
    }
}

/// What the logits suggest: the last greatest among those of the vocabulary, and the last greatest
/// among those after them. Without a logit of the vocabulary the token is the last one, and
/// without a logit of a duration the duration is 0.
pub open spec fn suggests(logits: Seq<u32>, vocab_size: int, choice: TokenChoice) -> bool {
    &&& if logits.len() == 0 {
        choice.token == vocab_size - 1
    } else if logits.len() < vocab_size {
        is_last_greatest(logits, 0, logits.len() as int, choice.token as int)
    } else {
        is_last_greatest(logits, 0, vocab_size, choice.token as int)
    }
    &&& if logits.len() <= vocab_size {
        choice.duration == 0
    } else {
        is_last_greatest(
            logits,
            vocab_size,
            logits.len() as int,
            vocab_size + choice.duration,
        )
    }
}

/// The choice is the one that the logits suggest.
pub proof fn law_chosen_is_suggested(logits: Seq<u32>, vocab_size: usize)
    requires
        vocab_size > 0,
        logits.len() <= usize::MAX,
    ensures
        suggests(logits, vocab_size as int, chosen(logits, vocab_size)),
{
    let split = vocab_logits(logits, vocab_size);
    if split > 0 {
        assert(logits.take(split) =~= logits.subrange(0, split));
        lemma_kept_in_part(logits, 0, split);
    }
    if split < logits.len() {
        assert(logits.skip(split) =~= logits.subrange(split, logits.len() as int));
        lemma_kept_in_part(logits, split, logits.len() as int);
    }
}

/// `choose_token` makes the choice that the logits suggest.
pub proof fn law_choose_token_is_suggested(
    logits: &Vec<u32>,
    vocab_size: usize,
    choice: TokenChoice,
)
    requires
        vocab_size > 0,
        logits@.len() <= usize::MAX,
        call_ensures(choose_token, (logits, vocab_size), choice),
    ensures
        suggests(logits@, vocab_size as int, choice),
{
    law_chosen_is_suggested(logits@, vocab_size);
}

/// A choice can be made from any logits for any vocabulary that is not empty.
pub proof fn law_any_logits_will_do(logits: &Vec<u32>, vocab_size: usize, from: usize, to: usize)
    ensures
        vocab_size > 0 ==> call_requires(choose_token, (logits, vocab_size)),
        from <= to <= logits@.len() ==> call_requires(argmax, (logits, from, to)),
{
}

}
