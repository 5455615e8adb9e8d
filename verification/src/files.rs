//! The files of a model: which of them to load, and how its context models are named.
use crate::error::ModelError;
use crate::runtime::{path_stem, path_to_stem};
use crate::text::{has_prefix, has_suffix, joined};
use std::path::PathBuf;
use vstd::prelude::*;

verus! {

/// The names that the encoder can have in a model directory, the preferred first.
pub open spec fn encoder_candidates() -> Seq<Seq<char>> {
    seq![
        "encoder-model.fp32.static.npu.onnx"@,
        "encoder-model.onnx"@,
        "encoder.onnx"@,
        "encoder-model.int8.onnx"@,
        "encoder/model.onnx"@,
    ]
}

/// The names that the decoder with its joint network can have in a model directory, the preferred
/// first.
pub open spec fn decoder_joint_candidates() -> Seq<Seq<char>> {
    seq![
        "decoder_joint-model.fp32.static.onnx"@,
        "decoder_joint-model.onnx"@,
        "decoder_joint-model.int8.onnx"@,
        "decoder_joint.onnx"@,
        "decoder-model.onnx"@,
    ]
}

/// A file of this name is taken for an encoder when none of the candidates is there.
pub open spec fn is_encoder_name(name: Seq<char>) -> bool {
    "encoder"@.is_prefix_of(name) && ".onnx"@.is_suffix_of(name)
}

/// The search for the encoder can find a file of this name. A name in a listing is that of one
/// file, without a directory.
pub open spec fn is_encoder_file(name: Seq<char>) -> bool {
    encoder_candidates().contains(name) || (is_encoder_name(name) && !name.contains('/'))
}

/// The search for the decoder with its joint network can find a file of this name.
pub open spec fn is_decoder_joint_file(name: Seq<char>) -> bool {
    decoder_joint_candidates().contains(name)
}

/// None of these names has a directory in it.
pub open spec fn are_plain_names(names: Seq<String>) -> bool {
    forall|i: int| 0 <= i < names.len() ==> !(#[trigger] names[i])@.contains('/')
}

/// What to do next in the search for a file.
#[derive(Debug)]
pub enum SearchStep {
    /// Ask whether this file is in the model directory.
    Probe(&'static str),
    /// List the names in the model directory.
    List,
    /// This is the file, by its name in the model directory.
    Found(String),
    /// There is no such file.
    Missing(ModelError),
}

/// The first question that was answered with yes.
pub open spec fn is_first_yes(answers: Seq<bool>, i: int) -> bool {
    &&& 0 <= i < answers.len()
    &&& answers[i]
    &&& forall|j: int| 0 <= j < i ==> !#[trigger] answers[j]
}

/// Every question was answered with no.
pub open spec fn all_no(answers: Seq<bool>) -> bool {
    forall|j: int| 0 <= j < answers.len() ==> !#[trigger] answers[j]
}

/// The first name that is taken for an encoder.
pub open spec fn is_first_encoder_name(names: Seq<String>, i: int) -> bool {
    &&& 0 <= i < names.len()
    &&& is_encoder_name(names[i]@)
    &&& forall|j: int| 0 <= j < i ==> !is_encoder_name((#[trigger] names[j])@)
}

/// No name is taken for an encoder.
pub open spec fn no_encoder_name(names: Seq<String>) -> bool {
    forall|j: int| 0 <= j < names.len() ==> !is_encoder_name((#[trigger] names[j])@)
}

/// The number of names that are probed for.
const CANDIDATES: usize = 5;

/// A name that the encoder can have.
fn encoder_candidate(i: usize) -> (r: &'static str)
    requires
        i < CANDIDATES,
    ensures
        r@ == encoder_candidates()[i as int],
{
    match i {
        0 => "encoder-model.fp32.static.npu.onnx",
        1 => "encoder-model.onnx",
        2 => "encoder.onnx",
        3 => "encoder-model.int8.onnx",
        _ => "encoder/model.onnx",
    }
}

/// A name that the decoder with its joint network can have.
fn decoder_joint_candidate(i: usize) -> (r: &'static str)
    requires
        i < CANDIDATES,
    ensures
        r@ == decoder_joint_candidates()[i as int],
{
    match i {
        0 => "decoder_joint-model.fp32.static.onnx",
        1 => "decoder_joint-model.onnx",
        2 => "decoder_joint-model.int8.onnx",
        3 => "decoder_joint.onnx",
        _ => "decoder-model.onnx",
    }
}

/// The first question that was answered with yes.
fn first_yes(answers: &Vec<bool>) -> (r: Option<usize>)
    ensures
        match r {
            Some(i) => is_first_yes(answers@, i as int),
            None => all_no(answers@),
        },
{
    let mut i: usize = 0;
    while i < answers.len()
        invariant
            i <= answers@.len(),
            forall|j: int| 0 <= j < i ==> !#[trigger] answers@[j],
        decreases answers@.len() - i,
    {
        if answers[i] {
            return Some(i);
        }
        i += 1;
    }
    None
}

/// The first name that is taken for an encoder.
fn first_encoder_name(names: &Vec<String>) -> (r: Option<usize>)
    ensures
        match r {
            Some(i) => is_first_encoder_name(names@, i as int),
            None => no_encoder_name(names@),
        },
{
    let mut i: usize = 0;
    while i < names.len()
        invariant
            i <= names@.len(),
            forall|j: int| 0 <= j < i ==> !is_encoder_name((#[trigger] names@[j])@),
        decreases names@.len() - i,
    {
        let name = names[i].as_str();
        if has_prefix(name, "encoder") && has_suffix(name, ".onnx") {
            return Some(i);
        }
        i += 1;
    }
    None
}

/// The search for the encoder. `probes` are the answers so far to the questions whether the
/// candidates are there, one after the other; `listing` holds the names in the directory once
/// they have been asked for; `dir` names the directory in the error. A candidate that is there
/// ends the search; where none is, the first name in the listing that is taken for an encoder
/// does.
pub fn find_encoder(dir: &str, probes: &Vec<bool>, listing: &Option<Vec<String>>) -> (r: SearchStep)
    requires
        probes@.len() <= encoder_candidates().len(),
    ensures
        match r {
            SearchStep::Probe(name) => all_no(probes@) && probes@.len() < encoder_candidates().len()
                && name@ == encoder_candidates()[probes@.len() as int],
            SearchStep::List => all_no(probes@) && probes@.len() == encoder_candidates().len()
                && listing is None,
            SearchStep::Found(name) => (exists|i: int| #[trigger]
                is_first_yes(probes@, i) && name@ == encoder_candidates()[i]) || (all_no(probes@)
                && probes@.len() == encoder_candidates().len() && (listing matches Some(names)
                && exists|i: int| #[trigger]
                is_first_encoder_name(names@, i) && name@ == names@[i]@)),
            SearchStep::Missing(ModelError::Config(message)) => all_no(probes@) && probes@.len()
                == encoder_candidates().len() && (listing matches Some(names) && no_encoder_name(
                names@,
            )) && message@ == "No encoder model found in "@ + dir@,
            SearchStep::Missing(_) => false,
        },
        r matches SearchStep::Found(name) ==> (listing matches Some(names) ==> are_plain_names(
            names@,
        )) ==> is_encoder_file(name@),
{
    match first_yes(probes) {
        Some(i) => SearchStep::Found(encoder_candidate(i).to_owned()),
        None => {
            if probes.len() < CANDIDATES {
                return SearchStep::Probe(encoder_candidate(probes.len()));
            }
            match listing {
                None => SearchStep::List,
                Some(names) => match first_encoder_name(names) {
                    Some(i) => SearchStep::Found(names[i].clone()),
                    None => SearchStep::Missing(
                        ModelError::Config(joined("No encoder model found in ", dir)),
                    ),
                },
            }
        },
    }
}

/// The search for the decoder with its joint network. `probes` are the answers so far to the
/// questions whether the candidates are there, one after the other; `dir` names the directory in
/// the error. A candidate that is there ends the search.
pub fn find_decoder_joint(dir: &str, probes: &Vec<bool>) -> (r: SearchStep)
    requires
        probes@.len() <= decoder_joint_candidates().len(),
    ensures
        match r {
            SearchStep::Probe(name) => all_no(probes@) && probes@.len()
                < decoder_joint_candidates().len() && name@
                == decoder_joint_candidates()[probes@.len() as int],
            SearchStep::List => false,
            SearchStep::Found(name) => exists|i: int| #[trigger]
                is_first_yes(probes@, i) && name@ == decoder_joint_candidates()[i],
            SearchStep::Missing(ModelError::Config(message)) => all_no(probes@) && probes@.len()
                == decoder_joint_candidates().len() && message@
                == "No decoder_joint model found in "@ + dir@,
            SearchStep::Missing(_) => false,
        },
        r matches SearchStep::Found(name) ==> is_decoder_joint_file(name@),
{
    match first_yes(probes) {
        Some(i) => SearchStep::Found(decoder_joint_candidate(i).to_owned()),
        None => {
            if probes.len() < CANDIDATES {
                SearchStep::Probe(decoder_joint_candidate(probes.len()))
            } else {
                SearchStep::Missing(
                    ModelError::Config(joined("No decoder_joint model found in ", dir)),
                )
            }
        },
    }
}

/// The name of the context model of a model file with this stem.
pub open spec fn context_name(stem: Option<Seq<char>>) -> Seq<char> {
    match stem {
        Some(stem) => stem + "_ctx.onnx"@,
        None => "model"@ + "_ctx.onnx"@,
    }
}

/// The text of a stem, where there is one.
pub open spec fn stem_text(stem: Option<&str>) -> Option<Seq<char>> {
    match stem {
        Some(stem) => Some(stem@),
        None => None,
    }
}

/// The name of the context model of the model file that a path leads to.
pub fn ctx_filename(original: &PathBuf) -> (r: String)
    ensures
        r@ == context_name(path_stem(*original)),
{
    match path_to_stem(original) {
        Some(stem) => context_filename(Some(stem.as_str())),
        None => context_filename(None),
    }
}

/// The name of the context model of a model file. `stem` is the name of the file without its
/// extension, where it has one that is Unicode.
pub fn context_filename(stem: Option<&str>) -> (r: String)
    ensures
        r@ == context_name(stem_text(stem)),
{
    match stem {
        Some(stem) => joined(stem, "_ctx.onnx"),
        None => joined("model", "_ctx.onnx"),
    }
}

/// A file that goes with a context model: its name begins with that of the context model.
pub open spec fn is_companion(context: Seq<char>, name: Seq<char>) -> bool {
    context.is_prefix_of(name) && ".bin"@.is_suffix_of(name)
}

/// The texts of strings.
pub open spec fn texts(strings: Seq<String>) -> Seq<Seq<char>> {
    strings.map_values(|string: String| string@)
}

/// The names among these that go with a context model, in their order.
pub open spec fn companions(context: Seq<char>, names: Seq<Seq<char>>) -> Seq<Seq<char>> {
    names.filter(|name: Seq<char>| is_companion(context, name))
}

/// The names among these that go with a context model, in their order.
pub fn context_companions(context: &str, names: &Vec<String>) -> (r: Vec<String>)
    ensures
        texts(r@) == companions(context@, texts(names@)),
{
    let mut found: Vec<String> = Vec::new();
    let mut i: usize = 0;
    assert(texts(found@) =~= companions(context@, texts(names@).take(0)));
    while i < names.len()
        invariant
            i <= names@.len(),
            texts(found@) == companions(context@, texts(names@).take(i as int)),
        decreases names@.len() - i,
    {
        let name = names[i].as_str();
        let ghost seen = texts(names@).take(i + 1);
        let ghost wanted = |name: Seq<char>| is_companion(context@, name);
        proof {
            assert(seen.drop_last() =~= texts(names@).take(i as int));
            reveal(Seq::filter);
        }
        let ghost before = found@;
        if has_prefix(name, context) && has_suffix(name, ".bin") {
            found.push(names[i].clone());
            assert(texts(found@) =~= texts(before).push(name@));
        }
        assert(companions(context@, seen) == if wanted(seen.last()) {
            companions(context@, seen.drop_last()).push(seen.last())
        } else {
            companions(context@, seen.drop_last())
        });
        i += 1;
    }
    assert(texts(names@).take(i as int) =~= texts(names@));
    found
}

/// The answers to the questions whether the first `asked` of the candidates are in a directory.
pub open spec fn answers(
    candidates: Seq<Seq<char>>,
    present: spec_fn(Seq<char>) -> bool,
    asked: nat,
) -> Seq<bool> {
    Seq::new(asked, |i: int| present(candidates[i]))
}

/// A search that is answered truthfully finds the candidate that is preferred among those in the
/// directory, and where every candidate has been denied, none is there.
pub proof fn law_search_finds_the_preferred(
    candidates: Seq<Seq<char>>,
    present: spec_fn(Seq<char>) -> bool,
    asked: nat,
    i: int,
)
    requires
        asked <= candidates.len(),
    ensures
        is_first_yes(answers(candidates, present, asked), i) ==> present(candidates[i]) && forall|
            j: int,
        |
            0 <= j < i ==> !present(#[trigger] candidates[j]),
        asked == candidates.len() && all_no(answers(candidates, present, asked)) ==> forall|j: int|
            0 <= j < candidates.len() ==> !present(#[trigger] candidates[j]),
{
    let given = answers(candidates, present, asked);
    assert forall|j: int| 0 <= j < asked implies given[j] == present(
        #[trigger] candidates[j],
    ) by {}
}

/// Files with different stems have different context models, so that each is kept on its own.
pub proof fn law_context_names_differ(stem: Seq<char>, other: Seq<char>)
    requires
        context_name(Some(stem)) == context_name(Some(other)),
    ensures
        stem == other,
{
    let suffix = "_ctx.onnx"@;
    assert(context_name(Some(stem)).len() == stem.len() + suffix.len());
    assert(context_name(Some(other)).len() == other.len() + suffix.len());
    assert(stem =~= (stem + suffix).take(stem.len() as int));
    assert(other =~= (other + suffix).take(other.len() as int));
}

/// This is what a name has before its file, if anything.
pub open spec fn is_directory_part(part: Seq<char>) -> bool {
    part.len() == 0 || part.last() == '/'
}

/// The file of this name is an ONNX file with this stem.
pub open spec fn has_stem(name: Seq<char>, stem: Seq<char>) -> bool {
    &&& stem.len() > 0
    &&& !stem.contains('/')
    &&& exists|part: Seq<char>| #[trigger]
        is_directory_part(part) && name == part + stem + ".onnx"@
}

/// A file without a directory in its name begins as its stem does.
proof fn lemma_stem_begins_the_name(name: Seq<char>, stem: Seq<char>)
    requires
        has_stem(name, stem),
        !name.contains('/'),
    ensures
        stem[0] == name[0],
{
    let part = choose|part: Seq<char>| #[trigger]
        is_directory_part(part) && name == part + stem + ".onnx"@;
    if part.len() > 0 {
        assert(name[part.len() - 1] == '/');
    }
}

/// The stem of an encoder begins with one of two letters.
proof fn lemma_encoder_stem(name: Seq<char>, stem: Seq<char>)
    requires
        is_encoder_file(name),
        has_stem(name, stem),
    ensures
        stem[0] == 'e' || stem[0] == 'm',
{
    reveal_strlit("encoder");
    reveal_strlit("encoder-model.fp32.static.npu.onnx");
    reveal_strlit("encoder-model.onnx");
    reveal_strlit("encoder.onnx");
    reveal_strlit("encoder-model.int8.onnx");
    reveal_strlit("encoder/model.onnx");
    if name == "encoder/model.onnx"@ {
        let part = choose|part: Seq<char>| #[trigger]
            is_directory_part(part) && name == part + stem + ".onnx"@;
        reveal_strlit(".onnx");
        let whole = part + stem + ".onnx"@;
        assert(name.len() == 18 && whole.len() == part.len() + stem.len() + 5);
        assert(whole[7] == '/' && whole[8] == 'm');
        if part.len() == 0 {
            assert(stem[7] == whole[7]);
        } else {
            let last = part.len() - 1;
            assert(whole[last] == part[last]);
            assert forall|i: int| 0 <= i < 18 && i != 7 implies name[i] != '/' by {}
            assert(stem[0] == whole[8]);
        }
    } else {
        if !encoder_candidates().contains(name) {
            assert(name.take(7)[0] == "encoder"@[0]);
        }
        lemma_stem_begins_the_name(name, stem);
    }
}

/// The stem of a decoder begins with a third letter.
proof fn lemma_decoder_joint_stem(name: Seq<char>, stem: Seq<char>)
    requires
        is_decoder_joint_file(name),
        has_stem(name, stem),
    ensures
        stem[0] == 'd',
{
    reveal_strlit("decoder_joint-model.fp32.static.onnx");
    reveal_strlit("decoder_joint-model.onnx");
    reveal_strlit("decoder_joint-model.int8.onnx");
    reveal_strlit("decoder_joint.onnx");
    reveal_strlit("decoder-model.onnx");
    lemma_stem_begins_the_name(name, stem);
}

/// The context models of an encoder and a decoder that the two searches can find have different
/// names, neither of which begins with the other, so that clearing up after one never removes a
/// file that goes with the other.
pub proof fn law_halves_are_kept_apart(
    encoder: Seq<char>,
    encoder_stem: Seq<char>,
    decoder_joint: Seq<char>,
    decoder_joint_stem: Seq<char>,
)
    requires
        is_encoder_file(encoder),
        has_stem(encoder, encoder_stem),
        is_decoder_joint_file(decoder_joint),
        has_stem(decoder_joint, decoder_joint_stem),
    ensures
        ({
            let one = context_name(Some(encoder_stem));
            let other = context_name(Some(decoder_joint_stem));
            &&& one != other
            &&& !one.is_prefix_of(other)
            &&& !other.is_prefix_of(one)
            &&& forall|name: Seq<char>| #[trigger]
                is_companion(one, name) ==> !is_companion(other, name)
        }),
{
    lemma_encoder_stem(encoder, encoder_stem);
    lemma_decoder_joint_stem(decoder_joint, decoder_joint_stem);
    let one = context_name(Some(encoder_stem));
    let other = context_name(Some(decoder_joint_stem));
    assert(one[0] == encoder_stem[0]);
    assert(other[0] == decoder_joint_stem[0]);
}

/// A context model does not go with any context model as a companion: clearing up companions
/// removes none.
pub proof fn law_context_is_no_companion(stem: Option<Seq<char>>, context: Seq<char>)
    ensures
        !is_companion(context, context_name(stem)),
{
    reveal_strlit("_ctx.onnx");
    reveal_strlit(".bin");
    let name = context_name(stem);
    let last = name.len() - 1;
    assert(name[last] == 'x');
    if ".bin"@.is_suffix_of(name) {
        assert(name.subrange(name.len() - 4, name.len() as int)[3] == ".bin"@[3]);
    }
}

/// The places where an encoder is looked for, the preferred first.
pub open spec fn encoder_place(i: int) -> Seq<char> {
    if i == 0 {
        "encoder-model.fp32.static.npu.onnx"@
    } else if i == 1 {
        "encoder-model.onnx"@
    } else if i == 2 {
        "encoder.onnx"@
    } else if i == 3 {
        "encoder-model.int8.onnx"@
    } else {
        "encoder/model.onnx"@
    }
}

/// The places where a decoder with its joint network is looked for, the preferred first.
pub open spec fn decoder_joint_place(i: int) -> Seq<char> {
    if i == 0 {
        "decoder_joint-model.fp32.static.onnx"@
    } else if i == 1 {
        "decoder_joint-model.onnx"@
    } else if i == 2 {
        "decoder_joint-model.int8.onnx"@
    } else if i == 3 {
        "decoder_joint.onnx"@
    } else {
        "decoder-model.onnx"@
    }
}

/// The search for the encoder asks for its places one after the other until one is there. Where
/// none is, it asks for the names in the directory and takes the first that begins with `encoder`
/// and ends in `.onnx`; where there is none either, it says so.
pub proof fn law_search_for_the_encoder(
    dir: &str,
    probes: &Vec<bool>,
    listing: &Option<Vec<String>>,
    r: SearchStep,
    i: int,
)
    requires
        probes@.len() <= 5,
        call_ensures(find_encoder, (dir, probes, listing), r),
    ensures
        0 <= i < probes@.len() && probes@[i] && (forall|j: int| 0 <= j < i ==> !probes@[j]) ==> (
        r matches SearchStep::Found(name) && name@ == encoder_place(i)),
        (forall|j: int| 0 <= j < probes@.len() ==> !probes@[j]) ==> {
            &&& probes@.len() < 5 ==> (r matches SearchStep::Probe(name) && name@ == encoder_place(
                probes@.len() as int,
            ))
            &&& probes@.len() == 5 && listing is None ==> r is List
            &&& probes@.len() == 5 && (listing matches Some(names) && 0 <= i < names@.len()
                && "encoder"@.is_prefix_of(names@[i]@) && ".onnx"@.is_suffix_of(names@[i]@)
                && forall|j: int|
                0 <= j < i ==> !("encoder"@.is_prefix_of((#[trigger] names@[j])@)
                    && ".onnx"@.is_suffix_of(names@[j]@))) ==> (r matches SearchStep::Found(name)
                && name@ == listing->0@[i]@)
            &&& probes@.len() == 5 && (listing matches Some(names) && forall|j: int|
                0 <= j < names@.len() ==> !("encoder"@.is_prefix_of((#[trigger] names@[j])@)
                    && ".onnx"@.is_suffix_of(names@[j]@))) ==> (r matches SearchStep::Missing(
                ModelError::Config(message),
            ) && message@ == "No encoder model found in "@ + dir@)
        },
{
    match r {
        SearchStep::Found(name) => {
            if exists|k: int| #[trigger]
                is_first_yes(probes@, k) && name@ == encoder_candidates()[k] {
                let k = choose|k: int| #[trigger]
                    is_first_yes(probes@, k) && name@ == encoder_candidates()[k];
                if 0 <= i < probes@.len() && probes@[i] && (forall|j: int|
                    0 <= j < i ==> !probes@[j]) {
                    assert(i == k);
                }
            } else {
                let names = listing->0;
                let k = choose|k: int| #[trigger]
                    is_first_encoder_name(names@, k) && name@ == names@[k]@;
                if 0 <= i < names@.len() && is_encoder_name(names@[i]@) && (forall|j: int|
                    0 <= j < i ==> !is_encoder_name((#[trigger] names@[j])@)) {
                    if i < k {
                        assert(!is_encoder_name(names@[i]@));
                    } else if k < i {
                        assert(!is_encoder_name(names@[k]@));
                    }
                }
            }
        },
        _ => {},
    }
}

/// The search for the decoder with its joint network asks for its places one after the other until
/// one is there; where none is, it says so.
pub proof fn law_search_for_the_decoder_joint(
    dir: &str,
    probes: &Vec<bool>,
    r: SearchStep,
    i: int,
)
    requires
        probes@.len() <= 5,
        call_ensures(find_decoder_joint, (dir, probes), r),
    ensures
        0 <= i < probes@.len() && probes@[i] && (forall|j: int| 0 <= j < i ==> !probes@[j]) ==> (
        r matches SearchStep::Found(name) && name@ == decoder_joint_place(i)),
        (forall|j: int| 0 <= j < probes@.len() ==> !probes@[j]) ==> {
            &&& probes@.len() < 5 ==> (r matches SearchStep::Probe(name) && name@
                == decoder_joint_place(probes@.len() as int))
            &&& probes@.len() == 5 ==> (r matches SearchStep::Missing(ModelError::Config(message))
                && message@ == "No decoder_joint model found in "@ + dir@)
        },
{
    if let SearchStep::Found(name) = r {
        let k = choose|k: int| #[trigger]
            is_first_yes(probes@, k) && name@ == decoder_joint_candidates()[k];
        if 0 <= i < probes@.len() && probes@[i] && (forall|j: int| 0 <= j < i ==> !probes@[j]) {
            assert(i == k);
        }
    }
}

/// A context model is named after the stem of its model file, or after `model` where there is no
/// stem: the name is the stem with the same ending for all.
pub proof fn law_context_model_is_named_after_the_stem(
    original: &PathBuf,
    stem: Option<&str>,
    of_path: String,
    of_stem: String,
)
    requires
        call_ensures(ctx_filename, (original,), of_path),
        call_ensures(context_filename, (stem,), of_stem),
    ensures
        ({
            let shown = match path_stem(*original) {
                Some(stem) => stem,
                None => "model"@,
            };
            of_path@ == shown + "_ctx.onnx"@
        }),
        stem matches Some(stem) ==> of_stem@ == stem@ + "_ctx.onnx"@,
        stem is None ==> of_stem@ == "model"@ + "_ctx.onnx"@,
        (stem matches Some(stem) && path_stem(*original) == Some(stem@)) ==> of_path@ == of_stem@,
{
}

/// The files that go with a context model are all those whose names begin with its name and end in
/// `.bin`, in the order in which they are listed, and no others.
pub proof fn law_which_files_go_with_a_context_model(
    context: &str,
    names: &Vec<String>,
    r: Vec<String>,
)
    requires
        call_ensures(context_companions, (context, names), r),
    ensures
        texts(r@) == texts(names@).filter(
            |name: Seq<char>| context@.is_prefix_of(name) && ".bin"@.is_suffix_of(name),
        ),
{
    let wanted = |name: Seq<char>| is_companion(context@, name);
    let meant = |name: Seq<char>| context@.is_prefix_of(name) && ".bin"@.is_suffix_of(name);
    assert(wanted =~= meant);
}

/// The searches take any answers, up to one for each place.
pub proof fn law_any_answers_will_do(
    dir: &str,
    probes: &Vec<bool>,
    listing: &Option<Vec<String>>,
)
    requires
        probes@.len() <= 5,
    ensures
        call_requires(find_encoder, (dir, probes, listing)),
        call_requires(find_decoder_joint, (dir, probes)),
{
}

}
