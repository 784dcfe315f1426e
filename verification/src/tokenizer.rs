//! The tokenizer of the dummy model, built and serialized through the
//! `tokenizers` crate.
use vstd::prelude::*;
use tokenizers::models::wordlevel::WordLevel;
use tokenizers::models::ModelWrapper;
use tokenizers::Tokenizer;

verus! {

#[verifier::external_type_specification]
#[verifier::external_body]
pub struct ExTokenizer(Tokenizer);

/// The compact JSON form of the dummy model's tokenizer: format version
/// `1.0`, no truncation, padding, added tokens, normalizer, pre- or
/// post-processor or decoder, and a word-level model with an empty
/// vocabulary and the unknown token `<unk>`.
pub open spec fn dummy_tokenizer_json_text() -> Seq<char> {
    "{\"version\":\"1.0\",\"truncation\":null,\"padding\":null,\"added_tokens\":[],\"normalizer\":null,\"pre_tokenizer\":null,\"post_processor\":null,\"decoder\":null,\"model\":{\"type\":\"WordLevel\",\"vocab\":{},\"unk_token\":\"<unk>\"}}"@
}

/// Builds the tokenizer of the dummy model and its compact JSON form: calls
/// `WordLevel::builder` and `WordLevelBuilder::build` (a word-level model
/// with no vocabulary file, so with an empty vocabulary and the unknown
/// token `<unk>`), `Tokenizer::new` on it, and `Tokenizer::to_string` with
/// `pretty == false`.
///
/// Claimed: both steps succeed, and the JSON is `dummy_tokenizer_json_text`.
/// `build` reads a file only when one is set, and none is. The tokenizer
/// has no added tokens, no normalizer, pre- or post-processor, decoder,
/// truncation or padding; it serializes its fields in the order `version`
/// (`"1.0"`), `truncation`, `padding`, `added_tokens`, `normalizer`,
/// `pre_tokenizer`, `post_processor`, `decoder`, `model`, and the
/// word-level model serializes `type`, its vocabulary (an empty map) and
/// `unk_token`, so the serializer meets no error and writes that text.
/// Nothing is claimed of the tokenizer, which is opaque here.
#[verifier::external_body]
pub(crate) fn empty_word_level_tokenizer() -> (r: Result<(Tokenizer, String), String>)
    ensures
        r is Ok,
        r is Ok ==> r->Ok_0.1@ == dummy_tokenizer_json_text(),
{
    let model = WordLevel::builder().build().map_err(|e| e.to_string())?;
    let tokenizer = Tokenizer::new(ModelWrapper::WordLevel(model));
    let json = tokenizer.to_string(false).map_err(|e| e.to_string())?;
    Ok((tokenizer, json))
}

} // verus!
