//! Token decoding through the external text tokenizer.
//!
//! The model reports a word as a span of token ids; an external tokenizer
//! turns the span into text.  What text comes back depends on the tokenizer
//! the model was loaded with, so nothing is assumed about it here: the
//! decoding-failure policy (substitute the empty string) and the aggregator
//! transition are verified for every text the tokenizer may produce.

use vstd::prelude::*;

use crate::aggregator::Aggregator;
use crate::aggregator::MessageModel;
use crate::aggregator::StepMessage;
use crate::aggregator::TranscriptWord;
use crate::aggregator::WordModel;
use crate::aggregator::emitted_models;
use crate::aggregator::step_emits;
use crate::aggregator::step_pending;

verus! {

#[verifier::external_type_specification]
#[verifier::external_body]
pub struct ExTokenizer(tokenizers::Tokenizer);

/// Relies on tokenizers::Tokenizer::decode: turns a span of token ids into
/// text, skipping special tokens.  It may fail, and what it returns depends
/// on the tokenizer the model was loaded with, so no more is stated.
#[verifier::external_body]
fn decode_tokens(tokenizer: &tokenizers::Tokenizer, ids: &Vec<u32>) -> (r: Option<String>) {
    tokenizer.decode(ids.as_slice(), true).ok()
}

/// The decoding-failure policy: the decoded text when the tokenizer
/// succeeded, the empty string otherwise.
pub open spec fn spec_text_or_empty(decoded: Option<String>) -> Seq<char> {
    match decoded {
        Some(s) => s@,
        None => Seq::empty(),
    }
}

/// Apply the decoding-failure policy to a tokenizer result: substitute the
/// empty string for a failure rather than aborting the transcription.  (A
/// word left with blank text is dropped by the aggregator before emission.)
pub fn text_or_empty(decoded: Option<String>) -> (r: String)
    ensures
        r@ == spec_text_or_empty(decoded),
{
    match decoded {
        Some(s) => s,
        None => String::new(),
    }
}

/// One message as the model hands it out, its word still a span of token
/// ids.  Times are in milliseconds.
pub enum RawStepMessage {
    Step,
    Word { tokens: Vec<u32>, start_time: u64 },
    EndWord { stop_time: u64 },
}

/// Mathematical image of a `RawStepMessage`.
pub enum RawMessageModel {
    Step,
    Word(Seq<u32>, u64),
    EndWord(u64),
}

impl View for RawStepMessage {
    type V = RawMessageModel;

    open spec fn view(&self) -> RawMessageModel {
        match self {
            RawStepMessage::Step => RawMessageModel::Step,
            RawStepMessage::Word { tokens, start_time } => RawMessageModel::Word(
                tokens@,
                *start_time,
            ),
            RawStepMessage::EndWord { stop_time } => RawMessageModel::EndWord(*stop_time),
        }
    }
}

/// The raw message once its tokens have been decoded to `text`.
pub open spec fn decoded_message(raw: RawMessageModel, text: Seq<char>) -> MessageModel {
    match raw {
        RawMessageModel::Step => MessageModel::Step,
        RawMessageModel::Word(_, start_time) => MessageModel::Word(
            WordModel { text, start_time },
        ),
        RawMessageModel::EndWord(stop_time) => MessageModel::EndWord(stop_time),
    }
}

/// Decode a raw message's tokens and feed the result to the aggregator.
///
/// For some decoded text — whatever the tokenizer produced, or the empty
/// string on a decoding failure — the state change and the emission are
/// exactly the aggregator's transition on the message carrying that text.
/// Everything except the new word's text is thereby pinned: which word is
/// flushed, the start time kept with the new word, and the timestamp
/// setting.
pub fn push_raw(
    agg: &mut Aggregator,
    tokenizer: &tokenizers::Tokenizer,
    msg: RawStepMessage,
) -> (emitted: Option<TranscriptWord>)
    ensures
        final(agg)@.timestamps == old(agg)@.timestamps,
        exists|text: Seq<char>|
            {
                let m = #[trigger] decoded_message(msg@, text);
                &&& final(agg)@.pending == step_pending(old(agg)@.pending, m, old(agg)@.timestamps)
                &&& emitted_models(emitted) == step_emits(
                    old(agg)@.pending,
                    m,
                    old(agg)@.timestamps,
                )
            },
        old(agg)@.wf() ==> final(agg)@.wf(),
{
    let ghost raw = msg@;
    match msg {
        RawStepMessage::Step => {
            let emitted = agg.push(StepMessage::Step);
            proof {
                let text = Seq::<char>::empty();
                assert(decoded_message(raw, text) == MessageModel::Step);
            }
            emitted
        },
        RawStepMessage::Word { tokens, start_time } => {
            let text = text_or_empty(decode_tokens(tokenizer, &tokens));
            let ghost tv = text@;
            let emitted = agg.push(StepMessage::Word { text, start_time });
            proof {
                assert(decoded_message(raw, tv) == MessageModel::Word(
                    WordModel { text: tv, start_time },
                ));
            }
            emitted
        },
        RawStepMessage::EndWord { stop_time } => {
            let emitted = agg.push(StepMessage::EndWord { stop_time });
            proof {
                let text = Seq::<char>::empty();
                assert(decoded_message(raw, text) == MessageModel::EndWord(stop_time));
            }
            emitted
        },
    }
}

} // verus!
