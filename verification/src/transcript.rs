//! Assembling a transcript from the finalized words, and the fixed
//! sentinel texts used when a decode call cannot produce one.

use vstd::prelude::*;

use crate::aggregator::TranscriptWord;

verus! {

/// Relies on String::push_str from std: appends the given string slice
/// onto the end of this string.
pub assume_specification[ String::push_str ](s: &mut String, other: &str)
    ensures
        final(s)@ == old(s)@ + other@,
;

/// The tail of a joined transcript: every remaining word prefixed by a
/// single space.
pub open spec fn spec_join_rest(texts: Seq<Seq<char>>) -> Seq<char>
    decreases texts.len(),
{
    if texts.len() == 0 {
        Seq::empty()
    } else {
        seq![' '] + texts[0] + spec_join_rest(texts.drop_first())
    }
}

/// The texts joined with a single space between neighbours; empty when
/// there are none.
pub open spec fn spec_join_with_space(texts: Seq<Seq<char>>) -> Seq<char> {
    if texts.len() == 0 {
        Seq::empty()
    } else {
        texts[0] + spec_join_rest(texts.drop_first())
    }
}

proof fn lemma_join_rest_push(texts: Seq<Seq<char>>, x: Seq<char>)
    ensures
        spec_join_rest(texts.push(x)) == spec_join_rest(texts) + seq![' '] + x,
    decreases texts.len(),
{
    if texts.len() == 0 {
        assert(texts.push(x).drop_first() =~= Seq::<Seq<char>>::empty());
        assert(spec_join_rest(Seq::<Seq<char>>::empty()) =~= Seq::<char>::empty());
        assert(texts =~= Seq::<Seq<char>>::empty());
        assert(spec_join_rest(texts.push(x)) =~= spec_join_rest(texts) + seq![' '] + x);
    } else {
        assert(texts.push(x).drop_first() =~= texts.drop_first().push(x));
        lemma_join_rest_push(texts.drop_first(), x);
        assert(spec_join_rest(texts.push(x)) =~= spec_join_rest(texts) + seq![' '] + x);
    }
}

/// Appending one more text to a join adds a separating space and the text,
/// except onto an empty join.
pub proof fn lemma_join_push(texts: Seq<Seq<char>>, x: Seq<char>)
    ensures
        spec_join_with_space(texts.push(x)) == if texts.len() == 0 {
            x
        } else {
            spec_join_with_space(texts) + seq![' '] + x
        },
{
    if texts.len() == 0 {
        assert(texts.push(x).drop_first() =~= Seq::<Seq<char>>::empty());
        assert(spec_join_with_space(texts.push(x)) =~= x);
    } else {
        assert(texts.push(x).drop_first() =~= texts.drop_first().push(x));
        lemma_join_rest_push(texts.drop_first(), x);
        assert(spec_join_with_space(texts.push(x)) =~= spec_join_with_space(texts) + seq![' ']
            + x);
    }
}

/// Join the words' texts with single spaces, in emission order.
pub fn join_words(words: &Vec<TranscriptWord>) -> (s: String)
    ensures
        s@ == spec_join_with_space(words@.map_values(|w: TranscriptWord| w@.text)),
{
    let ghost texts: Seq<Seq<char>> = words@.map_values(|w: TranscriptWord| w@.text);
    let mut s = String::new();
    let mut i: usize = 0;
    proof {
        assert(texts.take(0) =~= Seq::<Seq<char>>::empty());
    }
    while i < words.len()
        invariant
            i <= words@.len(),
            texts == words@.map_values(|w: TranscriptWord| w@.text),
            texts.len() == words@.len(),
            s@ == spec_join_with_space(texts.take(i as int)),
        decreases words@.len() - i,
    {
        if i > 0 {
            let sep = " ";
            proof {
                reveal_strlit(" ");
                assert(sep@ =~= seq![' ']);
            }
            s.push_str(sep);
        }
        s.push_str(words[i].text.as_str());
        proof {
            lemma_join_push(texts.take(i as int), texts[i as int]);
            assert(texts.take(i as int).push(texts[i as int]) =~= texts.take(i as int + 1));
        }
        i = i + 1;
    }
    proof {
        assert(texts.take(words@.len() as int) =~= texts);
    }
    s
}

/// Why a decode call produced no transcript: the model bundle never
/// loaded, the audio bytes did not parse, or the model failed while
/// stepping.
pub enum DecodeFailure {
    ModelNotLoaded,
    AudioFormat,
    Transcription,
}

/// The fixed sentinel text reported for each failure, exactly as the
/// legacy result envelope expects it.
pub fn failure_text(failure: &DecodeFailure) -> (s: String)
    ensures
        failure is ModelNotLoaded ==> s@ == "Model not loaded"@,
        failure is AudioFormat ==> s@ == "Audio format error"@,
        failure is Transcription ==> s@ == "Transcription failed"@,
{
    match failure {
        DecodeFailure::ModelNotLoaded => "Model not loaded".to_owned(),
        DecodeFailure::AudioFormat => "Audio format error".to_owned(),
        DecodeFailure::Transcription => "Transcription failed".to_owned(),
    }
}

} // verus!
