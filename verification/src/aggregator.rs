//! The message aggregator: turns the frame-synchronous stream of step
//! messages produced by the recognition model into finalized words.
//!
//! The model reports, per decoded frame, an ordered batch of messages:
//! heartbeats, the start of a new word (with its decoded text and start
//! time), and the close of the previously started word.  At most one word is
//! open at any point.  The aggregator buffers the open word when timestamps
//! are wanted, flushes it when the next word begins, when it is closed, or at
//! end of stream, and drops words whose text is blank.

use vstd::prelude::*;

use crate::text::is_blank;
use crate::text::str_is_blank;

verus! {

/// A finalized word, handed to the consumer in emission order.
///
/// `start_time` is the word's start position in milliseconds of audio time.
/// When the aggregator runs without timestamps the field is still carried,
/// but holds whatever the producing message carried.
pub struct TranscriptWord {
    pub text: String,
    pub start_time: u64,
}

/// The word that has been started but not yet finalized.  At most one of
/// these is alive at any time, owned by the aggregator.
pub struct PendingWord {
    pub text: String,
    pub start_time: u64,
}

/// Mathematical image of a word: its text and its start time.
pub struct WordModel {
    pub text: Seq<char>,
    pub start_time: u64,
}

impl View for TranscriptWord {
    type V = WordModel;

    open spec fn view(&self) -> WordModel {
        WordModel { text: self.text@, start_time: self.start_time }
    }
}

impl View for PendingWord {
    type V = WordModel;

    open spec fn view(&self) -> WordModel {
        WordModel { text: self.text@, start_time: self.start_time }
    }
}

/// One message of the model's per-frame signal stream.
///
/// `Word` carries the decoded text of a word that has just begun together
/// with its start time; `EndWord` closes the previously started word;
/// `Step` is a heartbeat and carries nothing.  Times are in milliseconds.
pub enum StepMessage {
    Step,
    Word { text: String, start_time: u64 },
    EndWord { stop_time: u64 },
}

/// Mathematical image of a `StepMessage`.
pub enum MessageModel {
    Step,
    Word(WordModel),
    EndWord(u64),
}

impl View for StepMessage {
    type V = MessageModel;

    open spec fn view(&self) -> MessageModel {
        match self {
            StepMessage::Step => MessageModel::Step,
            StepMessage::Word { text, start_time } => MessageModel::Word(
                WordModel { text: text@, start_time: *start_time },
            ),
            StepMessage::EndWord { stop_time } => MessageModel::EndWord(*stop_time),
        }
    }
}

/// What flushing a pending word emits: the word itself, unless nothing is
/// pending or its text is blank.
pub open spec fn flush_emits(pending: Option<WordModel>) -> Seq<WordModel> {
    match pending {
        Some(w) => if is_blank(w.text) {
            Seq::empty()
        } else {
            seq![w]
        },
        None => Seq::empty(),
    }
}

/// The words emitted on one message, given the pending word beforehand.
///
/// With timestamps, a new word flushes its predecessor and is itself
/// buffered; without them it is emitted at once.  Closing a word flushes it;
/// a heartbeat emits nothing.  Blank words are dropped at the point of
/// emission.
pub open spec fn step_emits(pending: Option<WordModel>, msg: MessageModel, timestamps: bool) -> Seq<
    WordModel,
> {
    match msg {
        MessageModel::Step => Seq::empty(),
        MessageModel::Word(w) => if timestamps {
            flush_emits(pending)
        } else {
            flush_emits(Some(w))
        },
        MessageModel::EndWord(_) => flush_emits(pending),
    }
}

/// The pending word after one message.
pub open spec fn step_pending(
    pending: Option<WordModel>,
    msg: MessageModel,
    timestamps: bool,
) -> Option<WordModel> {
    match msg {
        MessageModel::Step => pending,
        MessageModel::Word(w) => if timestamps {
            Some(w)
        } else {
            pending
        },
        MessageModel::EndWord(_) => None,
    }
}

/// The words emitted over a whole message stream, including the flush of
/// whatever is still pending at end of stream.
pub open spec fn aggregate_spec(
    pending: Option<WordModel>,
    msgs: Seq<MessageModel>,
    timestamps: bool,
) -> Seq<WordModel>
    decreases msgs.len(),
{
    if msgs.len() == 0 {
        flush_emits(pending)
    } else {
        step_emits(pending, msgs[0], timestamps) + aggregate_spec(
            step_pending(pending, msgs[0], timestamps),
            msgs.drop_first(),
            timestamps,
        )
    }
}

/// Mathematical image of the aggregator state.
pub struct AggregatorModel {
    pub timestamps: bool,
    pub pending: Option<WordModel>,
}

impl AggregatorModel {
    /// Without timestamps no word is ever buffered.
    pub open spec fn wf(self) -> bool {
        !self.timestamps ==> self.pending is None
    }
}

/// The aggregator's state machine: `Idle` when no word is pending,
/// word-open otherwise.
pub struct Aggregator {
    timestamps: bool,
    pending: Option<PendingWord>,
}

pub open spec fn pending_model(p: Option<PendingWord>) -> Option<WordModel> {
    match p {
        Some(w) => Some(w@),
        None => None,
    }
}

/// The words that one `push` or `finish` call hands back, as a sequence:
/// empty, or exactly one word.
pub open spec fn emitted_models(o: Option<TranscriptWord>) -> Seq<WordModel> {
    match o {
        Some(w) => seq![w@],
        None => Seq::empty(),
    }
}

impl View for Aggregator {
    type V = AggregatorModel;

    closed spec fn view(&self) -> AggregatorModel {
        AggregatorModel { timestamps: self.timestamps, pending: pending_model(self.pending) }
    }
}

/// Emit a pending word, or nothing if none is pending or its text is blank.
fn flush_pending(p: Option<PendingWord>) -> (emitted: Option<TranscriptWord>)
    ensures
        emitted_models(emitted) == flush_emits(pending_model(p)),
{
    match p {
        Some(w) => {
            if str_is_blank(w.text.as_str()) {
                None
            } else {
                Some(TranscriptWord { text: w.text, start_time: w.start_time })
            }
        },
        None => None,
    }
}

impl Aggregator {
    /// A fresh aggregator in the idle state.
    pub fn new(timestamps: bool) -> (a: Aggregator)
        ensures
            a@ == (AggregatorModel { timestamps, pending: None::<WordModel> }),
            a@.wf(),
    {
        Aggregator { timestamps, pending: None }
    }

    /// Feed one message; hand back the word it finalizes, if any.
    ///
    /// The new state and the emission follow `step_pending` and `step_emits`
    /// exactly; in particular a blank word is never handed back.
    pub fn push(&mut self, msg: StepMessage) -> (emitted: Option<TranscriptWord>)
        ensures
            final(self)@.timestamps == old(self)@.timestamps,
            final(self)@.pending == step_pending(old(self)@.pending, msg@, old(self)@.timestamps),
            emitted_models(emitted) == step_emits(
                old(self)@.pending,
                msg@,
                old(self)@.timestamps,
            ),
            old(self)@.wf() ==> final(self)@.wf(),
    {
        match msg {
            StepMessage::Step => None,
            StepMessage::Word { text, start_time } => {
                if self.timestamps {
                    let prev = self.pending.take();
                    self.pending = Some(PendingWord { text, start_time });
                    flush_pending(prev)
                } else {
                    flush_pending(Some(PendingWord { text, start_time }))
                }
            },
            StepMessage::EndWord { .. } => {
                let prev = self.pending.take();
                flush_pending(prev)
            },
        }
    }

    /// End of stream: flush whatever word is still open.
    pub fn finish(&mut self) -> (emitted: Option<TranscriptWord>)
        ensures
            final(self)@.timestamps == old(self)@.timestamps,
            final(self)@.pending is None,
            emitted_models(emitted) == flush_emits(old(self)@.pending),
            final(self)@.wf(),
    {
        let prev = self.pending.take();
        flush_pending(prev)
    }
}

/// Run a whole message stream through a fresh aggregator and collect every
/// emitted word, in emission order, end-of-stream flush included.
pub fn aggregate(msgs: Vec<StepMessage>, timestamps: bool) -> (out: Vec<TranscriptWord>)
    ensures
        out@.map_values(|w: TranscriptWord| w@) == aggregate_spec(
            None::<WordModel>,
            msgs@.map_values(|m: StepMessage| m@),
            timestamps,
        ),
{
    let ghost mspec: Seq<MessageModel> = msgs@.map_values(|m: StepMessage| m@);
    let mut agg = Aggregator::new(timestamps);
    let mut out: Vec<TranscriptWord> = Vec::new();
    proof {
        assert(mspec.skip(0) =~= mspec);
        assert(out@.map_values(|w: TranscriptWord| w@) + aggregate_spec(
            None::<WordModel>,
            mspec,
            timestamps,
        ) =~= aggregate_spec(None::<WordModel>, mspec, timestamps));
    }
    for m in it: msgs.into_iter()
        invariant
            it.seq().map_values(|m: StepMessage| m@) == mspec,
            agg@.timestamps == timestamps,
            aggregate_spec(None::<WordModel>, mspec, timestamps) == out@.map_values(
                |w: TranscriptWord| w@,
            ) + aggregate_spec(agg@.pending, mspec.skip(it.index() as int), timestamps),
    {
        let ghost i = it.index() as int;
        let ghost pend0 = agg@.pending;
        let emitted = agg.push(m);
        proof {
            assert(mspec.skip(i)[0] == mspec[i]);
            assert(mspec.skip(i).drop_first() =~= mspec.skip(i + 1));
        }
        match emitted {
            Some(w) => {
                let ghost out0 = out@;
                out.push(w);
                proof {
                    assert(out@.map_values(|w: TranscriptWord| w@) =~= out0.map_values(
                        |w: TranscriptWord| w@,
                    ).push(w@));
                }
            },
            None => {},
        }
    }
    let emitted = agg.finish();
    proof {
        assert(mspec.skip(mspec.len() as int) =~= Seq::<MessageModel>::empty());
    }
    match emitted {
        Some(w) => {
            let ghost out0 = out@;
            out.push(w);
            proof {
                assert(out@.map_values(|w: TranscriptWord| w@) =~= out0.map_values(
                    |w: TranscriptWord| w@,
                ).push(w@));
            }
        },
        None => {},
    }
    out
}

/// The words a message stream ought to produce: one entry per `Word`
/// message, in stream order, with blank words left out.
pub open spec fn expected_words(msgs: Seq<MessageModel>) -> Seq<WordModel>
    decreases msgs.len(),
{
    if msgs.len() == 0 {
        Seq::empty()
    } else {
        (match msgs[0] {
            MessageModel::Word(w) => flush_emits(Some(w)),
            _ => Seq::empty(),
        }) + expected_words(msgs.drop_first())
    }
}

/// With timestamps on, whatever word is pending comes out first, before
/// anything the rest of the stream emits, and the rest behaves as if
/// nothing had been pending.
pub proof fn lemma_pending_flushes_first(pending: Option<WordModel>, msgs: Seq<MessageModel>)
    ensures
        aggregate_spec(pending, msgs, true) == flush_emits(pending) + aggregate_spec(
            None::<WordModel>,
            msgs,
            true,
        ),
    decreases msgs.len(),
{
    if msgs.len() == 0 {
        assert(flush_emits(pending) + flush_emits(None::<WordModel>) =~= flush_emits(pending));
    } else {
        match msgs[0] {
            MessageModel::Step => {
                lemma_pending_flushes_first(pending, msgs.drop_first());
                assert(aggregate_spec(pending, msgs, true) =~= flush_emits(pending)
                    + aggregate_spec(None::<WordModel>, msgs, true));
            },
            MessageModel::Word(w) => {
                assert(aggregate_spec(pending, msgs, true) =~= flush_emits(pending)
                    + aggregate_spec(None::<WordModel>, msgs, true));
            },
            MessageModel::EndWord(_) => {
                assert(aggregate_spec(pending, msgs, true) =~= flush_emits(pending)
                    + aggregate_spec(None::<WordModel>, msgs, true));
            },
        }
    }
}

/// No duplication, no loss, order preserved: a fresh aggregator emits
/// exactly the non-blank words of the stream, one per `Word` message, in
/// stream order — whether or not timestamps are enabled.
pub proof fn lemma_emits_each_word_once(msgs: Seq<MessageModel>, timestamps: bool)
    ensures
        aggregate_spec(None::<WordModel>, msgs, timestamps) == expected_words(msgs),
    decreases msgs.len(),
{
    if msgs.len() == 0 {
    } else {
        lemma_emits_each_word_once(msgs.drop_first(), timestamps);
        match msgs[0] {
            MessageModel::Step => {
                assert(aggregate_spec(None::<WordModel>, msgs, timestamps) =~= expected_words(
                    msgs,
                ));
            },
            MessageModel::Word(w) => {
                if timestamps {
                    lemma_pending_flushes_first(Some(w), msgs.drop_first());
                }
                assert(aggregate_spec(None::<WordModel>, msgs, timestamps) =~= expected_words(
                    msgs,
                ));
            },
            MessageModel::EndWord(_) => {
                assert(aggregate_spec(None::<WordModel>, msgs, timestamps) =~= expected_words(
                    msgs,
                ));
            },
        }
    }
}

/// A word whose text is blank never reaches the consumer, whatever the
/// stream, the starting state and the timestamp setting.
pub proof fn lemma_no_blank_word_emitted(
    pending: Option<WordModel>,
    msgs: Seq<MessageModel>,
    timestamps: bool,
)
    ensures
        forall|k: int|
            0 <= k < aggregate_spec(pending, msgs, timestamps).len() ==> !is_blank(
                #[trigger] aggregate_spec(pending, msgs, timestamps)[k].text,
            ),
    decreases msgs.len(),
{
    if msgs.len() == 0 {
    } else {
        let head = step_emits(pending, msgs[0], timestamps);
        let rest = aggregate_spec(
            step_pending(pending, msgs[0], timestamps),
            msgs.drop_first(),
            timestamps,
        );
        lemma_no_blank_word_emitted(
            step_pending(pending, msgs[0], timestamps),
            msgs.drop_first(),
            timestamps,
        );
        assert forall|k: int|
            0 <= k < aggregate_spec(pending, msgs, timestamps).len() implies !is_blank(
            aggregate_spec(pending, msgs, timestamps)[k].text,
        ) by {
            if k < head.len() {
                assert(aggregate_spec(pending, msgs, timestamps)[k] == head[k]);
            } else {
                assert(aggregate_spec(pending, msgs, timestamps)[k] == rest[k - head.len()]);
            }
        }
    }
}

/// Two words begun in succession, then a close: both are emitted, in that
/// order, each exactly once.
pub proof fn lemma_two_words_in_order(w1: WordModel, w2: WordModel, stop: u64)
    requires
        !is_blank(w1.text),
        !is_blank(w2.text),
    ensures
        aggregate_spec(
            None::<WordModel>,
            seq![MessageModel::Word(w1), MessageModel::Word(w2), MessageModel::EndWord(stop)],
            true,
        ) == seq![w1, w2],
{
    reveal_with_fuel(expected_words, 5);
    let msgs = seq![MessageModel::Word(w1), MessageModel::Word(w2), MessageModel::EndWord(stop)];
    lemma_emits_each_word_once(msgs, true);
    let m1 = seq![MessageModel::Word(w2), MessageModel::EndWord(stop)];
    let m2 = seq![MessageModel::EndWord(stop)];
    assert(m2.drop_first() =~= Seq::<MessageModel>::empty());
    assert(expected_words(m2) =~= Seq::<WordModel>::empty());
    assert(m1.drop_first() =~= m2);
    assert(expected_words(m1) =~= seq![w2]);
    assert(msgs.drop_first() =~= m1);
    assert(expected_words(msgs) =~= seq![w1, w2]);
}

/// A word begun and then closed is emitted exactly once.
pub proof fn lemma_word_then_close(w: WordModel, stop: u64, timestamps: bool)
    requires
        !is_blank(w.text),
    ensures
        aggregate_spec(
            None::<WordModel>,
            seq![MessageModel::Word(w), MessageModel::EndWord(stop)],
            timestamps,
        ) == seq![w],
{
    reveal_with_fuel(expected_words, 4);
    let msgs = seq![MessageModel::Word(w), MessageModel::EndWord(stop)];
    lemma_emits_each_word_once(msgs, timestamps);
    let m1 = seq![MessageModel::EndWord(stop)];
    assert(m1.drop_first() =~= Seq::<MessageModel>::empty());
    assert(expected_words(m1) =~= Seq::<WordModel>::empty());
    assert(msgs.drop_first() =~= m1);
    assert(expected_words(msgs) =~= seq![w]);
}

/// A word begun but never closed is still emitted, by the end-of-stream
/// flush.
pub proof fn lemma_flush_at_end_of_stream(w: WordModel, timestamps: bool)
    requires
        !is_blank(w.text),
    ensures
        aggregate_spec(None::<WordModel>, seq![MessageModel::Word(w)], timestamps) == seq![w],
{
    reveal_with_fuel(expected_words, 3);
    let msgs = seq![MessageModel::Word(w)];
    lemma_emits_each_word_once(msgs, timestamps);
    assert(msgs.drop_first() =~= Seq::<MessageModel>::empty());
    assert(expected_words(msgs) =~= seq![w]);
}

} // verus!
