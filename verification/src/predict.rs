//! The answer of the engine to a request for labels.

use crate::string::{from_native, lenient_text};
use vstd::prelude::*;

verus! {

/// One label with its score. `S` is the type of a score.
#[derive(Debug)]
pub struct PredictRecord<'a, S>(S, &'a str);

impl<'a, S> View for PredictRecord<'a, S> {
    type V = (S, Seq<char>);

    closed spec fn view(&self) -> (S, Seq<char>) {
        (self.0, self.1@)
    }
}

impl<'a, S: Copy> PredictRecord<'a, S> {
    /// The record of `word` with the score `prediction`.
    pub fn new(prediction: S, word: &'a str) -> (record: PredictRecord<'a, S>)
        ensures
            record@ == (prediction, word@),
    {
        PredictRecord(prediction, word)
    }

    /// The score.
    pub fn prediction(&self) -> (score: S)
        ensures
            score == self@.0,
    {
        self.0
    }

    /// The label.
    pub fn word(&self) -> (label: &'a str)
        ensures
            label@ == self@.1,
    {
        self.1
    }
}

/// The message that comes with a prediction: the text behind `err`, or none
/// where the engine left the message out.
pub open spec fn error_text(err: Option<&[u8]>) -> Seq<char> {
    match err {
        Some(bytes) => lenient_text(bytes@),
        None => Seq::empty(),
    }
}

/// The message that comes with a prediction. The records of the engine are
/// only worth reading where it is empty.
pub fn message<'a>(err: Option<&'a [u8]>) -> (text: &'a str)
    ensures
        text@ == error_text(err),
{
    match err {
        Some(bytes) => from_native(bytes),
        None => {
            proof {
                reveal_strlit("");
            }
            ""
        },
    }
}

/// The record that the engine's pair of a score and the bytes of a label
/// stands for.
pub open spec fn record_of<S>(raw: (S, &[u8])) -> (S, Seq<char>) {
    (raw.0, lenient_text(raw.1@))
}

/// The records that a prediction shows: none beside a message, else those of
/// the engine, one for one and in the engine's order.
pub open spec fn ranking_of<S>(err: Option<&[u8]>, records: Seq<(S, &[u8])>) -> Seq<
    (S, Seq<char>),
> {
    if error_text(err).len() > 0 {
        Seq::empty()
    } else {
        Seq::new(records.len(), |i: int| record_of(records[i]))
    }
}

/// Each later score stands in the relation `le` to each earlier one.
pub open spec fn descending<S>(scores: Seq<S>, le: spec_fn(S, S) -> bool) -> bool {
    forall|i: int, j: int| 0 <= i < j < scores.len() ==> le(scores[j], scores[i])
}

/// The scores of `records`, in their order.
pub open spec fn scores_of<S, L>(records: Seq<(S, L)>) -> Seq<S> {
    Seq::new(records.len(), |i: int| records[i].0)
}

/// A ranked list of labels, or the message with which the engine declined.
#[derive(Debug)]
pub struct Predict<'a, S> {
    data: Vec<PredictRecord<'a, S>>,
    err: &'a str,
}

impl<'a, S> View for Predict<'a, S> {
    type V = Seq<(S, Seq<char>)>;

    closed spec fn view(&self) -> Seq<(S, Seq<char>)> {
        Seq::new(self.data@.len(), |i: int| self.data@[i]@)
    }
}

impl<'a, S> Predict<'a, S> {
    /// The message of the engine; empty where it made a prediction.
    pub closed spec fn failure(&self) -> Seq<char> {
        self.err@
    }

    #[verifier::type_invariant]
    spec fn consistent(&self) -> bool {
        self.err@.len() > 0 ==> self.data@.len() == 0
    }
}

impl<'a, S: Copy> Predict<'a, S> {
    /// Builds the prediction from what the engine returned: the bytes of its
    /// message, if it left one, and its records.
    pub fn new(err: Option<&'a [u8]>, records: &[(S, &'a [u8])]) -> (predict: Predict<'a, S>)
        ensures
            predict.failure() == error_text(err),
            predict@ == ranking_of(err, records@),
    {
        let failure: &'a str = message(err);
        let mut data: Vec<PredictRecord<'a, S>> = Vec::new();
        if failure.is_empty() {
            let mut i: usize = 0;
            while i < records.len()
                invariant
                    i <= records.len(),
                    data@.len() == i,
                    forall|k: int| 0 <= k < i ==> (#[trigger] data@[k])@ == record_of(records@[k]),
                decreases records.len() - i,
            {
                let raw: (S, &'a [u8]) = records[i];
                data.push(PredictRecord(raw.0, from_native(raw.1)));
                i += 1;
            }
        }
        Predict { data, err: failure }
    }
}

impl<'a, S> Predict<'a, S> {
    /// The records, best first.
    pub fn as_slice(&self) -> (records: &[PredictRecord<'a, S>])
        ensures
            records@.len() == self@.len(),
            forall|i: int| 0 <= i < records@.len() ==> (#[trigger] records@[i])@ == self@[i],
    {
        self.data.as_slice()
    }

    /// The number of records.
    pub fn len(&self) -> (n: usize)
        ensures
            n == self@.len(),
    {
        self.data.len()
    }

    /// Whether there is no record.
    pub fn is_empty(&self) -> (empty: bool)
        ensures
            empty <==> self@.len() == 0,
    {
        self.len() == 0
    }

    /// The message of the engine as an error, if it left one. A prediction with
    /// a message has no records.
    pub fn err(&self) -> (r: Result<(), String>)
        ensures
            r is Ok <==> self.failure().len() == 0,
            r matches Err(message) ==> message@ == self.failure() && self@.len() == 0,
    {
        proof {
            use_type_invariant(self);
        }
        if self.err.is_empty() {
            Ok(())
        } else {
            Err(self.err.to_owned())
        }
    }
}

/// The engine ranks and this layer only shows: whatever order the scores of the
/// engine's records are in, the scores of the prediction are in it too.
pub proof fn lemma_ranking_keeps_order<S>(
    err: Option<&[u8]>,
    records: Seq<(S, &[u8])>,
    le: spec_fn(S, S) -> bool,
)
    requires
        descending(scores_of(records), le),
    ensures
        descending(scores_of(ranking_of(err, records)), le),
        error_text(err).len() == 0 ==> scores_of(ranking_of(err, records)) == scores_of(records),
{
    if error_text(err).len() == 0 {
        assert(scores_of(ranking_of(err, records)) =~= scores_of(records));
    }
}

} // verus!
