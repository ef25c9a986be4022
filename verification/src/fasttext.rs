//! Status codes of the engine, and the life of a model from its creation to
//! the point where it can be read.

use crate::dictionary::Dictionary;
use crate::predict::{error_text, ranking_of, Predict};
use crate::string::{native_form, to_native};
use crate::vector::Vector;
use crate::{FastText, Phase};
use libc::c_int;
use vstd::prelude::*;
use vstd::string::StringSliceAdditionalSpecFns;

verus! {

/// The status with which a native call reports that it did its work.
#[derive(Debug, Clone, Copy)]
pub struct ResSuccess(i32);

/// What can go wrong at the boundary.
#[derive(Debug, Clone, Copy, PartialEq, Eq, Structural)]
pub enum Error {
    /// A model or vector file could not be opened or read.
    ResErrorNotOpen,
    /// The operation does not apply to this kind of model.
    RerErrorWrongModel,
    /// The engine was asked for something before the model was far enough.
    ResErrorModelNotInit,
    /// The engine failed in a way that has no category of its own.
    ResErrorExecution,
}

/// What `predict` answers on a model that cannot be read yet.
pub const NOT_INITIALIZED: &'static str = "model is not initialized";

impl ResSuccess {
    /// The native status code.
    pub closed spec fn code(&self) -> int {
        self.0 as int
    }

    /// The one status that stands for success.
    pub closed spec fn spec_ok() -> ResSuccess {
        ResSuccess(0)
    }

    /// The one status that stands for success.
    #[verifier::when_used_as_spec(spec_ok)]
    pub fn ok() -> (r: ResSuccess)
        ensures
            r == Self::spec_ok(),
            r.code() == 0,
    {
        ResSuccess(0)
    }
}

/// What a load step returns for the status that the engine reported: only
/// zero stands for success.
pub open spec fn load_outcome(status: int) -> Result<ResSuccess, Error> {
    if status == 0 {
        Ok(ResSuccess::spec_ok())
    } else {
        Err(Error::ResErrorNotOpen)
    }
}

/// The phase after a request to load the model structure. A failed load
/// leaves nothing behind, whatever was loaded before.
pub open spec fn after_model(status: int) -> Phase {
    if status == 0 {
        Phase::ModelLoaded
    } else {
        Phase::Created
    }
}

/// The phase after a request to load the vector table. The table goes with a
/// model structure: without one the request counts for nothing.
pub open spec fn after_vectors(phase: Phase, status: int) -> Phase {
    if phase == Phase::Created {
        Phase::Created
    } else if status == 0 {
        Phase::Ready
    } else {
        Phase::ModelLoaded
    }
}

/// One answer of the engine to a request to load, with the status it gave.
pub enum Loaded {
    /// To a request for the model structure.
    Model(c_int),
    /// To a request for the vector table.
    Vectors(c_int),
}

/// The phase of a model after one more answer.
pub open spec fn after(phase: Phase, answer: Loaded) -> Phase {
    match answer {
        Loaded::Model(status) => after_model(status as int),
        Loaded::Vectors(status) => after_vectors(phase, status as int),
    }
}

/// The phase of a new model after the answers `answers`, in their order.
pub open spec fn replay(answers: Seq<Loaded>) -> Phase
    decreases answers.len(),
{
    if answers.len() == 0 {
        Phase::Created
    } else {
        after(replay(answers.drop_last()), answers.last())
    }
}

/// The model structure of `answers` is the one loaded at `at`: that load
/// succeeded and no other request for a model structure came after it.
pub open spec fn model_from(answers: Seq<Loaded>, at: int) -> bool {
    &&& 0 <= at < answers.len()
    &&& answers[at] == Loaded::Model(0)
    &&& forall|k: int| at < k < answers.len() ==> answers[k] is Vectors
}

/// A model can be read exactly when its model structure was loaded, and the
/// last thing that happened to it is that its vector table was loaded: a load
/// that fails, of either kind, takes the model out of reach until the load is
/// made good.
pub proof fn lemma_ready_after_both_loads(answers: Seq<Loaded>)
    ensures
        replay(answers) != Phase::Created <==> exists|at: int| model_from(answers, at),
        replay(answers) == Phase::Ready <==> {
            &&& exists|at: int| model_from(answers, at)
            &&& answers.len() > 0
            &&& answers.last() == Loaded::Vectors(0)
        },
    decreases answers.len(),
{
    if answers.len() > 0 {
        let before = answers.drop_last();
        lemma_ready_after_both_loads(before);
        let n = answers.len() as int;
        match answers.last() {
            Loaded::Model(status) => {
                if status == 0 {
                    assert(model_from(answers, n - 1));
                } else {
                    assert forall|at: int| !model_from(answers, at) by {}
                }
            },
            Loaded::Vectors(status) => {
                assert forall|at: int| model_from(answers, at) <==> model_from(before, at) by {
                    if model_from(before, at) {
                        assert forall|k: int| at < k < answers.len() implies answers[k] is Vectors by {
                            if k < n - 1 {
                                assert(before[k] == answers[k]);
                            }
                        }
                    }
                }
            },
        }
    } else {
        assert forall|at: int| !model_from(answers, at) by {}
    }
}

/// The file path `p`, laid out for the engine.
pub fn path(p: &str) -> (out: Vec<u8>)
    ensures
        out@ == native_form(p.spec_bytes()),
{
    to_native(p.as_bytes())
}

/// The file of the model structure of the model kept under `path`.
pub fn model_file(path: &str) -> (file: String)
    ensures
        file@ == path@ + ".bin"@,
{
    path.to_owned().concat(".bin")
}

/// The file of the vector table of the model kept under `path`.
pub fn vectors_file(path: &str) -> (file: String)
    ensures
        file@ == path@ + ".vec"@,
{
    path.to_owned().concat(".vec")
}

/// What a handle of the engine says of the call that returned it: the engine
/// failed where it returned none.
pub fn handle_status(allocated: bool) -> (r: Result<ResSuccess, Error>)
    ensures
        r == (if allocated {
            Ok(ResSuccess::spec_ok())
        } else {
            Err(Error::ResErrorExecution)
        }),
{
    if allocated {
        Ok(ResSuccess::ok())
    } else {
        Err(Error::ResErrorExecution)
    }
}

impl FastText {
    /// The tracker for the handle of a new model, where the engine could
    /// allocate one.
    pub fn construct(allocated: bool) -> (r: Result<FastText, Error>)
        ensures
            match r {
                Ok(model) => allocated && model.phase() == Phase::Created,
                Err(e) => !allocated && e == Error::ResErrorExecution,
            },
    {
        match handle_status(allocated) {
            Ok(_) => Ok(FastText { phase: Phase::Created }),
            Err(e) => Err(e),
        }
    }

    /// Takes note of the status with which the engine answered a request to
    /// load the model structure.
    pub fn load_model(&mut self, status: c_int) -> (r: Result<ResSuccess, Error>)
        ensures
            r == load_outcome(status as int),
            final(self).phase() == after(old(self).phase(), Loaded::Model(status)),
    {
        if status == 0 {
            self.phase = Phase::ModelLoaded;
            Ok(ResSuccess::ok())
        } else {
            self.phase = Phase::Created;
            Err(Error::ResErrorNotOpen)
        }
    }

    /// Whether the vector table may be loaded: the model structure is there.
    pub fn vectors_admitted(&self) -> (r: Result<ResSuccess, Error>)
        ensures
            r == (if self.phase() == Phase::Created {
                Err(Error::ResErrorModelNotInit)
            } else {
                Ok(ResSuccess::spec_ok())
            }),
    {
        match self.phase {
            Phase::Created => Err(Error::ResErrorModelNotInit),
            _ => Ok(ResSuccess::ok()),
        }
    }

    /// Takes note of the status with which the engine answered a request to
    /// load the vector table.
    pub fn load_vectors(&mut self, status: c_int) -> (r: Result<ResSuccess, Error>)
        ensures
            r == (if old(self).phase() == Phase::Created {
                Err(Error::ResErrorModelNotInit)
            } else {
                load_outcome(status as int)
            }),
            final(self).phase() == after(old(self).phase(), Loaded::Vectors(status)),
    {
        match self.phase {
            Phase::Created => Err(Error::ResErrorModelNotInit),
            _ => {
                if status == 0 {
                    self.phase = Phase::Ready;
                    Ok(ResSuccess::ok())
                } else {
                    self.phase = Phase::ModelLoaded;
                    Err(Error::ResErrorNotOpen)
                }
            },
        }
    }

    /// Whether the engine may be read.
    pub fn is_ready(&self) -> (r: bool)
        ensures
            r == self.ready(),
    {
        match self.phase {
            Phase::Ready => true,
            _ => false,
        }
    }

    /// Whether the engine may be read: nothing is to be asked of a model that
    /// is not ready.
    pub fn read_admitted(&self) -> (r: Result<ResSuccess, Error>)
        ensures
            r == (if self.ready() {
                Ok(ResSuccess::spec_ok())
            } else {
                Err(Error::ResErrorModelNotInit)
            }),
    {
        if self.is_ready() {
            Ok(ResSuccess::ok())
        } else {
            Err(Error::ResErrorModelNotInit)
        }
    }

    /// The text of a read request, laid out for the engine, where the engine
    /// may be read.
    pub fn query(&self, text: &str) -> (r: Result<Vec<u8>, Error>)
        ensures
            match r {
                Ok(out) => self.ready() && out@ == native_form(text.spec_bytes()),
                Err(e) => !self.ready() && e == Error::ResErrorModelNotInit,
            },
    {
        if self.is_ready() {
            Ok(to_native(text.as_bytes()))
        } else {
            Err(Error::ResErrorModelNotInit)
        }
    }

    /// The request for a prediction of at most `count` labels for `text`, where
    /// the engine may be read: the text laid out for the engine, and the count.
    pub fn predict_query(&self, text: &str, count: i32) -> (r: Result<(Vec<u8>, c_int), String>)
        ensures
            match r {
                Ok(request) => {
                    &&& self.ready()
                    &&& request.0@ == native_form(text.spec_bytes())
                    &&& request.1 == count
                },
                Err(message) => !self.ready() && message@ == NOT_INITIALIZED@,
            },
    {
        if self.is_ready() {
            Ok((to_native(text.as_bytes()), count))
        } else {
            Err(NOT_INITIALIZED.to_owned())
        }
    }

    /// The view of the vocabulary, whose size the engine gave as `words`. A
    /// loaded model knows at least one word: an engine that counts none has
    /// failed.
    pub fn get_dictionary(&self, words: c_int) -> (r: Result<Dictionary<'_>, Error>)
        ensures
            match r {
                Ok(dict) => self.ready() && words > 0 && dict.words() == words,
                Err(e) => if self.ready() {
                    words <= 0 && e == Error::ResErrorExecution
                } else {
                    e == Error::ResErrorModelNotInit
                },
            },
    {
        if !self.is_ready() {
            Err(Error::ResErrorModelNotInit)
        } else if words <= 0 {
            Err(Error::ResErrorExecution)
        } else {
            Ok(Dictionary::new(self, words))
        }
    }

    /// The embedding of a word, given the components that the engine
    /// returned. An embedding without components counts as none.
    pub fn word_to_vector<'a, T>(&'a self, data: &'a [T]) -> (r: Option<Vector<'a, T>>)
        ensures
            r is Some <==> self.ready() && data@.len() > 0,
            r matches Some(vector) ==> vector@ == data@ && vector@.len() > 0,
    {
        self.vector(data)
    }

    /// The embedding of a sentence, given the components that the engine
    /// returned. An embedding without components counts as none.
    pub fn sentence_to_vector<'a, T>(&'a self, data: &'a [T]) -> (r: Option<Vector<'a, T>>)
        ensures
            r is Some <==> self.ready() && data@.len() > 0,
            r matches Some(vector) ==> vector@ == data@ && vector@.len() > 0,
    {
        self.vector(data)
    }

    fn vector<'a, T>(&'a self, data: &'a [T]) -> (r: Option<Vector<'a, T>>)
        ensures
            r is Some <==> self.ready() && data@.len() > 0,
            r matches Some(vector) ==> vector@ == data@,
    {
        if !self.is_ready() {
            return None;
        }
        let vec = Vector::new(data);
        if !vec.is_empty() {
            Some(vec)
        } else {
            None
        }
    }

    /// The prediction, given what the engine returned: the bytes of its
    /// message, if it left one, and its records. A message is the error; a
    /// prediction without records is a prediction all the same.
    pub fn predict<'a, S: Copy>(&'a self, err: Option<&'a [u8]>, records: &[(S, &'a [u8])]) -> (r:
        Result<Predict<'a, S>, String>)
        ensures
            match r {
                Ok(predict) => {
                    &&& self.ready()
                    &&& error_text(err).len() == 0
                    &&& predict.failure() == error_text(err)
                    &&& predict@ == ranking_of(err, records@)
                },
                Err(message) => if self.ready() {
                    error_text(err).len() > 0 && message@ == error_text(err)
                } else {
                    message@ == NOT_INITIALIZED@
                },
            },
    {
        if !self.is_ready() {
            return Err(NOT_INITIALIZED.to_owned());
        }
        let predict = Predict::new(err, records);
        match predict.err() {
            Ok(_) => Ok(predict),
            Err(message) => Err(message),
        }
    }
}

} // verus!
