//! Boundary layer between host code and a native word-embedding engine.
//!
//! The engine itself is reached through a C interface that only the host
//! application can call. This crate holds everything that is decided around
//! those calls, and makes none of them.
//!
//! Each operation of the engine is therefore met twice. Before the call the
//! host asks whether the model admits it and what goes out: [`fasttext::path`],
//! [`FastText::query`], [`dictionary::Dictionary::position`]. After the call
//! it hands over what the engine answered and gets the host value back:
//! [`FastText::load_model`], [`dictionary::Dictionary::get_word`],
//! [`FastText::word_to_vector`], [`FastText::predict`].

use vstd::prelude::*;

pub mod dictionary;
pub mod fasttext;
pub mod predict;
pub mod string;
pub mod vector;

pub use crate::fasttext::{Error, ResSuccess};

verus! {

/// How far the loading of a model has come.
#[derive(Debug, Clone, Copy, PartialEq, Eq, Structural)]
pub enum Phase {
    /// The engine has handed out a handle; nothing is loaded.
    Created,
    /// The model structure is loaded, the vector table is not.
    ModelLoaded,
    /// Model and vectors are loaded; the engine may be read.
    Ready,
}

/// The life of one native model, as far as the host has to keep track of it.
///
/// Every view of the engine's memory borrows the `FastText` that it was read
/// through, and both loading steps take `&mut self`: no view can be held across
/// a reload, and none can outlive the model.
#[derive(Debug)]
pub struct FastText {
    phase: Phase,
}

impl FastText {
    /// The phase that the model is in.
    pub closed spec fn phase(&self) -> Phase {
        self.phase
    }

    /// Whether the engine may be read: model and vectors are loaded.
    pub open spec fn ready(&self) -> bool {
        self.phase() == Phase::Ready
    }
}

impl Default for FastText {
    /// The tracker of a handle on which nothing has been loaded yet.
    fn default() -> (model: FastText)
        ensures
            model.phase() == Phase::Created,
    {
        FastText { phase: Phase::Created }
    }
}

} // verus!
