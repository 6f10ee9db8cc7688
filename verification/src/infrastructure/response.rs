//! What the moderation service sends back, and the failure made of an
//! answer in which it refuses.
use crate::errors::{APILayerError, APILayerErrorView};
use vstd::prelude::*;

verus! {

/// The body of an answer in which the moderation service refuses.
#[derive(Debug)]
pub struct APIResponse {
    pub message: String,
}

/// One word that the moderation service replaced.
#[derive(Debug)]
pub struct BadWord {
    pub original: String,
    pub word: String,
    pub deviations: i64,
    pub info: i64,
    pub replaced_len: i64,
}

/// The body of an answer in which the moderation service has checked a
/// text.
#[derive(Debug)]
pub struct BadWordsResponse {
    /// The text as it was sent.
    pub content: String,
    /// How many words were replaced.
    pub bad_words_total: i64,
    pub bad_words_list: Vec<BadWord>,
    /// The text with every replaced word struck out.
    pub censored_content: String,
}

pub struct BadWordView {
    pub original: Seq<char>,
    pub word: Seq<char>,
    pub deviations: int,
    pub info: int,
    pub replaced_len: int,
}

pub struct BadWordsResponseView {
    pub content: Seq<char>,
    pub bad_words_total: int,
    pub bad_words_list: Seq<BadWordView>,
    pub censored_content: Seq<char>,
}

impl View for BadWord {
    type V = BadWordView;

    open spec fn view(&self) -> BadWordView {
        BadWordView {
            original: self.original@,
            word: self.word@,
            deviations: self.deviations as int,
            info: self.info as int,
            replaced_len: self.replaced_len as int,
        }
    }
}

impl View for BadWordsResponse {
    type V = BadWordsResponseView;

    open spec fn view(&self) -> BadWordsResponseView {
        BadWordsResponseView {
            content: self.content@,
            bad_words_total: self.bad_words_total as int,
            bad_words_list: Seq::new(
                self.bad_words_list@.len(),
                |i: int| self.bad_words_list@[i]@,
            ),
            censored_content: self.censored_content@,
        }
    }
}

/// The failure that stands for a refusal of the moderation service: its
/// status and the message of its body.
pub fn create_api_layer_error(status: u16, body: APIResponse) -> (r: APILayerError)
    ensures
        r@ == (APILayerErrorView { status: status as int, message: body.message@ }),
{
    APILayerError { status, message: body.message }
}

} // verus!
