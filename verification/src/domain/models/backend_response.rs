//! What a backend sends back while it answers a prompt.

use crate::domain::models::message::{Author, AuthorView};
use vstd::prelude::*;

verus! {

/// One piece of a backend's answer.
#[derive(Clone, Debug, PartialEq, Eq)]
pub struct BackendResponse {
    pub author: Author,
    pub text: String,
    pub done: bool,
    pub context: Option<String>,
}

/// A piece of an answer, with its texts as sequences of characters.
pub struct BackendResponseView {
    pub author: AuthorView,
    pub text: Seq<char>,
    pub done: bool,
    pub context: Option<Seq<char>>,
}

impl View for BackendResponse {
    type V = BackendResponseView;

    open spec fn view(&self) -> BackendResponseView {
        BackendResponseView {
            author: self.author@,
            text: self.text@,
            done: self.done,
            context: match self.context {
                Some(context) => Some(context@),
                None => None,
            },
        }
    }
}

} // verus!
