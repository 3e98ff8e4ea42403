//! Chat messages and their authors.

use vstd::prelude::*;

verus! {

/// Who wrote a message. The user and the model carry the name they are shown under.
#[derive(Clone, Debug, PartialEq, Eq)]
pub enum Author {
    User(String),
    Oatmeal,
    Model(String),
}

/// An author, with names as sequences of characters.
pub enum AuthorView {
    User(Seq<char>),
    Oatmeal,
    Model(Seq<char>),
}

impl AuthorView {
    /// The name the author is shown under.
    pub open spec fn name(self) -> Seq<char> {
        match self {
            AuthorView::User(name) => name,
            AuthorView::Oatmeal => "Oatmeal"@,
            AuthorView::Model(name) => name,
        }
    }
}

impl View for Author {
    type V = AuthorView;

    open spec fn view(&self) -> AuthorView {
        match self {
            Author::User(name) => AuthorView::User(name@),
            Author::Oatmeal => AuthorView::Oatmeal,
            Author::Model(name) => AuthorView::Model(name@),
        }
    }
}

impl Author {
    /// The name the author is shown under.
    pub fn name(&self) -> (name: String)
        ensures
            name@ == self@.name(),
    {
        match self {
            Author::User(name) => name.clone(),
            Author::Oatmeal => String::from_str("Oatmeal"),
            Author::Model(name) => name.clone(),
        }
    }
}

/// Whether a message is part of the conversation or reports a failure.
#[derive(Clone, Copy, Debug, PartialEq, Eq)]
pub enum MessageType {
    Normal,
    Error,
}

/// One message of the transcript.
#[derive(Clone, Debug, PartialEq, Eq)]
pub struct Message {
    pub author: Author,
    pub text: String,
    pub mtype: MessageType,
}

/// A message, with its text as a sequence of characters.
pub struct MessageView {
    pub author: AuthorView,
    pub text: Seq<char>,
    pub mtype: MessageType,
}

impl View for Message {
    type V = MessageView;

    open spec fn view(&self) -> MessageView {
        MessageView { author: self.author@, text: self.text@, mtype: self.mtype }
    }
}

impl DeepView for Message {
    type V = MessageView;

    open spec fn deep_view(&self) -> MessageView {
        self@
    }
}

impl Message {
    /// A message of the conversation.
    pub fn new(author: Author, text: &str) -> (message: Message)
        ensures
            message@ == (MessageView { author: author@, text: text@, mtype: MessageType::Normal }),
    {
        Message { author, text: text.to_owned(), mtype: MessageType::Normal }
    }

    /// A message of the given type.
    pub fn new_with_type(author: Author, mtype: MessageType, text: &str) -> (message: Message)
        ensures
            message@ == (MessageView { author: author@, text: text@, mtype }),
    {
        Message { author, text: text.to_owned(), mtype }
    }

    /// The type of the message.
    pub fn message_type(&self) -> (mtype: MessageType)
        ensures
            mtype == self@.mtype,
    {
        self.mtype
    }
}

} // verus!
