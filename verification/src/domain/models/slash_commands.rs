//! Slash commands: lines of input that start with a command word such as `/quit`.

use crate::text::{lemma_split_on_len, split, split_on, trim, trimmed};
use vstd::prelude::*;

verus! {

/// A recognised command word and the words that followed it.
pub struct SlashCommand {
    command: String,
    pub args: Vec<String>,
}

/// What a slash command holds: its command word and its arguments, each as a sequence of
/// characters.
pub struct SlashCommandView {
    pub command: Seq<char>,
    pub args: Seq<Seq<char>>,
}

impl View for SlashCommand {
    type V = SlashCommandView;

    closed spec fn view(&self) -> SlashCommandView {
        SlashCommandView { command: self.command@, args: self.args.deep_view() }
    }
}

impl SlashCommand {
    /// The words of a line of input: the line without the white space around it, cut at
    /// every single space.
    pub open spec fn words(text: Seq<char>) -> Seq<Seq<char>> {
        split_on(trimmed(text), ' ')
    }

    /// Whether `word` is one of the command words.
    pub open spec fn is_command_word(word: Seq<char>) -> bool {
        ||| word == "/q"@
        ||| word == "/quit"@
        ||| word == "/ml"@
        ||| word == "/modellist"@
        ||| word == "/m"@
        ||| word == "/model"@
        ||| word == "/a"@
        ||| word == "/append"@
        ||| word == "/r"@
        ||| word == "/replace"@
        ||| word == "/c"@
        ||| word == "/copy"@
        ||| word == "/h"@
        ||| word == "/help"@
    }

    /// Reads a line of input as a slash command. The first word must be a command word;
    /// the words after it become the arguments.
    pub fn parse(text: &str) -> (r: Option<SlashCommand>)
        ensures
            r is Some <==> Self::is_command_word(Self::words(text@)[0]),
            r matches Some(cmd) ==> cmd@.command == Self::words(text@)[0] && cmd@.args
                == Self::words(text@).drop_first(),
    {
        let line = trim(text);
        let mut args = split(line.as_str(), ' ');
        let ghost words = args.deep_view();
        proof {
            lemma_split_on_len(line@, ' ');
        }
        let prefix = args[0].clone();
        args.remove(0);
        assert(args.deep_view() == words.drop_first());
        let cmd = SlashCommand { command: prefix, args };
        if cmd.is_quit() || cmd.is_model_list() || cmd.is_model_set() || cmd.is_append_code_block()
            || cmd.is_replace_code_block() || cmd.is_copy() || cmd.is_help() {
            return Some(cmd);
        }
        None
    }

    fn is_either(&self, short: &str, long: &str) -> (r: bool)
        ensures
            r == (self@.command == short@ || self@.command == long@),
    {
        self.command == String::from_str(short) || self.command == String::from_str(long)
    }

    /// Whether this is the command to leave the program.
    pub fn is_quit(&self) -> (r: bool)
        ensures
            r == (self@.command == "/q"@ || self@.command == "/quit"@),
    {
        self.is_either("/q", "/quit")
    }

    /// Whether this is the command to list the models.
    pub fn is_model_list(&self) -> (r: bool)
        ensures
            r == (self@.command == "/ml"@ || self@.command == "/modellist"@),
    {
        self.is_either("/ml", "/modellist")
    }

    /// Whether this is the command to choose a model.
    pub fn is_model_set(&self) -> (r: bool)
        ensures
            r == (self@.command == "/m"@ || self@.command == "/model"@),
    {
        self.is_either("/m", "/model")
    }

    /// Whether this is the command to append a code block.
    pub fn is_append_code_block(&self) -> (r: bool)
        ensures
            r == (self@.command == "/a"@ || self@.command == "/append"@),
    {
        self.is_either("/a", "/append")
    }

    /// Whether this is the command to replace a code block.
    pub fn is_replace_code_block(&self) -> (r: bool)
        ensures
            r == (self@.command == "/r"@ || self@.command == "/replace"@),
    {
        self.is_either("/r", "/replace")
    }

    /// Whether this is the command to copy.
    pub fn is_copy(&self) -> (r: bool)
        ensures
            r == (self@.command == "/c"@ || self@.command == "/copy"@),
    {
        self.is_either("/c", "/copy")
    }

    /// Whether this is the command to show the help.
    pub fn is_help(&self) -> (r: bool)
        ensures
            r == (self@.command == "/h"@ || self@.command == "/help"@),
    {
        self.is_either("/h", "/help")
    }
}

} // verus!
