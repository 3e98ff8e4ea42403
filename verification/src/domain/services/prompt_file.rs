//! The file a prompt is edited in: how it is written, and how the prompt is read back.
//!
//! The file starts with the prompt, which the user edits. A delimiter line follows, then
//! a hint for the user, then the latest messages of the transcript, newest first.
//!
//! Lines end at line feeds and nowhere else, so that every other character of the prompt,
//! a carriage return too, is read back as it was written.

use crate::domain::models::{Message, MessageView};
use crate::text::{
    has_no, join_strings, joined, lemma_first_index, lemma_joined_concat, lemma_joined_split,
    lemma_split_joined, lemma_split_on_pieces, lines, lines_of, split_on,
    without_final_line_feed,
};
use vstd::prelude::*;

verus! {

/// The line that ends the prompt: a long run of tildes.
pub const PROMPT_DELIMITER: &'static str =
    "~~~~~~~~~~~~~~~~~~~~~~~~~~~~~~~~~~~~~~~~~~~~~~~~~~~~~~~~~~~~~~~~~~~~~~~";

/// The text written below the delimiter for the user.
pub const HINT_TEXT: &'static str =
    "Write your prompt above the line and save to have it updated in Oatmeal\n\n";

/// How many messages of the transcript are written to the file, at most.
pub const MAX_MESSAGES: usize = 100;

/// The delimiter is 71 tildes.
pub proof fn lemma_delimiter()
    ensures
        PROMPT_DELIMITER@ == Seq::new(71, |i: int| '~'),
{
    reveal_strlit("~~~~~~~~~~~~~~~~~~~~~~~~~~~~~~~~~~~~~~~~~~~~~~~~~~~~~~~~~~~~~~~~~~~~~~~");
    assert(PROMPT_DELIMITER@ =~= Seq::new(71, |i: int| '~'));
}

/// The block that one message takes in the file: the author's name and a colon on one
/// line, then the text, then a line feed.
pub open spec fn message_block(message: MessageView) -> Seq<char> {
    message.author.name() + seq![':', '\n'] + message.text + seq!['\n']
}

/// The blocks of the latest messages, newest first, `MAX_MESSAGES` of them at most.
pub open spec fn message_blocks(messages: Seq<MessageView>) -> Seq<Seq<char>> {
    let count = if messages.len() <= MAX_MESSAGES {
        messages.len()
    } else {
        MAX_MESSAGES as nat
    };
    Seq::new(count, |i: int| message_block(messages[messages.len() - 1 - i]))
}

/// The parts of the file, in order: the lines of the prompt, the delimiter, the hint, the
/// message blocks. An empty prompt takes one empty line.
pub open spec fn file_parts(prompt: Seq<char>, messages: Seq<MessageView>) -> Seq<Seq<char>> {
    lines_of(prompt) + seq![PROMPT_DELIMITER@, HINT_TEXT@] + message_blocks(messages)
}

/// What the file holds when the editor is started: its parts with a line feed between
/// each two neighbours.
pub open spec fn file_content(prompt: Seq<char>, messages: Seq<MessageView>) -> Seq<char> {
    joined(file_parts(prompt, messages), seq!['\n'])
}

/// The lines that stand before the first line equal to `stop`; all of them when no line
/// is.
pub open spec fn take_until(lines: Seq<Seq<char>>, stop: Seq<char>) -> Seq<Seq<char>>
    decreases lines.len(),
{
    if lines.len() == 0 || lines[0] == stop {
        Seq::empty()
    } else {
        seq![lines[0]] + take_until(lines.drop_first(), stop)
    }
}

/// The prompt that a file holds: its lines before the first line that is the delimiter
/// and nothing else, with a line feed between each two neighbours. A file without a
/// delimiter line is prompt as a whole.
pub open spec fn prompt_region(content: Seq<char>) -> Seq<char> {
    joined(take_until(lines_of(content), PROMPT_DELIMITER@), seq!['\n'])
}

/// Writes one message as its block.
pub fn render_message(message: &Message) -> (block: String)
    ensures
        block@ == message_block(message@),
{
    let mut block = message.author.name();
    block.append(":\n");
    block.append(message.text.as_str());
    block.append("\n");
    proof {
        reveal_strlit(":\n");
        reveal_strlit("\n");
        assert(":\n"@ == seq![':', '\n']);
        assert("\n"@ == seq!['\n']);
    }
    block
}

/// Builds what is written to the file before the editor is started on it.
pub fn temp_file_content(prompt: &str, messages: &[Message]) -> (content: String)
    ensures
        content@ == file_content(prompt@, messages.deep_view()),
{
    let mut parts = lines(prompt);
    proof {
        reveal_strlit("\n");
        assert("\n"@ == seq!['\n']);
    }
    parts.push(String::from_str(PROMPT_DELIMITER));
    parts.push(String::from_str(HINT_TEXT));
    let ghost head = lines_of(prompt@) + seq![PROMPT_DELIMITER@, HINT_TEXT@];
    let ghost blocks = message_blocks(messages.deep_view());
    assert(parts.deep_view() == head);
    assert(head + blocks.take(0) == head);
    let mut taken: usize = 0;
    while taken < messages.len() && taken < MAX_MESSAGES
        invariant
            taken <= messages.len(),
            taken <= MAX_MESSAGES,
            blocks == message_blocks(messages.deep_view()),
            parts.deep_view() == head + blocks.take(taken as int),
        decreases messages.len() - taken,
    {
        let message = &messages[messages.len() - 1 - taken];
        let block = render_message(message);
        let ghost before = parts.deep_view();
        parts.push(block);
        proof {
            assert(parts.deep_view() == before.push(block@));
            assert(messages.deep_view()[messages.len() - 1 - taken] == message@);
            assert(blocks.take(taken + 1) == blocks.take(taken as int).push(block@));
            assert(head + blocks.take(taken as int).push(block@) == (head + blocks.take(
                taken as int,
            )).push(block@));
        }
        taken += 1;
    }
    assert(blocks.take(taken as int) == blocks);
    join_strings(&parts, "\n")
}

/// Reads the prompt back from what the file holds.
pub fn parse_prompt_file(content: &str) -> (prompt: String)
    ensures
        prompt@ == prompt_region(content@),
{
    let all = lines(content);
    let delimiter = String::from_str(PROMPT_DELIMITER);
    let mut kept: Vec<String> = Vec::new();
    let mut i: usize = 0;
    proof {
        assert(all.deep_view().skip(0) == all.deep_view());
        assert(kept.deep_view() + take_until(all.deep_view(), PROMPT_DELIMITER@) == take_until(
            all.deep_view(),
            PROMPT_DELIMITER@,
        ));
    }
    while i < all.len() && !(all[i] == delimiter)
        invariant
            i <= all.len(),
            delimiter@ == PROMPT_DELIMITER@,
            take_until(all.deep_view(), PROMPT_DELIMITER@) == kept.deep_view() + take_until(
                all.deep_view().skip(i as int),
                PROMPT_DELIMITER@,
            ),
        decreases all.len() - i,
    {
        let line = all[i].clone();
        let ghost before = kept.deep_view();
        let ghost rest = all.deep_view().skip(i as int);
        kept.push(line);
        proof {
            assert(rest[0] == all[i as int]@);
            assert(rest.drop_first() == all.deep_view().skip(i + 1));
            assert(kept.deep_view() == before.push(line@));
            assert(before + (seq![line@] + take_until(rest.drop_first(), PROMPT_DELIMITER@))
                == before.push(line@) + take_until(rest.drop_first(), PROMPT_DELIMITER@));
        }
        i += 1;
    }
    proof {
        let rest = all.deep_view().skip(i as int);
        if i < all.len() {
            assert(rest[0] == all[i as int]@);
        }
        assert(take_until(rest, PROMPT_DELIMITER@) == Seq::<Seq<char>>::empty());
        assert(kept.deep_view() + Seq::<Seq<char>>::empty() == kept.deep_view());
        reveal_strlit("\n");
        assert("\n"@ == seq!['\n']);
    }
    join_strings(&kept, "\n")
}

/// Where no line equals `stop`, all lines are taken.
pub proof fn lemma_take_until_all(lines: Seq<Seq<char>>, stop: Seq<char>)
    requires
        !lines.contains(stop),
    ensures
        take_until(lines, stop) == lines,
    decreases lines.len(),
{
    if lines.len() > 0 {
        assert(lines[0] != stop);
        let rest = lines.drop_first();
        assert(!rest.contains(stop)) by {
            if rest.contains(stop) {
                let i = choose|i: int| 0 <= i < rest.len() && rest[i] == stop;
                assert(lines[i + 1] == stop);
            }
        }
        lemma_take_until_all(rest, stop);
        assert(seq![lines[0]] + rest == lines);
    } else {
        assert(lines == Seq::<Seq<char>>::empty());
    }
}

/// Where no line of `head` equals `stop`, the lines taken from `head`, `stop` and more
/// lines are those of `head`.
pub proof fn lemma_take_until_stop(head: Seq<Seq<char>>, stop: Seq<char>, rest: Seq<Seq<char>>)
    requires
        !head.contains(stop),
    ensures
        take_until(head + seq![stop] + rest, stop) == head,
    decreases head.len(),
{
    let all = head + seq![stop] + rest;
    if head.len() == 0 {
        assert(all[0] == stop);
        assert(head == Seq::<Seq<char>>::empty());
    } else {
        assert(all[0] == head[0]);
        assert(head[0] != stop);
        let others = head.drop_first();
        assert(!others.contains(stop)) by {
            if others.contains(stop) {
                let i = choose|i: int| 0 <= i < others.len() && others[i] == stop;
                assert(head[i + 1] == stop);
            }
        }
        assert(all.drop_first() == others + seq![stop] + rest);
        lemma_take_until_stop(others, stop, rest);
        assert(seq![head[0]] + others == head);
    }
}

/// Writing the file and reading it back gives the prompt exactly, but for one line feed at
/// its end, provided that no line of the prompt is the delimiter. The transcript does not
/// matter.
pub proof fn lemma_build_then_parse(prompt: Seq<char>, messages: Seq<MessageView>)
    requires
        !lines_of(prompt).contains(PROMPT_DELIMITER@),
    ensures
        prompt_region(file_content(prompt, messages)) == without_final_line_feed(prompt),
{
    let lf = seq!['\n'];
    let lines = lines_of(prompt);
    let head = lines + seq![PROMPT_DELIMITER@];
    let tail = seq![HINT_TEXT@] + message_blocks(messages);
    let above = joined(head, lf);
    let below = joined(tail, lf);
    let content = file_content(prompt, messages);
    assert(file_parts(prompt, messages) == head + tail);
    lemma_joined_concat(head, tail, lf);
    assert(content == above + lf + below);
    assert(below.len() > 0) by {
        reveal_strlit(
            "Write your prompt above the line and save to have it updated in Oatmeal\n\n",
        );
        assert(tail[0].len() > 0);
    }
    let rest = without_final_line_feed(below);
    assert(without_final_line_feed(content) == above + lf + rest) by {
        assert(content.last() == below.last());
        if below.last() == '\n' {
            assert(content.drop_last() == above + lf + below.drop_last());
        }
    }
    lemma_split_on_pieces(without_final_line_feed(prompt), '\n');
    lemma_delimiter();
    assert(has_no(PROMPT_DELIMITER@, '\n'));
    assert forall|i: int| 0 <= i < head.len() implies has_no(#[trigger] head[i], '\n') by {
        if i < lines.len() {
            assert(head[i] == lines[i]);
        }
    }
    lemma_split_joined(head, rest, '\n');
    assert(lines_of(content) == lines + seq![PROMPT_DELIMITER@] + split_on(rest, '\n'));
    lemma_take_until_stop(lines, PROMPT_DELIMITER@, split_on(rest, '\n'));
    lemma_joined_split(without_final_line_feed(prompt), '\n');
}

/// A file without a delimiter line is read as prompt from its first character to its
/// last, but for one line feed at its end.
pub proof fn lemma_parse_without_delimiter(content: Seq<char>)
    requires
        !lines_of(content).contains(PROMPT_DELIMITER@),
    ensures
        prompt_region(content) == without_final_line_feed(content),
{
    lemma_take_until_all(lines_of(content), PROMPT_DELIMITER@);
    lemma_joined_split(without_final_line_feed(content), '\n');
}

/// The file that is written for an empty prompt holds an empty prompt, whatever the
/// transcript.
pub proof fn lemma_fresh_file_is_empty(messages: Seq<MessageView>)
    ensures
        prompt_region(file_content(Seq::empty(), messages)).len() == 0,
{
    let prompt = Seq::<char>::empty();
    lemma_first_index(prompt, '\n');
    assert(lines_of(prompt) == seq![prompt]);
    lemma_delimiter();
    assert(!lines_of(prompt).contains(PROMPT_DELIMITER@)) by {
        if lines_of(prompt).contains(PROMPT_DELIMITER@) {
            let i = choose|i: int|
                0 <= i < lines_of(prompt).len() && lines_of(prompt)[i] == PROMPT_DELIMITER@;
            assert(lines_of(prompt)[i].len() == 0);
        }
    }
    lemma_build_then_parse(prompt, messages);
}

} // verus!
