//! Conversations as text for the clipboard.

use vstd::prelude::*;
use crate::model::{option_view, views};
use crate::text::{cat2, cat7, chars_of, joined};

verus! {

broadcast use vstd::string::group_string_axioms;

#[derive(Debug, Clone, Copy, PartialEq, Eq, Structural)]
pub enum Role {
    User,
    Assistant,
    Tool,
}

/// A message of the conversation, as far as it is copied.
#[derive(Debug, PartialEq, Eq)]
pub struct Message {
    pub role: Role,
    pub content: String,
    /// What the model thought before it answered.
    pub reasoning: Vec<String>,
    /// A user message that the interface wrote and does not show.
    pub hidden: bool,
}

pub struct MessageModel {
    pub role: Role,
    pub content: Seq<char>,
    pub reasoning: Seq<Seq<char>>,
    pub hidden: bool,
}

impl View for Message {
    type V = MessageModel;

    open spec fn view(&self) -> MessageModel {
        MessageModel {
            role: self.role,
            content: self.content@,
            reasoning: views(self.reasoning@),
            hidden: self.hidden,
        }
    }
}

/// The last reply among messages that says something.
pub open spec fn last_reply(messages: Seq<MessageModel>) -> Option<Seq<char>>
    decreases messages.len(),
{
    if messages.len() == 0 {
        None
    } else {
        let last = messages.last();
        if last.role == Role::Assistant && last.content.len() > 0 {
            Some(last.content)
        } else {
            last_reply(messages.drop_last())
        }
    }
}

/// The reply to copy: the one that streams, or else the last.
pub open spec fn reply(messages: Seq<MessageModel>, streaming: Option<Seq<char>>) -> Option<
    Seq<char>,
> {
    match streaming {
        Some(text) if text.len() > 0 => Some(text),
        _ => last_reply(messages),
    }
}

fn is_blank(text: &str) -> (r: bool)
    ensures
        r == (text@.len() == 0),
{
    let n: usize = chars_of(text).len();
    n == 0
}

pub fn last_assistant_reply(messages: &[Message], streaming: Option<&str>) -> (r: Option<String>)
    ensures
        option_view(r) == reply(
            views(messages@),
            match streaming {
                Some(text) => Some(text@),
                None => None,
            },
        ),
{
    match streaming {
        Some(text) => {
            if !is_blank(text) {
                return Some(text.to_owned());
            }
        },
        None => {},
    }
    let ghost all = views(messages@);
    let mut i: usize = messages.len();
    assert(all.take(i as int) =~= all);
    while i > 0
        invariant
            i <= messages@.len(),
            all == views(messages@),
            streaming matches Some(text) ==> text@.len() == 0,
            last_reply(all) == last_reply(all.take(i as int)),
        decreases i,
    {
        i -= 1;
        assert(all.take(i + 1).drop_last() =~= all.take(i as int));
        assert(all.take(i + 1).last() == messages@[i as int]@);
        if messages[i].role == Role::Assistant && !is_blank(messages[i].content.as_str()) {
            return Some(messages[i].content.clone());
        }
    }
    None
}

// ---------------------------------------------------------------------------
// Turns

/// A part of a conversation that is copied.
#[derive(Debug)]
pub enum CopyPart {
    User(String),
    Assistant(String),
}

pub enum PartModel {
    User(Seq<char>),
    Assistant(Seq<char>),
}

impl View for CopyPart {
    type V = PartModel;

    open spec fn view(&self) -> PartModel {
        match self {
            CopyPart::User(text) => PartModel::User(text@),
            CopyPart::Assistant(text) => PartModel::Assistant(text@),
        }
    }
}

/// The turns so far: the blocks of those that ended, and what the open one
/// holds.
pub struct Turns {
    pub blocks: Seq<Seq<char>>,
    pub user: Option<Seq<char>>,
    pub replies: Seq<Seq<char>>,
    /// A reply of the open turn said nothing.
    pub silent: bool,
}

pub open spec fn no_turns() -> Turns {
    Turns { blocks: Seq::empty(), user: None, replies: Seq::empty(), silent: false }
}

pub open spec fn user_block(text: Seq<char>) -> Seq<char> {
    "User:\n"@ + text
}

pub open spec fn reply_block(text: Seq<char>) -> Seq<char> {
    "Assistant:\n"@ + text
}

impl Turns {
    /// The blocks of the open turn. A turn whose replies all said nothing is
    /// left out.
    pub open spec fn open_blocks(self) -> Seq<Seq<char>> {
        if self.replies.len() == 0 && self.silent {
            Seq::empty()
        } else {
            (match self.user {
                Some(text) => seq![user_block(text)],
                None => Seq::empty(),
            }) + self.replies.map_values(|text: Seq<char>| reply_block(text))
        }
    }

    pub open spec fn ended(self) -> Turns {
        Turns { blocks: self.blocks + self.open_blocks(), ..no_turns() }
    }

    pub open spec fn with(self, part: PartModel) -> Turns {
        match part {
            PartModel::User(text) => Turns { user: Some(text), ..self.ended() },
            PartModel::Assistant(text) => if text.len() == 0 {
                Turns { silent: true, ..self }
            } else {
                Turns { replies: self.replies.push(text), ..self }
            },
        }
    }
}

pub open spec fn turns(parts: Seq<PartModel>) -> Turns
    decreases parts.len(),
{
    if parts.len() == 0 {
        no_turns()
    } else {
        turns(parts.drop_last()).with(parts.last())
    }
}

/// The text of a conversation: its blocks with a blank line between them.
pub open spec fn conversation(parts: Seq<PartModel>) -> Seq<char> {
    joined(turns(parts).ended().blocks, "\n\n"@)
}

fn flush_copy_turn(
    blocks: &mut Vec<String>,
    user: &Option<String>,
    replies: &Vec<String>,
    silent: bool,
)
    ensures
        views(final(blocks)@) == views(old(blocks)@) + (Turns {
            blocks: Seq::empty(),
            user: option_view(*user),
            replies: views(replies@),
            silent,
        }).open_blocks(),
{
    let ghost turn = Turns {
        blocks: Seq::empty(),
        user: option_view(*user),
        replies: views(replies@),
        silent,
    };
    let ghost before = views(blocks@);
    let n: usize = replies.len();
    assert(views(replies@).len() == n);
    if n == 0 && silent {
        assert(views(blocks@) =~= before + turn.open_blocks());
        return;
    }
    let ghost head: Seq<Seq<char>> = match turn.user {
        Some(text) => seq![user_block(text)],
        None => Seq::empty(),
    };
    match user {
        Some(text) => {
            blocks.push(cat2("User:\n", text.as_str()));
        },
        None => {},
    }
    assert(views(blocks@) =~= before + head);
    let ghost all = turn.replies.map_values(|text: Seq<char>| reply_block(text));
    let mut i: usize = 0;
    assert(views(blocks@) =~= before + head + all.take(0));
    while i < n
        invariant
            i <= n,
            n == replies@.len(),
            turn.replies == views(replies@),
            all == turn.replies.map_values(|text: Seq<char>| reply_block(text)),
            views(blocks@) == before + head + all.take(i as int),
        decreases n - i,
    {
        let ghost shown = views(blocks@);
        let block = cat2("Assistant:\n", replies[i].as_str());
        assert(all[i as int] == block@);
        blocks.push(block);
        assert(views(blocks@) =~= shown.push(all[i as int]));
        i += 1;
        assert(views(blocks@) =~= before + head + all.take(i as int));
    }
    assert(all.take(n as int) =~= all);
    assert(views(blocks@) =~= before + turn.open_blocks());
}

fn join_blocks(blocks: &Vec<String>) -> (r: String)
    ensures
        r@ == joined(views(blocks@), "\n\n"@),
{
    let ghost all = views(blocks@);
    let mut r: String = String::new();
    let mut i: usize = 0;
    assert(all.take(0) =~= Seq::empty());
    while i < blocks.len()
        invariant
            i <= blocks@.len(),
            all == views(blocks@),
            r@ == joined(all.take(i as int), "\n\n"@),
        decreases blocks@.len() - i,
    {
        assert(all.take(i + 1).drop_last() =~= all.take(i as int));
        assert(all.take(i + 1).last() == blocks@[i as int]@);
        if i > 0 {
            r.append("\n\n");
        }
        r.append(blocks[i].as_str());
        if i == 0 {
            assert(r@ =~= joined(all.take(1), "\n\n"@));
        }
        i += 1;
    }
    assert(all.take(i as int) =~= all);
    r
}

/// The text of a conversation; see `conversation`.
pub fn format_copy_parts(parts: &Vec<CopyPart>) -> (r: String)
    ensures
        r@ == conversation(views(parts@)),
{
    let ghost all = views(parts@);
    let mut blocks: Vec<String> = Vec::new();
    let mut user: Option<String> = None;
    let mut replies: Vec<String> = Vec::new();
    let mut silent = false;
    let mut i: usize = 0;
    assert(all.take(0) =~= Seq::empty());
    assert(views(blocks@) =~= Seq::empty());
    assert(views(replies@) =~= Seq::empty());
    while i < parts.len()
        invariant
            i <= parts@.len(),
            all == views(parts@),
            turns(all.take(i as int)) == (Turns {
                blocks: views(blocks@),
                user: option_view(user),
                replies: views(replies@),
                silent,
            }),
        decreases parts@.len() - i,
    {
        assert(all.take(i + 1).drop_last() =~= all.take(i as int));
        assert(all.take(i + 1).last() == parts@[i as int]@);
        match &parts[i] {
            CopyPart::User(text) => {
                flush_copy_turn(&mut blocks, &user, &replies, silent);
                user = Some(text.clone());
                replies = Vec::new();
                silent = false;
                assert(views(replies@) =~= Seq::empty());
            },
            CopyPart::Assistant(text) => {
                if is_blank(text.as_str()) {
                    silent = true;
                } else {
                    let ghost before = views(replies@);
                    let copy = text.clone();
                    replies.push(copy);
                    assert(views(replies@) =~= before.push(text@));
                }
            },
        }
        i += 1;
    }
    assert(all.take(i as int) =~= all);
    flush_copy_turn(&mut blocks, &user, &replies, silent);
    join_blocks(&blocks)
}

/// The parts of a conversation that are copied: what the user and the model
/// said, and not tools or hidden messages.
pub open spec fn message_parts(messages: Seq<MessageModel>) -> Seq<PartModel>
    decreases messages.len(),
{
    if messages.len() == 0 {
        Seq::empty()
    } else {
        let before = message_parts(messages.drop_last());
        let last = messages.last();
        match last.role {
            Role::User => if last.hidden {
                before
            } else {
                before.push(PartModel::User(last.content))
            },
            Role::Assistant => before.push(PartModel::Assistant(last.content)),
            Role::Tool => before,
        }
    }
}

/// The text of a conversation and of the reply that streams.
pub open spec fn copied_messages(messages: Seq<MessageModel>, streaming: Option<Seq<char>>) -> Seq<
    char,
> {
    conversation(
        match streaming {
            Some(text) => message_parts(messages).push(PartModel::Assistant(text)),
            None => message_parts(messages),
        },
    )
}

fn push_part(parts: &mut Vec<CopyPart>, part: CopyPart)
    ensures
        views(final(parts)@) == views(old(parts)@).push(part@),
{
    parts.push(part);
    assert(views(parts@) =~= views(old(parts)@).push(part@));
}

pub fn format_copy_all(messages: &[Message], streaming: Option<&str>) -> (r: String)
    ensures
        r@ == copied_messages(
            views(messages@),
            match streaming {
                Some(text) => Some(text@),
                None => None,
            },
        ),
{
    let ghost all = views(messages@);
    let mut parts: Vec<CopyPart> = Vec::new();
    let mut i: usize = 0;
    assert(all.take(0) =~= Seq::empty());
    assert(views(parts@) =~= Seq::empty());
    while i < messages.len()
        invariant
            i <= messages@.len(),
            all == views(messages@),
            views(parts@) == message_parts(all.take(i as int)),
        decreases messages@.len() - i,
    {
        assert(all.take(i + 1).drop_last() =~= all.take(i as int));
        assert(all.take(i + 1).last() == messages@[i as int]@);
        match messages[i].role {
            Role::User => {
                if !messages[i].hidden {
                    push_part(&mut parts, CopyPart::User(messages[i].content.clone()));
                }
            },
            Role::Assistant => {
                push_part(&mut parts, CopyPart::Assistant(messages[i].content.clone()));
            },
            Role::Tool => {},
        }
        i += 1;
    }
    assert(all.take(i as int) =~= all);
    match streaming {
        Some(text) => {
            push_part(&mut parts, CopyPart::Assistant(text.to_owned()));
        },
        None => {},
    }
    format_copy_parts(&parts)
}

/// An entry of the transcript, as far as it is copied.
#[derive(Debug)]
pub enum TranscriptEntry {
    User(String),
    Steer(String),
    Assistant(String),
    SubagentResult { id: String, name: String, status: String, content: String },
    Other,
}

/// The part that an entry gives.
pub open spec fn entry_part(entry: TranscriptEntry) -> Option<PartModel> {
    match entry {
        TranscriptEntry::User(text) => Some(PartModel::User(text@)),
        TranscriptEntry::Steer(text) => Some(PartModel::User(text@)),
        TranscriptEntry::Assistant(text) => Some(PartModel::Assistant(text@)),
        TranscriptEntry::SubagentResult { id, name, status, content } => Some(
            PartModel::User(
                "["@ + id@ + " "@ + status@ + "] "@ + name@ + ("\n"@ + content@),
            ),
        ),
        TranscriptEntry::Other => None,
    }
}

pub open spec fn entry_parts(entries: Seq<TranscriptEntry>) -> Seq<PartModel>
    decreases entries.len(),
{
    if entries.len() == 0 {
        Seq::empty()
    } else {
        let before = entry_parts(entries.drop_last());
        match entry_part(entries.last()) {
            Some(part) => before.push(part),
            None => before,
        }
    }
}

pub fn format_copy_all_from_transcript(entries: &Vec<TranscriptEntry>) -> (r: String)
    ensures
        r@ == conversation(entry_parts(entries@)),
{
    let mut parts: Vec<CopyPart> = Vec::new();
    let mut i: usize = 0;
    assert(entries@.take(0) =~= Seq::empty());
    assert(views(parts@) =~= Seq::empty());
    while i < entries.len()
        invariant
            i <= entries@.len(),
            views(parts@) == entry_parts(entries@.take(i as int)),
        decreases entries@.len() - i,
    {
        assert(entries@.take(i + 1).drop_last() =~= entries@.take(i as int));
        match &entries[i] {
            TranscriptEntry::User(text) => {
                push_part(&mut parts, CopyPart::User(text.clone()));
            },
            TranscriptEntry::Steer(text) => {
                push_part(&mut parts, CopyPart::User(text.clone()));
            },
            TranscriptEntry::Assistant(text) => {
                push_part(&mut parts, CopyPart::Assistant(text.clone()));
            },
            TranscriptEntry::SubagentResult { id, name, status, content } => {
                let body = cat2("\n", content.as_str());
                let text = cat7(
                    "[",
                    id.as_str(),
                    " ",
                    status.as_str(),
                    "] ",
                    name.as_str(),
                    body.as_str(),
                );
                push_part(&mut parts, CopyPart::User(text));
            },
            TranscriptEntry::Other => {},
        }
        i += 1;
    }
    assert(entries@.take(i as int) =~= entries@);
    format_copy_parts(&parts)
}

// ---------------------------------------------------------------------------
// Laws

/// A turn whose only reply said nothing is left out, and so is what the user
/// asked in it.
pub proof fn failed_turn_is_dropped(before: Seq<PartModel>, asked: Seq<char>)
    ensures
        turns(
            before.push(PartModel::User(asked)).push(PartModel::Assistant(Seq::empty())),
        ).ended().blocks == turns(before).ended().blocks,
{
    let one = before.push(PartModel::User(asked));
    let two = one.push(PartModel::Assistant(Seq::empty()));
    assert(one.drop_last() =~= before);
    assert(two.drop_last() =~= one);
    assert(turns(one) == turns(before).with(PartModel::User(asked)));
    assert(turns(two) == turns(one).with(PartModel::Assistant(Seq::empty())));
    assert(turns(two).replies.len() == 0 && turns(two).silent);
    assert(turns(two).ended().blocks =~= turns(before).ended().blocks);
}

/// Tool results and hidden messages leave no trace in the copied text.
pub proof fn tools_are_not_copied(before: Seq<MessageModel>, message: MessageModel)
    requires
        message.role == Role::Tool || (message.role == Role::User && message.hidden),
    ensures
        message_parts(before.push(message)) == message_parts(before),
{
    assert(before.push(message).drop_last() =~= before);
}

/// What the model thought is not copied: whatever it was, the text is the same.
pub proof fn reasoning_is_not_copied(
    messages: Seq<MessageModel>,
    i: int,
    reasoning: Seq<Seq<char>>,
    streaming: Option<Seq<char>>,
)
    requires
        0 <= i < messages.len(),
    ensures
        ({
            let other = messages.update(i, MessageModel { reasoning, ..messages[i] });
            &&& copied_messages(other, streaming) == copied_messages(messages, streaming)
            &&& reply(other, streaming) == reply(messages, streaming)
        }),
{
    same_parts(messages, i, reasoning);
}

proof fn same_parts(messages: Seq<MessageModel>, i: int, reasoning: Seq<Seq<char>>)
    requires
        0 <= i < messages.len(),
    ensures
        ({
            let other = messages.update(i, MessageModel { reasoning, ..messages[i] });
            &&& message_parts(other) == message_parts(messages)
            &&& last_reply(other) == last_reply(messages)
        }),
    decreases messages.len(),
{
    let other = messages.update(i, MessageModel { reasoning, ..messages[i] });
    let before = messages.drop_last();
    if i < messages.len() - 1 {
        same_parts(before, i, reasoning);
        assert(other.drop_last() =~= before.update(i, MessageModel { reasoning, ..before[i] }));
    } else {
        assert(other.drop_last() =~= before);
    }
}

/// What is copied of a part.
pub open spec fn block_of(part: PartModel) -> Seq<char> {
    match part {
        PartModel::User(text) => "User:\n"@ + text,
        PartModel::Assistant(text) => "Assistant:\n"@ + text,
    }
}

/// Whether no reply is empty.
pub open spec fn all_say_something(parts: Seq<PartModel>) -> bool {
    forall|i: int|
        0 <= i < parts.len() ==> ((#[trigger] parts[i]) matches PartModel::Assistant(text)
            ==> text.len() > 0)
}

proof fn blocks_follow_the_parts(parts: Seq<PartModel>)
    requires
        all_say_something(parts),
    ensures
        turns(parts).ended().blocks == parts.map_values(|part: PartModel| block_of(part)),
        !turns(parts).silent,
    decreases parts.len(),
{
    let whole = parts.map_values(|part: PartModel| block_of(part));
    if parts.len() == 0 {
        assert(turns(parts).ended().blocks =~= whole);
    } else {
        let before = parts.drop_last();
        assert forall|i: int| 0 <= i < before.len() implies ((#[trigger] before[i]) matches
            PartModel::Assistant(text) ==> text.len() > 0) by {
            assert(before[i] == parts[i]);
        }
        blocks_follow_the_parts(before);
        assert(parts[parts.len() - 1] == parts.last());
        let was = turns(before);
        let now = turns(parts);
        let block = block_of(parts.last());
        assert(whole =~= before.map_values(|part: PartModel| block_of(part)).push(block));
        match parts.last() {
            PartModel::User(text) => {
                assert(now.open_blocks() =~= seq![block]);
                assert(now.ended().blocks =~= was.ended().blocks.push(block));
            },
            PartModel::Assistant(text) => {
                assert(now.open_blocks() =~= was.open_blocks().push(block));
                assert(now.ended().blocks =~= was.ended().blocks.push(block));
            },
        }
    }
}

/// Everything that was said is copied once and in its order, under the name of
/// who said it, with a blank line between each two.
pub proof fn everything_said_is_copied(parts: Seq<PartModel>)
    requires
        all_say_something(parts),
    ensures
        conversation(parts) == joined(
            parts.map_values(|part: PartModel| block_of(part)),
            "\n\n"@,
        ),
{
    blocks_follow_the_parts(parts);
}

/// Every reply that says something is copied behind what was copied before it,
/// unless the turn so far had only silent ones.
pub proof fn every_reply_is_copied(before: Seq<PartModel>, text: Seq<char>)
    requires
        text.len() > 0,
        !turns(before).silent,
    ensures
        turns(before.push(PartModel::Assistant(text))).ended().blocks == turns(
            before,
        ).ended().blocks.push("Assistant:\n"@ + text),
{
    let now = before.push(PartModel::Assistant(text));
    assert(now.drop_last() =~= before);
    assert(turns(now).open_blocks() =~= turns(before).open_blocks().push("Assistant:\n"@ + text));
    assert(turns(now).ended().blocks =~= turns(before).ended().blocks.push(
        "Assistant:\n"@ + text,
    ));
}

/// What the user says is copied behind everything before it.
pub proof fn every_question_is_copied(before: Seq<PartModel>, text: Seq<char>)
    ensures
        turns(before.push(PartModel::User(text))).ended().blocks == turns(
            before,
        ).ended().blocks.push("User:\n"@ + text),
{
    let now = before.push(PartModel::User(text));
    assert(now.drop_last() =~= before);
    assert(turns(now).ended().blocks =~= turns(before).ended().blocks.push("User:\n"@ + text));
}

/// Turns that differ at most in a silent reply beside one that said something.
spec fn alike(a: Turns, b: Turns) -> bool {
    &&& a.blocks == b.blocks && a.user == b.user && a.replies == b.replies
    &&& a.silent == b.silent || a.replies.len() > 0
}

proof fn alike_turns_stay_alike(a: Turns, b: Turns, part: PartModel)
    requires
        alike(a, b),
    ensures
        alike(a.with(part), b.with(part)),
        a.ended() == b.ended(),
{
    assert(a.open_blocks() =~= b.open_blocks());
}

proof fn silent_reply_is_forgotten(a: Seq<PartModel>, b: Seq<PartModel>, after: Seq<PartModel>)
    requires
        alike(turns(a), turns(b)),
    ensures
        alike(turns(a + after), turns(b + after)),
    decreases after.len(),
{
    if after.len() == 0 {
        assert(a + after =~= a);
        assert(b + after =~= b);
    } else {
        silent_reply_is_forgotten(a, b, after.drop_last());
        assert((a + after).drop_last() =~= a + after.drop_last());
        assert((b + after).drop_last() =~= b + after.drop_last());
        alike_turns_stay_alike(
            turns(a + after.drop_last()),
            turns(b + after.drop_last()),
            after.last(),
        );
    }
}

/// A silent reply beside one that said something leaves no trace, whatever
/// follows.
pub proof fn silent_replies_leave_no_trace(
    before: Seq<PartModel>,
    text: Seq<char>,
    after: Seq<PartModel>,
)
    requires
        text.len() > 0,
    ensures
        conversation(
            before.push(PartModel::Assistant(text)).push(PartModel::Assistant(Seq::empty())) + after,
        ) == conversation(before.push(PartModel::Assistant(text)) + after),
{
    let one = before.push(PartModel::Assistant(text));
    let two = one.push(PartModel::Assistant(Seq::empty()));
    assert(one.drop_last() =~= before);
    assert(two.drop_last() =~= one);
    silent_reply_is_forgotten(two, one, after);
    alike_turns_stay_alike(turns(two + after), turns(one + after), PartModel::User(Seq::empty()));
}

/// Each message that is shown is a part of the text in its place: that of the
/// user as theirs, that of the model as its own; the reply that streams comes
/// last.
pub proof fn messages_are_copied_in_order(
    before: Seq<MessageModel>,
    message: MessageModel,
    text: Seq<char>,
)
    ensures
        message.role == Role::User && !message.hidden ==> message_parts(before.push(message))
            == message_parts(before).push(PartModel::User(message.content)),
        message.role == Role::Assistant ==> message_parts(before.push(message)) == message_parts(
            before,
        ).push(PartModel::Assistant(message.content)),
        copied_messages(before, None) == conversation(message_parts(before)),
        copied_messages(before, Some(text)) == conversation(
            message_parts(before).push(PartModel::Assistant(text)),
        ),
{
    assert(before.push(message).drop_last() =~= before);
}

/// Each entry of the transcript that holds something said is copied in its
/// place: steering like what else the user said, and a result of a subagent
/// with its number, its status and its name above it.
pub proof fn entries_are_copied_in_order(before: Seq<TranscriptEntry>, entry: TranscriptEntry)
    ensures
        ({
            let was = entry_parts(before);
            let now = entry_parts(before.push(entry));
            match entry {
                TranscriptEntry::User(text) => now == was.push(PartModel::User(text@)),
                TranscriptEntry::Steer(text) => now == was.push(PartModel::User(text@)),
                TranscriptEntry::Assistant(text) => now == was.push(PartModel::Assistant(text@)),
                TranscriptEntry::SubagentResult { id, name, status, content } => {
                    &&& now.len() == was.len() + 1 && now.drop_last() == was
                    &&& now.last() == PartModel::User(
                        "["@ + id@ + " "@ + status@ + "] "@ + name@ + "\n"@ + content@,
                    )
                },
                TranscriptEntry::Other => now == was,
            }
        }),
{
    assert(before.push(entry).drop_last() =~= before);
    let was = entry_parts(before);
    let now = entry_parts(before.push(entry));
    if let TranscriptEntry::SubagentResult { id, name, status, content } = entry {
        assert(now.drop_last() =~= was);
        assert("["@ + id@ + " "@ + status@ + "] "@ + name@ + ("\n"@ + content@) =~= "["@ + id@
            + " "@ + status@ + "] "@ + name@ + "\n"@ + content@);
    }
}

/// The reply that is copied is the one that streams, where it says something,
/// and else the latest message of the model that does; there is none only where
/// the model has said nothing.
pub proof fn latest_reply_is_copied(messages: Seq<MessageModel>, streaming: Option<Seq<char>>)
    ensures
        streaming matches Some(text) && text.len() > 0 ==> reply(messages, streaming) == streaming,
        !(streaming matches Some(text) && text.len() > 0) ==> match reply(messages, streaming) {
            Some(text) => text.len() > 0 && exists|i: int|
                0 <= i < messages.len() && (#[trigger] messages[i]).role == Role::Assistant
                    && messages[i].content == text && forall|j: int|
                    i < j < messages.len() ==> !((#[trigger] messages[j]).role == Role::Assistant
                        && messages[j].content.len() > 0),
            None => forall|i: int|
                0 <= i < messages.len() ==> !((#[trigger] messages[i]).role == Role::Assistant
                    && messages[i].content.len() > 0),
        },
    decreases messages.len(),
{
    let quiet: Option<Seq<char>> = None;
    if messages.len() > 0 {
        let before = messages.drop_last();
        let last = messages.last();
        assert(messages[messages.len() - 1] == last);
        if !(last.role == Role::Assistant && last.content.len() > 0) {
            latest_reply_is_copied(before, quiet);
            match last_reply(before) {
                Some(text) => {
                    let i = choose|i: int|
                        0 <= i < before.len() && (#[trigger] before[i]).role == Role::Assistant
                            && before[i].content == text && forall|j: int|
                            i < j < before.len() ==> !((#[trigger] before[j]).role
                                == Role::Assistant && before[j].content.len() > 0);
                    assert(messages[i] == before[i]);
                    assert forall|j: int| i < j < messages.len() implies !((#[trigger] messages[j]).role
                        == Role::Assistant && messages[j].content.len() > 0) by {
                        if j < before.len() {
                            assert(messages[j] == before[j]);
                        }
                    }
                },
                None => {
                    assert forall|i: int| 0 <= i < messages.len() implies !((#[trigger] messages[i]).role
                        == Role::Assistant && messages[i].content.len() > 0) by {
                        if i < before.len() {
                            assert(messages[i] == before[i]);
                        }
                    }
                },
            }
        }
    }
}

} // verus!
