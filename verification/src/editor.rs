//! The composer: what is typed, pasted and attached.

use vstd::prelude::*;
use crate::clipboard::{image_marker, ImageModel, StagedImage, MAX_IMAGES};
use crate::events::Key;
use crate::files::file_name;
use crate::git::line::{drop_word, edit_point, without_word, word_bounds, Line};
use crate::markdown::{chunks, lines_of, split_chars, visible_columns};
use crate::model::{copy_all, same_all, views, Modeled};
use crate::places::{column_of, find_beside, place_beside, nearest_place_is_chosen, row_of};
use crate::rows::{push_row, push_rows};
use crate::tags::{
    all_stand, all_tags_stand, changed_tags_stand, copy_tags, feed_is_outside, find_tags,
    found_tags, free_place_stays, images_after, images_kept, images_with, in_no_tag,
    insertion_keeps_images, insertion_keeps_tags, keep_images, keep_standing, move_tags, same_tags,
    snap_back, snap_on, snapped_back, snapped_on, snapping_leaves_tags, standing,
    standing_tags_stand, tag_is_snapped, tags_after, touched_images_go, Tag,
};
use crate::text::{
    cat2, cat3, chars_of, count_of, decimal, is_whitespace, occurs, occurs_at, replace, replaced,
    split_chars_on, split_on, starts, string_of, sub_chars, texts, trim, trim_end, trimmed,
    trimmed_end, whitespace,
};

verus! {

broadcast use vstd::string::group_string_axioms;

// ---------------------------------------------------------------------------
// Submissions

/// A text with its images, as it is sent or queued.
#[derive(Debug, PartialEq, Eq)]
pub struct Submission {
    pub text: String,
    pub images: Vec<StagedImage>,
    /// Where the tags of the images stand in the text.
    pub tags: Vec<Tag>,
}

pub struct SubmissionModel {
    pub text: Seq<char>,
    pub images: Seq<ImageModel>,
    pub tags: Seq<Tag>,
}

impl View for Submission {
    type V = SubmissionModel;

    open spec fn view(&self) -> SubmissionModel {
        SubmissionModel { text: self.text@, images: views(self.images@), tags: self.tags@ }
    }
}

impl Modeled for Submission {
    fn copy(&self) -> (r: Self) {
        Submission {
            text: self.text.copy(),
            images: copy_all(&self.images),
            tags: copy_tags(&self.tags),
        }
    }

    fn same(&self, other: &Self) -> (r: bool) {
        self.text.same(&other.text) && same_all(&self.images, &other.images) && same_tags(
            &self.tags,
            &other.tags,
        )
    }
}

/// A text without images.
pub open spec fn plain(text: Seq<char>) -> SubmissionModel {
    SubmissionModel { text, images: Seq::empty(), tags: Seq::empty() }
}

impl Submission {
    pub fn new(text: &str) -> (r: Self)
        ensures
            r@ == plain(text@),
    {
        let r = Submission { text: text.to_owned(), images: Vec::new(), tags: Vec::new() };
        assert(views(r.images@) =~= Seq::empty());
        r
    }

    pub fn has_images(&self) -> (r: bool)
        ensures
            r == (self@.images.len() > 0),
    {
        self.images.len() > 0
    }

    /// Gives the message another text; see `SubmissionModel::with_text`.
    pub fn set_text(&mut self, text: String)
        ensures
            final(self)@ == old(self)@.with_text(text@),
    {
        self.images = images_with(
            &self.images,
            &chars_of(self.text.as_str()),
            &chars_of(text.as_str()),
        );
        self.tags = find_tags(&self.images, &chars_of(text.as_str()));
        self.text = text;
    }
}

impl SubmissionModel {
    /// The message with another text. An image whose tag was taken out is gone;
    /// the tags of the others are looked for anew.
    pub open spec fn with_text(self, text: Seq<char>) -> SubmissionModel {
        let images = images_kept(self.images, self.text, text);
        SubmissionModel { text, images, tags: found_tags(images, text) }
    }
}

/// What a key makes of the composer besides the edit.
#[derive(Debug, PartialEq, Eq)]
pub enum EditAction {
    Nothing,
    Submit(Submission),
    /// Reach the running turn at its next safe boundary.
    Steer(Submission),
}

pub enum EditActionModel {
    Nothing,
    Submit(SubmissionModel),
    Steer(SubmissionModel),
}

impl View for EditAction {
    type V = EditActionModel;

    open spec fn view(&self) -> EditActionModel {
        match self {
            EditAction::Nothing => EditActionModel::Nothing,
            EditAction::Submit(input) => EditActionModel::Submit(input@),
            EditAction::Steer(input) => EditActionModel::Steer(input@),
        }
    }
}

// ---------------------------------------------------------------------------
// The composer

/// A text that is shown in short.
#[derive(Debug, PartialEq, Eq)]
pub struct Shorthand {
    pub shown: String,
    pub full: String,
}

pub struct ShorthandModel {
    pub shown: Seq<char>,
    pub full: Seq<char>,
}

impl View for Shorthand {
    type V = ShorthandModel;

    open spec fn view(&self) -> ShorthandModel {
        ShorthandModel { shown: self.shown@, full: self.full@ }
    }
}

#[derive(Debug)]
pub struct Editor {
    pub text: String,
    /// The place of the cursor, in characters.
    pub cursor: usize,
    pub images: Vec<StagedImage>,
    /// Where the tags of the images stand.
    pub tags: Vec<Tag>,
    /// Long pastes and the markers that stand for them.
    pub pastes: Vec<Shorthand>,
    /// Tags of files and the paths that they stand for.
    pub mentions: Vec<Shorthand>,
    /// The columns that a row of the composer has.
    pub width: usize,
    /// What was sent, the oldest first.
    pub history: Vec<Submission>,
    /// The entry of the history that is shown.
    pub recalled: Option<usize>,
    /// What was written before the history was shown.
    pub draft: Submission,
}

pub struct EditorModel {
    pub text: Seq<char>,
    pub cursor: usize,
    pub images: Seq<ImageModel>,
    pub tags: Seq<Tag>,
    pub pastes: Seq<ShorthandModel>,
    pub mentions: Seq<ShorthandModel>,
    pub width: usize,
    pub history: Seq<SubmissionModel>,
    pub recalled: Option<usize>,
    pub draft: SubmissionModel,
}

impl View for Editor {
    type V = EditorModel;

    open spec fn view(&self) -> EditorModel {
        EditorModel {
            text: self.text@,
            cursor: self.cursor,
            images: views(self.images@),
            tags: self.tags@,
            pastes: views(self.pastes@),
            mentions: views(self.mentions@),
            width: self.width,
            history: views(self.history@),
            recalled: self.recalled,
            draft: self.draft@,
        }
    }
}

/// A text with each shorthand replaced by what it stands for, one after the
/// other.
pub open spec fn expanded(s: Seq<char>, list: Seq<ShorthandModel>) -> Seq<char>
    decreases list.len(),
{
    if list.len() == 0 {
        s
    } else {
        replaced(expanded(s, list.drop_last()), list.last().shown, list.last().full)
    }
}

/// The lines of a text.
pub open spec fn line_count(s: Seq<char>) -> nat {
    split_on(s, '\n').len()
}

/// Whether a paste is shown by a marker: it is over 400 characters or 8 lines.
pub open spec fn is_long(s: Seq<char>) -> bool {
    s.len() > 400 || line_count(s) > 8
}

/// The number after those that are taken, as long as there is one.
pub open spec fn next_number(taken: nat) -> nat {
    if taken < usize::MAX {
        taken + 1
    } else {
        taken
    }
}

pub open spec fn paste_marker(n: nat) -> Seq<char> {
    "[Pasted #"@ + decimal(n) + "]"@
}

/// The word before the cursor.
pub open spec fn last_word(s: Seq<char>) -> Seq<char>
    decreases s.len(),
{
    if s.len() == 0 || whitespace(s.last()) {
        Seq::empty()
    } else {
        last_word(s.drop_last()).push(s.last())
    }
}

/// Where the line around a place begins.
pub open spec fn line_start(text: Seq<char>, at: int) -> int
    decreases at,
{
    if at <= 0 || text[at - 1] == '\n' {
        at
    } else {
        line_start(text, at - 1)
    }
}

/// Where the line around a place ends.
pub open spec fn line_end(text: Seq<char>, at: int) -> int
    decreases text.len() - at,
{
    if at >= text.len() || text[at] == '\n' {
        at
    } else {
        line_end(text, at + 1)
    }
}

/// Whether a key edits the line of the cursor alone: it jumps to its start or
/// its end, or deletes up to there.
pub open spec fn of_line(key: Key) -> bool {
    key == Key::Home || key == Key::End || key == Key::Ctrl('a') || key == Key::Ctrl('e') || key
        == Key::Ctrl('u') || key == Key::Ctrl('k')
}

proof fn line_is_around(text: Seq<char>, at: int)
    requires
        0 <= at <= text.len(),
    ensures
        0 <= line_start(text, at) <= at <= line_end(text, at) <= text.len(),
{
    starts_before(text, at);
    ends_behind(text, at);
}

proof fn starts_before(text: Seq<char>, at: int)
    requires
        0 <= at <= text.len(),
    ensures
        0 <= line_start(text, at) <= at,
    decreases at,
{
    if at > 0 && text[at - 1] != '\n' {
        starts_before(text, at - 1);
    }
}

proof fn ends_behind(text: Seq<char>, at: int)
    requires
        0 <= at <= text.len(),
    ensures
        at <= line_end(text, at) <= text.len(),
    decreases text.len() - at,
{
    if at < text.len() && text[at] != '\n' {
        ends_behind(text, at + 1);
    }
}

impl EditorModel {
    /// The place at which the text is changed: the cursor, or the end where
    /// the cursor lies past it.
    pub open spec fn at(self) -> int {
        edit_point(Line { text: self.text, cursor: self.cursor })
    }

    /// Every tag stands in the text, and the cursor lies inside none.
    pub open spec fn sound(self) -> bool {
        &&& all_stand(self.tags, self.text)
        &&& in_no_tag(self.tags, self.at())
        &&& self.recalled matches Some(i) ==> i < self.history.len()
    }

    /// The composer with what stands from one place to another replaced. A tag
    /// that is touched goes as a whole, and its image with it.
    pub open spec fn spliced(self, i: int, j: int, put: Seq<char>) -> EditorModel {
        let from = snapped_back(self.tags, i);
        let to = snapped_on(self.tags, j);
        EditorModel {
            text: self.text.take(from) + put + self.text.skip(to),
            cursor: (from + put.len()) as usize,
            images: images_after(self.images, self.tags, from, to),
            tags: tags_after(self.tags, from, to, put.len()),
            recalled: None,
            ..self
        }
    }

    /// The composer with a text put in at the cursor.
    pub open spec fn with_insert(self, insert: Seq<char>) -> EditorModel {
        self.spliced(self.at(), self.at(), insert)
    }

    /// The composer with an image attached at the cursor.
    pub open spec fn attached(self, image: ImageModel) -> EditorModel {
        let now = self.with_insert(image_marker(image.id));
        EditorModel {
            images: now.images.push(image),
            tags: now.tags.push(Tag { start: self.at() as usize, id: image.id }),
            ..now
        }
    }

    /// The composer with nothing typed or attached.
    pub open spec fn cleared(self) -> EditorModel {
        EditorModel {
            text: Seq::empty(),
            cursor: 0,
            images: Seq::empty(),
            tags: Seq::empty(),
            recalled: None,
            ..self
        }
    }

    pub open spec fn pasted(self, text: Seq<char>) -> EditorModel {
        if is_long(text) {
            let marker = paste_marker(next_number(self.pastes.len()));
            EditorModel {
                pastes: self.pastes.push(ShorthandModel { shown: marker, full: text }),
                ..self.with_insert(marker)
            }
        } else {
            self.with_insert(text)
        }
    }

    /// The command that is being typed: the whole text, where it begins with a
    /// slash and holds no blank.
    pub open spec fn command(self) -> Option<Seq<char>> {
        if starts(self.text, "/"@) && (forall|i: int|
            0 <= i < self.text.len() ==> !whitespace(#[trigger] self.text[i])) {
            Some(self.text)
        } else {
            None
        }
    }

    /// The mention that is being typed: the word before the cursor, where it
    /// begins with an at sign.
    pub open spec fn mention(self) -> Option<Seq<char>> {
        let word = last_word(self.text.take(self.at()));
        if starts(word, "@"@) {
            Some(word.skip(1))
        } else {
            None
        }
    }

    pub open spec fn with_command(self, command: Seq<char>) -> EditorModel {
        self.spliced(0, self.text.len() as int, command + " "@)
    }

    /// The composer with the word before the cursor turned into the tag of a
    /// file.
    pub open spec fn with_mention(self, path: Seq<char>) -> EditorModel {
        let word = last_word(self.text.take(self.at()));
        let tag = "@"@ + file_name(path);
        EditorModel {
            mentions: self.mentions.push(ShorthandModel { shown: tag, full: "@"@ + path }),
            ..self.spliced(self.at() - word.len(), self.at(), tag + " "@)
        }
    }

    pub open spec fn submission(self) -> SubmissionModel {
        SubmissionModel { text: self.text, images: self.images, tags: self.tags }
    }

    /// The composer with a message put back, the cursor behind it.
    pub open spec fn restored(self, input: SubmissionModel) -> EditorModel {
        EditorModel {
            text: input.text,
            cursor: input.text.len() as usize,
            images: input.images,
            tags: standing(input.tags, input.text),
            recalled: None,
            ..self
        }
    }

    /// The composer after a message was sent: the history holds it.
    pub open spec fn remembered(self, input: SubmissionModel) -> EditorModel {
        EditorModel { history: self.history.push(input), recalled: None, ..self }
    }

    /// The composer with an entry of the history.
    pub open spec fn showing(self, i: int) -> EditorModel {
        EditorModel { recalled: Some(i as usize), ..self.restored(self.history[i]) }
    }

    /// The composer with the entry before the one that is shown; the first time
    /// it is the newest, and what was written is kept.
    pub open spec fn older(self) -> EditorModel {
        match self.recalled {
            Some(i) => if i == 0 {
                self
            } else {
                self.showing(i - 1)
            },
            None => if self.history.len() == 0 {
                self
            } else {
                EditorModel {
                    draft: self.submission(),
                    ..self.showing(self.history.len() - 1)
                }
            },
        }
    }

    /// The composer with the entry after the one that is shown; behind the
    /// newest, what was written before.
    pub open spec fn newer(self) -> EditorModel {
        match self.recalled {
            Some(i) => if i + 1 < self.history.len() {
                self.showing(i + 1)
            } else {
                self.restored(self.draft)
            },
            None => self,
        }
    }

    /// The composer with the cursor on the row above or below. There is no such
    /// row at the edge of the text: there the history is shown.
    pub open spec fn moved(self, up: bool) -> EditorModel {
        match place_beside(self.text, self.at(), self.width as nat, up) {
            Some(p) => EditorModel {
                cursor: if up {
                    snapped_back(self.tags, p) as usize
                } else {
                    snapped_on(self.tags, p) as usize
                },
                ..self
            },
            None => if up {
                self.older()
            } else {
                self.newer()
            },
        }
    }

    /// The composer with the cursor one place back or on; a tag is one place.
    pub open spec fn stepped(self, back: bool) -> EditorModel {
        let at = self.at();
        let cursor = if back {
            if at > 0 {
                snapped_back(self.tags, at - 1)
            } else {
                at
            }
        } else if at < self.text.len() {
            snapped_on(self.tags, at + 1)
        } else {
            at
        };
        EditorModel { cursor: cursor as usize, ..self }
    }

    /// The composer after an edit.
    pub open spec fn edited(self, key: Key) -> EditorModel {
        let at = self.at();
        match key {
            Key::Char(c) => self.with_insert(seq![c]),
            Key::Newline => self.with_insert("\n"@),
            Key::Backspace => if at > 0 {
                self.spliced(at - 1, at, Seq::empty())
            } else {
                self
            },
            Key::Delete => if at < self.text.len() {
                self.spliced(at, at + 1, Seq::empty())
            } else {
                self
            },
            Key::Left => self.stepped(true),
            Key::Right => self.stepped(false),
            Key::Up => self.moved(true),
            Key::Down => self.moved(false),
            Key::Home => self.at_line_start(),
            Key::End => self.at_line_end(),
            Key::Escape => self.cleared(),
            Key::Ctrl(c) => if c == 'a' {
                self.at_line_start()
            } else if c == 'e' {
                self.at_line_end()
            } else if c == 'u' {
                self.spliced(line_start(self.text, at), at, Seq::empty())
            } else if c == 'k' {
                self.spliced(at, line_end(self.text, at), Seq::empty())
            } else if c == 'w' {
                let kept = without_word(trimmed_end(self.text.take(at)));
                self.spliced(kept.len() as int, at, Seq::empty())
            } else if c == 'j' {
                self.with_insert("\n"@)
            } else {
                self
            },
            _ => self,
        }
    }

    pub open spec fn at_line_start(self) -> EditorModel {
        EditorModel { cursor: line_start(self.text, self.at()) as usize, ..self }
    }

    pub open spec fn at_line_end(self) -> EditorModel {
        EditorModel { cursor: line_end(self.text, self.at()) as usize, ..self }
    }

    /// The composer after a key, and what else the key asks for.
    pub open spec fn keyed(self, key: Key) -> (EditorModel, EditActionModel) {
        if key == Key::Enter || key == Key::Ctrl('g') {
            if trimmed(self.text).len() == 0 && self.images.len() == 0 {
                (self, EditActionModel::Nothing)
            } else if key == Key::Enter {
                (self.cleared(), EditActionModel::Submit(self.submission()))
            } else {
                (self.cleared(), EditActionModel::Steer(self.submission()))
            }
        } else {
            (self.edited(key), EditActionModel::Nothing)
        }
    }
}

/// The start and the end of a line lie inside no tag.
proof fn line_leaves_tags(e: EditorModel)
    requires
        e.sound(),
    ensures
        in_no_tag(e.tags, line_start(e.text, e.at())),
        in_no_tag(e.tags, line_end(e.text, e.at())),
{
    line_is_around(e.text, e.at());
    start_follows_feed(e.text, e.at());
    end_precedes_feed(e.text, e.at());
    let start = line_start(e.text, e.at());
    let end = line_end(e.text, e.at());
    assert forall|k: int| 0 <= k < e.tags.len() implies !(#[trigger] e.tags[k]).holds(start)
        && !e.tags[k].holds(end) by {
        if start > 0 {
            feed_is_outside(e.tags[k], e.text, start - 1);
        }
        if end < e.text.len() {
            feed_is_outside(e.tags[k], e.text, end);
        }
    }
}

proof fn start_follows_feed(text: Seq<char>, at: int)
    requires
        0 <= at <= text.len(),
    ensures
        line_start(text, at) > 0 ==> text[line_start(text, at) - 1] == '\n',
    decreases at,
{
    if at > 0 && text[at - 1] != '\n' {
        start_follows_feed(text, at - 1);
    }
}

proof fn end_precedes_feed(text: Seq<char>, at: int)
    requires
        0 <= at <= text.len(),
    ensures
        line_end(text, at) < text.len() ==> text[line_end(text, at)] == '\n',
    decreases text.len() - at,
{
    if at < text.len() && text[at] != '\n' {
        end_precedes_feed(text, at + 1);
    }
}

fn expand(text: &str, list: &Vec<Shorthand>) -> (r: String)
    requires
        forall|i: int| 0 <= i < list@.len() ==> (#[trigger] list@[i]).shown@.len() > 0,
    ensures
        r@ == expanded(text@, views(list@)),
{
    let ghost all = views(list@);
    let mut r = text.to_owned();
    let mut i: usize = 0;
    assert(all.take(0) =~= Seq::empty());
    while i < list.len()
        invariant
            i <= list@.len(),
            all == views(list@),
            forall|i: int| 0 <= i < list@.len() ==> (#[trigger] list@[i]).shown@.len() > 0,
            r@ == expanded(text@, all.take(i as int)),
        decreases list@.len() - i,
    {
        assert(all.take(i + 1).drop_last() =~= all.take(i as int));
        assert(all.take(i + 1).last() == list@[i as int]@);
        assert(list@[i as int].shown@.len() > 0);
        r = replace(r.as_str(), list[i].shown.as_str(), list[i].full.as_str());
        i += 1;
    }
    assert(all.take(i as int) =~= all);
    r
}

fn count_lines(text: &str) -> (r: usize)
    ensures
        r as nat == line_count(text@),
{
    let parts = split_chars_on(&chars_of(text), '\n');
    let n: usize = parts.len();
    assert(texts(parts@).len() == n);
    n
}

/// The length of the word that a text ends with.
fn word_length(s: &Vec<char>, end: usize) -> (r: usize)
    requires
        end <= s@.len(),
    ensures
        r as nat == last_word(s@.take(end as int)).len(),
        last_word(s@.take(end as int)) == s@.subrange(end - r, end as int),
        r <= end,
    decreases end,
{
    if end == 0 || is_whitespace(s[end - 1]) {
        assert(s@.take(end as int).len() == end);
        assert(last_word(s@.take(end as int)) =~= s@.subrange(end as int, end as int));
        0
    } else {
        let n: usize = word_length(s, end - 1);
        assert(s@.take(end as int).drop_last() =~= s@.take(end - 1));
        assert(last_word(s@.take(end as int)) =~= s@.subrange(end - 1 - n, end as int));
        n + 1
    }
}

impl Editor {
    /// No shorthand is empty, and the tags of the images stand in the text.
    pub open spec fn wf(self) -> bool {
        &&& forall|i: int| 0 <= i < self.pastes@.len() ==> (#[trigger] self.pastes@[i]).shown@.len() > 0
        &&& forall|i: int|
            0 <= i < self.mentions@.len() ==> (#[trigger] self.mentions@[i]).shown@.len() > 0
        &&& self@.sound()
    }

    fn point(&self) -> (r: usize)
        ensures
            r as int == self@.at(),
    {
        let n: usize = chars_of(self.text.as_str()).len();
        if self.cursor <= n {
            self.cursor
        } else {
            n
        }
    }

    /// Replaces what stands from one place to another; see
    /// `EditorModel::spliced`.
    fn splice(&mut self, i: usize, j: usize, put: &str)
        requires
            old(self).wf(),
            i <= j <= old(self)@.text.len(),
        ensures
            final(self)@ == old(self)@.spliced(i as int, j as int, put@),
            final(self).cursor == snapped_back(old(self)@.tags, i as int) + put@.len(),
            final(self).wf(),
            final(self).pastes == old(self).pastes,
            final(self).mentions == old(self).mentions,
    {
        let chars = chars_of(self.text.as_str());
        let n: usize = chars.len();
        proof {
            snapping_leaves_tags(self.tags@, chars@, i as int);
            snapping_leaves_tags(self.tags@, chars@, j as int);
        }
        let from: usize = snap_back(&self.tags, i, n);
        let to: usize = snap_on(&self.tags, j, n);
        let head = string_of(&sub_chars(&chars, 0, from));
        let tail = string_of(&sub_chars(&chars, to, n));
        assert(head@ =~= chars@.take(from as int));
        assert(tail@ =~= chars@.skip(to as int));
        let text = cat3(head.as_str(), put, tail.as_str());
        let total: usize = chars_of(text.as_str()).len();
        let behind: usize = total - (n - to);
        proof {
            changed_tags_stand(self.tags@, chars@, from as int, to as int, put@);
        }
        let tags = move_tags(&self.tags, from, to, behind, n);
        let images = keep_images(&self.images, &self.tags, from, to, n);
        self.text = text;
        self.cursor = behind;
        self.tags = tags;
        self.images = images;
        self.recalled = None;
    }

    fn insert(&mut self, insert: &str)
        requires
            old(self).wf(),
        ensures
            final(self)@ == old(self)@.with_insert(insert@),
            final(self).cursor == old(self)@.at() + insert@.len(),
            final(self).wf(),
            final(self).pastes == old(self).pastes,
            final(self).mentions == old(self).mentions,
    {
        let at: usize = self.point();
        proof {
            free_place_stays(self.tags@, at as int);
        }
        self.splice(at, at, insert);
    }

    pub fn clear(&mut self)
        ensures
            final(self)@ == old(self)@.cleared(),
            old(self).wf() ==> final(self).wf(),
    {
        self.text = String::new();
        self.cursor = 0;
        self.images = Vec::new();
        self.tags = Vec::new();
        self.recalled = None;
        assert(views(self.images@) =~= Seq::empty());
    }

    pub fn text(&self) -> (r: String)
        ensures
            r@ == self@.text,
    {
        self.text.clone()
    }

    pub fn is_empty(&self) -> (r: bool)
        ensures
            r == (self@.text.len() == 0 && self@.images.len() == 0),
    {
        let n: usize = chars_of(self.text.as_str()).len();
        n == 0 && self.images.len() == 0
    }

    /// Takes the text out, where there is any.
    pub fn take_text(&mut self) -> (r: Option<String>)
        ensures
            old(self)@.text.len() == 0 ==> r is None && final(self)@ == old(self)@,
            old(self)@.text.len() > 0 ==> r is Some && r->0@ == old(self)@.text && final(self)@
                == old(self)@.cleared(),
            old(self).wf() ==> final(self).wf(),
    {
        let n: usize = chars_of(self.text.as_str()).len();
        if n == 0 {
            return None;
        }
        let text = self.text.clone();
        self.clear();
        Some(text)
    }

    /// Puts a pasted text in at the cursor. A long one is shown by a marker.
    pub fn paste(&mut self, text: &str)
        requires
            old(self).wf(),
        ensures
            final(self)@ == old(self)@.pasted(text@),
            final(self).wf(),
    {
        let n: usize = chars_of(text).len();
        if n > 400 || count_lines(text) > 8 {
            let known: usize = self.pastes.len();
            assert(views(self.pastes@).len() == known);
            let number: usize = if known < usize::MAX {
                known + 1
            } else {
                known
            };
            let marker = cat3("[Pasted #", count_of(number).as_str(), "]");
            let ghost before = self.pastes@;
            self.insert(marker.as_str());
            proof {
                reveal_strlit("[Pasted #");
            }
            self.pastes.push(Shorthand { shown: marker, full: text.to_owned() });
            assert(views(self.pastes@) =~= views(before).push(
                ShorthandModel { shown: marker@, full: text@ },
            ));
        } else {
            self.insert(text);
        }
    }

    /// A text with the markers of long pastes replaced by the pastes.
    pub fn expand_pastes(&self, text: &str) -> (r: String)
        requires
            self.wf(),
        ensures
            r@ == expanded(text@, self@.pastes),
    {
        expand(text, &self.pastes)
    }

    /// A text as the model receives it: tags become paths, and markers the
    /// pastes that they stand for.
    pub fn expand_submission(&self, text: &str) -> (r: String)
        requires
            self.wf(),
        ensures
            r@ == expanded(expanded(text@, self@.mentions), self@.pastes),
    {
        let tagged = expand(text, &self.mentions);
        expand(tagged.as_str(), &self.pastes)
    }

    pub fn command_prefix(&self) -> (r: Option<String>)
        ensures
            crate::model::option_view(r) == self@.command(),
    {
        let chars = chars_of(self.text.as_str());
        if !crate::text::begins(&chars, "/") {
            return None;
        }
        let mut i: usize = 0;
        while i < chars.len()
            invariant
                i <= chars@.len(),
                chars@ == self@.text,
                forall|k: int| 0 <= k < i ==> !whitespace(#[trigger] self@.text[k]),
            decreases chars@.len() - i,
        {
            if is_whitespace(chars[i]) {
                assert(whitespace(self@.text[i as int]));
                return None;
            }
            i += 1;
        }
        Some(self.text.clone())
    }

    pub fn mention_prefix(&self) -> (r: Option<String>)
        ensures
            crate::model::option_view(r) == self@.mention(),
    {
        let chars = chars_of(self.text.as_str());
        let n: usize = chars.len();
        let at: usize = if self.cursor <= n {
            self.cursor
        } else {
            n
        };
        let len: usize = word_length(&chars, at);
        let word = sub_chars(&chars, at - len, at);
        if crate::text::begins(&word, "@") {
            proof {
                reveal_strlit("@");
            }
            let rest = sub_chars(&word, 1, len);
            assert(rest@ =~= word@.skip(1));
            Some(string_of(&rest))
        } else {
            None
        }
    }

    pub fn complete_command(&mut self, command: &str)
        requires
            old(self).wf(),
        ensures
            final(self)@ == old(self)@.with_command(command@),
            final(self).wf(),
    {
        let n: usize = chars_of(self.text.as_str()).len();
        self.splice(0, n, cat2(command, " ").as_str());
    }

    pub fn complete_mention(&mut self, path: &str)
        requires
            old(self).wf(),
        ensures
            final(self)@ == old(self)@.with_mention(path@),
            final(self).wf(),
    {
        let chars = chars_of(self.text.as_str());
        let n: usize = chars.len();
        let at: usize = if self.cursor <= n {
            self.cursor
        } else {
            n
        };
        let len: usize = word_length(&chars, at);
        let parts = split_chars_on(&chars_of(path), '/');
        proof {
            crate::text::split_joins_back(path@, '/');
            reveal_strlit("@");
            reveal_strlit(" ");
        }
        assert(texts(parts@).len() > 0);
        let last: usize = parts.len() - 1;
        let name = string_of(&parts[last]);
        assert(name@ == file_name(path@));
        let tag = cat2("@", name.as_str());
        self.splice(at - len, at, cat2(tag.as_str(), " ").as_str());
        let ghost known = self.mentions@;
        self.mentions.push(Shorthand { shown: tag, full: cat2("@", path) });
        assert(views(self.mentions@) =~= views(known).push(
            ShorthandModel { shown: tag@, full: "@"@ + path@ },
        ));
    }

    pub fn restore_submission(&mut self, input: Submission)
        ensures
            final(self)@ == old(self)@.restored(input@),
            old(self).wf() ==> final(self).wf(),
    {
        let chars = chars_of(input.text.as_str());
        let n: usize = chars.len();
        proof {
            standing_tags_stand(input.tags@, chars@);
        }
        self.tags = keep_standing(&input.tags, &chars);
        self.cursor = n;
        self.text = input.text;
        self.images = input.images;
        self.recalled = None;
    }

    /// The columns that a row of the composer has from now on.
    pub fn set_width(&mut self, width: usize)
        ensures
            final(self)@ == (EditorModel { width, ..old(self)@ }),
            old(self).wf() ==> final(self).wf(),
    {
        self.width = width;
    }

    /// Puts a message into the history.
    pub fn remember(&mut self, input: &Submission)
        ensures
            final(self)@ == old(self)@.remembered(input@),
            old(self).wf() ==> final(self).wf(),
    {
        let ghost before = self.history@;
        self.history.push(input.copy());
        self.recalled = None;
        assert(views(self.history@) =~= views(before).push(input@));
    }

    fn submission(&self) -> (r: Submission)
        ensures
            r@ == self@.submission(),
    {
        Submission {
            text: self.text.clone(),
            images: copy_all(&self.images),
            tags: copy_tags(&self.tags),
        }
    }

    fn show(&mut self, i: usize)
        requires
            old(self).wf(),
            i < old(self)@.history.len(),
        ensures
            final(self)@ == old(self)@.showing(i as int),
            final(self).wf(),
    {
        assert(views(self.history@)[i as int] == self.history@[i as int]@);
        let entry = self.history[i].copy();
        self.restore_submission(entry);
        self.recalled = Some(i);
    }

    fn show_older(&mut self)
        requires
            old(self).wf(),
        ensures
            final(self)@ == old(self)@.older(),
            final(self).wf(),
    {
        match self.recalled {
            Some(i) => {
                if i > 0 {
                    self.show(i - 1);
                }
            },
            None => {
                let n: usize = self.history.len();
                assert(self@.history.len() == n);
                if n > 0 {
                    let draft = self.submission();
                    self.show(n - 1);
                    self.draft = draft;
                }
            },
        }
    }

    fn show_newer(&mut self)
        requires
            old(self).wf(),
        ensures
            final(self)@ == old(self)@.newer(),
            final(self).wf(),
    {
        match self.recalled {
            Some(i) => {
                let n: usize = self.history.len();
                assert(self@.history.len() == n);
                if i + 1 < n {
                    self.show(i + 1);
                } else {
                    let draft = self.draft.copy();
                    self.restore_submission(draft);
                }
            },
            None => {},
        }
    }

    fn move_row(&mut self, up: bool)
        requires
            old(self).wf(),
        ensures
            final(self)@ == old(self)@.moved(up),
            final(self).wf(),
    {
        let chars = chars_of(self.text.as_str());
        let n: usize = chars.len();
        match find_beside(&chars, self.point(), self.width, up) {
            Some(p) => {
                proof {
                    snapping_leaves_tags(self.tags@, chars@, p as int);
                }
                self.cursor = if up {
                    snap_back(&self.tags, p, n)
                } else {
                    snap_on(&self.tags, p, n)
                };
            },
            None => {
                if up {
                    self.show_older();
                } else {
                    self.show_newer();
                }
            },
        }
    }

    fn step(&mut self, back: bool)
        requires
            old(self).wf(),
        ensures
            final(self)@ == old(self)@.stepped(back),
            final(self).wf(),
    {
        let n: usize = chars_of(self.text.as_str()).len();
        let at: usize = self.point();
        if back && at > 0 {
            proof {
                snapping_leaves_tags(self.tags@, self.text@, at - 1);
            }
            self.cursor = snap_back(&self.tags, at - 1, n);
        } else if !back && at < n {
            proof {
                snapping_leaves_tags(self.tags@, self.text@, at + 1);
            }
            self.cursor = snap_on(&self.tags, at + 1, n);
        } else {
            self.cursor = at;
        }
    }

    /// The start and the end of the line of the cursor.
    fn line_bounds(&self) -> (r: (usize, usize))
        ensures
            r.0 as int == line_start(self@.text, self@.at()),
            r.1 as int == line_end(self@.text, self@.at()),
            r.0 <= self@.at() <= r.1 <= self@.text.len(),
    {
        let chars = chars_of(self.text.as_str());
        let n: usize = chars.len();
        let at: usize = self.point();
        proof {
            line_is_around(chars@, at as int);
        }
        let mut start: usize = at;
        while start > 0 && chars[start - 1] != '\n'
            invariant
                start <= at <= n,
                n == chars@.len(),
                line_start(chars@, start as int) == line_start(chars@, at as int),
            decreases start,
        {
            start -= 1;
        }
        let mut end: usize = at;
        while end < n && chars[end] != '\n'
            invariant
                at <= end <= n,
                n == chars@.len(),
                line_end(chars@, end as int) == line_end(chars@, at as int),
            decreases n - end,
        {
            end += 1;
        }
        (start, end)
    }

    fn jump(&mut self, end: bool)
        requires
            old(self).wf(),
        ensures
            final(self)@ == if end {
                old(self)@.at_line_end()
            } else {
                old(self)@.at_line_start()
            },
            final(self).wf(),
    {
        proof {
            line_leaves_tags(self@);
        }
        let bounds = self.line_bounds();
        self.cursor = if end {
            bounds.1
        } else {
            bounds.0
        };
    }

    fn delete_word(&mut self)
        requires
            old(self).wf(),
        ensures
            final(self)@ == old(self)@.edited(Key::Ctrl('w')),
            final(self).wf(),
    {
        let at: usize = self.point();
        let before = sub_chars(&chars_of(self.text.as_str()), 0, at);
        assert(before@ =~= self@.text.take(at as int));
        proof {
            word_bounds(before@);
            word_bounds(trimmed_end(before@));
        }
        let kept: usize = drop_word(&trim_end(&before)).len();
        self.splice(kept, at, "");
        proof {
            reveal_strlit("");
            assert(""@ =~= Seq::<char>::empty());
        }
    }

    fn edit(&mut self, key: Key)
        requires
            old(self).wf(),
        ensures
            final(self)@ == old(self)@.edited(key),
            final(self).wf(),
    {
        let n: usize = chars_of(self.text.as_str()).len();
        let at: usize = self.point();
        proof {
            reveal_strlit("");
            assert(""@ =~= Seq::<char>::empty());
        }
        match key {
            Key::Char(c) => {
                let mut one = String::new();
                one.push(c);
                assert(one@ =~= seq![c]);
                self.insert(one.as_str());
            },
            Key::Newline | Key::Ctrl('j') => self.insert("\n"),
            Key::Backspace => {
                if at > 0 {
                    self.splice(at - 1, at, "");
                }
            },
            Key::Delete => {
                if at < n {
                    self.splice(at, at + 1, "");
                }
            },
            Key::Left => self.step(true),
            Key::Right => self.step(false),
            Key::Up => self.move_row(true),
            Key::Down => self.move_row(false),
            Key::Home | Key::Ctrl('a') => self.jump(false),
            Key::End | Key::Ctrl('e') => self.jump(true),
            Key::Ctrl('u') => {
                let bounds = self.line_bounds();
                self.splice(bounds.0, at, "");
            },
            Key::Ctrl('k') => {
                let bounds = self.line_bounds();
                self.splice(at, bounds.1, "");
            },
            Key::Ctrl('w') => self.delete_word(),
            Key::Escape => self.clear(),
            _ => {},
        }
    }

    /// Edits by a key; see `EditorModel::keyed`.
    pub fn handle_key(&mut self, key: Key) -> (r: EditAction)
        requires
            old(self).wf(),
        ensures
            (final(self)@, r@) == old(self)@.keyed(key),
            final(self).wf(),
    {
        if key == Key::Enter || key == Key::Ctrl('g') {
            let blank = trim(&chars_of(self.text.as_str())).len() == 0;
            if blank && self.images.len() == 0 {
                return EditAction::Nothing;
            }
            let input = self.submission();
            self.clear();
            return if key == Key::Enter {
                EditAction::Submit(input)
            } else {
                EditAction::Steer(input)
            };
        }
        self.edit(key);
        EditAction::Nothing
    }

    /// Whether another image may be attached.
    pub fn can_attach(&self) -> (r: bool)
        ensures
            r == (self@.images.len() < MAX_IMAGES),
    {
        self.images.len() < MAX_IMAGES
    }

    /// Attaches an image: its marker goes into the text. Says whether there was
    /// room for it.
    pub fn attach(&mut self, image: StagedImage) -> (r: bool)
        requires
            old(self).wf(),
        ensures
            r == (old(self)@.images.len() < MAX_IMAGES),
            r ==> final(self)@ == old(self)@.attached(image@),
            !r ==> final(self)@ == old(self)@,
            final(self).wf(),
    {
        if self.images.len() >= MAX_IMAGES {
            return false;
        }
        let marker = image.marker();
        let at: usize = self.point();
        let ghost e = self@;
        proof {
            snapping_leaves_tags(e.tags, e.text, at as int);
        }
        self.insert(marker.as_str());
        let ghost now = self@;
        let tag = Tag { start: at, id: image.id };
        proof {
            free_place_stays(e.tags, at as int);
            assert(now.text.subrange(at as int, at + marker@.len()) =~= marker@);
            assert(tag.stands(now.text));
        }
        let ghost before = self.images@;
        self.tags.push(tag);
        self.images.push(image);
        assert(views(self.images@) =~= views(before).push(image@));
        let ghost tags = self@.tags;
        assert(tag.end() == now.at());
        assert forall|k: int| 0 <= k < tags.len() implies (#[trigger] tags[k]).stands(now.text)
            && !tags[k].holds(now.at()) by {
            if k < now.tags.len() {
                assert(tags[k] == now.tags[k]);
            }
        }
        true
    }
}

// ---------------------------------------------------------------------------
// Layout

/// The rows of a line: its pieces, or one blank row.
pub open spec fn line_pieces(line: Seq<char>, width: nat) -> Seq<Seq<char>> {
    if line.len() == 0 {
        seq![Seq::empty()]
    } else {
        chunks(line, width)
    }
}

/// The rows of a list of lines.
pub open spec fn pieces_of(lines: Seq<Seq<char>>, width: nat) -> Seq<Seq<char>>
    decreases lines.len(),
{
    if lines.len() == 0 {
        Seq::empty()
    } else {
        pieces_of(lines.drop_last(), width) + line_pieces(lines.last(), width)
    }
}

/// The rows of a text that is wrapped at a width.
pub open spec fn text_rows(text: Seq<char>, width: nat) -> Seq<Seq<char>> {
    pieces_of(split_on(text, '\n'), width)
}

/// A text with a bullet for each character of its lines.
pub open spec fn masked(text: Seq<char>) -> Seq<char> {
    text.map_values(
        |c: char|
            if c == '\n' {
                c
            } else {
                '•'
            },
    )
}

/// A wrapped text and the place of the cursor in it.
pub struct Layout {
    pub lines: Vec<String>,
    pub cursor_row: usize,
    pub cursor_col: usize,
}

impl Layout {
    /// The layout shows a text with the cursor at a place in it.
    pub open spec fn shows(self, text: Seq<char>, at: int, width: nat) -> bool {
        let before = text_rows(text.take(at), width);
        &&& lines_of(self.lines@) == text_rows(text, width)
        &&& self.cursor_row == before.len() - 1
        &&& self.cursor_col == visible_columns(before.last())
    }
}

proof fn chunks_exist(s: Seq<char>, width: nat)
    requires
        s.len() > 0,
    ensures
        chunks(s, width).len() > 0,
{
}

proof fn rows_exist(lines: Seq<Seq<char>>, width: nat)
    requires
        lines.len() > 0,
    ensures
        pieces_of(lines, width).len() > 0,
{
    if lines.last().len() > 0 {
        chunks_exist(lines.last(), width);
    }
}

pub(crate) fn wrap_text(text: &Vec<char>, width: usize) -> (r: Vec<String>)
    ensures
        lines_of(r@) == text_rows(text@, width as nat),
        r@.len() > 0,
{
    let lines = split_chars_on(text, '\n');
    let ghost all = texts(lines@);
    let mut r: Vec<String> = Vec::new();
    let mut i: usize = 0;
    assert(all.take(0) =~= Seq::empty());
    assert(lines_of(r@) =~= Seq::empty());
    while i < lines.len()
        invariant
            i <= lines@.len(),
            all == texts(lines@),
            lines_of(r@) == pieces_of(all.take(i as int), width as nat),
        decreases lines@.len() - i,
    {
        assert(all.take(i + 1).drop_last() =~= all.take(i as int));
        assert(all.take(i + 1).last() == lines@[i as int]@);
        if lines[i].len() == 0 {
            push_row(&mut r, String::new());
            assert(lines_of(r@) =~= pieces_of(all.take(i + 1), width as nat));
        } else {
            let line = string_of(&lines[i]);
            push_rows(&mut r, split_chars(line.as_str(), width));
        }
        i += 1;
    }
    assert(all.take(i as int) =~= all);
    proof {
        crate::text::split_joins_back(text@, '\n');
        rows_exist(all, width as nat);
        assert(lines_of(r@).len() == r@.len());
    }
    r
}

fn lay_out(text: &Vec<char>, at: usize, width: usize) -> (r: Layout)
    requires
        at <= text@.len(),
    ensures
        r.shows(text@, at as int, width as nat),
{
    let lines = wrap_text(text, width);
    let before = wrap_text(&sub_chars(text, 0, at), width);
    assert(text@.subrange(0, at as int) =~= text@.take(at as int));
    let row: usize = before.len() - 1;
    assert(lines_of(before@).last() == before@[row as int]@);
    assert(lines_of(before@).len() == before@.len());
    let col: usize = crate::markdown::visible_width(before[row].as_str());
    Layout { lines, cursor_row: row, cursor_col: col }
}

impl Editor {
    pub fn layout(&self, width: usize) -> (r: Layout)
        ensures
            r.shows(self@.text, self@.at(), width as nat),
    {
        let chars = chars_of(self.text.as_str());
        let n: usize = chars.len();
        let at: usize = if self.cursor <= n {
            self.cursor
        } else {
            n
        };
        lay_out(&chars, at, width)
    }

    /// The layout of a secret: a bullet for each character.
    pub fn masked_layout(&self, width: usize) -> (r: Layout)
        ensures
            r.shows(masked(self@.text), self@.at(), width as nat),
    {
        let chars = chars_of(self.text.as_str());
        let mut hidden: Vec<char> = Vec::new();
        let mut i: usize = 0;
        while i < chars.len()
            invariant
                i <= chars@.len(),
                chars@ == self@.text,
                hidden@ == masked(chars@.take(i as int)),
            decreases chars@.len() - i,
        {
            hidden.push(
                if chars[i] == '\n' {
                    '\n'
                } else {
                    '•'
                },
            );
            i += 1;
            assert(hidden@ =~= masked(chars@.take(i as int)));
        }
        assert(chars@.take(i as int) =~= chars@);
        let n: usize = chars.len();
        let at: usize = if self.cursor <= n {
            self.cursor
        } else {
            n
        };
        lay_out(&hidden, at, width)
    }
}

impl Default for Editor {
    fn default() -> (r: Self)
        ensures
            r.wf(),
            r@ == (EditorModel {
                text: Seq::empty(),
                cursor: 0,
                images: Seq::empty(),
                tags: Seq::empty(),
                pastes: Seq::empty(),
                mentions: Seq::empty(),
                width: usize::MAX,
                history: Seq::empty(),
                recalled: None,
                draft: plain(""@),
            }),
    {
        let r = Editor {
            text: String::new(),
            cursor: 0,
            images: Vec::new(),
            tags: Vec::new(),
            pastes: Vec::new(),
            mentions: Vec::new(),
            width: usize::MAX,
            history: Vec::new(),
            recalled: None,
            draft: Submission::new(""),
        };
        assert(views(r.images@) =~= Seq::empty());
        assert(views(r.pastes@) =~= Seq::empty());
        assert(views(r.mentions@) =~= Seq::empty());
        assert(views(r.history@) =~= Seq::empty());
        r
    }
}

// ---------------------------------------------------------------------------
// Laws

/// Whether a text is one pair of square brackets and what it holds.
spec fn bracketed(s: Seq<char>) -> bool {
    &&& s.len() >= 2
    &&& s[0] == '['
    &&& s.last() == ']'
    &&& forall|i: int| 0 < i < s.len() ==> #[trigger] s[i] != '['
    &&& forall|i: int| 0 <= i < s.len() - 1 ==> #[trigger] s[i] != ']'
}

proof fn marker_is_bracketed(n: nat)
    ensures
        bracketed(paste_marker(n)),
{
    reveal_strlit("[Pasted #");
    reveal_strlit("]");
    crate::text::decimal_reads_back(n);
    let d = decimal(n);
    let m = paste_marker(n);
    assert forall|i: int| 9 <= i < m.len() - 1 implies crate::text::digit(#[trigger] m[i]) by {
        assert(m[i] == d[i - 9]);
    }
}

proof fn markers_differ(m: nat, n: nat)
    requires
        m != n,
    ensures
        paste_marker(m) != paste_marker(n),
{
    reveal_strlit("[Pasted #");
    reveal_strlit("]");
    crate::text::decimal_reads_back(m);
    crate::text::decimal_reads_back(n);
    if paste_marker(m) == paste_marker(n) {
        let end = paste_marker(m).len() - 1;
        assert(paste_marker(m).subrange(9, end) =~= decimal(m));
        assert(paste_marker(n).subrange(9, end) =~= decimal(n));
    }
}

/// A text that holds nothing to replace stays as it is.
proof fn replaced_nowhere(s: Seq<char>, m: Seq<char>, t: Seq<char>)
    requires
        m.len() > 0,
        !occurs(s, m),
    ensures
        replaced(s, m, t) == s,
{
    reveal_with_fuel(crate::text::joined, 2);
    assert(crate::text::split_text(s, m) =~= seq![s]);
}

/// A text that is nothing but a shorthand is replaced as a whole.
proof fn replaced_whole(m: Seq<char>, t: Seq<char>)
    requires
        m.len() > 0,
    ensures
        replaced(m, m, t) == t,
{
    assert(m.subrange(0, m.len() as int) =~= m);
    assert(occurs_at(m, m, 0));
    crate::text::index_from_finds(m, m, 0);
    let rest = m.skip(m.len() as int);
    assert(rest =~= Seq::empty());
    assert(m.take(0) =~= Seq::empty());
    crate::text::index_from_finds(rest, m, 0);
    reveal_with_fuel(crate::text::split_text, 3);
    reveal_with_fuel(crate::text::joined, 3);
    let parts = crate::text::split_text(m, m);
    let empty = Seq::<char>::empty();
    assert(crate::text::split_text(rest, m) =~= seq![empty]);
    assert(parts =~= seq![empty, empty]);
    assert(parts.drop_last() =~= seq![empty]);
    assert(crate::text::joined(parts, t) =~= t);
}

/// What stands on the two sides of a bracketed text is replaced in apart.
proof fn replaced_around(
    a: Seq<char>,
    m: Seq<char>,
    b: Seq<char>,
    from: Seq<char>,
    to: Seq<char>,
)
    requires
        bracketed(m),
        bracketed(from),
    ensures
        replaced(a + m + b, from, to) == replaced(a, from, to) + replaced(m, from, to) + replaced(
            b,
            from,
            to,
        ),
{
    let n = from.len() as int;
    let s = a + (m + b);
    assert(a + m + b =~= s);
    assert forall|p: int| 0 <= p < a.len() < p + n implies !#[trigger] occurs_at(s, from, p) by {
        if occurs_at(s, from, p) {
            assert(s.subrange(p, p + n)[a.len() - p] == s[a.len() as int]);
            assert(from[a.len() - p] == '[');
        }
    }
    crate::text::replaced_apart(a, m + b, from, to);
    assert forall|p: int| 0 <= p < m.len() < p + n implies !#[trigger] occurs_at(
        m + b,
        from,
        p,
    ) by {
        if occurs_at(m + b, from, p) {
            assert((m + b).subrange(p, p + n)[m.len() - 1 - p] == (m + b)[m.len() - 1]);
            assert(from[m.len() - 1 - p] == ']');
        }
    }
    crate::text::replaced_apart(m, b, from, to);
    assert(replaced(a, from, to) + (replaced(m, from, to) + replaced(b, from, to)) =~= replaced(
        a,
        from,
        to,
    ) + replaced(m, from, to) + replaced(b, from, to));
}

/// Whether the markers of long pastes are numbered in their order.
pub open spec fn numbered(pastes: Seq<ShorthandModel>) -> bool {
    forall|i: int|
        0 <= i < pastes.len() ==> (#[trigger] pastes[i]).shown == paste_marker((i + 1) as nat)
}

/// Markers of other numbers do not touch a marker.
proof fn marker_stays(a: Seq<char>, n: nat, b: Seq<char>, list: Seq<ShorthandModel>)
    requires
        numbered(list),
        list.len() < n,
    ensures
        expanded(a + paste_marker(n) + b, list) == expanded(a, list) + paste_marker(n) + expanded(
            b,
            list,
        ),
    decreases list.len(),
{
    if list.len() > 0 {
        let m = paste_marker(n);
        let other = list.last();
        let shorter = list.drop_last();
        assert forall|i: int| 0 <= i < shorter.len() implies (#[trigger] shorter[i]).shown
            == paste_marker((i + 1) as nat) by {
            assert(shorter[i] == list[i]);
        }
        marker_stays(a, n, b, shorter);
        assert(other.shown == paste_marker(list.len()));
        marker_is_bracketed(n);
        marker_is_bracketed(list.len());
        markers_differ(n, list.len());
        replaced_around(expanded(a, shorter), m, expanded(b, shorter), other.shown, other.full);
        crate::text::index_from_finds(m, other.shown, 0);
        if occurs(m, other.shown) {
            let at = crate::text::index_of(m, other.shown)->0;
            let k = other.shown.len() as int;
            assert(m.subrange(at, at + k)[0] == m[at]);
            assert(m.subrange(at, at + k)[k - 1] == m[at + k - 1]);
            assert(m.subrange(0, m.len() as int) =~= m);
        }
        replaced_nowhere(m, other.shown, other.full);
    }
}

/// A long paste is shown by its marker, and the model receives the full text
/// in its place. `before` and `after` are what stands around the marker once
/// the tags of files are replaced; neither holds a copy of the marker.
pub proof fn long_paste_is_received_whole(
    editor: EditorModel,
    text: Seq<char>,
    before: Seq<char>,
    after: Seq<char>,
)
    requires
        editor.sound(),
        is_long(text),
        editor.pastes.len() < usize::MAX,
        numbered(editor.pastes),
        ({
            let now = editor.pasted(text);
            let marker = paste_marker(editor.pastes.len() + 1);
            &&& expanded(now.text, now.mentions) == before + marker + after
            &&& !occurs(expanded(before, editor.pastes), marker)
            &&& !occurs(expanded(after, editor.pastes), marker)
        }),
    ensures
        ({
            let now = editor.pasted(text);
            &&& now.text == editor.text.take(editor.at()) + paste_marker(editor.pastes.len() + 1)
                + editor.text.skip(editor.at())
            &&& numbered(now.pastes)
            &&& expanded(expanded(now.text, now.mentions), now.pastes) == expanded(
                before,
                editor.pastes,
            ) + text + expanded(after, editor.pastes)
        }),
{
    let now = editor.pasted(text);
    let n = editor.pastes.len() + 1;
    let marker = paste_marker(n);
    let a = expanded(before, editor.pastes);
    let b = expanded(after, editor.pastes);
    free_place_stays(editor.tags, editor.at());
    assert(now.pastes.drop_last() =~= editor.pastes);
    marker_stays(before, n, after, editor.pastes);
    marker_is_bracketed(n);
    replaced_around(a, marker, b, marker, text);
    replaced_nowhere(a, marker, text);
    replaced_nowhere(b, marker, text);
    replaced_whole(marker, text);
}

/// A refused submission is put back as it was sent, with its tags.
pub proof fn submission_is_restored(editor: EditorModel)
    requires
        editor.sound(),
        trimmed(editor.text).len() > 0,
    ensures
        ({
            let (cleared, action) = editor.keyed(Key::Enter);
            &&& action == EditActionModel::Submit(editor.submission())
            &&& cleared.restored(editor.submission()).text == editor.text
            &&& cleared.restored(editor.submission()).images == editor.images
            &&& cleared.restored(editor.submission()).tags == editor.tags
            &&& cleared.text.len() == 0 && cleared.images.len() == 0
        }),
{
    all_tags_stand(editor.tags, editor.text);
}

/// A masked text shows none of its characters.
pub proof fn masked_text_is_hidden(text: Seq<char>)
    ensures
        masked(text).len() == text.len(),
        forall|i: int|
            0 <= i < text.len() ==> (#[trigger] masked(text)[i] == '•' || masked(text)[i] == '\n'),
{
}

proof fn next_char_keeps_rows(s: Seq<char>, c: char, width: nat)
    ensures
        text_rows(s, width).len() <= text_rows(s.push(c), width).len(),
{
    let before = split_on(s, '\n');
    let after = split_on(s.push(c), '\n');
    assert(s.push(c).drop_last() =~= s);
    crate::text::split_joins_back(s, '\n');
    if c == '\n' {
        assert(after.drop_last() =~= before);
    } else {
        let line = before.last();
        assert(after.drop_last() =~= before.drop_last());
        assert(after.last() =~= line.push(c));
        assert(line.push(c).drop_last() =~= line);
        chunks_exist(line.push(c), width);
    }
}

/// The cursor stands in one of the rows that are shown.
pub proof fn cursor_is_inside(text: Seq<char>, at: int, width: nat)
    requires
        0 <= at <= text.len(),
    ensures
        0 < text_rows(text.take(at), width).len() <= text_rows(text, width).len(),
    decreases text.len() - at,
{
    crate::text::split_joins_back(text.take(at), '\n');
    rows_exist(split_on(text.take(at), '\n'), width);
    if at == text.len() {
        assert(text.take(at) =~= text);
    } else {
        cursor_is_inside(text, at + 1, width);
        assert(text.take(at + 1) =~= text.take(at).push(text[at]));
        next_char_keeps_rows(text.take(at), text[at], width);
    }
}

/// Jumping in a line, and deleting up to its start or its end, leave the lines
/// around it as they are, and the cursor in it.
pub proof fn other_lines_are_kept(editor: EditorModel, key: Key)
    requires
        of_line(key),
        editor.sound(),
        editor.text.len() <= usize::MAX,
    ensures
        ({
            let start = line_start(editor.text, editor.at());
            let end = line_end(editor.text, editor.at());
            let now = editor.keyed(key).0;
            let kept = now.text.len() - (editor.text.len() - end);
            &&& now.text.take(start) == editor.text.take(start)
            &&& start <= now.cursor <= kept
            &&& now.text.skip(kept) == editor.text.skip(end)
        }),
{
    line_is_around(editor.text, editor.at());
    line_leaves_tags(editor);
    let start = line_start(editor.text, editor.at());
    let end = line_end(editor.text, editor.at());
    free_place_stays(editor.tags, start);
    free_place_stays(editor.tags, end);
    free_place_stays(editor.tags, editor.at());
    let now = editor.keyed(key).0;
    let kept = now.text.len() - (editor.text.len() - end);
    assert(now.text.take(start) =~= editor.text.take(start));
    assert(now.text.skip(kept) =~= editor.text.skip(end));
}

/// Whatever is typed or pasted attaches no image and takes none away, even
/// where it reads like a tag; the tags stay as many.
pub proof fn typing_attaches_nothing(editor: EditorModel, text: Seq<char>)
    requires
        editor.sound(),
    ensures
        editor.with_insert(text).images == editor.images,
        editor.pasted(text).images == editor.images,
        editor.with_insert(text).tags.len() == editor.tags.len(),
{
    free_place_stays(editor.tags, editor.at());
    insertion_keeps_tags(editor.tags, editor.at(), text.len());
    insertion_keeps_images(editor.images, editor.tags, editor.at());
}

/// The cursor passes a tag in one step, either way.
pub proof fn tag_moves_as_one(editor: EditorModel, k: int)
    requires
        editor.sound(),
        editor.text.len() <= usize::MAX,
        0 <= k < editor.tags.len(),
        editor.at() == editor.tags[k].start || editor.at() == editor.tags[k].end(),
    ensures
        editor.at() == editor.tags[k].start ==> editor.keyed(Key::Right).0.cursor
            == editor.tags[k].end(),
        editor.at() == editor.tags[k].end() ==> editor.keyed(Key::Left).0.cursor
            == editor.tags[k].start,
{
    let tag = editor.tags[k];
    tag_is_snapped(editor.tags, editor.text, k);
}

/// Deleting at either end of a tag deletes the whole tag and detaches its
/// image, and nothing else of the text.
pub proof fn deleted_tag_detaches_its_image(editor: EditorModel, k: int, key: Key)
    requires
        editor.sound(),
        editor.text.len() <= usize::MAX,
        0 <= k < editor.tags.len(),
        (key == Key::Backspace && editor.at() == editor.tags[k].end()) || (key == Key::Delete
            && editor.at() == editor.tags[k].start),
    ensures
        ({
            let tag = editor.tags[k];
            let now = editor.keyed(key).0;
            &&& now.text == editor.text.take(tag.start as int) + editor.text.skip(tag.end())
            &&& now.cursor == tag.start
            &&& forall|i: int| 0 <= i < now.images.len() ==> (#[trigger] now.images[i]).id != tag.id
        }),
{
    let tag = editor.tags[k];
    tag_is_snapped(editor.tags, editor.text, k);
    free_place_stays(editor.tags, editor.at());
    let now = editor.keyed(key).0;
    touched_images_go(editor.images, editor.tags, tag.start as int, tag.end(), k);
    assert(now.text =~= editor.text.take(tag.start as int) + editor.text.skip(tag.end()));
}

/// An attached image has a tag of its own; a message has room for only so
/// many.
pub proof fn attached_image_is_tagged(editor: EditorModel, image: ImageModel)
    requires
        editor.sound(),
        editor.text.len() <= usize::MAX,
    ensures
        ({
            let now = editor.attached(image);
            &&& now.images == editor.images.push(image)
            &&& now.tags.last() == (Tag { start: editor.at() as usize, id: image.id })
            &&& now.tags.last().stands(now.text)
        }),
{
    typing_attaches_nothing(editor, image_marker(image.id));
    free_place_stays(editor.tags, editor.at());
    let now = editor.attached(image);
    let end = now.tags.last().end();
    assert(now.text.subrange(editor.at(), end) =~= image_marker(image.id));
}

/// Up and Down move by one row of the wrapped text as long as there is one,
/// where the place on that row lies in no tag.
pub proof fn rows_are_moved_by_one(editor: EditorModel, up: bool)
    requires
        editor.sound(),
        editor.text.len() <= usize::MAX,
        place_beside(editor.text, editor.at(), editor.width as nat, up) matches Some(p)
            ==> in_no_tag(editor.tags, p),
    ensures
        ({
            let width = editor.width as nat;
            let row = row_of(editor.text, editor.at(), width);
            let wanted = if up {
                row - 1
            } else {
                row + 1
            };
            let now = editor.keyed(
                if up {
                    Key::Up
                } else {
                    Key::Down
                },
            ).0;
            (exists|p: int|
                0 <= p <= editor.text.len() && #[trigger] row_of(editor.text, p, width) == wanted)
                ==> now.text == editor.text && row_of(now.text, now.at(), width) == wanted
        }),
{
    let width = editor.width as nat;
    let row = row_of(editor.text, editor.at(), width);
    if let Some(p) = place_beside(editor.text, editor.at(), width, up) {
        free_place_stays(editor.tags, p);
    }
    nearest_place_is_chosen(
        editor.text,
        width,
        if up {
            row - 1
        } else {
            row + 1
        },
        column_of(editor.text, editor.at(), width),
        editor.text.len() as int + 1,
    );
}

/// The rows that Up and Down move by are those that are shown.
pub proof fn rows_are_those_shown(layout: Layout, text: Seq<char>, at: int, width: nat)
    requires
        layout.shows(text, at, width),
    ensures
        layout.cursor_row == row_of(text, at, width),
{
}

/// Going back in the history and on again ends with what was written.
pub proof fn draft_comes_back(editor: EditorModel)
    requires
        editor.sound(),
        editor.recalled is None,
        0 < editor.history.len() <= usize::MAX,
    ensures
        editor.older().text == editor.history.last().text,
        editor.older().images == editor.history.last().images,
        editor.older().newer().submission() == editor.submission(),
{
    all_tags_stand(editor.tags, editor.text);
}

/// An entry of the history comes back between an older and a newer one.
pub proof fn entries_come_back(editor: EditorModel, i: usize)
    requires
        0 < i < editor.history.len() <= usize::MAX,
        editor.recalled == Some(i),
    ensures
        editor.older().text == editor.history[i - 1].text,
        editor.older().images == editor.history[i - 1].images,
        editor.older().newer().text == editor.history[i as int].text,
        editor.older().newer().images == editor.history[i as int].images,
{
}

} // verus!
