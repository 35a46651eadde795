//! The files that a session changed.

use vstd::prelude::*;
use vstd::utf8::{decode_utf8, encode_utf8, valid_utf8};
use crate::events::text_strict;
use crate::model::{option_view, views};
use crate::state::{StateModel, ViewState};
use crate::summary::{all_of, list_skipped, skipped_parts};
use crate::text::cat2;

verus! {

broadcast use vstd::string::group_string_axioms;

/// What a file holds now.
#[derive(Debug)]
pub enum OnDisk {
    Bytes(Vec<u8>),
    Missing,
    Unreadable,
}

pub enum DiskModel {
    Bytes(Seq<u8>),
    Missing,
    Unreadable,
}

impl View for OnDisk {
    type V = DiskModel;

    open spec fn view(&self) -> DiskModel {
        match self {
            OnDisk::Bytes(bytes) => DiskModel::Bytes(bytes@),
            OnDisk::Missing => DiskModel::Missing,
            OnDisk::Unreadable => DiskModel::Unreadable,
        }
    }
}

/// A file that a tool wrote to.
#[derive(Debug)]
pub struct TouchedFile {
    /// The path as it is shown.
    pub display: String,
    /// Whether the file was there before.
    pub existed: bool,
    /// What it held before, where that could be read.
    pub previous: Option<Vec<u8>>,
    pub now: OnDisk,
}

pub struct TouchedModel {
    pub display: Seq<char>,
    pub existed: bool,
    pub previous: Option<Seq<u8>>,
    pub now: DiskModel,
}

impl View for TouchedFile {
    type V = TouchedModel;

    open spec fn view(&self) -> TouchedModel {
        TouchedModel {
            display: self.display@,
            existed: self.existed,
            previous: option_view(self.previous),
            now: self.now@,
        }
    }
}

/// The texts before and after that a change is shown from.
#[derive(Debug)]
pub struct DiffCard {
    pub path: String,
    pub old_text: String,
    pub new_text: String,
}

pub struct CardModel {
    pub path: Seq<char>,
    pub old_text: Seq<char>,
    pub new_text: Seq<char>,
}

impl View for DiffCard {
    type V = CardModel;

    open spec fn view(&self) -> CardModel {
        CardModel { path: self.path@, old_text: self.old_text@, new_text: self.new_text@ }
    }
}

/// The most bytes of a side that is shown.
pub const DIFF_MAX_BYTES: usize = 1048576;

/// What comes of a file.
pub enum Verdict {
    /// Nothing changed.
    Nothing,
    /// It is named among the files that are not shown.
    Skipped(Seq<char>),
    Shown(CardModel),
}

/// What comes of two sides of a file.
pub open spec fn compared(display: Seq<char>, before: Seq<u8>, after: Seq<u8>) -> Verdict {
    if before == after {
        Verdict::Nothing
    } else if !valid_utf8(before) || !valid_utf8(after) {
        Verdict::Skipped(display + " (not UTF-8)"@)
    } else if before.len() > DIFF_MAX_BYTES || after.len() > DIFF_MAX_BYTES {
        Verdict::Skipped(display + " (over 1 MiB)"@)
    } else {
        Verdict::Shown(
            CardModel {
                path: display,
                old_text: decode_utf8(before),
                new_text: decode_utf8(after),
            },
        )
    }
}

pub open spec fn verdict(file: TouchedModel) -> Verdict {
    if file.existed && file.previous is None {
        Verdict::Skipped(file.display + " (pre-image unreadable)"@)
    } else {
        let before = if file.existed {
            file.previous->0
        } else {
            Seq::empty()
        };
        match file.now {
            DiskModel::Unreadable => Verdict::Skipped(file.display + " (unreadable)"@),
            DiskModel::Missing => if file.existed {
                compared(file.display, before, Seq::empty())
            } else {
                Verdict::Nothing
            },
            DiskModel::Bytes(after) => compared(file.display, before, after),
        }
    }
}

/// The changes that are shown, in order.
pub open spec fn cards_of(files: Seq<TouchedModel>) -> Seq<CardModel>
    decreases files.len(),
{
    if files.len() == 0 {
        Seq::empty()
    } else {
        match verdict(files.last()) {
            Verdict::Shown(card) => cards_of(files.drop_last()).push(card),
            _ => cards_of(files.drop_last()),
        }
    }
}

/// The files that are not shown, in order.
pub open spec fn skipped_of(files: Seq<TouchedModel>) -> Seq<Seq<char>>
    decreases files.len(),
{
    if files.len() == 0 {
        Seq::empty()
    } else {
        match verdict(files.last()) {
            Verdict::Skipped(text) => skipped_of(files.drop_last()).push(text),
            _ => skipped_of(files.drop_last()),
        }
    }
}

/// What is said besides the changes.
pub open spec fn diff_noted(s: StateModel, files: Seq<TouchedModel>) -> StateModel {
    if cards_of(files).len() == 0 && skipped_of(files).len() == 0 {
        s.noted(
            "No file changes recorded this session. Changes made through `shell` or exec tools are not tracked."@,
        )
    } else if skipped_of(files).len() > 0 {
        s.noted(all_of(skipped_parts(skipped_of(files))))
    } else {
        s
    }
}

/// What comes of a file, as values.
#[derive(Debug)]
pub enum Found {
    Nothing,
    Skipped(String),
    Shown(DiffCard),
}

impl View for Found {
    type V = Verdict;

    open spec fn view(&self) -> Verdict {
        match self {
            Found::Nothing => Verdict::Nothing,
            Found::Skipped(text) => Verdict::Skipped(text@),
            Found::Shown(card) => Verdict::Shown(card@),
        }
    }
}

fn same_bytes(a: &Vec<u8>, b: &Vec<u8>) -> (r: bool)
    ensures
        r == (a@ == b@),
{
    if a.len() != b.len() {
        return false;
    }
    let mut i: usize = 0;
    while i < a.len()
        invariant
            i <= a@.len(),
            a@.len() == b@.len(),
            forall|j: int| 0 <= j < i ==> a@[j] == b@[j],
        decreases a@.len() - i,
    {
        if a[i] != b[i] {
            return false;
        }
        i += 1;
    }
    assert(a@ =~= b@);
    true
}

fn compare(display: &str, before: &Vec<u8>, after: &Vec<u8>) -> (r: Found)
    ensures
        r@ == compared(display@, before@, after@),
{
    if same_bytes(before, after) {
        return Found::Nothing;
    }
    match (text_strict(before.as_slice()), text_strict(after.as_slice())) {
        (Some(old_text), Some(new_text)) => {
            proof {
                vstd::utf8::encode_utf8_decode_utf8(old_text@);
                vstd::utf8::encode_utf8_decode_utf8(new_text@);
            }
            if before.len() > DIFF_MAX_BYTES || after.len() > DIFF_MAX_BYTES {
                Found::Skipped(cat2(display, " (over 1 MiB)"))
            } else {
                Found::Shown(
                    DiffCard {
                        path: display.to_owned(),
                        old_text: old_text.to_owned(),
                        new_text: new_text.to_owned(),
                    },
                )
            }
        },
        _ => Found::Skipped(cat2(display, " (not UTF-8)")),
    }
}

fn judge(file: &TouchedFile) -> (r: Found)
    ensures
        r@ == verdict(file@),
{
    let display = file.display.as_str();
    let empty: Vec<u8> = Vec::new();
    assert(empty@ =~= Seq::<u8>::empty());
    let before: &Vec<u8> = if file.existed {
        match &file.previous {
            Some(bytes) => bytes,
            None => {
                return Found::Skipped(cat2(display, " (pre-image unreadable)"));
            },
        }
    } else {
        &empty
    };
    match &file.now {
        OnDisk::Unreadable => Found::Skipped(cat2(display, " (unreadable)")),
        OnDisk::Missing => {
            if file.existed {
                compare(display, before, &empty)
            } else {
                Found::Nothing
            }
        },
        OnDisk::Bytes(after) => compare(display, before, after),
    }
}

/// The changes of a session, in the order of its files. Files whose changes
/// cannot be shown are named in a notice.
pub fn show_diff_files(state: &mut ViewState, files: &Vec<TouchedFile>) -> (cards: Vec<DiffCard>)
    ensures
        views(cards@) == cards_of(views(files@)),
        final(state)@ == diff_noted(old(state)@, views(files@)),
{
    let ghost all = views(files@);
    let mut cards: Vec<DiffCard> = Vec::new();
    let mut skipped: Vec<String> = Vec::new();
    let mut i: usize = 0;
    assert(views(cards@) =~= cards_of(all.take(0)));
    assert(views(skipped@) =~= skipped_of(all.take(0)));
    while i < files.len()
        invariant
            i <= files@.len(),
            all == views(files@),
            views(cards@) == cards_of(all.take(i as int)),
            views(skipped@) == skipped_of(all.take(i as int)),
        decreases files@.len() - i,
    {
        assert(all.take(i + 1).drop_last() =~= all.take(i as int));
        assert(all.take(i + 1).last() == files@[i as int]@);
        let ghost shown = views(cards@);
        let ghost named = views(skipped@);
        match judge(&files[i]) {
            Found::Nothing => {},
            Found::Skipped(text) => {
                skipped.push(text);
                assert(views(skipped@) =~= named.push(text@));
            },
            Found::Shown(card) => {
                let ghost model = card@;
                cards.push(card);
                assert(views(cards@) =~= shown.push(model));
            },
        }
        i += 1;
    }
    assert(all.take(i as int) =~= all);
    assert(views(cards@).len() == cards@.len());
    assert(views(skipped@).len() == skipped@.len());
    if cards.len() == 0 && skipped.len() == 0 {
        state.notice(
            "No file changes recorded this session. Changes made through `shell` or exec tools are not tracked.",
        );
    } else if skipped.len() > 0 {
        let text = list_skipped(&skipped);
        state.notice(text.as_str());
    }
    cards
}

// ---------------------------------------------------------------------------
// Laws

/// A file that holds what it held before is neither shown nor named.
pub proof fn unchanged_files_are_left_out(file: TouchedModel)
    requires
        file.existed,
        file.previous is Some,
        file.now == DiskModel::Bytes(file.previous->0),
    ensures
        verdict(file) is Nothing,
{
}

/// A file that came and went within the session leaves no trace.
pub proof fn passing_files_are_left_out(file: TouchedModel)
    requires
        !file.existed,
        file.now is Missing,
    ensures
        verdict(file) is Nothing,
{
}

/// A file that changed is shown with what it held before and what it holds now;
/// one that is new with nothing before, and one that is gone with nothing now.
pub proof fn changes_are_shown_before_and_after(
    display: Seq<char>,
    before: Seq<char>,
    after: Seq<char>,
)
    requires
        before != after,
        before.len() > 0,
        after.len() > 0,
        encode_utf8(before).len() <= 1024 * 1024,
        encode_utf8(after).len() <= 1024 * 1024,
    ensures
        ({
            let changed = TouchedModel {
                display,
                existed: true,
                previous: Some(encode_utf8(before)),
                now: DiskModel::Bytes(encode_utf8(after)),
            };
            let new = TouchedModel { existed: false, previous: None, ..changed };
            let gone = TouchedModel { now: DiskModel::Missing, ..changed };
            let card = |old_text: Seq<char>, new_text: Seq<char>|
                Verdict::Shown(CardModel { path: display, old_text, new_text });
            &&& verdict(changed) == card(before, after)
            &&& verdict(new) == card(Seq::empty(), after)
            &&& verdict(gone) == card(before, Seq::empty())
        }),
{
    assert(1024 * 1024 == 1048576);
    vstd::utf8::encode_utf8_valid_utf8(before);
    vstd::utf8::encode_utf8_valid_utf8(after);
    vstd::utf8::encode_utf8_decode_utf8(before);
    vstd::utf8::encode_utf8_decode_utf8(after);
    let none = Seq::<char>::empty();
    vstd::utf8::encode_utf8_decode_utf8(none);
    vstd::utf8::encode_utf8_valid_utf8(none);
    assert(encode_utf8(none) =~= Seq::<u8>::empty());
    if encode_utf8(before) == encode_utf8(after) {
        assert(before == after);
    }
    if encode_utf8(after) == Seq::<u8>::empty() {
        assert(after == none);
    }
    if encode_utf8(before) == Seq::<u8>::empty() {
        assert(before == none);
    }
}

/// What cannot be shown is named with the reason: it could not be read, before
/// or now, it is no text, or it is too large.
pub proof fn hidden_changes_say_why(file: TouchedModel, bytes: Seq<u8>)
    requires
        bytes != file.previous->0,
        file.previous is Some,
        file.existed,
    ensures
        verdict(TouchedModel { previous: None, ..file }) == Verdict::Skipped(
            file.display + " (pre-image unreadable)"@,
        ),
        verdict(TouchedModel { now: DiskModel::Unreadable, ..file }) == Verdict::Skipped(
            file.display + " (unreadable)"@,
        ),
        !valid_utf8(bytes) ==> verdict(TouchedModel { now: DiskModel::Bytes(bytes), ..file })
            == Verdict::Skipped(file.display + " (not UTF-8)"@),
        valid_utf8(bytes) && valid_utf8(file.previous->0) && bytes.len() > 1024 * 1024 ==> verdict(
            TouchedModel { now: DiskModel::Bytes(bytes), ..file },
        ) == Verdict::Skipped(file.display + " (over 1 MiB)"@),
{
    assert(1024 * 1024 == 1048576);
}

/// Every file that can be shown is, in the order of the files, and every other
/// one that changed is named.
pub proof fn changed_files_keep_their_order(files: Seq<TouchedModel>, file: TouchedModel)
    ensures
        verdict(file) matches Verdict::Shown(card) ==> cards_of(files.push(file)) == cards_of(
            files,
        ).push(card) && skipped_of(files.push(file)) == skipped_of(files),
        verdict(file) matches Verdict::Skipped(text) ==> skipped_of(files.push(file))
            == skipped_of(files).push(text) && cards_of(files.push(file)) == cards_of(files),
        verdict(file) is Nothing ==> cards_of(files.push(file)) == cards_of(files) && skipped_of(
            files.push(file),
        ) == skipped_of(files),
        cards_of(Seq::empty()).len() == 0,
        skipped_of(Seq::empty()).len() == 0,
{
    assert(files.push(file).drop_last() =~= files);
}

} // verus!
