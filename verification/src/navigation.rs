//! Keys of the conversation: its blocks, the search in it, and the viewer of
//! one block.

use vstd::prelude::*;
use crate::events::Key;
use crate::state::{state_model, StateModel, ViewState};

verus! {

/// What has the keyboard.
#[derive(Debug, Clone, Copy, PartialEq, Eq, Structural)]
pub enum Focus {
    Composer,
    /// The blocks of the conversation.
    Blocks,
    Viewer,
    Search,
}

/// What a key does to the conversation.
#[derive(Debug, Clone, Copy, PartialEq, Eq, Structural)]
pub enum Navigation {
    Nothing,
    OpenSearch,
    CloseSearch,
    /// Go to the next match, or to the one before, and unfold its block.
    SearchNext { backward: bool },
    SearchBackspace,
    SearchPush(char),
    CloseViewer,
    OpenViewer,
    Blur,
    Move { down: bool },
    SetExpanded(bool),
    /// Copy the selected block.
    CopySelected,
}

// ---------------------------------------------------------------------------
// Scrolling

/// How far a key of the conversation scrolls.
pub open spec fn scrolled(offset: usize, amount: int) -> usize {
    let to = offset + amount;
    if to < 0 {
        0
    } else if to > usize::MAX {
        usize::MAX
    } else {
        to as usize
    }
}

pub open spec fn with_offset(s: StateModel, scroll_offset: usize) -> StateModel {
    StateModel { scroll_offset, ..s }
}

/// Scrolls the conversation; positive amounts show older content.
pub fn scroll(state: &mut ViewState, amount: i32)
    ensures
        final(state)@ == with_offset(
            old(state)@,
            scrolled(old(state)@.scroll_offset, amount as int),
        ),
{
    proof {
        reveal(state_model);
    }
    if amount < 0 {
        let back: usize = if amount == i32::MIN {
            (i32::MAX as usize) + 1
        } else {
            (-amount) as usize
        };
        state.scroll_offset = state.scroll_offset.saturating_sub(back);
    } else {
        state.scroll_offset = state.scroll_offset.saturating_add(amount as usize);
    }
}

fn scroll_to(state: &mut ViewState, offset: usize)
    ensures
        final(state)@ == with_offset(old(state)@, offset),
{
    proof {
        reveal(state_model);
    }
    state.scroll_offset = offset;
}

// ---------------------------------------------------------------------------
// Keys

/// A key while the search has the keyboard.
pub open spec fn search_key(key: Key) -> Navigation {
    match key {
        Key::Escape => Navigation::CloseSearch,
        Key::Ctrl(c) => if c == 'c' || c == 'f' {
            Navigation::CloseSearch
        } else {
            Navigation::Nothing
        },
        Key::Enter => Navigation::SearchNext { backward: false },
        Key::Down => Navigation::SearchNext { backward: false },
        Key::Up => Navigation::SearchNext { backward: true },
        Key::Backspace => Navigation::SearchBackspace,
        Key::Char(c) => Navigation::SearchPush(c),
        _ => Navigation::Nothing,
    }
}

fn search(key: Key) -> (r: Navigation)
    ensures
        r == search_key(key),
{
    match key {
        Key::Escape => Navigation::CloseSearch,
        Key::Ctrl(c) => if c == 'c' || c == 'f' {
            Navigation::CloseSearch
        } else {
            Navigation::Nothing
        },
        Key::Enter => Navigation::SearchNext { backward: false },
        Key::Down => Navigation::SearchNext { backward: false },
        Key::Up => Navigation::SearchNext { backward: true },
        Key::Backspace => Navigation::SearchBackspace,
        Key::Char(c) => Navigation::SearchPush(c),
        _ => Navigation::Nothing,
    }
}

/// The rows that a key scrolls in the viewer.
pub open spec fn viewer_scroll(key: Key) -> int {
    match key {
        Key::Up => 1,
        Key::Char(c) => if c == 'k' {
            1
        } else if c == 'j' {
            -1
        } else {
            0
        },
        Key::Down => -1,
        Key::PageUp => 10,
        Key::PageDown => -10,
        _ => 0,
    }
}

/// A key while the viewer has the keyboard.
pub open spec fn viewer_keyed(s: StateModel, key: Key) -> (StateModel, Navigation) {
    if key == Key::Escape || key == Key::Enter || key == Key::Ctrl('c') {
        (with_offset(s, 0), Navigation::CloseViewer)
    } else if key == Key::Home {
        (with_offset(s, usize::MAX), Navigation::Nothing)
    } else if key == Key::End {
        (with_offset(s, 0), Navigation::Nothing)
    } else if key == Key::Char('y') {
        (s, Navigation::CopySelected)
    } else {
        (with_offset(s, scrolled(s.scroll_offset, viewer_scroll(key))), Navigation::Nothing)
    }
}

fn viewer(state: &mut ViewState, key: Key) -> (r: Navigation)
    ensures
        (final(state)@, r) == viewer_keyed(old(state)@, key),
{
    if key == Key::Escape || key == Key::Enter || key == Key::Ctrl('c') {
        scroll_to(state, 0);
        return Navigation::CloseViewer;
    }
    if key == Key::Home {
        scroll_to(state, usize::MAX);
        return Navigation::Nothing;
    }
    if key == Key::End {
        scroll_to(state, 0);
        return Navigation::Nothing;
    }
    if key == Key::Char('y') {
        return Navigation::CopySelected;
    }
    let amount: i32 = match key {
        Key::Up => 1,
        Key::Char(c) => if c == 'k' {
            1
        } else if c == 'j' {
            -1
        } else {
            0
        },
        Key::Down => -1,
        Key::PageUp => 10,
        Key::PageDown => -10,
        _ => 0,
    };
    scroll(state, amount);
    Navigation::Nothing
}

/// A key while the blocks have the keyboard.
pub open spec fn block_keyed(s: StateModel, key: Key) -> (StateModel, Navigation) {
    match key {
        Key::Tab => (s, Navigation::Blur),
        Key::Escape => (s, Navigation::Blur),
        Key::Ctrl(c) => (
            s,
            if c == 'c' {
                Navigation::Blur
            } else {
                Navigation::Nothing
            },
        ),
        Key::Up => (s, Navigation::Move { down: false }),
        Key::Down => (s, Navigation::Move { down: true }),
        Key::Left => (s, Navigation::SetExpanded(false)),
        Key::Right => (s, Navigation::SetExpanded(true)),
        Key::Enter => (with_offset(s, 0), Navigation::OpenViewer),
        Key::PageUp => (with_offset(s, scrolled(s.scroll_offset, 10)), Navigation::Nothing),
        Key::PageDown => (with_offset(s, scrolled(s.scroll_offset, -10)), Navigation::Nothing),
        Key::Char(c) => (
            s,
            if c == 'k' {
                Navigation::Move { down: false }
            } else if c == 'j' {
                Navigation::Move { down: true }
            } else if c == 'h' {
                Navigation::SetExpanded(false)
            } else if c == 'l' {
                Navigation::SetExpanded(true)
            } else if c == 'y' {
                Navigation::CopySelected
            } else {
                Navigation::Nothing
            },
        ),
        _ => (s, Navigation::Nothing),
    }
}

fn block(state: &mut ViewState, key: Key) -> (r: Navigation)
    ensures
        (final(state)@, r) == block_keyed(old(state)@, key),
{
    match key {
        Key::Tab => Navigation::Blur,
        Key::Escape => Navigation::Blur,
        Key::Ctrl(c) => if c == 'c' {
            Navigation::Blur
        } else {
            Navigation::Nothing
        },
        Key::Up => Navigation::Move { down: false },
        Key::Down => Navigation::Move { down: true },
        Key::Left => Navigation::SetExpanded(false),
        Key::Right => Navigation::SetExpanded(true),
        Key::Enter => {
            scroll_to(state, 0);
            Navigation::OpenViewer
        },
        Key::PageUp => {
            scroll(state, 10);
            Navigation::Nothing
        },
        Key::PageDown => {
            scroll(state, -10);
            Navigation::Nothing
        },
        Key::Char(c) => if c == 'k' {
            Navigation::Move { down: false }
        } else if c == 'j' {
            Navigation::Move { down: true }
        } else if c == 'h' {
            Navigation::SetExpanded(false)
        } else if c == 'l' {
            Navigation::SetExpanded(true)
        } else if c == 'y' {
            Navigation::CopySelected
        } else {
            Navigation::Nothing
        },
        _ => Navigation::Nothing,
    }
}

/// The state after a key, and what the key does to the conversation; nothing
/// where the key belongs to the composer.
pub open spec fn navigated(s: StateModel, focus: Focus, key: Key) -> (StateModel, Option<Navigation>) {
    match focus {
        Focus::Search => (s, Some(search_key(key))),
        Focus::Viewer => {
            let (now, navigation) = viewer_keyed(s, key);
            (now, Some(navigation))
        },
        _ => if key == Key::Ctrl('f') {
            (s, Some(Navigation::OpenSearch))
        } else if focus == Focus::Blocks {
            let (now, navigation) = block_keyed(s, key);
            (now, Some(navigation))
        } else {
            (s, None)
        },
    }
}

/// Gives a key to the conversation; see `navigated`.
pub fn handle_key(state: &mut ViewState, focus: Focus, key: Key) -> (r: Option<Navigation>)
    ensures
        (final(state)@, r) == navigated(old(state)@, focus, key),
{
    match focus {
        Focus::Search => Some(search(key)),
        Focus::Viewer => Some(viewer(state, key)),
        _ => if key == Key::Ctrl('f') {
            Some(Navigation::OpenSearch)
        } else if focus == Focus::Blocks {
            Some(block(state, key))
        } else {
            None
        },
    }
}

// ---------------------------------------------------------------------------
// Laws

/// The composer sees no key while the search, the viewer or the blocks have
/// the keyboard.
pub proof fn focus_owns_every_key(s: StateModel, focus: Focus, key: Key)
    requires
        focus != Focus::Composer,
    ensures
        navigated(s, focus, key).1 is Some,
{
}

/// A page up and a page down lead back, but for the ends.
pub proof fn pages_lead_back(offset: usize)
    requires
        offset <= usize::MAX - 10,
    ensures
        scrolled(scrolled(offset, 10), -10) == offset,
{
}

/// Older content is upwards: a key of the viewer goes there by one row or by a
/// page of ten, or to the oldest row, and its counterpart comes back.
pub proof fn viewer_keys_scroll(s: StateModel)
    ensures
        forall|key: Key|
            key == Key::Up || key == Key::Char('k') ==> s.scroll_offset < usize::MAX ==> (
            #[trigger] navigated(s, Focus::Viewer, key)).0.scroll_offset == s.scroll_offset + 1,
        forall|key: Key|
            key == Key::Down || key == Key::Char('j') ==> s.scroll_offset > 0 ==> (
            #[trigger] navigated(s, Focus::Viewer, key)).0.scroll_offset == s.scroll_offset - 1,
        s.scroll_offset <= usize::MAX - 10 ==> navigated(
            s,
            Focus::Viewer,
            Key::PageUp,
        ).0.scroll_offset == s.scroll_offset + 10,
        s.scroll_offset >= 10 ==> navigated(s, Focus::Viewer, Key::PageDown).0.scroll_offset
            == s.scroll_offset - 10,
        forall|key: Key|
            (#[trigger] navigated(s, Focus::Viewer, key)).0.scroll_offset <= navigated(
                s,
                Focus::Viewer,
                Key::Home,
            ).0.scroll_offset,
        navigated(s, Focus::Viewer, Key::End).0.scroll_offset == 0,
{
}

/// The viewer closes by Escape, Enter and Ctrl+C, and by nothing else; it opens
/// by Enter on a block. Either way the view is back at the newest row.
pub proof fn viewers_open_and_close(s: StateModel, key: Key)
    ensures
        navigated(s, Focus::Viewer, key).1 == Some(Navigation::CloseViewer) <==> (key
            == Key::Escape || key == Key::Enter || key == Key::Ctrl('c')),
        navigated(s, Focus::Blocks, key).1 == Some(Navigation::OpenViewer) <==> key == Key::Enter,
        navigated(s, Focus::Viewer, key).1 == Some(Navigation::CloseViewer) ==> navigated(
            s,
            Focus::Viewer,
            key,
        ).0.scroll_offset == 0,
        navigated(s, Focus::Blocks, Key::Enter).0.scroll_offset == 0,
{
}

/// Up and Down go to the block before and to the block behind, Left folds a
/// block and Right unfolds it, as the letters k, j, h and l do; Tab, Escape and
/// Ctrl+C lead back to the composer.
pub proof fn block_keys_move_and_fold(s: StateModel, key: Key)
    ensures
        navigated(s, Focus::Blocks, key).1 == Some(Navigation::Move { down: false }) <==> (key
            == Key::Up || key == Key::Char('k')),
        navigated(s, Focus::Blocks, key).1 == Some(Navigation::Move { down: true }) <==> (key
            == Key::Down || key == Key::Char('j')),
        navigated(s, Focus::Blocks, key).1 == Some(Navigation::SetExpanded(false)) <==> (key
            == Key::Left || key == Key::Char('h')),
        navigated(s, Focus::Blocks, key).1 == Some(Navigation::SetExpanded(true)) <==> (key
            == Key::Right || key == Key::Char('l')),
        navigated(s, Focus::Blocks, key).1 == Some(Navigation::Blur) <==> (key == Key::Tab || key
            == Key::Escape || key == Key::Ctrl('c')),
        navigated(s, Focus::Blocks, key).1 == Some(Navigation::CopySelected) <==> key == Key::Char(
            'y',
        ),
        navigated(s, Focus::Viewer, key).1 == Some(Navigation::CopySelected) <==> key == Key::Char(
            'y',
        ),
        s.scroll_offset <= usize::MAX - 10 ==> navigated(
            s,
            Focus::Blocks,
            Key::PageUp,
        ).0.scroll_offset == s.scroll_offset + 10,
        s.scroll_offset >= 10 ==> navigated(s, Focus::Blocks, Key::PageDown).0.scroll_offset
            == s.scroll_offset - 10,
{
}

/// The search opens by Ctrl+F, wherever a key is not the search's or the
/// viewer's own, and closes by it again, or by Escape or Ctrl+C. In it a
/// character is added to what is sought, Backspace takes one away, and Enter,
/// Down and Up go to the next match and to the one before.
pub proof fn searches_open_and_close(s: StateModel, key: Key)
    ensures
        navigated(s, Focus::Composer, key).1 == Some(Navigation::OpenSearch) <==> key == Key::Ctrl(
            'f',
        ),
        navigated(s, Focus::Blocks, key).1 == Some(Navigation::OpenSearch) <==> key == Key::Ctrl(
            'f',
        ),
        navigated(s, Focus::Search, key).1 == Some(Navigation::CloseSearch) <==> (key == Key::Ctrl(
            'f',
        ) || key == Key::Escape || key == Key::Ctrl('c')),
        forall|c: char|
            (#[trigger] navigated(s, Focus::Search, Key::Char(c))).1 == Some(
                Navigation::SearchPush(c),
            ),
        navigated(s, Focus::Search, key).1 == Some(Navigation::SearchBackspace) <==> key
            == Key::Backspace,
        navigated(s, Focus::Search, key).1 == Some(Navigation::SearchNext { backward: false })
            <==> (key == Key::Enter || key == Key::Down),
        navigated(s, Focus::Search, key).1 == Some(Navigation::SearchNext { backward: true })
            <==> key == Key::Up,
        navigated(s, Focus::Search, key).0 == s,
        navigated(s, Focus::Composer, key).0 == s,
        key != Key::Ctrl('f') ==> navigated(s, Focus::Composer, key).1 is None,
{
}

} // verus!
