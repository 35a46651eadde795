//! Images from the clipboard.

use vstd::prelude::*;
use crate::model::Modeled;
use crate::text::{cat3, count_of, decimal};

verus! {

broadcast use vstd::string::group_string_axioms;

/// The bytes that an image has at most.
pub const MAX_IMAGE_BYTES: usize = 5242880;

/// The images that go with one message at most.
pub const MAX_IMAGES: usize = 5;

/// An image that waits to be sent.
#[derive(Debug, PartialEq, Eq)]
pub struct StagedImage {
    pub id: usize,
    pub path: String,
    pub media_type: String,
}

pub struct ImageModel {
    pub id: usize,
    pub path: Seq<char>,
    pub media_type: Seq<char>,
}

impl View for StagedImage {
    type V = ImageModel;

    open spec fn view(&self) -> ImageModel {
        ImageModel { id: self.id, path: self.path@, media_type: self.media_type@ }
    }
}

impl Modeled for StagedImage {
    fn copy(&self) -> (r: Self) {
        StagedImage {
            id: self.id,
            path: self.path.copy(),
            media_type: self.media_type.copy(),
        }
    }

    fn same(&self, other: &Self) -> (r: bool) {
        self.id == other.id && self.path.same(&other.path) && self.media_type.same(
            &other.media_type,
        )
    }
}

/// What stands for an image in the text.
pub open spec fn image_marker(id: usize) -> Seq<char> {
    "[Image #"@ + decimal(id as nat) + "]"@
}

impl StagedImage {
    pub fn marker(&self) -> (r: String)
        ensures
            r@ == image_marker(self@.id),
    {
        cat3("[Image #", count_of(self.id).as_str(), "]")
    }
}

/// Whether bytes begin with other bytes.
pub open spec fn begins_with(bytes: Seq<u8>, head: Seq<u8>) -> bool {
    head.len() <= bytes.len() && bytes.take(head.len() as int) == head
}

fn has_head(bytes: &[u8], head: &[u8]) -> (r: bool)
    ensures
        r == begins_with(bytes@, head@),
{
    if bytes.len() < head.len() {
        return false;
    }
    let mut i: usize = 0;
    while i < head.len()
        invariant
            i <= head@.len() <= bytes@.len(),
            forall|k: int| 0 <= k < i ==> bytes@[k] == head@[k],
        decreases head@.len() - i,
    {
        if bytes[i] != head[i] {
            assert(bytes@.take(head@.len() as int)[i as int] != head@[i as int]);
            return false;
        }
        i += 1;
    }
    assert(bytes@.take(head@.len() as int) =~= head@);
    true
}

/// The kind of an image, by the bytes that it begins with.
pub open spec fn image_kind(bytes: Seq<u8>) -> Option<Seq<char>> {
    if begins_with(bytes, seq![0x89u8, 0x50, 0x4e, 0x47, 0x0d, 0x0a, 0x1a, 0x0a]) {
        Some("image/png"@)
    } else if begins_with(bytes, seq![0xffu8, 0xd8, 0xff]) {
        Some("image/jpeg"@)
    } else if begins_with(bytes, seq![0x47u8, 0x49, 0x46, 0x38, 0x37, 0x61]) || begins_with(
        bytes,
        seq![0x47u8, 0x49, 0x46, 0x38, 0x39, 0x61],
    ) {
        Some("image/gif"@)
    } else if begins_with(bytes, seq![0x52u8, 0x49, 0x46, 0x46]) && bytes.len() >= 12
        && bytes.subrange(8, 12) == seq![0x57u8, 0x45, 0x42, 0x50] {
        Some("image/webp"@)
    } else {
        None
    }
}

fn media_type(bytes: &[u8]) -> (r: Option<&'static str>)
    ensures
        match r {
            Some(kind) => image_kind(bytes@) == Some(kind@),
            None => image_kind(bytes@) is None,
        },
{
    let png: [u8; 8] = [0x89, 0x50, 0x4e, 0x47, 0x0d, 0x0a, 0x1a, 0x0a];
    let jpeg: [u8; 3] = [0xff, 0xd8, 0xff];
    let gif87: [u8; 6] = [0x47, 0x49, 0x46, 0x38, 0x37, 0x61];
    let gif89: [u8; 6] = [0x47, 0x49, 0x46, 0x38, 0x39, 0x61];
    let riff: [u8; 4] = [0x52, 0x49, 0x46, 0x46];
    assert(png@ =~= seq![0x89u8, 0x50, 0x4e, 0x47, 0x0d, 0x0a, 0x1a, 0x0a]);
    assert(jpeg@ =~= seq![0xffu8, 0xd8, 0xff]);
    assert(gif87@ =~= seq![0x47u8, 0x49, 0x46, 0x38, 0x37, 0x61]);
    assert(gif89@ =~= seq![0x47u8, 0x49, 0x46, 0x38, 0x39, 0x61]);
    assert(riff@ =~= seq![0x52u8, 0x49, 0x46, 0x46]);
    if has_head(bytes, &png) {
        return Some("image/png");
    }
    if has_head(bytes, &jpeg) {
        return Some("image/jpeg");
    }
    if has_head(bytes, &gif87) || has_head(bytes, &gif89) {
        return Some("image/gif");
    }
    if has_head(bytes, &riff) && bytes.len() >= 12 {
        let webp = bytes[8] == 0x57 && bytes[9] == 0x45 && bytes[10] == 0x42 && bytes[11] == 0x50;
        let ghost tag = bytes@.subrange(8, 12);
        assert(tag[0] == bytes@[8] && tag[1] == bytes@[9] && tag[2] == bytes@[10] && tag[3]
            == bytes@[11]);
        if webp {
            assert(tag =~= seq![0x57u8, 0x45, 0x42, 0x50]);
            return Some("image/webp");
        }
        assert(tag != seq![0x57u8, 0x45, 0x42, 0x50]);
    }
    None
}

/// The kind of a staged image, or why it is refused: it is empty, too large,
/// or of no kind that is sent.
pub open spec fn staged_kind(bytes: Seq<u8>) -> Result<Seq<char>, Seq<char>> {
    if bytes.len() == 0 {
        Err("clipboard does not contain a supported image"@)
    } else if bytes.len() > MAX_IMAGE_BYTES {
        Err("clipboard image exceeds the "@ + decimal(MAX_IMAGE_BYTES as nat) + "-byte limit"@)
    } else {
        match image_kind(bytes) {
            Some(kind) => Ok(kind),
            None => Err("clipboard image must be PNG, JPEG, GIF, or WebP"@),
        }
    }
}

/// Checks the bytes of a staged image; see `staged_kind`.
pub fn validate_staged(bytes: &[u8]) -> (r: Result<&'static str, String>)
    ensures
        match r {
            Ok(kind) => staged_kind(bytes@) == Ok::<Seq<char>, Seq<char>>(kind@),
            Err(error) => staged_kind(bytes@) == Err::<Seq<char>, Seq<char>>(error@),
        },
{
    let n: usize = bytes.len();
    if n == 0 {
        return Err("clipboard does not contain a supported image".to_owned());
    }
    if n > MAX_IMAGE_BYTES {
        return Err(
            cat3(
                "clipboard image exceeds the ",
                count_of(MAX_IMAGE_BYTES).as_str(),
                "-byte limit",
            ),
        );
    }
    match media_type(bytes) {
        Some(kind) => Ok(kind),
        None => Err("clipboard image must be PNG, JPEG, GIF, or WebP".to_owned()),
    }
}

/// The name that a staged file gets for its kind.
pub open spec fn extension_of(kind: Seq<char>) -> Seq<char> {
    if kind == "image/png"@ {
        "png"@
    } else if kind == "image/jpeg"@ {
        "jpg"@
    } else if kind == "image/gif"@ {
        "gif"@
    } else {
        "webp"@
    }
}

pub fn extension(kind: &str) -> (r: &'static str)
    ensures
        r@ == extension_of(kind@),
{
    if crate::text::same(kind, "image/png") {
        "png"
    } else if crate::text::same(kind, "image/jpeg") {
        "jpg"
    } else if crate::text::same(kind, "image/gif") {
        "gif"
    } else {
        "webp"
    }
}

// ---------------------------------------------------------------------------
// Reading the clipboard with a program of the desktop

/// The programs that are tried, in order: each with the kinds of images.
pub const HELPER_COUNT: usize = 8;

pub open spec fn helper_kind(i: int) -> Seq<char> {
    if i % 4 == 0 {
        "image/png"@
    } else if i % 4 == 1 {
        "image/jpeg"@
    } else if i % 4 == 2 {
        "image/webp"@
    } else {
        "image/gif"@
    }
}

/// A program and its arguments.
pub open spec fn helper_command(i: int) -> (Seq<char>, Seq<Seq<char>>) {
    if i < 4 {
        ("wl-paste"@, seq!["--type"@, helper_kind(i)])
    } else {
        (
            "xclip"@,
            seq!["-selection"@, "clipboard"@, "-t"@, helper_kind(i), "-o"@],
        )
    }
}

/// The program that is tried, and its arguments.
pub fn helper(attempt: usize) -> (r: (&'static str, Vec<&'static str>))
    requires
        attempt < HELPER_COUNT,
    ensures
        r.0@ == helper_command(attempt as int).0,
        r.1@.map_values(|word: &'static str| word@) == helper_command(attempt as int).1,
{
    let place: usize = attempt % 4;
    let kind: &'static str = if place == 0 {
        "image/png"
    } else if place == 1 {
        "image/jpeg"
    } else if place == 2 {
        "image/webp"
    } else {
        "image/gif"
    };
    let mut words: Vec<&'static str> = Vec::new();
    if attempt < 4 {
        words.push("--type");
        words.push(kind);
        assert(words@.map_values(|word: &'static str| word@) =~= helper_command(attempt as int).1);
        ("wl-paste", words)
    } else {
        words.push("-selection");
        words.push("clipboard");
        words.push("-t");
        words.push(kind);
        words.push("-o");
        assert(words@.map_values(|word: &'static str| word@) =~= helper_command(attempt as int).1);
        ("xclip", words)
    }
}

/// What came of a program.
#[derive(Debug)]
pub enum HelperResult {
    /// It is not installed.
    Missing,
    /// It could not be run or waited for.
    Failed(String),
    /// It ended; the flag says whether it wrote an image.
    Ended(bool),
}

/// How the search goes on.
#[derive(Debug)]
pub enum Search {
    /// The image is there.
    Found,
    /// Try a program; the flag says whether one was installed so far.
    Try { attempt: usize, found_helper: bool },
    Failed(String),
}

pub enum SearchModel {
    Found,
    Try { attempt: usize, found_helper: bool },
    Failed(Seq<char>),
}

impl View for Search {
    type V = SearchModel;

    open spec fn view(&self) -> SearchModel {
        match self {
            Search::Found => SearchModel::Found,
            Search::Try { attempt, found_helper } => SearchModel::Try {
                attempt: *attempt,
                found_helper: *found_helper,
            },
            Search::Failed(error) => SearchModel::Failed(error@),
        }
    }
}

/// The next program, or why there is none: the time is over, none gave an
/// image, or none is installed.
pub open spec fn next_attempt(attempt: usize, found_helper: bool, timed_out: bool) -> SearchModel {
    if attempt >= HELPER_COUNT {
        if found_helper {
            SearchModel::Failed("clipboard does not contain a supported image"@)
        } else {
            SearchModel::Failed("image paste on Linux requires wl-paste or xclip"@)
        }
    } else if timed_out {
        SearchModel::Failed("clipboard image paste timed out"@)
    } else {
        SearchModel::Try { attempt, found_helper }
    }
}

/// The search after a program; `timed_out` says whether the time is over then.
pub open spec fn searched(
    attempt: usize,
    found_helper: bool,
    result: HelperResult,
    timed_out: bool,
) -> SearchModel {
    match result {
        HelperResult::Missing => next_attempt((attempt + 1) as usize, found_helper, timed_out),
        HelperResult::Failed(error) => SearchModel::Failed(error@),
        HelperResult::Ended(wrote) => if wrote {
            SearchModel::Found
        } else {
            next_attempt((attempt + 1) as usize, true, timed_out)
        },
    }
}

fn go_on(attempt: usize, found_helper: bool, timed_out: bool) -> (r: Search)
    ensures
        r@ == next_attempt(attempt, found_helper, timed_out),
{
    if attempt >= HELPER_COUNT {
        if found_helper {
            Search::Failed("clipboard does not contain a supported image".to_owned())
        } else {
            Search::Failed("image paste on Linux requires wl-paste or xclip".to_owned())
        }
    } else if timed_out {
        Search::Failed("clipboard image paste timed out".to_owned())
    } else {
        Search::Try { attempt, found_helper }
    }
}

/// Begins the search for a program that reads the clipboard.
pub fn begin_search(timed_out: bool) -> (r: Search)
    ensures
        r@ == next_attempt(0, false, timed_out),
{
    go_on(0, false, timed_out)
}

/// Goes on after a program; see `searched`.
pub fn settle_helper(
    attempt: usize,
    found_helper: bool,
    result: HelperResult,
    timed_out: bool,
) -> (r: Search)
    requires
        attempt < HELPER_COUNT,
    ensures
        r@ == searched(attempt, found_helper, result, timed_out),
{
    match result {
        HelperResult::Missing => go_on(attempt + 1, found_helper, timed_out),
        HelperResult::Failed(error) => Search::Failed(error),
        HelperResult::Ended(wrote) => if wrote {
            Search::Found
        } else {
            go_on(attempt + 1, true, timed_out)
        },
    }
}

// ---------------------------------------------------------------------------
// Laws

/// Every program is tried before the search gives up, unless one fails or the
/// time is over.
pub proof fn every_helper_is_tried(attempt: usize, found_helper: bool, result: HelperResult)
    requires
        attempt + 1 < HELPER_COUNT,
        !(result is Failed),
        result != HelperResult::Ended(true),
    ensures
        searched(attempt, found_helper, result, false) == (SearchModel::Try {
            attempt: (attempt + 1) as usize,
            found_helper: found_helper || result is Ended,
        }),
{
}

/// The kind of an image is that of the bytes it begins with, whatever follows.
pub proof fn images_are_known_by_their_first_bytes(rest: Seq<u8>, size: Seq<u8>)
    requires
        size.len() == 4,
    ensures
        image_kind(seq![0x89u8, 0x50, 0x4e, 0x47, 0x0d, 0x0a, 0x1a, 0x0a] + rest) == Some(
            "image/png"@,
        ),
        image_kind(seq![0xffu8, 0xd8, 0xff] + rest) == Some("image/jpeg"@),
        image_kind(seq![0x47u8, 0x49, 0x46, 0x38, 0x37, 0x61] + rest) == Some("image/gif"@),
        image_kind(seq![0x47u8, 0x49, 0x46, 0x38, 0x39, 0x61] + rest) == Some("image/gif"@),
        image_kind(
            seq![0x52u8, 0x49, 0x46, 0x46] + size + seq![0x57u8, 0x45, 0x42, 0x50] + rest,
        ) == Some("image/webp"@),
{
    let png = seq![0x89u8, 0x50, 0x4e, 0x47, 0x0d, 0x0a, 0x1a, 0x0a];
    let jpeg = seq![0xffu8, 0xd8, 0xff];
    let gif87 = seq![0x47u8, 0x49, 0x46, 0x38, 0x37, 0x61];
    let gif89 = seq![0x47u8, 0x49, 0x46, 0x38, 0x39, 0x61];
    let riff = seq![0x52u8, 0x49, 0x46, 0x46];
    let webp = seq![0x57u8, 0x45, 0x42, 0x50];
    heads_are_told_apart(png + rest, png);
    heads_are_told_apart(jpeg + rest, jpeg);
    heads_are_told_apart(gif87 + rest, gif87);
    heads_are_told_apart(gif89 + rest, gif89);
    let w = riff + size + webp + rest;
    assert(w =~= riff + (size + webp + rest));
    heads_are_told_apart(w, riff);
    assert(w.subrange(8, 12) =~= webp);
    assert((png + rest).take(8) =~= png);
    assert((jpeg + rest).take(3) =~= jpeg);
    assert((gif87 + rest).take(6) =~= gif87);
    assert((gif89 + rest).take(6) =~= gif89);
    assert(w.take(4) =~= riff);
}

proof fn heads_are_told_apart(bytes: Seq<u8>, head: Seq<u8>)
    requires
        head.len() > 0,
        head.len() <= bytes.len(),
        forall|i: int| 0 <= i < head.len() ==> bytes[i] == head[i],
    ensures
        forall|other: Seq<u8>|
            other.len() > 0 && other[0] != head[0] ==> !#[trigger] begins_with(bytes, other),
{
    assert forall|other: Seq<u8>|
        other.len() > 0 && other[0] != head[0] implies !#[trigger] begins_with(bytes, other) by {
        if begins_with(bytes, other) {
            assert(bytes.take(other.len() as int)[0] == bytes[0]);
            assert(bytes[0] == head[0]);
        }
    }
}

/// An image is staged exactly where it is of a known kind, is not empty and
/// has no more than five mebibytes.
pub proof fn images_are_staged_within_bounds(bytes: Seq<u8>)
    ensures
        staged_kind(bytes) is Ok <==> 0 < bytes.len() <= 5 * 1024 * 1024 && image_kind(bytes)
            is Some,
        staged_kind(bytes) matches Ok(kind) ==> image_kind(bytes) == Some(kind),
{
    assert(5 * 1024 * 1024 == 5242880);
}

/// Every kind of image is stored under an ending of its own.
pub proof fn endings_name_the_kind()
    ensures
        extension_of("image/png"@) == "png"@,
        extension_of("image/jpeg"@) == "jpg"@,
        extension_of("image/gif"@) == "gif"@,
        extension_of("image/webp"@) == "webp"@,
{
    reveal_strlit("image/png");
    reveal_strlit("image/jpeg");
    reveal_strlit("image/gif");
    reveal_strlit("image/webp");
    assert("image/png"@[6] == 'p' && "image/gif"@[6] == 'g' && "image/jpeg"@[6] == 'j'
        && "image/webp"@[6] == 'w');
    assert("image/png"@.len() == 9 && "image/gif"@.len() == 9 && "image/jpeg"@.len() == 10
        && "image/webp"@.len() == 10);
}

/// Both helpers are asked for every kind of image, the one for Wayland before
/// the one for X11.
pub proof fn helpers_are_asked_for_every_kind(i: int)
    requires
        0 <= i < 4,
    ensures
        helper_command(i).0 == "wl-paste"@,
        helper_command(i).1.len() == 2 && helper_command(i).1[1] == helper_kind(i),
        helper_command(i + 4).0 == "xclip"@,
        helper_command(i + 4).1.len() == 5 && helper_command(i + 4).1[3] == helper_kind(i),
        helper_command(i + 4).1[4] == "-o"@,
        helper_kind(0) == "image/png"@,
        helper_kind(1) == "image/jpeg"@,
        helper_kind(2) == "image/webp"@,
        helper_kind(3) == "image/gif"@,
{
}

/// The search ends with the first helper that wrote an image, with an error of
/// a helper, when the time is over, or after the last helper; then it says
/// whether there was a helper at all.
pub proof fn searches_end(attempt: usize, found_helper: bool, timed_out: bool)
    requires
        attempt < 8,
    ensures
        searched(attempt, found_helper, HelperResult::Ended(true), timed_out) is Found,
        attempt == 7 ==> searched(attempt, found_helper, HelperResult::Ended(false), timed_out)
            == SearchModel::Failed("clipboard does not contain a supported image"@),
        attempt == 7 && !found_helper ==> searched(
            attempt,
            found_helper,
            HelperResult::Missing,
            timed_out,
        ) == SearchModel::Failed("image paste on Linux requires wl-paste or xclip"@),
        attempt == 7 && found_helper ==> searched(
            attempt,
            found_helper,
            HelperResult::Missing,
            timed_out,
        ) == SearchModel::Failed("clipboard does not contain a supported image"@),
        attempt < 7 ==> searched(attempt, found_helper, HelperResult::Missing, true)
            == SearchModel::Failed("clipboard image paste timed out"@),
{
}

/// An image stands in the text by its number: images of different numbers have
/// different marks.
pub proof fn images_are_marked_by_their_number(id: usize, other: usize)
    ensures
        image_marker(id) == "[Image #"@ + decimal(id as nat) + "]"@,
        id != other ==> image_marker(id) != image_marker(other),
{
    crate::text::decimal_reads_back(id as nat);
    crate::text::decimal_reads_back(other as nat);
    if id != other && image_marker(id) == image_marker(other) {
        reveal_strlit("[Image #");
        reveal_strlit("]");
        let a = image_marker(id);
        assert(a.subrange(8, a.len() - 1) =~= decimal(id as nat));
        assert(image_marker(other).subrange(8, a.len() - 1) =~= decimal(other as nat));
    }
}

} // verus!
