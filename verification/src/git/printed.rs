//! What git prints, written out: reading it gives back what was written.

use vstd::prelude::*;
use crate::git::repository::{
    branch_header, branch_lines, byte_length, byte_prefix, commit_diff, field, hunk_ranges,
    log_entries, log_entry, porcelain_status, range_char, range_start, scan_lines, scan_tokens,
    terminated_parts, unified_diff, unknown_branch, untracked_diff, with_entry, DiffScan,
    MAX_DIFF_BYTES, MAX_DIFF_LINES,
};
use crate::git::view::{DiffKind, EntryModel, FileModel, GitSection, LineModel, StatusModel};
use crate::text::{
    decimal, digit, joined, parted, split_on, starts, text_lines, trimmed, whitespace,
    without_leading, words_of,
};

verus! {

broadcast use vstd::string::group_string_axioms;

// ---------------------------------------------------------------------------
// Hunks

/// A line of a hunk.
pub struct Change {
    pub kind: DiffKind,
    pub text: Seq<char>,
}

/// A hunk of a diff: where it begins in the old and in the new file, how many
/// lines it takes there, what stands behind its header, and its lines.
pub struct Hunk {
    pub old: nat,
    pub new: nat,
    pub old_size: nat,
    pub new_size: nat,
    pub note: Seq<char>,
    pub body: Seq<Change>,
}

/// The character before a line of a hunk.
pub open spec fn sign(kind: DiffKind) -> char {
    match kind {
        DiffKind::Added => '+',
        DiffKind::Removed => '-',
        _ => ' ',
    }
}

impl Hunk {
    pub open spec fn ranges(self) -> Seq<char> {
        "-"@ + decimal(self.old) + ","@ + decimal(self.old_size) + " +"@ + decimal(self.new)
            + ","@ + decimal(self.new_size) + " "@
    }

    /// The lines that git prints for the hunk.
    pub open spec fn printed(self) -> Seq<Seq<char>> {
        seq!["@@ "@ + self.ranges() + "@@"@ + self.note] + self.body.map_values(
            |c: Change| seq![sign(c.kind)] + c.text,
        )
    }

    /// The lines of the old file among the first lines of the hunk.
    pub open spec fn old_lines(self, k: int) -> nat
        decreases k,
    {
        if k <= 0 {
            0
        } else {
            self.old_lines(k - 1) + if self.body[k - 1].kind == DiffKind::Added {
                0nat
            } else {
                1nat
            }
        }
    }

    pub open spec fn new_lines(self, k: int) -> nat
        decreases k,
    {
        if k <= 0 {
            0
        } else {
            self.new_lines(k - 1) + if self.body[k - 1].kind == DiffKind::Removed {
                0nat
            } else {
                1nat
            }
        }
    }

    /// A line as it is to be shown: a context or removed line has the number
    /// that it has in the old file, a context or added line that in the new.
    pub open spec fn shown_line(self, k: int) -> LineModel {
        let c = self.body[k];
        LineModel {
            old_no: if c.kind == DiffKind::Added {
                None
            } else {
                Some((self.old + self.old_lines(k)) as usize)
            },
            new_no: if c.kind == DiffKind::Removed {
                None
            } else {
                Some((self.new + self.new_lines(k)) as usize)
            },
            kind: c.kind,
            text: c.text,
        }
    }

    pub open spec fn shown(self) -> Seq<LineModel> {
        seq![
            LineModel {
                old_no: None,
                new_no: None,
                kind: DiffKind::Hunk,
                text: "@@ "@ + self.ranges() + "@@"@,
            },
        ] + Seq::new(self.body.len(), |k: int| self.shown_line(k))
    }

    /// Whether the lines of the hunk are lines of files, and its numbers fit.
    pub open spec fn fits(self) -> bool {
        &&& self.old + self.body.len() <= usize::MAX
        &&& self.new + self.body.len() <= usize::MAX
        &&& forall|k: int|
            0 <= k < self.body.len() ==> (#[trigger] self.body[k]).kind == DiffKind::Added
                || self.body[k].kind == DiffKind::Removed || self.body[k].kind
                == DiffKind::Context
    }
}

proof fn ranges_stop(a: Seq<char>, b: Seq<char>)
    requires
        forall|i: int| 0 <= i < a.len() ==> range_char(#[trigger] a[i]),
        b.len() > 0 ==> !range_char(b[0]),
    ensures
        hunk_ranges(a + b) == a,
    decreases a.len(),
{
    if a.len() == 0 {
        assert(a + b =~= b);
        assert(hunk_ranges(b) =~= a);
    } else {
        let rest = a.skip(1);
        assert forall|i: int| 0 <= i < rest.len() implies range_char(#[trigger] rest[i]) by {
            assert(rest[i] == a[i + 1]);
        }
        ranges_stop(rest, b);
        assert((a + b).skip(1) =~= rest + b);
        assert(seq![a[0]] + rest =~= a);
    }
}

/// A range such as `-12,7` names the line before the comma.
proof fn range_names_its_start(word: Seq<char>, mark: char, start: nat, size: nat)
    requires
        word == seq![mark] + decimal(start) + ","@ + decimal(size),
        !digit(mark),
        start <= usize::MAX,
    ensures
        crate::text::parsed_unsigned(
            split_on(without_leading(word, mark), ',')[0],
            usize::MAX as nat,
        ) == Some(start),
{
    reveal_strlit(",");
    crate::text::decimal_reads_back(start);
    let d = decimal(start);
    let range = d + ","@ + decimal(size);
    assert(word.skip(1) =~= range);
    assert(digit(d[0]));
    reveal_with_fuel(without_leading, 2);
    assert(without_leading(word, mark) == range);
    assert(!d.contains(',')) by {
        assert forall|i: int| 0 <= i < d.len() implies d[i] != ',' by {
            assert(digit(d[i]));
        }
    }
    crate::text::split_without_separator(d, ',');
    assert(range =~= d.push(',') + decimal(size));
    crate::text::split_at_separator(d, decimal(size), ',');
    assert(split_on(range, ',')[0] == d);
}

proof fn digits_are_no_white_space(n: nat)
    ensures
        forall|i: int| 0 <= i < decimal(n).len() ==> digit(#[trigger] decimal(n)[i]),
        decimal(n).len() > 0,
{
    crate::text::decimal_reads_back(n);
}

proof fn header_is_read(h: Hunk)
    requires
        h.old <= usize::MAX,
        h.new <= usize::MAX,
    ensures
        ({
            let raw = "@@ "@ + h.ranges() + "@@"@ + h.note;
            &&& starts(raw, "@@ "@)
            &&& hunk_ranges(raw.skip(3)) == h.ranges()
            &&& range_start(h.ranges(), 0, '-') == h.old
            &&& range_start(h.ranges(), 1, '+') == h.new
        }),
{
    reveal_strlit("@@ ");
    reveal_strlit("@@");
    reveal_strlit("-");
    reveal_strlit(",");
    reveal_strlit(" +");
    reveal_strlit(" ");
    let raw = "@@ "@ + h.ranges() + "@@"@ + h.note;
    assert(raw.take(3) =~= "@@ "@);
    assert(raw.skip(3) =~= h.ranges() + ("@@"@ + h.note));
    digits_are_no_white_space(h.old);
    digits_are_no_white_space(h.old_size);
    digits_are_no_white_space(h.new);
    digits_are_no_white_space(h.new_size);
    let first = seq!['-'] + decimal(h.old) + ","@ + decimal(h.old_size);
    let second = seq!['+'] + decimal(h.new) + ","@ + decimal(h.new_size);
    let ranges = h.ranges();
    assert(ranges =~= first + seq![' '] + second + seq![' ']);
    assert forall|i: int| 0 <= i < first.len() implies range_char(#[trigger] first[i])
        && first[i] != ' ' && !whitespace(first[i]) by {
        let d = decimal(h.old);
        let n = decimal(h.old_size);
        if 1 <= i < 1 + d.len() {
            assert(first[i] == d[i - 1]);
            assert(digit(d[i - 1]));
        } else if i > 1 + d.len() {
            assert(first[i] == n[i - 2 - d.len()]);
            assert(digit(n[i - 2 - d.len()]));
        }
    }
    assert forall|i: int| 0 <= i < second.len() implies range_char(#[trigger] second[i])
        && second[i] != ' ' && !whitespace(second[i]) by {
        let d = decimal(h.new);
        let n = decimal(h.new_size);
        if 1 <= i < 1 + d.len() {
            assert(second[i] == d[i - 1]);
            assert(digit(d[i - 1]));
        } else if i > 1 + d.len() {
            assert(second[i] == n[i - 2 - d.len()]);
            assert(digit(n[i - 2 - d.len()]));
        }
    }
    assert forall|i: int| 0 <= i < ranges.len() implies range_char(#[trigger] ranges[i]) by {
        if i < first.len() {
            assert(ranges[i] == first[i]);
        } else if first.len() < i < first.len() + 1 + second.len() {
            assert(ranges[i] == second[i - first.len() - 1]);
        }
    }
    ranges_stop(ranges, "@@"@ + h.note);
    let none = Seq::<char>::empty();
    crate::text::words_are_runs(none, first);
    assert(none + first =~= first);
    assert(words_of(none) =~= Seq::empty());
    crate::text::white_space_is_no_word(first, ' ');
    crate::text::words_are_runs(first.push(' '), second);
    crate::text::white_space_is_no_word(first.push(' ') + second, ' ');
    assert(ranges =~= (first.push(' ') + second).push(' '));
    let words = words_of(ranges);
    assert(words =~= seq![first, second]);
    range_names_its_start(first, '-', h.old, h.old_size);
    range_names_its_start(second, '+', h.new, h.new_size);
}

/// The state of a reading after the header and the first lines of a hunk.
spec fn in_hunk(before: DiffScan, now: DiffScan, h: Hunk, k: int) -> bool {
    &&& now.lines == before.lines + h.shown().take(k + 1)
    &&& now.old_no == h.old + h.old_lines(k)
    &&& now.new_no == h.new + h.new_lines(k)
    &&& now.in_hunk
    &&& now.binary == before.binary
    &&& now.truncated == before.truncated
    &&& !now.stopped
    &&& now.added == before.added + h.new_lines(k) - context_lines(h, k)
    &&& now.removed == before.removed + h.old_lines(k) - context_lines(h, k)
}

/// The lines among the first of a hunk that are in both files.
spec fn context_lines(h: Hunk, k: int) -> int
    decreases k,
{
    if k <= 0 {
        0
    } else {
        context_lines(h, k - 1) + if h.body[k - 1].kind == DiffKind::Context {
            1int
        } else {
            0int
        }
    }
}

proof fn lines_are_bounded(h: Hunk, k: int)
    requires
        0 <= k <= h.body.len(),
    ensures
        h.old_lines(k) <= k,
        h.new_lines(k) <= k,
    decreases k,
{
    if k > 0 {
        lines_are_bounded(h, k - 1);
    }
}

proof fn hunk_is_read_so_far(raws: Seq<Seq<char>>, truncated: bool, h: Hunk, k: int)
    requires
        h.fits(),
        !scan_lines(raws, truncated).stopped,
        scan_lines(raws, truncated).lines.len() + 1 + h.body.len() <= MAX_DIFF_LINES,
        0 <= k <= h.body.len(),
    ensures
        in_hunk(
            scan_lines(raws, truncated),
            scan_lines(raws + h.printed().take(k + 1), truncated),
            h,
            k,
        ),
    decreases k,
{
    let before = scan_lines(raws, truncated);
    let printed = h.printed();
    let all = raws + printed.take(k + 1);
    let now = scan_lines(all, truncated);
    let raw = printed[k];
    assert(all.drop_last() =~= raws + printed.take(k));
    assert(all.last() == raw);
    let last = scan_lines(raws + printed.take(k), truncated);
    reveal_strlit("diff --git ");
    reveal_strlit("Binary files ");
    reveal_strlit("@@ ");
    assert("diff --git "@[0] == 'd' && "Binary files "@[0] == 'B' && "@@ "@[0] == '@');
    assert("diff --git "@.len() > 0 && "Binary files "@.len() > 0 && "@@ "@.len() == 3);
    if k == 0 {
        assert(raws + printed.take(0) =~= raws);
        header_is_read(h);
        assert(raw.take(3)[0] == raw[0]);
        assert(raw[0] == '@');
        assert(!starts(raw, "diff --git "@)) by {
            if starts(raw, "diff --git "@) {
                assert(raw.take("diff --git "@.len() as int)[0] == raw[0]);
            }
        }
        assert(!starts(raw, "Binary files "@)) by {
            if starts(raw, "Binary files "@) {
                assert(raw.take("Binary files "@.len() as int)[0] == raw[0]);
            }
        }
        assert(now.lines =~= before.lines + h.shown().take(1));
    } else {
        hunk_is_read_so_far(raws, truncated, h, k - 1);
        lines_are_bounded(h, k - 1);
        let c = h.body[k - 1];
        assert(raw == seq![sign(c.kind)] + c.text);
        assert(raw[0] == sign(c.kind));
        assert(raw.skip(1) =~= c.text);
        assert(!starts(raw, "diff --git "@)) by {
            if starts(raw, "diff --git "@) {
                assert(raw.take("diff --git "@.len() as int)[0] == raw[0]);
            }
        }
        assert(!starts(raw, "Binary files "@)) by {
            if starts(raw, "Binary files "@) {
                assert(raw.take("Binary files "@.len() as int)[0] == raw[0]);
            }
        }
        assert(!starts(raw, "@@ "@)) by {
            if starts(raw, "@@ "@) {
                assert(raw.take("@@ "@.len() as int)[0] == raw[0]);
            }
        }
        assert(last.lines.len() < MAX_DIFF_LINES);
        assert(h.shown()[k] == h.shown_line(k - 1));
        assert(h.shown().take(k + 1) =~= h.shown().take(k).push(h.shown()[k]));
        assert(now.lines =~= before.lines + h.shown().take(k + 1));
    }
}

/// A hunk is shown as git wrote it, whatever was read before it: its header,
/// then its lines in their order. The first line of the old file has the number
/// that the header names for the old file, each further one the next number,
/// and so for the new file.
pub proof fn hunks_are_numbered_by_their_headers(
    raws: Seq<Seq<char>>,
    truncated: bool,
    h: Hunk,
)
    requires
        h.fits(),
        !scan_lines(raws, truncated).stopped,
        scan_lines(raws, truncated).lines.len() + 1 + h.body.len() <= MAX_DIFF_LINES,
    ensures
        ({
            let before = scan_lines(raws, truncated);
            let now = scan_lines(raws + h.printed(), truncated);
            &&& now.lines == before.lines + h.shown()
            &&& !now.stopped
            &&& now.binary == before.binary
            &&& now.truncated == before.truncated
        }),
{
    let n = h.body.len() as int;
    hunk_is_read_so_far(raws, truncated, h, n);
    assert(h.printed().take(n + 1) =~= h.printed());
    assert(h.shown().take(n + 1) =~= h.shown());
}

/// The header of a file between hunks, from its first line up to the next
/// hunk, shows nothing: neither its `---` nor its `+++` counts as a change.
pub proof fn file_headers_show_nothing(
    raws: Seq<Seq<char>>,
    truncated: bool,
    header: Seq<Seq<char>>,
)
    requires
        !scan_lines(raws, truncated).stopped,
        scan_lines(raws, truncated).lines.len() < MAX_DIFF_LINES,
        header.len() > 0 ==> starts(header[0], "diff --git "@),
        forall|i: int|
            0 <= i < header.len() ==> !starts(#[trigger] header[i], "@@ "@) && !starts(
                header[i],
                "Binary files "@,
            ),
    ensures
        ({
            let before = scan_lines(raws, truncated);
            let now = scan_lines(raws + header, truncated);
            &&& now.lines == before.lines
            &&& now.added == before.added && now.removed == before.removed
            &&& !now.stopped && now.binary == before.binary && now.truncated == before.truncated
            &&& header.len() > 0 ==> !now.in_hunk
        }),
    decreases header.len(),
{
    if header.len() == 0 {
        assert(raws + header =~= raws);
    } else {
        let shorter = header.drop_last();
        assert forall|i: int| 0 <= i < shorter.len() implies !starts(#[trigger] shorter[i], "@@ "@)
            && !starts(shorter[i], "Binary files "@) by {
            assert(shorter[i] == header[i]);
        }
        file_headers_show_nothing(raws, truncated, shorter);
        assert((raws + header).drop_last() =~= raws + shorter);
        assert((raws + header).last() == header[header.len() - 1]);
    }
}

/// A file whose contents are not text is reported as such and shows nothing
/// more.
pub proof fn binary_files_are_reported(raws: Seq<Seq<char>>, truncated: bool, raw: Seq<char>)
    requires
        !scan_lines(raws, truncated).stopped,
        starts(raw, "Binary files "@),
    ensures
        scan_lines(raws.push(raw), truncated).binary,
        scan_lines(raws.push(raw), truncated).lines == scan_lines(raws, truncated).lines,
{
    assert(raws.push(raw).drop_last() =~= raws);
    reveal_strlit("Binary files ");
    reveal_strlit("diff --git ");
    assert("Binary files "@[0] == 'B' && "diff --git "@[0] == 'd');
    assert(raw.take("Binary files "@.len() as int)[0] == raw[0]);
    if starts(raw, "diff --git "@) {
        assert(raw.take("diff --git "@.len() as int)[0] == raw[0]);
    }
}

/// The lines that git prints for hunks.
pub open spec fn printed_hunks(hunks: Seq<Hunk>) -> Seq<Seq<char>>
    decreases hunks.len(),
{
    if hunks.len() == 0 {
        Seq::empty()
    } else {
        printed_hunks(hunks.drop_last()) + hunks.last().printed()
    }
}

/// Hunks as they are to be shown.
pub open spec fn shown_hunks(hunks: Seq<Hunk>) -> Seq<LineModel>
    decreases hunks.len(),
{
    if hunks.len() == 0 {
        Seq::empty()
    } else {
        shown_hunks(hunks.drop_last()) + hunks.last().shown()
    }
}

proof fn hunks_are_read(header: Seq<Seq<char>>, hunks: Seq<Hunk>)
    requires
        header.len() > 0 ==> starts(header[0], "diff --git "@),
        forall|i: int|
            0 <= i < header.len() ==> !starts(#[trigger] header[i], "@@ "@) && !starts(
                header[i],
                "Binary files "@,
            ),
        forall|i: int| 0 <= i < hunks.len() ==> (#[trigger] hunks[i]).fits(),
        shown_hunks(hunks).len() <= MAX_DIFF_LINES,
    ensures
        ({
            let now = scan_lines(header + printed_hunks(hunks), false);
            &&& now.lines == shown_hunks(hunks)
            &&& !now.stopped && !now.binary && !now.truncated
        }),
    decreases hunks.len(),
{
    let none = Seq::<Seq<char>>::empty();
    if hunks.len() == 0 {
        file_headers_show_nothing(none, false, header);
        assert(none + header =~= header + printed_hunks(hunks));
        assert(scan_lines(header, false).lines =~= shown_hunks(hunks));
    } else {
        let before = hunks.drop_last();
        let h = hunks.last();
        assert forall|i: int| 0 <= i < before.len() implies (#[trigger] before[i]).fits() by {
            assert(before[i] == hunks[i]);
        }
        assert(hunks[hunks.len() - 1].fits());
        assert(h.shown().len() == 1 + h.body.len());
        hunks_are_read(header, before);
        hunks_are_numbered_by_their_headers(header + printed_hunks(before), false, h);
        assert(header + printed_hunks(hunks) =~= header + printed_hunks(before) + h.printed());
    }
}

/// The diff of a file is shown hunk by hunk, each line with the numbers that it
/// has in the two files.
pub proof fn diffs_are_shown_as_printed(
    path: Seq<char>,
    staged: bool,
    output: Seq<char>,
    header: Seq<Seq<char>>,
    hunks: Seq<Hunk>,
)
    requires
        byte_length(output) <= MAX_DIFF_BYTES,
        text_lines(output) == header + printed_hunks(hunks),
        header.len() > 0 ==> starts(header[0], "diff --git "@),
        forall|i: int|
            0 <= i < header.len() ==> !starts(#[trigger] header[i], "@@ "@) && !starts(
                header[i],
                "Binary files "@,
            ),
        forall|i: int| 0 <= i < hunks.len() ==> (#[trigger] hunks[i]).fits(),
        shown_hunks(hunks).len() <= MAX_DIFF_LINES,
    ensures
        ({
            let diff = unified_diff(path, staged, output);
            &&& diff.path == path && diff.staged == staged && !diff.untracked
            &&& diff.commit is None
            &&& diff.lines == shown_hunks(hunks)
            &&& !diff.binary && !diff.truncated
        }),
{
    hunks_are_read(header, hunks);
    assert(byte_prefix(output, MAX_DIFF_BYTES as nat) == output);
}

/// The diff of a commit is that of what git printed for it, under the short
/// hash and the subject, and remembers the commit.
pub proof fn commit_diffs_are_those_printed(entry: EntryModel, output: Seq<char>)
    ensures
        ({
            let diff = commit_diff(entry, output);
            &&& diff.lines == unified_diff(entry.short, false, output).lines
            &&& diff.commit == Some(entry.hash)
            &&& starts(diff.path, entry.short + " "@)
            &&& !diff.staged && !diff.untracked
        }),
{
    let title = entry.short + " "@;
    let path = commit_diff(entry, output).path;
    assert(path.take(title.len() as int) =~= title);
}

/// A new file is shown whole: each line is added and numbered from one.
pub proof fn new_files_are_shown_whole(path: Seq<char>, bytes: Seq<u8>)
    requires
        bytes.len() <= MAX_DIFF_BYTES,
        vstd::utf8::valid_utf8(bytes),
        text_lines(vstd::utf8::decode_utf8(bytes)).len() <= MAX_DIFF_LINES,
    ensures
        ({
            let diff = untracked_diff(path, bytes);
            let lines = text_lines(vstd::utf8::decode_utf8(bytes));
            &&& diff.path == path && diff.untracked && !diff.staged && diff.commit is None
            &&& !diff.binary && !diff.truncated
            &&& diff.added == lines.len() && diff.removed == 0
            &&& diff.lines.len() == lines.len()
            &&& forall|i: int|
                0 <= i < lines.len() ==> (#[trigger] diff.lines[i]).text == lines[i]
                    && diff.lines[i].kind == DiffKind::Added && diff.lines[i].new_no == Some(
                    (i + 1) as usize,
                ) && diff.lines[i].old_no is None
        }),
{
}

/// A file that is too long, and one that is no text, show no lines and say so.
pub proof fn files_that_cannot_be_shown_say_so(path: Seq<char>, bytes: Seq<u8>)
    ensures
        bytes.len() > MAX_DIFF_BYTES ==> untracked_diff(path, bytes).truncated && untracked_diff(
            path,
            bytes,
        ).lines.len() == 0,
        bytes.len() <= MAX_DIFF_BYTES && !vstd::utf8::valid_utf8(bytes) ==> untracked_diff(
            path,
            bytes,
        ).binary && untracked_diff(path, bytes).lines.len() == 0,
        untracked_diff(path, bytes).path == path,
        untracked_diff(path, bytes).untracked,
{
}

// ---------------------------------------------------------------------------
// Status

/// Every entry of the status is listed in the section where it has changed:
/// by its first column among the staged files, by its second among the
/// unstaged ones, an unknown file among the untracked ones. A conflict is to be
/// resolved in the working tree and counts as unstaged alone, and an ignored
/// file is left out. The other files stay as they are.
pub proof fn every_change_is_listed(
    s: StatusModel,
    x: char,
    y: char,
    path: Seq<char>,
    renamed_from: Option<Seq<char>>,
)
    ensures
        ({
            let now = with_entry(s, x, y, path, renamed_from);
            let file = |section: GitSection| FileModel { path, x, y, section, renamed_from };
            let conflict = x == 'U' || y == 'U' || (x == 'A' && y == 'A') || (x == 'D' && y == 'D');
            let unknown = x == '?' && y == '?';
            &&& now.staged == if x != ' ' && x != '!' && !unknown && !conflict {
                s.staged.push(file(GitSection::Staged))
            } else {
                s.staged
            }
            &&& now.unstaged == if conflict && x != '!' || (y != ' ' && x != '!' && !unknown) {
                s.unstaged.push(file(GitSection::Unstaged))
            } else {
                s.unstaged
            }
            &&& now.untracked == if unknown {
                s.untracked.push(file(GitSection::Untracked))
            } else {
                s.untracked
            }
            &&& now.branch == s.branch && now.upstream == s.upstream
            &&& now.ahead == s.ahead && now.behind == s.behind
        }),
{
}

/// The text that git prints for an entry: the two columns, a space, the path,
/// and for a rename or a copy the path that it came from behind it.
pub open spec fn printed_entry(x: char, y: char, path: Seq<char>, renamed_from: Option<Seq<char>>) -> Seq<
    char,
> {
    seq![x, y, ' '] + path + seq!['\0'] + match renamed_from {
        Some(from) => from + seq!['\0'],
        None => Seq::empty(),
    }
}

/// Whether what has been read of a status ends with a whole entry.
pub open spec fn complete(output: Seq<char>) -> bool {
    let tokens = terminated_parts(output, '\0');
    &&& output.len() > 0 && output.last() == '\0'
    &&& tokens.len() > 0 && starts(tokens[0], "## "@)
    &&& scan_tokens(branch_header(tokens[0], unknown_branch()), tokens.skip(1)).pending is None
}

proof fn token_is_appended(output: Seq<char>, token: Seq<char>)
    requires
        output.len() > 0,
        output.last() == '\0',
        !token.contains('\0'),
    ensures
        terminated_parts(output + token + seq!['\0'], '\0') == terminated_parts(
            output,
            '\0',
        ).push(token),
{
    let inner = output.drop_last();
    let none = Seq::<char>::empty();
    assert(output =~= inner.push('\0') + none);
    crate::text::split_at_separator(inner, none, '\0');
    crate::text::split_joins_back(inner, '\0');
    assert(split_on(none, '\0').len() == 1 && split_on(none, '\0')[0].len() == 0);
    let parts = split_on(inner, '\0');
    assert((parts + split_on(none, '\0')).drop_last() =~= parts);
    assert(terminated_parts(output, '\0') == parts);
    let longer = inner.push('\0') + token;
    crate::text::split_at_separator(inner, token, '\0');
    crate::text::split_without_separator(token, '\0');
    assert(output + token + seq!['\0'] =~= longer.push('\0') + none);
    crate::text::split_at_separator(longer, none, '\0');
    let all = split_on(longer, '\0') + split_on(none, '\0');
    assert(all.drop_last() =~= parts.push(token));
}

/// The status is read entry by entry: what was read before stays, and the entry
/// is added with its columns, its path and, for a rename or a copy, the path
/// that it came from.
pub proof fn status_is_read_entry_by_entry(
    output: Seq<char>,
    x: char,
    y: char,
    path: Seq<char>,
    renamed_from: Option<Seq<char>>,
)
    requires
        complete(output),
        x < '\u{80}' && y < '\u{80}',
        x != '\0' && y != '\0',
        path.len() > 0,
        !path.contains('\0'),
        renamed_from is Some <==> x == 'R' || x == 'C',
        renamed_from matches Some(from) ==> !from.contains('\0'),
    ensures
        porcelain_status(output + printed_entry(x, y, path, renamed_from)) == with_entry(
            porcelain_status(output),
            x,
            y,
            path,
            renamed_from,
        ),
        complete(output + printed_entry(x, y, path, renamed_from)),
{
    let tokens = terminated_parts(output, '\0');
    let token = seq![x, y, ' '] + path;
    assert forall|i: int| 0 <= i < token.len() implies token[i] != '\0' by {
        if i >= 3 {
            assert(path[i - 3] != '\0');
        }
    }
    token_is_appended(output, token);
    assert(token.skip(3) =~= path);
    let header = tokens[0];
    let start = branch_header(header, unknown_branch());
    let first = output + token + seq!['\0'];
    let more = tokens.push(token);
    assert(more.skip(1) =~= tokens.skip(1).push(token));
    assert(more.skip(1).drop_last() =~= tokens.skip(1));
    assert(more.skip(1).last() == token);
    match renamed_from {
        None => {
            assert(output + printed_entry(x, y, path, renamed_from) =~= first);
        },
        Some(from) => {
            token_is_appended(first, from);
            let whole = more.push(from);
            assert(output + printed_entry(x, y, path, renamed_from) =~= first + from + seq!['\0']);
            assert(whole.skip(1) =~= more.skip(1).push(from));
            assert(whole.skip(1).drop_last() =~= more.skip(1));
            assert(whole.skip(1).last() == from);
        },
    }
}

// ---------------------------------------------------------------------------
// The branch

proof fn nothing_parts(s: Seq<char>, sep: Seq<char>, c: char)
    requires
        sep.len() > 0,
        sep.contains(c),
        !s.contains(c),
    ensures
        parted(s, sep) is None,
{
    crate::text::index_from_finds(s, sep, 0);
    match crate::text::index_of(s, sep) {
        Some(i) => {
            let k = choose|k: int| 0 <= k < sep.len() && sep[k] == c;
            assert(s.subrange(i, i + sep.len())[k] == s[i + k]);
        },
        None => {},
    }
}

/// A branch without an upstream is named by its header.
pub proof fn lone_branches_are_named(branch: Seq<char>, s: StatusModel)
    requires
        !branch.contains('.') && !branch.contains('[') && !branch.contains(' '),
    ensures
        branch_header("## "@ + branch, s).branch == branch,
        branch_header("## "@ + branch, s).upstream == s.upstream,
        branch_header("## "@ + branch, s).ahead == s.ahead,
        branch_header("## "@ + branch, s).behind == s.behind,
{
    reveal_strlit("## ");
    reveal_strlit(" [");
    reveal_strlit("...");
    reveal_strlit("HEAD (no branch)");
    reveal_strlit("No commits yet on ");
    let header = "## "@ + branch;
    assert(header.take(3) =~= "## "@);
    assert(header.skip(3) =~= branch);
    assert(" ["@[1] == '[' && "..."@[0] == '.');
    nothing_parts(branch, " ["@, '[');
    nothing_parts(branch, "..."@, '.');
    assert("HEAD (no branch)"@[4] == ' ');
    assert("No commits yet on "@[2] == ' ');
    if branch == "HEAD (no branch)"@ {
        assert(branch[4] == ' ');
    }
    if starts(branch, "No commits yet on "@) {
        assert(branch.take("No commits yet on "@.len() as int)[2] == branch[2]);
    }
}

proof fn parts_at(a: Seq<char>, sep: Seq<char>, b: Seq<char>, c: char)
    requires
        sep.len() > 0,
        sep[sep.len() - 1] == c,
        !a.contains(c),
        sep.len() == 2 ==> sep[0] != c,
        sep.len() == 2,
    ensures
        parted(a + sep + b, sep) == Some((a, b)),
{
    let s = a + sep + b;
    assert forall|p: int| 0 <= p < a.len() implies !#[trigger] crate::text::occurs_at(s, sep, p) by {
        if crate::text::occurs_at(s, sep, p) {
            assert(s.subrange(p, p + 2)[1] == s[p + 1]);
            if p + 1 < a.len() {
                assert(a[p + 1] == c);
            } else {
                assert(s[p + 1] == sep[0]);
            }
        }
    }
    crate::text::texts_part_at_the_separator(a, sep, b);
}

proof fn dots_part(a: Seq<char>, b: Seq<char>)
    requires
        !a.contains('.'),
    ensures
        parted(a + "..."@ + b, "..."@) == Some((a, b)),
{
    reveal_strlit("...");
    let sep = "..."@;
    let s = a + sep + b;
    assert(sep[0] == '.');
    assert forall|p: int| 0 <= p < a.len() implies !#[trigger] crate::text::occurs_at(s, sep, p) by {
        if crate::text::occurs_at(s, sep, p) {
            assert(s.subrange(p, p + 3)[0] == s[p]);
            assert(a[p] == '.');
        }
    }
    crate::text::texts_part_at_the_separator(a, sep, b);
}

/// A branch that follows another is named by its header, with how many commits
/// it is ahead and behind, each in its own place.
#[verifier::rlimit(40)]
pub proof fn divergence_is_counted(
    branch: Seq<char>,
    upstream: Seq<char>,
    ahead: usize,
    behind: usize,
    s: StatusModel,
)
    requires
        branch.len() > 0 && upstream.len() > 0,
        !branch.contains('.') && !branch.contains('[') && !upstream.contains('['),
    ensures
        ({
            let now = branch_header(
                "## "@ + branch + "..."@ + upstream + " [ahead "@ + decimal(ahead as nat)
                    + ", behind "@ + decimal(behind as nat) + "]"@,
                s,
            );
            &&& now.branch == branch
            &&& now.upstream == Some(upstream)
            &&& now.ahead == ahead
            &&& now.behind == behind
        }),
{
    reveal_strlit("## ");
    reveal_strlit(" [");
    reveal_strlit(" [ahead ");
    reveal_strlit(", behind ");
    reveal_strlit("]");
    reveal_strlit(", ");
    reveal_strlit("ahead ");
    reveal_strlit("behind ");
    reveal_strlit("...");
    let names = branch + "..."@ + upstream;
    let first = "ahead "@ + decimal(ahead as nat);
    let second = "behind "@ + decimal(behind as nat);
    let extra = first + ", "@ + second + "]"@;
    let header = "## "@ + branch + "..."@ + upstream + " [ahead "@ + decimal(ahead as nat)
        + ", behind "@ + decimal(behind as nat) + "]"@;
    digits_are_no_white_space(ahead as nat);
    digits_are_no_white_space(behind as nat);
    crate::text::decimal_reads_back(ahead as nat);
    crate::text::decimal_reads_back(behind as nat);
    assert(header.take(3) =~= "## "@);
    let h = header.skip(3);
    assert(h =~= names + " ["@ + extra);
    assert(!names.contains('[')) by {
        assert forall|i: int| 0 <= i < names.len() implies names[i] != '[' by {
            if i < branch.len() {
                assert(branch.contains(branch[i]));
            } else if i >= branch.len() + 3 {
                assert(upstream.contains(upstream[i - branch.len() - 3]));
            }
        }
    }
    parts_at(names, " ["@, extra, '[');
    dots_part(branch, upstream);
    let inner = first + ", "@ + second;
    assert(extra.drop_last() =~= inner);
    assert(extra.last() == ']');
    let d = decimal(behind as nat);
    assert(inner.last() == d[d.len() - 1]);
    assert(digit(d[d.len() - 1]));
    reveal_with_fuel(crate::text::without_trailing, 2);
    assert(crate::text::without_trailing(extra, ']') == inner);
    // The two parts of the divergence.
    let sep = ", "@;
    assert forall|p: int| 0 <= p < first.len() implies !#[trigger] crate::text::occurs_at(
        inner,
        sep,
        p,
    ) by {
        if crate::text::occurs_at(inner, sep, p) {
            assert(inner.subrange(p, p + 2)[0] == inner[p]);
            assert(first[p] == ',');
            if p >= 6 {
                assert(first[p] == decimal(ahead as nat)[p - 6]);
            }
        }
    }
    crate::text::index_from_finds(inner, sep, 0);
    assert(inner.subrange(first.len() as int, first.len() as int + 2) =~= sep);
    assert(crate::text::occurs_at(inner, sep, first.len() as int));
    assert(crate::text::index_of(inner, sep) == Some(first.len() as int));
    assert(inner.take(first.len() as int) =~= first);
    assert(inner.skip(first.len() as int + 2) =~= second);
    assert(sep[0] == ',');
    nothing_parts(second, sep, ',');
    assert(!crate::text::occurs(second, sep));
    reveal_with_fuel(crate::text::split_text, 3);
    let parts = crate::text::split_text(inner, sep);
    assert(parts =~= seq![first, second]);
    assert(first.take(6) =~= "ahead "@);
    assert(first.skip(6) =~= decimal(ahead as nat));
    assert(second.take(7) =~= "behind "@);
    assert(second.skip(7) =~= decimal(behind as nat));
    assert(second.take(6)[0] == 'b' && "ahead "@[0] == 'a');
    reveal_with_fuel(crate::git::repository::divergence, 3);
    assert(parts.drop_last() =~= seq![first]);
    assert(parts.drop_last().drop_last() =~= Seq::empty());
}

/// A branch without commits is named too, and a head on no branch is said to be
/// detached.
pub proof fn unborn_and_detached_heads_are_named(branch: Seq<char>, s: StatusModel)
    requires
        !branch.contains('.') && !branch.contains('['),
    ensures
        branch_header("## No commits yet on "@ + branch, s).branch == branch,
        branch_header("## HEAD (no branch)"@, s).branch == "(detached)"@,
{
    reveal_strlit("## ");
    reveal_strlit(" [");
    reveal_strlit("...");
    reveal_strlit("HEAD (no branch)");
    reveal_strlit("No commits yet on ");
    reveal_strlit("## No commits yet on ");
    reveal_strlit("## HEAD (no branch)");
    let header = "## No commits yet on "@ + branch;
    let names = "No commits yet on "@ + branch;
    assert(header.take(3) =~= "## "@);
    assert(header.skip(3) =~= names);
    assert forall|i: int| 0 <= i < names.len() implies names[i] != '[' && names[i] != '.' by {
        if i >= 18 {
            assert(branch.contains(branch[i - 18]));
        }
    }
    assert(" ["@[1] == '[' && "..."@[0] == '.');
    nothing_parts(names, " ["@, '[');
    nothing_parts(names, "..."@, '.');
    assert(names.take(18) =~= "No commits yet on "@);
    assert(names.skip(18) =~= branch);
    assert(names[0] == 'N' && "HEAD (no branch)"@[0] == 'H');
    let head = "## HEAD (no branch)"@;
    assert(head.take(3) =~= "## "@);
    assert(head.skip(3) =~= "HEAD (no branch)"@);
    nothing_parts("HEAD (no branch)"@, " ["@, '[');
    nothing_parts("HEAD (no branch)"@, "..."@, '.');
}

// ---------------------------------------------------------------------------
// History

/// The line that git prints for a commit.
pub open spec fn printed_commit(e: EntryModel) -> Seq<char> {
    joined(seq![e.hash, e.short, e.refs, e.author, e.date, e.subject], seq!['\u{1f}'])
}

proof fn parts_are_split(parts: Seq<Seq<char>>, u: char, rest: Seq<char>)
    requires
        parts.len() > 0,
        forall|i: int| 0 <= i < parts.len() ==> !(#[trigger] parts[i]).contains(u),
    ensures
        split_on(joined(parts, seq![u]), u) == parts,
        split_on(joined(parts.push(rest), seq![u]), u) == parts + split_on(rest, u),
    decreases parts.len(),
{
    let text = joined(parts, seq![u]);
    let last = parts.last();
    assert(!parts[parts.len() - 1].contains(u));
    crate::text::split_without_separator(last, u);
    if parts.len() == 1 {
        assert(parts =~= seq![last]);
    } else {
        let before = parts.drop_last();
        assert forall|i: int| 0 <= i < before.len() implies !(#[trigger] before[i]).contains(u) by {
            assert(before[i] == parts[i]);
        }
        parts_are_split(before, u, last);
        assert(before.push(last) =~= parts);
        assert(before + seq![last] =~= parts);
    }
    crate::text::split_at_separator(text, rest, u);
    assert(parts.push(rest).drop_last() =~= parts);
    assert(joined(parts.push(rest), seq![u]) =~= text.push(u) + rest);
}

/// A commit is read back as git printed it, each field in its place, whatever
/// its subject holds.
pub proof fn commits_read_back(e: EntryModel)
    requires
        e.hash.len() > 0,
        !e.hash.contains('\u{1f}') && !e.short.contains('\u{1f}') && !e.refs.contains('\u{1f}')
            && !e.author.contains('\u{1f}') && !e.date.contains('\u{1f}'),
    ensures
        log_entry(printed_commit(e)) == Some(e),
{
    let heads = seq![e.hash, e.short, e.refs, e.author, e.date];
    assert(heads.push(e.subject) =~= seq![e.hash, e.short, e.refs, e.author, e.date, e.subject]);
    parts_are_split(heads, '\u{1f}', e.subject);
    crate::text::split_joins_back(e.subject, '\u{1f}');
    let parts = split_on(printed_commit(e), '\u{1f}');
    assert(parts.skip(5) =~= split_on(e.subject, '\u{1f}'));
}

/// The history lists the commits in the order in which git printed them.
pub proof fn history_keeps_the_order(entries: Seq<EntryModel>)
    requires
        forall|i: int|
            0 <= i < entries.len() ==> (#[trigger] entries[i]).hash.len() > 0
                && !entries[i].hash.contains('\u{1f}') && !entries[i].short.contains('\u{1f}')
                && !entries[i].refs.contains('\u{1f}') && !entries[i].author.contains('\u{1f}')
                && !entries[i].date.contains('\u{1f}'),
    ensures
        log_entries(entries.map_values(|e: EntryModel| printed_commit(e))) == entries,
    decreases entries.len(),
{
    let lines = entries.map_values(|e: EntryModel| printed_commit(e));
    if entries.len() > 0 {
        let before = entries.drop_last();
        assert forall|i: int| 0 <= i < before.len() implies (#[trigger] before[i]).hash.len() > 0
            && !before[i].hash.contains('\u{1f}') && !before[i].short.contains('\u{1f}')
            && !before[i].refs.contains('\u{1f}') && !before[i].author.contains('\u{1f}')
            && !before[i].date.contains('\u{1f}') by {
            assert(before[i] == entries[i]);
        }
        history_keeps_the_order(before);
        assert(lines.drop_last() =~= before.map_values(|e: EntryModel| printed_commit(e)));
        assert(entries[entries.len() - 1] == entries.last());
        commits_read_back(entries.last());
        assert(before.push(entries.last()) =~= entries);
    } else {
        assert(log_entries(lines) =~= entries);
    }
}

proof fn kept_names_were_there(names: Seq<Seq<char>>, wanted: spec_fn(Seq<char>) -> bool, x: Seq<char>)
    ensures
        names.filter(wanted).contains(x) <==> wanted(x) && names.contains(x),
    decreases names.len(),
{
    reveal(Seq::filter);
    if names.len() > 0 {
        let before = names.drop_last();
        kept_names_were_there(before, wanted, x);
        let kept = before.filter(wanted);
        if names.contains(x) {
            let i = choose|i: int| 0 <= i < names.len() && names[i] == x;
            if i < before.len() {
                assert(before[i] == x);
            }
        }
        if before.contains(x) {
            let i = choose|i: int| 0 <= i < before.len() && before[i] == x;
            assert(names[i] == x);
        }
        assert(names[names.len() - 1] == names.last());
        if wanted(names.last()) {
            let now = kept.push(names.last());
            if now.contains(x) {
                let i = choose|i: int| 0 <= i < now.len() && now[i] == x;
                if i < kept.len() {
                    assert(kept[i] == x);
                }
            }
            if kept.contains(x) {
                let i = choose|i: int| 0 <= i < kept.len() && kept[i] == x;
                assert(now[i] == x);
            }
            assert(now[kept.len() as int] == names.last());
        }
    }
}

/// A branch is listed for every line that names one, without the white space
/// around it; blank lines name none.
pub proof fn branches_are_listed(lines: Seq<Seq<char>>, output: Seq<char>, name: Seq<char>)
    requires
        text_lines(output) == lines,
    ensures
        crate::order::sorted(branch_lines(output)).contains(name) <==> name.len() > 0 && exists|
            i: int,
        |
            0 <= i < lines.len() && trimmed(#[trigger] lines[i]) == name,
{
    let names = lines.map_values(|line: Seq<char>| trimmed(line));
    let wanted = |line: Seq<char>| line.len() > 0;
    let kept = branch_lines(output);
    kept_names_were_there(names, wanted, name);
    crate::order::sorted_is_in_order(kept);
    vstd::seq_lib::to_multiset_contains(kept, name);
    vstd::seq_lib::to_multiset_contains(crate::order::sorted(kept), name);
    if names.contains(name) {
        let j = choose|j: int| 0 <= j < names.len() && names[j] == name;
        assert(trimmed(lines[j]) == name);
    }
    if name.len() > 0 && exists|i: int| 0 <= i < lines.len() && trimmed(#[trigger] lines[i]) == name {
        let i = choose|i: int| 0 <= i < lines.len() && trimmed(#[trigger] lines[i]) == name;
        assert(names[i] == name);
    }
}

} // verus!
