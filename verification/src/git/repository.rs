//! What git is asked, and what its answers mean: status, history and diffs.

use vstd::prelude::*;
use vstd::utf8::{encode_utf8, valid_utf8};
use crate::events::text_strict;
use crate::git::view::{
    DiffKind, DiffLine, DiffModel, EntryModel, FileModel, GitFile, GitSection, GitStatus,
    HistoryEntry, LineModel, LoadedDiff, StatusModel, empty_status,
};
use crate::model::{copy_option, option_view, views, Modeled};
use crate::text::{
    after_prefix, begins, chars_of, decimal, digit, is, is_digit, joined, occurs, parse_unsigned,
    parsed_unsigned, parted, split_by, split_chars_on, split_lines, split_on, split_once,
    split_text, split_words, starts, string_of, strip_prefix, sub_chars, text_lines, texts, trim,
    trim_end_matches, trim_start_matches, trimmed, whitespace, without_leading, without_trailing,
    words_of,
};

verus! {

broadcast use vstd::string::group_string_axioms;

/// The most lines that a diff is shown with.
pub const MAX_DIFF_LINES: usize = 2000;

/// The most bytes of a diff that are read.
pub const MAX_DIFF_BYTES: usize = 1048576;

// ---------------------------------------------------------------------------
// Branch header

/// A count in git's output; anything but a number counts as zero.
pub open spec fn count_or_zero(s: Seq<char>) -> usize {
    match parsed_unsigned(s, usize::MAX as nat) {
        Some(n) => n as usize,
        None => 0,
    }
}

fn parse_count(s: &[char]) -> (r: usize)
    ensures
        r == count_or_zero(s@),
{
    match parse_unsigned(s, usize::MAX as u64) {
        Some(n) => n as usize,
        None => 0,
    }
}

/// One part of the divergence from the upstream branch.
pub open spec fn divergence_part(s: StatusModel, part: Seq<char>) -> StatusModel {
    match after_prefix(part, "ahead "@) {
        Some(count) => StatusModel { ahead: count_or_zero(count), ..s },
        None => match after_prefix(part, "behind "@) {
            Some(count) => StatusModel { behind: count_or_zero(count), ..s },
            None => s,
        },
    }
}

pub open spec fn divergence(s: StatusModel, parts: Seq<Seq<char>>) -> StatusModel
    decreases parts.len(),
{
    if parts.len() == 0 {
        s
    } else {
        divergence_part(divergence(s, parts.drop_last()), parts.last())
    }
}

/// The branch and its upstream, from the header without its divergence.
pub open spec fn branch_names(s: StatusModel, names: Seq<char>) -> StatusModel {
    match parted(names, "..."@) {
        Some((local, upstream)) => StatusModel {
            branch: if local.len() == 0 {
                "(detached)"@
            } else {
                local
            },
            upstream: if upstream.len() == 0 {
                None
            } else {
                Some(upstream)
            },
            ..s
        },
        None => StatusModel {
            branch: if names == "HEAD (no branch)"@ {
                "(detached)"@
            } else {
                match after_prefix(names, "No commits yet on "@) {
                    Some(branch) => branch,
                    None => names,
                }
            },
            ..s
        },
    }
}

/// What a branch header says: `## main...origin/main [ahead 1, behind 2]`,
/// `## main`, `## No commits yet on main` or `## HEAD (no branch)`.
pub open spec fn branch_header(header: Seq<char>, s: StatusModel) -> StatusModel {
    let h = match after_prefix(header, "## "@) {
        Some(rest) => rest,
        None => header,
    };
    match parted(h, " ["@) {
        Some((names, extra)) => divergence(
            branch_names(s, names),
            split_text(without_trailing(extra, ']'), ", "@),
        ),
        None => branch_names(s, h),
    }
}

fn set_branch_names(names: &Vec<char>, status: &mut GitStatus)
    ensures
        final(status)@ == branch_names(old(status)@, names@),
{
    match split_once(names, "...") {
        Some((local, upstream)) => {
            status.branch = if local.len() == 0 {
                "(detached)".to_owned()
            } else {
                string_of(&local)
            };
            status.upstream = if upstream.len() == 0 {
                None
            } else {
                Some(string_of(&upstream))
            };
        },
        None => {
            if is(names, "HEAD (no branch)") {
                status.branch = "(detached)".to_owned();
            } else {
                match strip_prefix(names, "No commits yet on ") {
                    Some(branch) => {
                        status.branch = string_of(&branch);
                    },
                    None => {
                        status.branch = string_of(names);
                    },
                }
            }
        },
    }
}

/// Reads the branch header of `git status`; see `branch_header`.
pub fn parse_branch_header(header: &str, status: &mut GitStatus)
    ensures
        final(status)@ == branch_header(header@, old(status)@),
{
    let whole = chars_of(header);
    let h = match strip_prefix(&whole, "## ") {
        Some(rest) => rest,
        None => whole,
    };
    match split_once(&h, " [") {
        None => set_branch_names(&h, status),
        Some((names, extra)) => {
            set_branch_names(&names, status);
            let ghost named = status@;
            let inner = trim_end_matches(&extra, ']');
            proof {
                reveal_strlit(", ");
            }
            let parts = split_by(&inner, ", ");
            let mut i: usize = 0;
            while i < parts.len()
                invariant
                    i <= parts@.len(),
                    status@ == divergence(named, texts(parts@).take(i as int)),
                decreases parts@.len() - i,
            {
                let part = &parts[i];
                assert(texts(parts@)[i as int] == part@);
                assert(texts(parts@).take(i + 1).drop_last() =~= texts(parts@).take(i as int));
                match strip_prefix(part, "ahead ") {
                    Some(count) => {
                        status.ahead = parse_count(&count);
                    },
                    None => match strip_prefix(part, "behind ") {
                        Some(count) => {
                            status.behind = parse_count(&count);
                        },
                        None => {},
                    },
                }
                i += 1;
            }
            assert(texts(parts@).take(i as int) =~= texts(parts@));
        },
    }
}

// ---------------------------------------------------------------------------
// Status

pub open spec fn with_staged(s: StatusModel, file: FileModel) -> StatusModel {
    StatusModel { staged: s.staged.push(file), ..s }
}

pub open spec fn with_unstaged(s: StatusModel, file: FileModel) -> StatusModel {
    StatusModel { unstaged: s.unstaged.push(file), ..s }
}

pub open spec fn with_untracked(s: StatusModel, file: FileModel) -> StatusModel {
    StatusModel { untracked: s.untracked.push(file), ..s }
}

/// Whether a file has a merge conflict.
pub open spec fn unmerged(x: char, y: char) -> bool {
    x == 'U' || y == 'U' || (x == 'A' && y == 'A') || (x == 'D' && y == 'D')
}

/// A status entry in the section or sections that it belongs to.
pub open spec fn with_entry(
    s: StatusModel,
    x: char,
    y: char,
    path: Seq<char>,
    renamed_from: Option<Seq<char>>,
) -> StatusModel {
    let file = |section: GitSection| FileModel { path, x, y, section, renamed_from };
    if x == '?' && y == '?' {
        with_untracked(s, file(GitSection::Untracked))
    } else if x == '!' {
        s
    } else if unmerged(x, y) {
        with_unstaged(s, file(GitSection::Unstaged))
    } else {
        let first = if x != ' ' {
            with_staged(s, file(GitSection::Staged))
        } else {
            s
        };
        if y != ' ' {
            with_unstaged(first, file(GitSection::Unstaged))
        } else {
            first
        }
    }
}

fn push_file(files: &mut Vec<GitFile>, file: GitFile)
    ensures
        views(final(files)@) == views(old(files)@).push(file@),
{
    files.push(file);
    assert(views(files@) =~= views(old(files)@).push(file@));
}

/// Adds a status entry; see `with_entry`.
pub fn push_status_entry(
    status: &mut GitStatus,
    x: char,
    y: char,
    path: String,
    renamed_from: Option<String>,
)
    ensures
        final(status)@ == with_entry(old(status)@, x, y, path@, option_view(renamed_from)),
{
    if x == '?' && y == '?' {
        push_file(
            &mut status.untracked,
            GitFile { path, x, y, section: GitSection::Untracked, renamed_from },
        );
        return;
    }
    if x == '!' {
        return;
    }
    if x == 'U' || y == 'U' || (x == 'A' && y == 'A') || (x == 'D' && y == 'D') {
        push_file(
            &mut status.unstaged,
            GitFile { path, x, y, section: GitSection::Unstaged, renamed_from },
        );
        return;
    }
    if x != ' ' {
        push_file(
            &mut status.staged,
            GitFile {
                path: path.copy(),
                x,
                y,
                section: GitSection::Staged,
                renamed_from: copy_option(&renamed_from),
            },
        );
    }
    if y != ' ' {
        push_file(
            &mut status.unstaged,
            GitFile { path, x, y, section: GitSection::Unstaged, renamed_from },
        );
    }
}

/// The two status columns and the path of a status token. The columns take two
/// bytes; a space and at least one more byte follow.
pub open spec fn status_fields(token: Seq<char>) -> Option<(char, char, Seq<char>)> {
    if token.len() >= 4 && token[0] < '\u{80}' && token[1] < '\u{80}' && token[2] == ' ' {
        Some((token[0], token[1], token.skip(3)))
    } else if token.len() >= 3 && '\u{80}' <= token[0] <= '\u{7ff}' && token[1] == ' ' {
        Some((token[0], ' ', token.skip(2)))
    } else {
        None
    }
}

fn read_status_fields(token: &Vec<char>) -> (r: Option<(char, char, Vec<char>)>)
    ensures
        match r {
            Some((x, y, path)) => status_fields(token@) == Some((x, y, path@)),
            None => status_fields(token@) is None,
        },
{
    let n: usize = token.len();
    if n >= 4 && token[0] < '\u{80}' && token[1] < '\u{80}' && token[2] == ' ' {
        let path = sub_chars(token, 3, n);
        assert(path@ =~= token@.skip(3));
        return Some((token[0], token[1], path));
    }
    if n >= 3 && '\u{80}' <= token[0] && token[0] <= '\u{7ff}' && token[1] == ' ' {
        let path = sub_chars(token, 2, n);
        assert(path@ =~= token@.skip(2));
        return Some((token[0], ' ', path));
    }
    None
}

/// What has been read of a status: the entries, and a rename or copy whose
/// original path comes next.
pub struct StatusScan {
    pub status: StatusModel,
    pub pending: Option<(char, char, Seq<char>)>,
}

pub open spec fn scan_token(s: StatusScan, token: Seq<char>) -> StatusScan {
    match s.pending {
        Some((x, y, path)) => StatusScan {
            status: with_entry(s.status, x, y, path, Some(token)),
            pending: None,
        },
        None => match status_fields(token) {
            None => s,
            Some((x, y, path)) => if x == 'R' || x == 'C' {
                StatusScan { pending: Some((x, y, path)), ..s }
            } else {
                StatusScan { status: with_entry(s.status, x, y, path, None), ..s }
            },
        },
    }
}

pub open spec fn scan_tokens(s: StatusModel, tokens: Seq<Seq<char>>) -> StatusScan
    decreases tokens.len(),
{
    if tokens.len() == 0 {
        StatusScan { status: s, pending: None }
    } else {
        scan_token(scan_tokens(s, tokens.drop_last()), tokens.last())
    }
}

/// The parts of a text that a terminator ends, and what follows the last.
pub open spec fn terminated_parts(s: Seq<char>, terminator: char) -> Seq<Seq<char>> {
    let parts = split_on(s, terminator);
    if parts.last().len() == 0 {
        parts.drop_last()
    } else {
        parts
    }
}

pub open spec fn unknown_branch() -> StatusModel {
    StatusModel { branch: "(unknown)"@, ..empty_status() }
}

/// The status that `git status --porcelain=v1 -z -b` reports.
pub open spec fn porcelain_status(output: Seq<char>) -> StatusModel {
    let tokens = terminated_parts(output, '\0');
    if tokens.len() > 0 && starts(tokens[0], "## "@) {
        scan_tokens(branch_header(tokens[0], unknown_branch()), tokens.skip(1)).status
    } else {
        scan_tokens(unknown_branch(), tokens).status
    }
}

fn split_terminated(s: &[char], terminator: char) -> (r: Vec<Vec<char>>)
    ensures
        texts(r@) == terminated_parts(s@, terminator),
{
    let mut parts = split_chars_on(s, terminator);
    let n: usize = parts.len();
    assert(texts(parts@).last() == parts@[n - 1]@);
    if parts[n - 1].len() == 0 {
        let ghost before = parts@;
        let _ = parts.pop();
        assert(texts(parts@) =~= texts(before).drop_last());
    }
    parts
}

/// Reads the output of `git status`; see `porcelain_status`.
pub fn parse_status_porcelain(output: &str) -> (r: GitStatus)
    ensures
        r@ == porcelain_status(output@),
{
    let whole = chars_of(output);
    let tokens = split_terminated(&whole, '\0');
    let mut status = GitStatus::default();
    status.branch = "(unknown)".to_owned();
    let mut from: usize = 0;
    proof {
        if tokens@.len() > 0 {
            assert(texts(tokens@)[0] == tokens@[0]@);
        }
    }
    if tokens.len() > 0 && begins(&tokens[0], "## ") {
        let header = string_of(&tokens[0]);
        parse_branch_header(header.as_str(), &mut status);
        from = 1;
    }
    let ghost first = status@;
    let ghost rest = texts(tokens@).skip(from as int);
    proof {
        if from == 0 {
            assert(rest =~= texts(tokens@));
        }
    }
    let mut pending: Option<(char, char, Vec<char>)> = None;
    let mut i: usize = from;
    assert(rest.take(0) =~= Seq::empty());
    while i < tokens.len()
        invariant
            from <= i <= tokens@.len(),
            rest == texts(tokens@).skip(from as int),
            status@ == scan_tokens(first, rest.take(i - from)).status,
            match pending {
                Some((x, y, path)) => scan_tokens(first, rest.take(i - from)).pending == Some(
                    (x, y, path@),
                ),
                None => scan_tokens(first, rest.take(i - from)).pending is None,
            },
        decreases tokens@.len() - i,
    {
        let token = &tokens[i];
        assert(rest[i - from] == token@);
        assert(rest.take(i - from + 1).drop_last() =~= rest.take(i - from));
        match pending {
            Some((x, y, path)) => {
                // The second token of a rename or a copy is the original path.
                push_status_entry(&mut status, x, y, string_of(&path), Some(string_of(token)));
                pending = None;
            },
            None => match read_status_fields(token) {
                None => {},
                Some((x, y, path)) => {
                    if x == 'R' || x == 'C' {
                        pending = Some((x, y, path));
                    } else {
                        push_status_entry(&mut status, x, y, string_of(&path), None);
                    }
                },
            },
        }
        i += 1;
    }
    assert(rest.take(i - from) =~= rest);
    status
}

// ---------------------------------------------------------------------------
// Diffs

/// The number of bytes of a text in UTF-8.
pub open spec fn byte_length(s: Seq<char>) -> nat {
    encode_utf8(s).len()
}

proof fn encode_utf8_join(a: Seq<char>, b: Seq<char>)
    ensures
        encode_utf8(a + b) == encode_utf8(a) + encode_utf8(b),
    decreases a.len(),
{
    if a.len() == 0 {
        assert(a + b =~= b);
        assert(encode_utf8(a) + encode_utf8(b) =~= encode_utf8(b));
    } else {
        encode_utf8_join(a.drop_first(), b);
        assert((a + b).drop_first() =~= a.drop_first() + b);
        assert((a + b)[0] == a[0]);
        assert(encode_utf8(a + b) =~= encode_utf8(a) + encode_utf8(b));
    }
}

fn char_bytes(c: char) -> (r: usize)
    ensures
        r as nat == byte_length(seq![c]),
        1 <= r <= 4,
{
    proof {
        reveal_with_fuel(encode_utf8, 2);
        assert(seq![c].drop_first() =~= Seq::<char>::empty());
        assert(encode_utf8(seq![c]) =~= vstd::utf8::encode_scalar(c as u32));
    }
    if c <= '\u{7f}' {
        1
    } else if c <= '\u{7ff}' {
        2
    } else if c <= '\u{ffff}' {
        3
    } else {
        4
    }
}

/// The longest beginning of a text that takes at most some number of bytes.
pub open spec fn byte_prefix(s: Seq<char>, max: nat) -> Seq<char>
    decreases s.len(),
{
    if byte_length(s) <= max || s.len() == 0 {
        s
    } else {
        byte_prefix(s.drop_last(), max)
    }
}

proof fn byte_prefix_is(s: Seq<char>, max: nat, n: int)
    requires
        0 <= n <= s.len(),
        byte_length(s.take(n)) <= max,
        n < s.len() ==> byte_length(s.take(n + 1)) > max,
    ensures
        byte_prefix(s, max) == s.take(n),
        n < s.len() ==> byte_length(s) > max,
    decreases s.len() - n,
{
    if n == s.len() {
        assert(s.take(n) =~= s);
    } else {
        assert(s.take(n + 1) + s.skip(n + 1) =~= s);
        encode_utf8_join(s.take(n + 1), s.skip(n + 1));
        let shorter = s.drop_last();
        assert(shorter.take(n) =~= s.take(n));
        if n < shorter.len() {
            assert(shorter.take(n + 1) =~= s.take(n + 1));
        }
        byte_prefix_is(shorter, max, n);
    }
}

/// The part of a text within a number of bytes, and whether anything is cut.
fn cut_bytes(s: &Vec<char>, max: usize) -> (r: (Vec<char>, bool))
    requires
        max <= 0xffff_fff0,
    ensures
        r.0@ == byte_prefix(s@, max as nat),
        r.1 == (byte_length(s@) > max),
{
    let mut used: usize = 0;
    let mut i: usize = 0;
    proof {
        assert(s@.take(0) =~= Seq::<char>::empty());
    }
    while i < s.len()
        invariant
            i <= s@.len(),
            used as nat == byte_length(s@.take(i as int)),
            used <= max <= 0xffff_fff0,
        decreases s@.len() - i,
    {
        let w: usize = char_bytes(s[i]);
        proof {
            assert(s@.take(i + 1) =~= s@.take(i as int) + seq![s@[i as int]]);
            encode_utf8_join(s@.take(i as int), seq![s@[i as int]]);
        }
        if used + w > max {
            proof {
                byte_prefix_is(s@, max as nat, i as int);
            }
            let head = sub_chars(s, 0, i);
            assert(head@ =~= s@.take(i as int));
            return (head, true);
        }
        used += w;
        i += 1;
    }
    proof {
        byte_prefix_is(s@, max as nat, i as int);
        assert(s@.take(i as int) =~= s@);
    }
    let head = sub_chars(s, 0, i);
    assert(head@ =~= s@);
    (head, false)
}

/// The characters of a hunk header that its line numbers are written with.
pub open spec fn range_char(c: char) -> bool {
    digit(c) || c == '-' || c == '+' || c == ',' || c == ' '
}

/// The beginning of a hunk header up to the end of its line numbers.
pub open spec fn hunk_ranges(s: Seq<char>) -> Seq<char>
    decreases s.len(),
{
    if s.len() > 0 && range_char(s[0]) {
        seq![s[0]] + hunk_ranges(s.skip(1))
    } else {
        Seq::empty()
    }
}

/// The first line of a range such as `-12,7`; one where it names none.
pub open spec fn range_start(ranges: Seq<char>, index: int, sign: char) -> usize {
    let words = words_of(ranges);
    let range = if index < words.len() {
        without_leading(words[index], sign)
    } else {
        Seq::empty()
    };
    match parsed_unsigned(split_on(range, ',')[0], usize::MAX as nat) {
        Some(n) => n as usize,
        None => 1,
    }
}

/// The number of the line after a line. Numbers start over past the largest.
pub open spec fn next_number(n: usize) -> usize {
    if n == usize::MAX {
        0
    } else {
        (n + 1) as usize
    }
}

/// What has been read of a diff.
pub struct DiffScan {
    pub lines: Seq<LineModel>,
    pub added: nat,
    pub removed: nat,
    /// The numbers of the next line in the old and in the new file.
    pub old_no: usize,
    pub new_no: usize,
    pub in_hunk: bool,
    pub binary: bool,
    pub truncated: bool,
    /// Whether nothing more is read.
    pub stopped: bool,
}

pub open spec fn scan_line(s: DiffScan, raw: Seq<char>) -> DiffScan {
    if s.stopped {
        s
    } else if starts(raw, "diff --git "@) {
        DiffScan { in_hunk: false, ..s }
    } else if starts(raw, "Binary files "@) {
        DiffScan { binary: true, stopped: true, ..s }
    } else if s.lines.len() >= MAX_DIFF_LINES {
        DiffScan { truncated: true, stopped: true, ..s }
    } else if starts(raw, "@@ "@) {
        let ranges = hunk_ranges(raw.skip(3));
        DiffScan {
            in_hunk: true,
            old_no: range_start(ranges, 0, '-'),
            new_no: range_start(ranges, 1, '+'),
            lines: s.lines.push(
                LineModel {
                    old_no: None,
                    new_no: None,
                    kind: DiffKind::Hunk,
                    text: "@@ "@ + ranges + "@@"@,
                },
            ),
            ..s
        }
    } else if !s.in_hunk || raw.len() == 0 {
        s
    } else if raw[0] == '+' {
        DiffScan {
            new_no: next_number(s.new_no),
            added: s.added + 1,
            lines: s.lines.push(
                LineModel {
                    old_no: None,
                    new_no: Some(s.new_no),
                    kind: DiffKind::Added,
                    text: raw.skip(1),
                },
            ),
            ..s
        }
    } else if raw[0] == '-' {
        DiffScan {
            old_no: next_number(s.old_no),
            removed: s.removed + 1,
            lines: s.lines.push(
                LineModel {
                    old_no: Some(s.old_no),
                    new_no: None,
                    kind: DiffKind::Removed,
                    text: raw.skip(1),
                },
            ),
            ..s
        }
    } else if raw[0] == ' ' {
        DiffScan {
            old_no: next_number(s.old_no),
            new_no: next_number(s.new_no),
            lines: s.lines.push(
                LineModel {
                    old_no: Some(s.old_no),
                    new_no: Some(s.new_no),
                    kind: DiffKind::Context,
                    text: raw.skip(1),
                },
            ),
            ..s
        }
    } else {
        s
    }
}

pub open spec fn scan_lines(lines: Seq<Seq<char>>, truncated: bool) -> DiffScan
    decreases lines.len(),
{
    if lines.len() == 0 {
        DiffScan {
            lines: Seq::empty(),
            added: 0,
            removed: 0,
            old_no: 0,
            new_no: 0,
            in_hunk: false,
            binary: false,
            truncated,
            stopped: false,
        }
    } else {
        scan_line(scan_lines(lines.drop_last(), truncated), lines.last())
    }
}

/// What a unified diff says, read up to the limits on its bytes and lines.
pub open spec fn scanned_diff(output: Seq<char>) -> DiffScan {
    scan_lines(
        text_lines(byte_prefix(output, MAX_DIFF_BYTES as nat)),
        byte_length(output) > MAX_DIFF_BYTES,
    )
}

/// The diff of a path that a unified diff describes.
pub open spec fn unified_diff(path: Seq<char>, staged: bool, output: Seq<char>) -> DiffModel {
    let scan = scanned_diff(output);
    DiffModel {
        path,
        staged,
        untracked: false,
        commit: None,
        lines: scan.lines,
        added: scan.added as usize,
        removed: scan.removed as usize,
        scroll: 0,
        binary: scan.binary,
        truncated: scan.truncated,
    }
}

/// The number of lines of a kind.
pub open spec fn count_kind(lines: Seq<LineModel>, kind: DiffKind) -> nat
    decreases lines.len(),
{
    if lines.len() == 0 {
        0
    } else {
        count_kind(lines.drop_last(), kind) + if lines.last().kind == kind {
            1nat
        } else {
            0nat
        }
    }
}

proof fn count_kind_push(lines: Seq<LineModel>, line: LineModel, kind: DiffKind)
    ensures
        count_kind(lines.push(line), kind) == count_kind(lines, kind) + if line.kind == kind {
            1nat
        } else {
            0nat
        },
{
    assert(lines.push(line).drop_last() =~= lines);
}

/// The counts of a diff are those of its lines, and it keeps to the limit on
/// its lines.
pub proof fn diff_counts_its_lines(lines: Seq<Seq<char>>, truncated: bool)
    ensures
        scan_lines(lines, truncated).added == count_kind(
            scan_lines(lines, truncated).lines,
            DiffKind::Added,
        ),
        scan_lines(lines, truncated).removed == count_kind(
            scan_lines(lines, truncated).lines,
            DiffKind::Removed,
        ),
        scan_lines(lines, truncated).lines.len() <= MAX_DIFF_LINES,
        scan_lines(lines, truncated).added + scan_lines(lines, truncated).removed <= scan_lines(
            lines,
            truncated,
        ).lines.len(),
    decreases lines.len(),
{
    if lines.len() > 0 {
        diff_counts_its_lines(lines.drop_last(), truncated);
        let s = scan_lines(lines.drop_last(), truncated);
        let now = scan_lines(lines, truncated);
        if now.lines.len() > s.lines.len() {
            assert(now.lines == s.lines.push(now.lines.last()));
            count_kind_push(s.lines, now.lines.last(), DiffKind::Added);
            count_kind_push(s.lines, now.lines.last(), DiffKind::Removed);
        }
    }
}

fn is_range_char(c: char) -> (r: bool)
    ensures
        r == range_char(c),
{
    is_digit(c) || c == '-' || c == '+' || c == ',' || c == ' '
}

fn read_hunk_ranges(s: &Vec<char>) -> (r: Vec<char>)
    ensures
        r@ == hunk_ranges(s@),
{
    let mut r: Vec<char> = Vec::new();
    let mut i: usize = 0;
    assert(s@.skip(0) =~= s@);
    assert(r@ + hunk_ranges(s@) =~= hunk_ranges(s@));
    while i < s.len() && is_range_char(s[i])
        invariant
            i <= s@.len(),
            r@ + hunk_ranges(s@.skip(i as int)) == hunk_ranges(s@),
        decreases s@.len() - i,
    {
        let ghost before = r@;
        let ghost rest = s@.skip(i as int);
        assert(rest.skip(1) =~= s@.skip(i + 1));
        r.push(s[i]);
        assert(r@ + hunk_ranges(s@.skip(i + 1)) =~= before + hunk_ranges(rest));
        i += 1;
    }
    assert(hunk_ranges(s@.skip(i as int)) =~= Seq::empty());
    assert(r@ =~= hunk_ranges(s@));
    r
}

fn read_range_start(words: &Vec<Vec<char>>, index: usize, sign: char, Ghost(ranges): Ghost<Seq<char>>) -> (r: usize)
    requires
        texts(words@) == words_of(ranges),
    ensures
        r == range_start(ranges, index as int, sign),
{
    let range: Vec<char> = if index < words.len() {
        assert(texts(words@)[index as int] == words@[index as int]@);
        trim_start_matches(&words[index], sign)
    } else {
        let none: Vec<char> = Vec::new();
        assert(none@ =~= Seq::<char>::empty());
        none
    };
    let parts = split_chars_on(&range, ',');
    assert(texts(parts@)[0] == parts@[0]@);
    match parse_unsigned(&parts[0], usize::MAX as u64) {
        Some(n) => n as usize,
        None => 1,
    }
}

fn next(n: usize) -> (r: usize)
    ensures
        r == next_number(n),
{
    if n == usize::MAX {
        0
    } else {
        n + 1
    }
}

fn push_line(lines: &mut Vec<DiffLine>, line: DiffLine)
    ensures
        views(final(lines)@) == views(old(lines)@).push(line@),
{
    lines.push(line);
    assert(views(lines@) =~= views(old(lines)@).push(line@));
}

fn rest_of(raw: &Vec<char>) -> (r: String)
    requires
        raw@.len() > 0,
    ensures
        r@ == raw@.skip(1),
{
    let t = sub_chars(raw, 1, raw.len());
    assert(t@ =~= raw@.skip(1));
    string_of(&t)
}

/// Reads a unified diff; see `unified_diff`.
pub fn parse_unified_diff(path: &str, staged: bool, output: &str) -> (r: LoadedDiff)
    ensures
        r@ == unified_diff(path@, staged, output@),
{
    let whole = chars_of(output);
    let (kept, cut) = cut_bytes(&whole, MAX_DIFF_BYTES);
    let raws = split_lines(&kept);
    let ghost all = texts(raws@);
    let mut lines: Vec<DiffLine> = Vec::new();
    let mut added: usize = 0;
    let mut removed: usize = 0;
    let mut old_no: usize = 0;
    let mut new_no: usize = 0;
    let mut in_hunk = false;
    let mut binary = false;
    let mut truncated = cut;
    let mut stopped = false;
    let mut i: usize = 0;
    assert(views(lines@) =~= Seq::empty());
    proof {
        reveal_strlit("@@ ");
    }
    while i < raws.len()
        invariant
            i <= raws@.len(),
            all == texts(raws@),
            "@@ "@.len() == 3,
            scan_lines(all.take(i as int), cut) == (DiffScan {
                lines: views(lines@),
                added: added as nat,
                removed: removed as nat,
                old_no,
                new_no,
                in_hunk,
                binary,
                truncated,
                stopped,
            }),
        decreases raws@.len() - i,
    {
        let raw = &raws[i];
        assert(all[i as int] == raw@);
        assert(all.take(i + 1).drop_last() =~= all.take(i as int));
        proof {
            diff_counts_its_lines(all.take(i as int), cut);
        }
        i += 1;
        if stopped {
            continue;
        }
        if begins(raw, "diff --git ") {
            in_hunk = false;
            continue;
        }
        if begins(raw, "Binary files ") {
            binary = true;
            stopped = true;
            continue;
        }
        if lines.len() >= MAX_DIFF_LINES {
            truncated = true;
            stopped = true;
            continue;
        }
        match strip_prefix(raw, "@@ ") {
            Some(hunk) => {
                in_hunk = true;
                let ranges = read_hunk_ranges(&hunk);
                let words = split_words(&ranges);
                old_no = read_range_start(&words, 0, '-', Ghost(ranges@));
                new_no = read_range_start(&words, 1, '+', Ghost(ranges@));
                let mut text = "@@ ".to_owned();
                text.append(string_of(&ranges).as_str());
                text.append("@@");
                push_line(
                    &mut lines,
                    DiffLine { old_no: None, new_no: None, kind: DiffKind::Hunk, text },
                );
                continue;
            },
            None => {},
        }
        // Once a hunk begins, `--- text` and `+++ text` are content. Only the
        // next file boundary leads back to headers.
        if !in_hunk || raw.len() == 0 {
            continue;
        }
        let mark = raw[0];
        if mark == '+' {
            push_line(
                &mut lines,
                DiffLine {
                    old_no: None,
                    new_no: Some(new_no),
                    kind: DiffKind::Added,
                    text: rest_of(raw),
                },
            );
            new_no = next(new_no);
            added += 1;
        } else if mark == '-' {
            push_line(
                &mut lines,
                DiffLine {
                    old_no: Some(old_no),
                    new_no: None,
                    kind: DiffKind::Removed,
                    text: rest_of(raw),
                },
            );
            old_no = next(old_no);
            removed += 1;
        } else if mark == ' ' {
            push_line(
                &mut lines,
                DiffLine {
                    old_no: Some(old_no),
                    new_no: Some(new_no),
                    kind: DiffKind::Context,
                    text: rest_of(raw),
                },
            );
            old_no = next(old_no);
            new_no = next(new_no);
        }
    }
    assert(all.take(i as int) =~= all);
    LoadedDiff {
        path: path.to_owned(),
        staged,
        untracked: false,
        commit: None,
        lines,
        added,
        removed,
        scroll: 0,
        binary,
        truncated,
    }
}

/// A diff of an untracked file without lines.
pub open spec fn untracked_without_lines(path: Seq<char>, binary: bool, truncated: bool) -> DiffModel {
    DiffModel {
        path,
        staged: false,
        untracked: true,
        commit: None,
        lines: Seq::empty(),
        added: 0,
        removed: 0,
        scroll: 0,
        binary,
        truncated,
    }
}

/// The lines of a new file: all of them added.
pub open spec fn added_lines(lines: Seq<Seq<char>>) -> Seq<LineModel> {
    lines.map(
        |i: int, text: Seq<char>|
            LineModel {
                old_no: None,
                new_no: Some((i + 1) as usize),
                kind: DiffKind::Added,
                text,
            },
    )
}

/// The diff of an untracked file that holds these bytes.
pub open spec fn untracked_diff(path: Seq<char>, bytes: Seq<u8>) -> DiffModel {
    if bytes.len() > MAX_DIFF_BYTES {
        untracked_without_lines(path, false, true)
    } else if !valid_utf8(bytes) {
        untracked_without_lines(path, true, false)
    } else {
        let lines = text_lines(vstd::utf8::decode_utf8(bytes));
        let shown = if lines.len() > MAX_DIFF_LINES {
            lines.take(MAX_DIFF_LINES as int)
        } else {
            lines
        };
        DiffModel {
            lines: added_lines(shown),
            added: shown.len() as usize,
            ..untracked_without_lines(path, false, lines.len() > MAX_DIFF_LINES)
        }
    }
}

/// The diff of an untracked file, from at most one byte more than the limit.
pub fn load_untracked_diff(path: &str, bytes: &Vec<u8>) -> (r: LoadedDiff)
    ensures
        r@ == untracked_diff(path@, bytes@),
{
    let mut diff = LoadedDiff {
        path: path.to_owned(),
        staged: false,
        untracked: true,
        commit: None,
        lines: Vec::new(),
        added: 0,
        removed: 0,
        scroll: 0,
        binary: false,
        truncated: false,
    };
    assert(views(diff.lines@) =~= Seq::empty());
    if bytes.len() > MAX_DIFF_BYTES {
        diff.truncated = true;
        return diff;
    }
    match text_strict(bytes) {
        None => {
            diff.binary = true;
            diff
        },
        Some(text) => {
            proof {
                vstd::utf8::encode_utf8_decode_utf8(text@);
            }
            let chars = chars_of(text);
            let lines = split_lines(&chars);
            let ghost all = texts(lines@);
            let mut added: Vec<DiffLine> = Vec::new();
            let mut i: usize = 0;
            while i < lines.len() && i < MAX_DIFF_LINES
                invariant
                    i <= lines@.len(),
                    i <= MAX_DIFF_LINES,
                    all == texts(lines@),
                    added@.len() == i,
                    forall|k: int|
                        0 <= k < i ==> (#[trigger] added@[k])@ == added_lines(all)[k],
                decreases lines@.len() - i,
            {
                assert(all[i as int] == lines@[i as int]@);
                added.push(
                    DiffLine {
                        old_no: None,
                        new_no: Some(i + 1),
                        kind: DiffKind::Added,
                        text: string_of(&lines[i]),
                    },
                );
                i += 1;
            }
            diff.truncated = lines.len() > MAX_DIFF_LINES;
            diff.added = i;
            diff.lines = added;
            proof {
                let shown = if all.len() > MAX_DIFF_LINES {
                    all.take(MAX_DIFF_LINES as int)
                } else {
                    all
                };
                assert(views(diff.lines@) =~= added_lines(shown));
            }
            diff
        },
    }
}

// ---------------------------------------------------------------------------
// Arguments

pub fn push_word(words: &mut Vec<String>, word: &str)
    ensures
        views(final(words)@) == views(old(words)@).push(word@),
{
    words.push(word.to_owned());
    assert(views(words@) =~= views(old(words)@).push(word@));
}

/// The arguments of `git status`, shared by loads and by the poll fingerprint.
pub open spec fn status_args() -> Seq<Seq<char>> {
    seq!["status"@, "--porcelain=v1"@, "-z"@, "-b"@, "--untracked-files=normal"@]
}

pub fn status_arguments() -> (r: Vec<String>)
    ensures
        views(r@) == status_args(),
{
    let mut args: Vec<String> = Vec::new();
    push_word(&mut args, "status");
    push_word(&mut args, "--porcelain=v1");
    push_word(&mut args, "-z");
    push_word(&mut args, "-b");
    push_word(&mut args, "--untracked-files=normal");
    assert(views(args@) =~= status_args());
    args
}

/// A path as a pathspec that matches no other file, whatever it holds.
pub open spec fn literal(path: Seq<char>) -> Seq<char> {
    ":(literal)"@ + path
}

/// The arguments of a command over paths of the status: the paths are literal
/// pathspecs, and `--` ends the options.
pub open spec fn file_args(tool: Seq<char>, flags: Seq<Seq<char>>, paths: Seq<Seq<char>>) -> Seq<
    Seq<char>,
> {
    seq![tool] + flags + seq!["--"@] + paths.map_values(|p: Seq<char>| literal(p))
}

/// The arguments of a command over paths; see `file_args`.
pub fn file_arguments(tool: &str, flags: &Vec<String>, paths: &Vec<String>) -> (r: Vec<String>)
    ensures
        views(r@) == file_args(tool@, views(flags@), views(paths@)),
{
    let mut args: Vec<String> = Vec::new();
    push_word(&mut args, tool);
    assert(views(args@) =~= seq![tool@] + views(flags@).take(0));
    let mut i: usize = 0;
    while i < flags.len()
        invariant
            i <= flags@.len(),
            views(args@) == seq![tool@] + views(flags@).take(i as int),
        decreases flags@.len() - i,
    {
        push_word(&mut args, flags[i].as_str());
        i += 1;
        assert(views(args@) =~= seq![tool@] + views(flags@).take(i as int));
    }
    push_word(&mut args, "--");
    let ghost head = seq![tool@] + views(flags@) + seq!["--"@];
    let ghost tail = views(paths@).map_values(|p: Seq<char>| literal(p));
    assert(views(args@) =~= head + tail.take(0));
    let mut j: usize = 0;
    while j < paths.len()
        invariant
            j <= paths@.len(),
            tail == views(paths@).map_values(|p: Seq<char>| literal(p)),
            views(args@) == head + tail.take(j as int),
        decreases paths@.len() - j,
    {
        let mut word = ":(literal)".to_owned();
        word.append(paths[j].as_str());
        push_word(&mut args, word.as_str());
        j += 1;
        assert(views(args@) =~= head + tail.take(j as int));
    }
    assert(tail.take(j as int) =~= tail);
    args
}

/// The flags of `git diff`: whole files, or compact hunks.
pub open spec fn diff_flags(staged: bool, compact: bool) -> Seq<Seq<char>> {
    let flags = seq![
        "--no-color"@,
        "--no-ext-diff"@,
        if compact {
            "-U3"@
        } else {
            "-U10000"@
        },
    ];
    if staged {
        flags.push("--cached"@)
    } else {
        flags
    }
}

/// The arguments that ask for the diff of a tracked file. Full-file context is
/// asked for first; where it does not fit, compact hunks, so that unchanged
/// lines cannot take up the whole display.
pub fn diff_arguments(file: &GitFile, compact: bool) -> (r: Vec<String>)
    ensures
        views(r@) == file_args(
            "diff"@,
            diff_flags(file.section == GitSection::Staged, compact),
            seq![file.path@],
        ),
{
    let mut flags: Vec<String> = Vec::new();
    push_word(&mut flags, "--no-color");
    push_word(&mut flags, "--no-ext-diff");
    if compact {
        push_word(&mut flags, "-U3");
    } else {
        push_word(&mut flags, "-U10000");
    }
    if file.section == GitSection::Staged {
        push_word(&mut flags, "--cached");
    }
    assert(views(flags@) =~= diff_flags(file.section == GitSection::Staged, compact));
    let mut paths: Vec<String> = Vec::new();
    push_word(&mut paths, file.path.as_str());
    assert(views(paths@) =~= seq![file.path@]);
    file_arguments("diff", &flags, &paths)
}

/// What follows the output of a diff command: the diff or, where full-file
/// context did not fit, the arguments of the compact one.
pub fn load_diff(file: &GitFile, compact: bool, output: &str) -> (r: Result<LoadedDiff, Vec<String>>)
    ensures
        ({
            let staged = file.section == GitSection::Staged;
            let diff = unified_diff(file.path@, staged, output@);
            &&& r is Err <==> diff.truncated && !compact
            &&& r is Ok ==> r->Ok_0@ == diff
            &&& r is Err ==> views(r->Err_0@) == file_args(
                "diff"@,
                diff_flags(staged, true),
                seq![file.path@],
            )
        }),
{
    let diff = parse_unified_diff(
        file.path.as_str(),
        file.section == GitSection::Staged,
        output,
    );
    if diff.truncated && !compact {
        Err(diff_arguments(file, true))
    } else {
        Ok(diff)
    }
}

/// The paths that a file operation is run on. A staged rename needs both
/// sides: with the new path alone the deletion of the old one would stay in the
/// index. Any other entry needs its own path alone.
pub open spec fn targets(
    section: GitSection,
    path: Seq<char>,
    renamed_from: Option<Seq<char>>,
) -> Seq<Seq<char>> {
    match renamed_from {
        Some(old) => if section == GitSection::Staged {
            seq![old, path]
        } else {
            seq![path]
        },
        None => seq![path],
    }
}

pub fn target_paths(section: GitSection, path: &str, renamed_from: &Option<String>) -> (r: Vec<
    String,
>)
    ensures
        views(r@) == targets(section, path@, option_view(*renamed_from)),
{
    let mut paths: Vec<String> = Vec::new();
    if section == GitSection::Staged {
        match renamed_from {
            Some(old) => push_word(&mut paths, old.as_str()),
            None => {},
        }
    }
    push_word(&mut paths, path);
    assert(views(paths@) =~= targets(section, path@, option_view(*renamed_from)));
    paths
}

/// Whether an error of git reports an unknown subcommand.
pub fn is_unknown_subcommand(error: &str) -> (r: bool)
    ensures
        r == occurs(error@, "is not a git command"@),
{
    let chars = chars_of(error);
    crate::text::contains(&chars, "is not a git command")
}

// ---------------------------------------------------------------------------
// Running git

/// How locating the work-tree root can fail. The variants matter: a directory
/// outside any repository is offered a setup, and a failure of git is shown.
#[derive(Debug, PartialEq, Eq)]
pub enum FindRootError {
    /// The directory is not inside a git work tree.
    NotARepo,
    /// Git itself failed.
    Git(String),
}

impl FindRootError {
    pub open spec fn text(self) -> Seq<char> {
        match self {
            FindRootError::NotARepo => "not a git repository"@,
            FindRootError::Git(detail) => detail@,
        }
    }

    pub fn message(&self) -> (r: String)
        ensures
            r@ == self.text(),
    {
        match self {
            FindRootError::NotARepo => "not a git repository".to_owned(),
            FindRootError::Git(detail) => detail.copy(),
        }
    }
}

/// The work-tree root that `git rev-parse --show-toplevel` printed.
pub fn root_from_output(success: bool, stdout: &Vec<u8>) -> (r: Result<String, FindRootError>)
    ensures
        ({
            let root = trimmed(crate::events::lossy_utf8(stdout@));
            &&& r is Ok <==> success && root.len() > 0
            &&& r is Ok ==> r->Ok_0@ == root
            &&& !success ==> r->Err_0 is NotARepo
            &&& success && root.len() == 0 ==> r->Err_0 is Git && r->Err_0.text()
                == "git returned an empty work-tree root"@
        }),
{
    if !success {
        return Err(FindRootError::NotARepo);
    }
    let text = crate::events::text_lossy(stdout);
    let chars = chars_of(text.as_str());
    let root = trim(&chars);
    if root.len() == 0 {
        return Err(FindRootError::Git("git returned an empty work-tree root".to_owned()));
    }
    Ok(string_of(&root))
}

/// The message where git could not be started.
pub fn start_failure(missing: bool, error: &str) -> (r: String)
    ensures
        r@ == if missing {
            "git is not installed"@
        } else {
            "could not run git: "@ + error@
        },
{
    if missing {
        "git is not installed".to_owned()
    } else {
        let mut r = "could not run git: ".to_owned();
        r.append(error);
        r
    }
}

/// Words with a space between each two.
pub fn join_words(words: &Vec<String>, sep: &str) -> (r: String)
    ensures
        r@ == joined(views(words@), sep@),
{
    let mut r: String = String::new();
    let ghost all = views(words@);
    let mut i: usize = 0;
    assert(all.take(0) =~= Seq::empty());
    while i < words.len()
        invariant
            i <= words@.len(),
            all == views(words@),
            r@ == joined(all.take(i as int), sep@),
        decreases words@.len() - i,
    {
        assert(all.take(i + 1).drop_last() =~= all.take(i as int));
        assert(all.take(i + 1).last() == words@[i as int]@);
        if i > 0 {
            r.append(sep);
        }
        r.append(words[i].as_str());
        if i == 0 {
            assert(r@ =~= joined(all.take(1), sep@));
        }
        i += 1;
    }
    assert(all.take(i as int) =~= all);
    r
}

/// The message of a git command that failed: the first line of its error
/// output or, where that is blank, of its output.
pub open spec fn failure_text(args: Seq<Seq<char>>, stdout: Seq<char>, stderr: Seq<char>) -> Seq<
    char,
> {
    let detail = if trimmed(stderr).len() == 0 {
        trimmed(stdout)
    } else {
        trimmed(stderr)
    };
    let lines = text_lines(detail);
    let first = if lines.len() > 0 {
        lines[0]
    } else {
        "git failed"@
    };
    "git "@ + joined(args, " "@) + " failed: "@ + trimmed(first)
}

/// The message of a git command that failed; see `failure_text`.
pub fn git_failure(args: &Vec<String>, stdout: &str, stderr: &str) -> (r: String)
    ensures
        r@ == failure_text(views(args@), stdout@, stderr@),
{
    let err = trim(&chars_of(stderr));
    let detail = if err.len() == 0 {
        trim(&chars_of(stdout))
    } else {
        err
    };
    let lines = split_lines(&detail);
    let first = if lines.len() > 0 {
        assert(texts(lines@)[0] == lines@[0]@);
        trim(&lines[0])
    } else {
        trim(&chars_of("git failed"))
    };
    let mut r = "git ".to_owned();
    r.append(join_words(args, " ").as_str());
    r.append(" failed: ");
    r.append(string_of(&first).as_str());
    r
}

/// What a git command printed, or the message of its failure.
pub open spec fn reply_of(
    success: bool,
    args: Seq<Seq<char>>,
    stdout: Seq<char>,
    stderr: Seq<char>,
) -> Result<Seq<char>, Seq<char>> {
    if success {
        Ok(stdout)
    } else {
        Err(failure_text(args, stdout, stderr))
    }
}

/// The reply of a git command that has ended; see `reply_of`.
pub fn git_reply(success: bool, args: &Vec<String>, stdout: &Vec<u8>, stderr: &Vec<u8>) -> (r: Result<
    String,
    String,
>)
    ensures
        ({
            let reply = reply_of(
                success,
                views(args@),
                crate::events::lossy_utf8(stdout@),
                crate::events::lossy_utf8(stderr@),
            );
            match r {
                Ok(text) => reply == Ok::<Seq<char>, Seq<char>>(text@),
                Err(text) => reply == Err::<Seq<char>, Seq<char>>(text@),
            }
        }),
{
    let out = crate::events::text_lossy(stdout);
    if success {
        return Ok(out);
    }
    let err = crate::events::text_lossy(stderr);
    Err(git_failure(args, out.as_str(), err.as_str()))
}

/// The most bytes of output that are kept of a git command: one more than a
/// diff is read with, so that a longer one is known to be cut, and everything
/// of other commands.
pub open spec fn kept_bytes(args: Seq<Seq<char>>) -> usize {
    if args.len() > 0 && (args[0] == "diff"@ || args[0] == "show"@) {
        (MAX_DIFF_BYTES + 1) as usize
    } else {
        usize::MAX
    }
}

pub fn output_limit(args: &Vec<String>) -> (r: usize)
    ensures
        r == kept_bytes(views(args@)),
{
    assert(views(args@).len() == args@.len());
    if args.len() > 0 {
        assert(views(args@)[0] == args@[0]@);
        let word = args[0].as_str();
        if crate::text::same(word, "diff") || crate::text::same(word, "show") {
            return MAX_DIFF_BYTES + 1;
        }
    }
    usize::MAX
}

/// Keeps what fits of a piece of output; the rest is read and dropped.
pub fn capture(buffered: &mut Vec<u8>, piece: &[u8], limit: usize)
    ensures
        ({
            let room = if limit > old(buffered)@.len() {
                limit - old(buffered)@.len()
            } else {
                0
            };
            let kept = if piece@.len() < room {
                piece@.len() as int
            } else {
                room as int
            };
            final(buffered)@ == old(buffered)@ + piece@.take(kept)
        }),
{
    let mut i: usize = 0;
    assert(buffered@ =~= old(buffered)@ + piece@.take(0));
    while i < piece.len() && buffered.len() < limit
        invariant
            i <= piece@.len(),
            buffered@ == old(buffered)@ + piece@.take(i as int),
            i > 0 ==> buffered@.len() <= limit,
        decreases piece@.len() - i,
    {
        buffered.push(piece[i]);
        i += 1;
        assert(buffered@ =~= old(buffered)@ + piece@.take(i as int));
    }
}

// ---------------------------------------------------------------------------
// Branches and history

/// The branch names in the output of `git branch`.
pub open spec fn branch_lines(output: Seq<char>) -> Seq<Seq<char>> {
    text_lines(output).map_values(|line: Seq<char>| trimmed(line)).filter(
        |line: Seq<char>| line.len() > 0,
    )
}

/// The branch names in the output of `git branch`, sorted.
pub fn parse_branches(output: &str) -> (r: Vec<String>)
    ensures
        views(r@) == crate::order::sorted(branch_lines(output@)),
{
    let lines = split_lines(&chars_of(output));
    let ghost all = text_lines(output@).map_values(|line: Seq<char>| trimmed(line));
    let ghost wanted = |line: Seq<char>| line.len() > 0;
    let mut names: Vec<Vec<char>> = Vec::new();
    let mut i: usize = 0;
    assert(texts(names@) =~= Seq::empty());
    assert(all.take(0) =~= Seq::empty());
    proof {
        reveal(Seq::filter);
    }
    while i < lines.len()
        invariant
            i <= lines@.len(),
            wanted == (|line: Seq<char>| line.len() > 0),
            texts(lines@) == text_lines(output@),
            all == text_lines(output@).map_values(|line: Seq<char>| trimmed(line)),
            texts(names@) == all.take(i as int).filter(wanted),
        decreases lines@.len() - i,
    {
        let name = trim(&lines[i]);
        assert(texts(lines@)[i as int] == lines@[i as int]@);
        assert(all[i as int] == name@);
        assert(all.take(i + 1).drop_last() =~= all.take(i as int));
        proof {
            reveal(Seq::filter);
        }
        if name.len() > 0 {
            let ghost before = texts(names@);
            let ghost t = name@;
            names.push(name);
            assert(texts(names@) =~= before.push(t));
        }
        i += 1;
    }
    assert(all.take(i as int) =~= all);
    let sorted = crate::order::sort(names);
    strings_of(&sorted)
}

/// Makes strings of texts.
pub fn strings_of(list: &Vec<Vec<char>>) -> (r: Vec<String>)
    ensures
        views(r@) == texts(list@),
{
    let mut r: Vec<String> = Vec::new();
    let mut i: usize = 0;
    while i < list.len()
        invariant
            i <= list@.len(),
            r@.len() == i,
            forall|k: int| 0 <= k < i ==> (#[trigger] r@[k])@ == list@[k]@,
        decreases list@.len() - i,
    {
        r.push(string_of(&list[i]));
        i += 1;
    }
    assert(views(r@) =~= texts(list@));
    r
}

/// A field of a log line; empty where the line has too few.
pub open spec fn field(parts: Seq<Seq<char>>, index: int) -> Seq<char> {
    if index < parts.len() {
        parts[index]
    } else {
        Seq::empty()
    }
}

/// The commit of a log line. The subject is last, so that a separator inside
/// it cannot shift the other fields. A line without a hash or without a short
/// hash is no commit.
pub open spec fn log_entry(line: Seq<char>) -> Option<EntryModel> {
    let parts = split_on(line, '\u{1f}');
    if parts.len() < 2 || parts[0].len() == 0 {
        None
    } else {
        Some(
            EntryModel {
                hash: parts[0],
                short: parts[1],
                refs: field(parts, 2),
                author: field(parts, 3),
                date: field(parts, 4),
                subject: if parts.len() > 5 {
                    joined(parts.skip(5), seq!['\u{1f}'])
                } else {
                    Seq::empty()
                },
            },
        )
    }
}

/// The commits of a log, in its order.
pub open spec fn log_entries(lines: Seq<Seq<char>>) -> Seq<EntryModel>
    decreases lines.len(),
{
    if lines.len() == 0 {
        Seq::empty()
    } else {
        match log_entry(lines.last()) {
            Some(entry) => log_entries(lines.drop_last()).push(entry),
            None => log_entries(lines.drop_last()),
        }
    }
}

fn field_text(parts: &Vec<Vec<char>>, index: usize) -> (r: String)
    ensures
        r@ == field(texts(parts@), index as int),
{
    if index < parts.len() {
        assert(texts(parts@)[index as int] == parts@[index as int]@);
        string_of(&parts[index])
    } else {
        String::new()
    }
}

fn read_log_line(line: &Vec<char>) -> (r: Option<HistoryEntry>)
    ensures
        option_view(r) == log_entry(line@),
{
    let parts = split_chars_on(line, '\u{1f}');
    let ghost all = split_on(line@, '\u{1f}');
    assert(all[0] == parts@[0]@);
    if parts.len() < 2 || parts[0].len() == 0 {
        return None;
    }
    let mut subject: String = String::new();
    let mut i: usize = 5;
    let ghost tail = all.skip(5);
    proof {
        if all.len() > 5 {
            assert(tail.take(0) =~= Seq::empty());
        }
    }
    while i < parts.len()
        invariant
            5 <= i,
            all == texts(parts@),
            tail == all.skip(5),
            parts@.len() > 5 ==> i <= parts@.len() && subject@ == joined(
                tail.take(i - 5),
                seq!['\u{1f}'],
            ),
            parts@.len() <= 5 ==> i == 5 && subject@ == Seq::<char>::empty(),
        decreases parts@.len() - i,
    {
        assert(tail.take(i - 5 + 1).drop_last() =~= tail.take(i - 5));
        assert(tail.take(i - 5 + 1).last() == parts@[i as int]@);
        let ghost before = subject@;
        if i > 5 {
            subject.push('\u{1f}');
        }
        subject.append(string_of(&parts[i]).as_str());
        assert(subject@ =~= joined(tail.take(i - 5 + 1), seq!['\u{1f}'])) by {
            if i > 5 {
                assert(before.push('\u{1f}') =~= before + seq!['\u{1f}']);
            }
        }
        i += 1;
    }
    proof {
        if all.len() > 5 {
            assert(tail.take(i - 5) =~= tail);
        }
    }
    Some(
        HistoryEntry {
            hash: field_text(&parts, 0),
            short: field_text(&parts, 1),
            refs: field_text(&parts, 2),
            author: field_text(&parts, 3),
            date: field_text(&parts, 4),
            subject,
        },
    )
}

/// Reads the output of `git log`; see `log_entry`.
pub fn parse_history(output: &str) -> (r: Vec<HistoryEntry>)
    ensures
        views(r@) == log_entries(text_lines(output@)),
{
    let lines = split_lines(&chars_of(output));
    let ghost all = text_lines(output@);
    let mut r: Vec<HistoryEntry> = Vec::new();
    let mut i: usize = 0;
    assert(views(r@) =~= Seq::empty());
    assert(all.take(0) =~= Seq::empty());
    while i < lines.len()
        invariant
            i <= lines@.len(),
            all == texts(lines@),
            views(r@) == log_entries(all.take(i as int)),
        decreases lines@.len() - i,
    {
        assert(all[i as int] == lines@[i as int]@);
        assert(all.take(i + 1).drop_last() =~= all.take(i as int));
        match read_log_line(&lines[i]) {
            Some(entry) => {
                let ghost before = views(r@);
                let ghost e = entry@;
                r.push(entry);
                assert(views(r@) =~= before.push(e));
            },
            None => {},
        }
        i += 1;
    }
    assert(all.take(i as int) =~= all);
    r
}

/// At least one commit is asked for.
pub open spec fn history_count(limit: usize) -> usize {
    if limit == 0 {
        1
    } else {
        limit
    }
}

/// The words that list the commits, newest first, up to a count.
pub open spec fn history_args(limit: usize) -> Seq<Seq<char>> {
    seq![
        "log"@,
        "--format=%H%x1f%h%x1f%D%x1f%an%x1f%ad%x1f%s"@,
        "--date=short"@,
        "--max-count="@ + decimal(history_count(limit) as nat),
    ]
}

pub fn history_arguments(limit: usize) -> (r: Vec<String>)
    ensures
        views(r@) == history_args(limit),
{
    let count: usize = if limit == 0 {
        1
    } else {
        limit
    };
    let mut args: Vec<String> = Vec::new();
    push_word(&mut args, "log");
    push_word(&mut args, "--format=%H%x1f%h%x1f%D%x1f%an%x1f%ad%x1f%s");
    push_word(&mut args, "--date=short");
    let mut last = "--max-count=".to_owned();
    last.append(crate::text::count_of(count).as_str());
    push_word(&mut args, last.as_str());
    assert(views(args@) =~= history_args(limit));
    args
}

/// A page of history, and whether older commits may remain. Reaching the limit
/// is taken to mean that they do.
pub fn history_page(output: &str, limit: usize) -> (r: (Vec<HistoryEntry>, bool))
    ensures
        views(r.0@) == log_entries(text_lines(output@)),
        r.1 == (r.0@.len() >= history_count(limit)),
{
    let history = parse_history(output);
    let count: usize = if limit == 0 {
        1
    } else {
        limit
    };
    let has_more = history.len() >= count;
    (history, has_more)
}

/// The arguments that ask for the diff of a commit against its first parent.
pub open spec fn commit_diff_args(hash: Seq<char>, compact: bool) -> Seq<Seq<char>> {
    seq![
        "show"@,
        "--no-color"@,
        "--no-ext-diff"@,
        if compact {
            "-U3"@
        } else {
            "-U10000"@
        },
        "--format="@,
        "--first-parent"@,
        hash,
        "--"@,
    ]
}

pub fn commit_diff_arguments(entry: &HistoryEntry, compact: bool) -> (r: Vec<String>)
    ensures
        views(r@) == commit_diff_args(entry.hash@, compact),
{
    let mut args: Vec<String> = Vec::new();
    push_word(&mut args, "show");
    push_word(&mut args, "--no-color");
    push_word(&mut args, "--no-ext-diff");
    if compact {
        push_word(&mut args, "-U3");
    } else {
        push_word(&mut args, "-U10000");
    }
    push_word(&mut args, "--format=");
    push_word(&mut args, "--first-parent");
    push_word(&mut args, entry.hash.as_str());
    push_word(&mut args, "--");
    assert(views(args@) =~= commit_diff_args(entry.hash@, compact));
    args
}

/// The diff of a commit under its short hash and subject. The place of its
/// first change is found when it is shown.
pub open spec fn commit_diff(entry: EntryModel, output: Seq<char>) -> DiffModel {
    DiffModel {
        commit: Some(entry.hash),
        scroll: usize::MAX,
        ..unified_diff(
            entry.short + " "@ + crate::markdown::truncated(entry.subject, 60),
            false,
            output,
        )
    }
}

/// What follows the output of a command for the diff of a commit: the diff or,
/// where full-file context did not fit, the arguments of the compact one.
pub fn load_commit_diff(entry: &HistoryEntry, compact: bool, output: &str) -> (r: Result<
    LoadedDiff,
    Vec<String>,
>)
    ensures
        ({
            let diff = commit_diff(entry@, output@);
            &&& r is Err <==> diff.truncated && !compact
            &&& r is Ok ==> r->Ok_0@ == diff
            &&& r is Err ==> views(r->Err_0@) == commit_diff_args(entry.hash@, true)
        }),
{
    let mut title = entry.short.copy();
    title.append(" ");
    title.append(crate::markdown::truncate_visible(entry.subject.as_str(), 60).as_str());
    let mut diff = parse_unified_diff(title.as_str(), false, output);
    if diff.truncated && !compact {
        return Err(commit_diff_arguments(entry, true));
    }
    diff.commit = Some(entry.hash.copy());
    diff.scroll = usize::MAX;
    Ok(diff)
}

/// A command that failed is told with the first line of what it printed as its
/// error, or else of what it printed; one that succeeded gives what it printed.
pub proof fn failures_are_told_by_their_first_line(
    args: Seq<Seq<char>>,
    stdout: Seq<char>,
    line: Seq<char>,
    rest: Seq<char>,
)
    requires
        line.len() > 0,
        !line.contains('\n'),
        !whitespace(line[0]) && !whitespace(line.last()),
        rest.len() > 0 && !whitespace(rest.last()),
    ensures
        reply_of(true, args, stdout, line) == Ok::<Seq<char>, Seq<char>>(stdout),
        reply_of(false, args, stdout, line.push('\n') + rest) == Err::<Seq<char>, Seq<char>>(
            "git "@ + joined(args, " "@) + " failed: "@ + line,
        ),
        reply_of(false, args, line.push('\n') + rest, Seq::empty()) == Err::<Seq<char>, Seq<char>>(
            "git "@ + joined(args, " "@) + " failed: "@ + line,
        ),
{
    let text = line.push('\n') + rest;
    assert(text[0] == line[0] && text.last() == rest.last());
    crate::text::trimmed_text_stays(text);
    crate::text::trimmed_text_stays(line);
    crate::text::trimmed_text_stays(Seq::<char>::empty());
    crate::text::split_at_separator(line, rest, '\n');
    crate::text::split_without_separator(line, '\n');
    crate::text::split_joins_back(rest, '\n');
    let parts = split_on(text, '\n');
    assert(parts[0] == line);
    assert(parts.len() >= 2);
    let ended = parts.drop_last().map_values(|p: Seq<char>| crate::text::without_cr(p));
    assert(ended[0] == crate::text::without_cr(line));
    assert(line.last() != '\r') by {
        crate::text::white_space_is_blank();
    }
    assert(crate::text::text_lines(text)[0] == line);
}

/// A diff is read up to its limit and a little more, so that one that is cut is
/// known; everything else is read whole.
pub proof fn only_diffs_are_cut(args: Seq<Seq<char>>)
    requires
        args.len() > 0,
    ensures
        args[0] == "diff"@ || args[0] == "show"@ ==> kept_bytes(args) == MAX_DIFF_BYTES + 1,
        args[0] != "diff"@ && args[0] != "show"@ ==> kept_bytes(args) == usize::MAX,
{
}

/// A file that is staged under a new name is looked at under both, and any
/// other under its own.
pub proof fn renamed_files_are_looked_at_under_both(path: Seq<char>, from: Seq<char>)
    ensures
        targets(GitSection::Staged, path, Some(from)) == seq![from, path],
        targets(GitSection::Unstaged, path, Some(from)) == seq![path],
        targets(GitSection::Staged, path, None) == seq![path],
{
}

/// A path is handed to git as it is, whatever characters it holds, behind the
/// dashes that end the options.
pub proof fn paths_are_taken_literally(tool: Seq<char>, flags: Seq<Seq<char>>, path: Seq<char>)
    ensures
        ({
            let args = file_args(tool, flags, seq![path]);
            &&& args[0] == tool && args.len() == flags.len() + 3
            &&& args[flags.len() as int + 1] == "--"@
            &&& args.last() == ":(literal)"@ + path
        }),
{
}

/// The history is asked for no more commits than are wanted, and for one at
/// least.
pub proof fn histories_are_limited(limit: usize)
    ensures
        limit > 0 ==> history_args(limit).last() == "--max-count="@ + decimal(limit as nat),
        history_args(0).last() == "--max-count="@ + decimal(1),
        history_args(limit)[0] == "log"@,
        diff_flags(true, true).contains("--cached"@),
        !diff_flags(false, true).contains("--cached"@),
        diff_flags(false, false)[2] == "-U10000"@,
        diff_flags(false, true)[2] == "-U3"@,
{
    assert(diff_flags(true, true)[3] == "--cached"@);
    let flags = diff_flags(false, true);
    reveal_strlit("--cached");
    reveal_strlit("--no-color");
    reveal_strlit("--no-ext-diff");
    reveal_strlit("-U3");
    assert("--cached"@.len() == 8 && "--no-color"@.len() == 10 && "--no-ext-diff"@.len() == 13
        && "-U3"@.len() == 3);
    if flags.contains("--cached"@) {
        let k = choose|k: int| 0 <= k < flags.len() && flags[k] == "--cached"@;
        assert(k == 0 || k == 1 || k == 2);
        assert(false);
    }
}

/// Of a diff no more is read than can be shown, and one byte to tell that there
/// was more; of any other answer everything.
pub proof fn long_diffs_are_read_in_part(args: Seq<Seq<char>>)
    requires
        args.len() > 0,
    ensures
        args[0] == "diff"@ || args[0] == "show"@ ==> kept_bytes(args) == MAX_DIFF_BYTES + 1,
        args[0] != "diff"@ && args[0] != "show"@ ==> kept_bytes(args) == usize::MAX,
{
}

} // verus!
