//! The files that a mention can name, and how well they match a query.

use vstd::prelude::*;
use vstd::utf8::{encode_utf8, valid_utf8};
use crate::events::text_strict;
use crate::model::views;
use crate::order::{alphabetical, is_alphabetical, sort, sorted};
use crate::text::{
    chars_of, contains, find, occurs, same, split_chars_on, split_on, starts, starts_with,
    string_of, texts,
};

verus! {

broadcast use vstd::string::group_string_axioms;

/// The paths that are indexed at most.
pub const MAX_INDEX_ENTRIES: usize = 20000;

/// The matches that are offered at most.
pub const MAX_MENTION_MATCHES: usize = 32;

// ---------------------------------------------------------------------------
// Case

/// What `str::to_lowercase` makes of a text.
pub uninterp spec fn lowercase(s: Seq<char>) -> Seq<char>;

/// `str::to_lowercase`: a function of the text alone.
#[verifier::external_body]
pub(crate) fn to_lowercase(s: &str) -> (r: String)
    ensures
        r@ == lowercase(s@),
{
    s.to_lowercase()
}

// ---------------------------------------------------------------------------
// Matching

/// Whether the characters of one text occur in another in the same order.
pub open spec fn subsequence(needle: Seq<char>, haystack: Seq<char>) -> bool
    decreases haystack.len(),
{
    if needle.len() == 0 {
        true
    } else if haystack.len() == 0 {
        false
    } else if needle[0] == haystack[0] {
        subsequence(needle.skip(1), haystack.skip(1))
    } else {
        subsequence(needle, haystack.skip(1))
    }
}

fn is_subsequence(needle: &[char], haystack: &[char]) -> (r: bool)
    ensures
        r == subsequence(needle@, haystack@),
{
    let mut n: usize = 0;
    let mut h: usize = 0;
    assert(needle@.skip(0) =~= needle@);
    assert(haystack@.skip(0) =~= haystack@);
    while h < haystack.len()
        invariant
            n <= needle@.len(),
            h <= haystack@.len(),
            subsequence(needle@, haystack@) == subsequence(
                needle@.skip(n as int),
                haystack@.skip(h as int),
            ),
        decreases haystack@.len() - h,
    {
        if n == needle.len() {
            return true;
        }
        assert(haystack@.skip(h as int).skip(1) =~= haystack@.skip(h + 1));
        if needle[n] == haystack[h] {
            assert(needle@.skip(n as int).skip(1) =~= needle@.skip(n + 1));
            n += 1;
        }
        h += 1;
    }
    n == needle.len()
}

/// The name of a file: the part of its path after the last slash.
pub open spec fn file_name(path: Seq<char>) -> Seq<char> {
    split_on(path, '/').last()
}

/// How well a name and its path, both in lower case, match a query, the best
/// first: the name begins with it, the name holds it, the path holds it, or
/// the path holds its characters in order.
pub open spec fn lower_rank(name: Seq<char>, path: Seq<char>, query: Seq<char>) -> Option<u8> {
    if starts(name, query) {
        Some(0)
    } else if occurs(name, query) {
        Some(1)
    } else if occurs(path, query) {
        Some(2)
    } else if subsequence(query, path) {
        Some(3)
    } else {
        None
    }
}

/// How well a path matches a query in lower case.
pub open spec fn match_rank(path: Seq<char>, query: Seq<char>) -> Option<u8> {
    lower_rank(lowercase(file_name(path)), lowercase(path), query)
}

/// Ranks a name and its path in lower case; see `lower_rank`.
pub fn score_lower(name: &[char], path: &[char], query: &[char]) -> (r: Option<u8>)
    ensures
        r == lower_rank(name@, path@, query@),
{
    if starts_with(name, query) {
        Some(0)
    } else if find(name, query).is_some() {
        Some(1)
    } else if find(path, query).is_some() {
        Some(2)
    } else if is_subsequence(query, path) {
        Some(3)
    } else {
        None
    }
}

fn score(path: &str, query: &[char]) -> (r: Option<u8>)
    ensures
        r == match_rank(path@, query@),
{
    let parts = split_chars_on(&chars_of(path), '/');
    proof {
        crate::text::split_joins_back(path@, '/');
    }
    assert(texts(parts@).len() > 0);
    let last: usize = parts.len() - 1;
    let name = string_of(&parts[last]);
    assert(name@ == file_name(path@));
    let lower_name = chars_of(to_lowercase(name.as_str()).as_str());
    let lower_path = chars_of(to_lowercase(path).as_str());
    score_lower(&lower_name, &lower_path, query)
}

/// The bytes of a path.
pub open spec fn path_size(path: Seq<char>) -> nat {
    encode_utf8(path).len()
}

fn size_of(path: &str) -> (r: usize)
    ensures
        r as nat == path_size(path@),
{
    path.as_bytes().len()
}

/// Whether a match comes before another, or is the same: by rank, then the
/// shorter, then by the alphabet.
pub open spec fn precedes(query: Seq<char>, a: Seq<char>, b: Seq<char>) -> bool {
    let rank_a = match_rank(a, query)->0;
    let rank_b = match_rank(b, query)->0;
    rank_a < rank_b || (rank_a == rank_b && (path_size(a) < path_size(b) || (path_size(a)
        == path_size(b) && alphabetical(a, b))))
}

/// A match put into a list before the first one that does not precede it.
pub open spec fn put_match(query: Seq<char>, s: Seq<Seq<char>>, path: Seq<char>) -> Seq<Seq<char>>
    decreases s.len(),
{
    if s.len() == 0 {
        seq![path]
    } else if precedes(query, s[0], path) {
        seq![s[0]] + put_match(query, s.skip(1), path)
    } else {
        seq![path] + s
    }
}

/// The paths that match a query, the best first.
pub open spec fn ranked(query: Seq<char>, entries: Seq<Seq<char>>) -> Seq<Seq<char>>
    decreases entries.len(),
{
    if entries.len() == 0 {
        Seq::empty()
    } else {
        let before = ranked(query, entries.drop_last());
        if match_rank(entries.last(), query) is Some {
            put_match(query, before, entries.last())
        } else {
            before
        }
    }
}

/// The first elements of a list.
pub open spec fn front<T>(s: Seq<T>, n: nat) -> Seq<T> {
    if s.len() <= n {
        s
    } else {
        s.take(n as int)
    }
}

/// The matches that are offered for a query.
pub open spec fn best_matches(entries: Seq<Seq<char>>, query: Seq<char>) -> Seq<Seq<char>> {
    front(ranked(lowercase(query), entries), MAX_MENTION_MATCHES as nat)
}

/// What is put into a list shows in its front only as far as it does in the
/// front alone.
proof fn front_is_enough(query: Seq<char>, s: Seq<Seq<char>>, path: Seq<char>, n: nat)
    ensures
        front(put_match(query, s, path), n) == front(put_match(query, front(s, n), path), n),
    decreases s.len(),
{
    if s.len() > n {
        put_adds_one(query, s, path);
        put_adds_one(query, front(s, n), path);
        if n == 0 {
            assert(front(put_match(query, s, path), n) =~= Seq::empty());
            assert(front(put_match(query, front(s, n), path), n) =~= Seq::empty());
        } else {
            let rest = s.skip(1);
            let m = (n - 1) as nat;
            if precedes(query, s[0], path) {
                front_is_enough(query, rest, path, m);
                assert(front(s, n).skip(1) =~= front(rest, m));
                put_adds_one(query, rest, path);
                put_adds_one(query, front(rest, m), path);
                assert(front(put_match(query, s, path), n) =~= seq![s[0]] + front(
                    put_match(query, rest, path),
                    m,
                ));
                assert(front(put_match(query, front(s, n), path), n) =~= seq![s[0]] + front(
                    put_match(query, front(rest, m), path),
                    m,
                ));
            } else {
                assert(front(put_match(query, s, path), n) =~= seq![path] + s.take(m as int));
                assert(front(put_match(query, front(s, n), path), n) =~= seq![path] + s.take(
                    m as int,
                ));
            }
        }
    }
}

proof fn put_adds_one(query: Seq<char>, s: Seq<Seq<char>>, path: Seq<char>)
    ensures
        put_match(query, s, path).len() == s.len() + 1,
    decreases s.len(),
{
    if s.len() > 0 && precedes(query, s[0], path) {
        put_adds_one(query, s.skip(1), path);
    }
}

fn comes_first(query: &Vec<char>, a: &String, rank_a: u8, b: &String, rank_b: u8) -> (r: bool)
    requires
        match_rank(a@, query@) == Some(rank_a),
        match_rank(b@, query@) == Some(rank_b),
    ensures
        r == precedes(query@, a@, b@),
{
    if rank_a != rank_b {
        return rank_a < rank_b;
    }
    let size_a: usize = size_of(a.as_str());
    let size_b: usize = size_of(b.as_str());
    if size_a != size_b {
        return size_a < size_b;
    }
    is_alphabetical(&chars_of(a.as_str()), &chars_of(b.as_str()))
}

/// Where a match is put into a list.
fn place(list: &Vec<String>, ranks: &Vec<u8>, query: &Vec<char>, path: &String, rank: u8) -> (r:
    usize)
    requires
        list@.len() == ranks@.len(),
        forall|i: int|
            0 <= i < list@.len() ==> match_rank((#[trigger] list@[i])@, query@) == Some(ranks@[i]),
        match_rank(path@, query@) == Some(rank),
    ensures
        r <= list@.len(),
        put_match(query@, views(list@), path@) == views(list@).insert(r as int, path@),
{
    let ghost all = views(list@);
    let mut i: usize = 0;
    assert(all.skip(0) =~= all);
    assert(all.take(0) + put_match(query@, all, path@) =~= put_match(query@, all, path@));
    while i < list.len() && comes_first(query, &list[i], ranks[i], path, rank)
        invariant
            i <= list@.len(),
            list@.len() == ranks@.len(),
            all == views(list@),
            forall|i: int|
                0 <= i < list@.len() ==> match_rank((#[trigger] list@[i])@, query@) == Some(
                    ranks@[i],
                ),
            match_rank(path@, query@) == Some(rank),
            all.take(i as int) + put_match(query@, all.skip(i as int), path@) == put_match(
                query@,
                all,
                path@,
            ),
        decreases list@.len() - i,
    {
        let ghost rest = all.skip(i as int);
        assert(rest[0] == list@[i as int]@);
        assert(rest.skip(1) =~= all.skip(i + 1));
        assert(all.take(i + 1) + put_match(query@, all.skip(i + 1), path@) =~= all.take(i as int)
            + put_match(query@, rest, path@));
        i += 1;
    }
    proof {
        let rest = all.skip(i as int);
        if i < list@.len() {
            assert(rest[0] == list@[i as int]@);
        }
        assert(put_match(query@, rest, path@) =~= seq![path@] + rest);
        assert(all.take(i as int) + (seq![path@] + rest) =~= all.insert(i as int, path@));
    }
    i
}

/// The best matches for a query; see `best_matches`.
pub fn rank_matches(entries: &[String], query: &str) -> (r: Vec<String>)
    ensures
        views(r@) == best_matches(views(entries@), query@),
{
    let lower = chars_of(to_lowercase(query).as_str());
    let ghost all = views(entries@);
    let ghost limit = MAX_MENTION_MATCHES as nat;
    let mut best: Vec<String> = Vec::new();
    let mut ranks: Vec<u8> = Vec::new();
    let mut i: usize = 0;
    assert(all.take(0) =~= Seq::empty());
    assert(views(best@) =~= front(ranked(lower@, all.take(0)), limit));
    while i < entries.len()
        invariant
            i <= entries@.len(),
            all == views(entries@),
            limit == MAX_MENTION_MATCHES,
            best@.len() == ranks@.len(),
            best@.len() <= MAX_MENTION_MATCHES,
            forall|k: int|
                0 <= k < best@.len() ==> match_rank((#[trigger] best@[k])@, lower@) == Some(
                    ranks@[k],
                ),
            views(best@) == front(ranked(lower@, all.take(i as int)), limit),
        decreases entries@.len() - i,
    {
        assert(all.take(i + 1).drop_last() =~= all.take(i as int));
        let entry = &entries[i];
        assert(all.take(i + 1).last() == entry@);
        match score(entry.as_str(), &lower) {
            Some(rank) => {
                let at: usize = place(&best, &ranks, &lower, entry, rank);
                let ghost before = views(best@);
                let ghost known = ranked(lower@, all.take(i as int));
                let path = entry.clone();
                best.insert(at, path);
                ranks.insert(at, rank);
                assert(views(best@) =~= before.insert(at as int, entry@));
                proof {
                    front_is_enough(lower@, known, entry@, limit);
                }
                let ghost longer = views(best@);
                let ghost long_best = best@;
                let ghost long_ranks = ranks@;
                if best.len() > MAX_MENTION_MATCHES {
                    best.truncate(MAX_MENTION_MATCHES);
                    ranks.truncate(MAX_MENTION_MATCHES);
                }
                assert(views(best@) =~= front(longer, limit));
                assert forall|k: int| 0 <= k < best@.len() implies match_rank(
                    (#[trigger] best@[k])@,
                    lower@,
                ) == Some(ranks@[k]) by {
                    assert(best@[k] == long_best[k]);
                    assert(ranks@[k] == long_ranks[k]);
                }
            },
            None => {},
        }
        i += 1;
    }
    assert(all.take(i as int) =~= all);
    best
}

// ---------------------------------------------------------------------------
// The index

/// A list without what equals the element before it.
pub open spec fn without_repeats(s: Seq<Seq<char>>) -> Seq<Seq<char>>
    decreases s.len(),
{
    if s.len() == 0 {
        s
    } else {
        let before = without_repeats(s.drop_last());
        if s.len() > 1 && s[s.len() - 2] == s.last() {
            before
        } else {
            before.push(s.last())
        }
    }
}

/// What is indexed of a listing: the paths in alphabetical order, each once,
/// up to a limit.
pub open spec fn indexed(files: Seq<Seq<char>>) -> Seq<Seq<char>> {
    front(without_repeats(sorted(files)), MAX_INDEX_ENTRIES as nat)
}

/// The entries of the index for a listing; see `indexed`.
pub fn index_entries(files: &Vec<String>) -> (r: Vec<String>)
    ensures
        views(r@) == indexed(views(files@)),
{
    let mut list: Vec<Vec<char>> = Vec::new();
    let mut i: usize = 0;
    assert(texts(list@) =~= views(files@).take(0));
    while i < files.len()
        invariant
            i <= files@.len(),
            texts(list@) == views(files@).take(i as int),
        decreases files@.len() - i,
    {
        let ghost before = texts(list@);
        list.push(chars_of(files[i].as_str()));
        assert(texts(list@) =~= before.push(views(files@)[i as int]));
        i += 1;
        assert(texts(list@) =~= views(files@).take(i as int));
    }
    assert(views(files@).take(i as int) =~= views(files@));
    let ordered = sort(list);
    let ghost all = texts(ordered@);
    let mut r: Vec<String> = Vec::new();
    let mut k: usize = 0;
    assert(all.take(0) =~= Seq::empty());
    assert(views(r@) =~= without_repeats(all.take(0)));
    while k < ordered.len()
        invariant
            k <= ordered@.len(),
            all == texts(ordered@),
            views(r@) == without_repeats(all.take(k as int)),
        decreases ordered@.len() - k,
    {
        assert(all.take(k + 1).drop_last() =~= all.take(k as int));
        assert(all.take(k + 1).last() == ordered@[k as int]@);
        let repeated = k > 0 && crate::text::same_chars(&ordered[k - 1], &ordered[k]);
        if k > 0 {
            assert(all.take(k + 1)[k - 1] == ordered@[k - 1]@);
        }
        if !repeated {
            let ghost before = views(r@);
            let path = string_of(&ordered[k]);
            let ghost text = path@;
            r.push(path);
            assert(views(r@) =~= before.push(text));
        }
        k += 1;
    }
    assert(all.take(k as int) =~= all);
    let ghost longer = views(r@);
    r.truncate(MAX_INDEX_ENTRIES);
    assert(views(r@) =~= front(longer, MAX_INDEX_ENTRIES as nat));
    r
}

/// Bytes up to each zero byte.
pub open spec fn zero_separated(bytes: Seq<u8>) -> Seq<Seq<u8>>
    decreases bytes.len(),
{
    if bytes.len() == 0 {
        seq![Seq::empty()]
    } else {
        let before = zero_separated(bytes.drop_last());
        if bytes.last() == 0 {
            before.push(Seq::empty())
        } else {
            before.drop_last().push(before.last().push(bytes.last()))
        }
    }
}

/// The paths of a listing: the parts that are not empty and are valid UTF-8,
/// up to a limit.
pub open spec fn listed_paths(parts: Seq<Seq<u8>>) -> Seq<Seq<char>>
    decreases parts.len(),
{
    if parts.len() == 0 {
        Seq::empty()
    } else {
        let before = listed_paths(parts.drop_last());
        let part = parts.last();
        if part.len() > 0 && valid_utf8(part) && before.len() < MAX_INDEX_ENTRIES {
            before.push(vstd::utf8::decode_utf8(part))
        } else {
            before
        }
    }
}

fn split_zero(bytes: &[u8]) -> (r: Vec<Vec<u8>>)
    ensures
        r@.map_values(|v: Vec<u8>| v@) == zero_separated(bytes@),
{
    let mut done: Vec<Vec<u8>> = Vec::new();
    let mut current: Vec<u8> = Vec::new();
    let mut i: usize = 0;
    assert(bytes@.take(0) =~= Seq::empty());
    assert(done@.map_values(|v: Vec<u8>| v@).push(current@) =~= zero_separated(bytes@.take(0)));
    while i < bytes.len()
        invariant
            i <= bytes@.len(),
            done@.map_values(|v: Vec<u8>| v@).push(current@) == zero_separated(
                bytes@.take(i as int),
            ),
        decreases bytes@.len() - i,
    {
        assert(bytes@.take(i + 1).drop_last() =~= bytes@.take(i as int));
        let ghost before = done@.map_values(|v: Vec<u8>| v@).push(current@);
        let ghost old_done = done@;
        let ghost old_current = current@;
        if bytes[i] == 0 {
            done.push(current);
            current = Vec::new();
            assert(done@.map_values(|v: Vec<u8>| v@).push(current@) =~= before.push(Seq::empty()));
        } else {
            current.push(bytes[i]);
            assert(before.drop_last() =~= done@.map_values(|v: Vec<u8>| v@));
        }
        i += 1;
    }
    assert(bytes@.take(i as int) =~= bytes@);
    let ghost last = current@;
    let ghost old_done = done@;
    done.push(current);
    assert(done@.map_values(|v: Vec<u8>| v@) =~= old_done.map_values(|v: Vec<u8>| v@).push(last));
    done
}

/// The paths that a listing with zero bytes between them names.
pub fn parse_listing(output: &[u8]) -> (r: Vec<String>)
    ensures
        views(r@) == listed_paths(zero_separated(output@)),
{
    let parts = split_zero(output);
    let ghost all = parts@.map_values(|v: Vec<u8>| v@);
    let mut r: Vec<String> = Vec::new();
    let mut i: usize = 0;
    assert(all.take(0) =~= Seq::empty());
    assert(views(r@) =~= Seq::empty());
    while i < parts.len()
        invariant
            i <= parts@.len(),
            all == parts@.map_values(|v: Vec<u8>| v@),
            views(r@) == listed_paths(all.take(i as int)),
        decreases parts@.len() - i,
    {
        assert(all.take(i + 1).drop_last() =~= all.take(i as int));
        assert(all.take(i + 1).last() == parts@[i as int]@);
        let n: usize = r.len();
        assert(views(r@).len() == n);
        if parts[i].len() > 0 && n < MAX_INDEX_ENTRIES {
            match text_strict(&parts[i]) {
                Some(text) => {
                    let ghost before = views(r@);
                    r.push(text.to_owned());
                    assert(views(r@) =~= before.push(text@));
                    proof {
                        vstd::utf8::encode_utf8_decode_utf8(text@);
                    }
                },
                None => {},
            }
        }
        i += 1;
    }
    assert(all.take(i as int) =~= all);
    r
}

/// Whether a walk passes over an entry: hidden ones, and build directories.
pub open spec fn passed_over(name: Seq<char>) -> bool {
    starts(name, "."@) || name == "target"@ || name == "node_modules"@ || name == "dist"@ || name
        == "build"@ || name == "__pycache__"@
}

pub fn walk_skips(name: &str) -> (r: bool)
    ensures
        r == passed_over(name@),
{
    crate::text::begins(&chars_of(name), ".") || same(name, "target") || same(name, "node_modules")
        || same(name, "dist") || same(name, "build") || same(name, "__pycache__")
}

/// The index of the project's files, with the matches for the last query.
pub struct FileIndex {
    pub entries: Option<Vec<String>>,
    pub cached_query: Option<String>,
    pub cached_matches: Vec<String>,
}

pub open spec fn entries_view(entries: Option<Vec<String>>) -> Option<Seq<Seq<char>>> {
    match entries {
        Some(list) => Some(views(list@)),
        None => None,
    }
}

impl FileIndex {
    /// The kept matches are those of the kept query.
    pub open spec fn wf(self) -> bool {
        self.cached_query matches Some(query) ==> self.entries is Some && views(
            self.cached_matches@,
        ) == best_matches(entries_view(self.entries)->0, query@)
    }

    pub fn with_entries(entries: Vec<String>) -> (r: Self)
        ensures
            r.wf(),
            entries_view(r.entries) == Some(views(entries@)),
    {
        FileIndex { entries: Some(entries), cached_query: None, cached_matches: Vec::new() }
    }

    /// Whether the project has to be listed before a query.
    pub fn needs_scan(&self) -> (r: bool)
        ensures
            r == (self.entries is None),
    {
        self.entries.is_none()
    }

    /// Takes in a listing of the project.
    pub fn fill(&mut self, files: &Vec<String>)
        ensures
            final(self).wf(),
            entries_view(final(self).entries) == Some(indexed(views(files@))),
    {
        self.entries = Some(index_entries(files));
        self.cached_query = None;
    }

    /// The best matches for a query. A query that is asked again is answered
    /// from the kept matches.
    pub fn matches(&mut self, query: &str) -> (r: &Vec<String>)
        requires
            old(self).wf(),
            old(self).entries is Some,
        ensures
            final(self).wf(),
            entries_view(final(self).entries) == entries_view(old(self).entries),
            views(r@) == best_matches(entries_view(old(self).entries)->0, query@),
    {
        let kept = match &self.cached_query {
            Some(known) => same(known.as_str(), query),
            None => false,
        };
        if !kept {
            let found = match &self.entries {
                Some(entries) => rank_matches(entries, query),
                None => Vec::new(),
            };
            self.cached_matches = found;
            self.cached_query = Some(query.to_owned());
        }
        &self.cached_matches
    }
}

impl Default for FileIndex {
    fn default() -> (r: Self)
        ensures
            r.wf(),
            r.entries is None,
    {
        FileIndex { entries: None, cached_query: None, cached_matches: Vec::new() }
    }
}

// ---------------------------------------------------------------------------
// Laws

proof fn precedes_is_total(query: Seq<char>, a: Seq<char>, b: Seq<char>)
    ensures
        precedes(query, a, b) || precedes(query, b, a),
{
    crate::order::alphabetical_is_total(a, b);
}

proof fn precedes_is_transitive(query: Seq<char>, a: Seq<char>, b: Seq<char>, c: Seq<char>)
    requires
        precedes(query, a, b),
        precedes(query, b, c),
    ensures
        precedes(query, a, c),
{
    if alphabetical(a, b) && alphabetical(b, c) {
        crate::order::alphabetical_is_transitive(a, b, c);
    }
}

/// A list of matches in which none precedes one before it.
pub open spec fn in_rank_order(query: Seq<char>, s: Seq<Seq<char>>) -> bool {
    forall|i: int, j: int|
        0 <= i <= j < s.len() ==> precedes(query, #[trigger] s[i], #[trigger] s[j])
}

proof fn put_keeps_rank_order(query: Seq<char>, s: Seq<Seq<char>>, path: Seq<char>)
    requires
        in_rank_order(query, s),
    ensures
        in_rank_order(query, put_match(query, s, path)),
        put_match(query, s, path).to_multiset() == s.to_multiset().insert(path),
        put_match(query, s, path).len() == s.len() + 1,
        forall|i: int|
            0 <= i < s.len() + 1 ==> s.contains(#[trigger] put_match(query, s, path)[i])
                || put_match(query, s, path)[i] == path,
    decreases s.len(),
{
    broadcast use vstd::seq_lib::group_to_multiset_ensures;

    let now = put_match(query, s, path);
    crate::order::alphabetical_is_total(path, path);
    if s.len() == 0 {
        assert(now =~= s.insert(0, path));
        vstd::seq_lib::to_multiset_insert(s, 0, path);
    } else if precedes(query, s[0], path) {
        let rest = s.skip(1);
        assert forall|i: int, j: int| 0 <= i <= j < rest.len() implies precedes(
            query,
            #[trigger] rest[i],
            #[trigger] rest[j],
        ) by {
            assert(rest[i] == s[i + 1] && rest[j] == s[j + 1]);
        }
        put_keeps_rank_order(query, rest, path);
        let below = put_match(query, rest, path);
        assert forall|i: int, j: int| 0 <= i <= j < now.len() implies precedes(
            query,
            #[trigger] now[i],
            #[trigger] now[j],
        ) by {
            if i > 0 {
                assert(now[i] == below[i - 1] && now[j] == below[j - 1]);
            } else if j > 0 {
                assert(now[j] == below[j - 1]);
                if rest.contains(below[j - 1]) {
                    let k = choose|k: int| 0 <= k < rest.len() && rest[k] == below[j - 1];
                    assert(s[k + 1] == now[j]);
                }
            } else {
                assert(precedes(query, s[0], s[0]));
            }
        }
        assert forall|i: int| 0 <= i < s.len() + 1 implies s.contains(#[trigger] now[i]) || now[i]
            == path by {
            if i > 0 {
                assert(now[i] == below[i - 1]);
                if rest.contains(below[i - 1]) {
                    let k = choose|k: int| 0 <= k < rest.len() && rest[k] == below[i - 1];
                    assert(s[k + 1] == now[i]);
                }
            } else {
                assert(now[0] == s[0]);
            }
        }
        assert(rest.insert(0, s[0]) =~= s);
        vstd::seq_lib::to_multiset_insert(rest, 0, s[0]);
        assert(below.insert(0, s[0]) =~= now);
        vstd::seq_lib::to_multiset_insert(below, 0, s[0]);
    } else {
        precedes_is_total(query, s[0], path);
        assert forall|i: int, j: int| 0 <= i <= j < now.len() implies precedes(
            query,
            #[trigger] now[i],
            #[trigger] now[j],
        ) by {
            if i > 0 {
                assert(now[i] == s[i - 1] && now[j] == s[j - 1]);
            } else if j > 0 {
                assert(now[j] == s[j - 1]);
                assert(precedes(query, s[0], s[j - 1]));
                precedes_is_transitive(query, path, s[0], s[j - 1]);
            } else {
                precedes_is_total(query, path, path);
            }
        }
        assert forall|i: int| 0 <= i < s.len() + 1 implies s.contains(#[trigger] now[i]) || now[i]
            == path by {
            if i > 0 {
                assert(now[i] == s[i - 1]);
            }
        }
        assert(s.insert(0, path) =~= now);
        vstd::seq_lib::to_multiset_insert(s, 0, path);
    }
}

/// Ranking orders the matches and keeps each path that matches as often as it
/// is listed.
pub proof fn ranking_orders_the_matches(query: Seq<char>, entries: Seq<Seq<char>>)
    ensures
        in_rank_order(query, ranked(query, entries)),
        ranked(query, entries).to_multiset() == entries.filter(
            |path: Seq<char>| match_rank(path, query) is Some,
        ).to_multiset(),
    decreases entries.len(),
{
    broadcast use vstd::seq_lib::group_to_multiset_ensures;

    let wanted = |path: Seq<char>| match_rank(path, query) is Some;
    reveal(Seq::filter);
    if entries.len() > 0 {
        ranking_orders_the_matches(query, entries.drop_last());
        let kept = entries.drop_last().filter(wanted);
        if wanted(entries.last()) {
            put_keeps_rank_order(query, ranked(query, entries.drop_last()), entries.last());
            assert(kept.push(entries.last()) =~= kept.insert(kept.len() as int, entries.last()));
            vstd::seq_lib::to_multiset_insert(kept, kept.len() as int, entries.last());
        }
    }
}

/// A name that matches comes before every path that matches only as a whole.
pub proof fn names_outrank_directories(query: Seq<char>, a: Seq<char>, b: Seq<char>)
    requires
        match_rank(a, query) matches Some(rank) && rank <= 1,
        match_rank(b, query) matches Some(rank) && rank >= 2,
    ensures
        precedes(query, a, b),
        !precedes(query, b, a),
{
}

/// Whether the characters of a text stand in another, in their order, at the
/// given places.
pub open spec fn stands_at(needle: Seq<char>, haystack: Seq<char>, places: Seq<int>) -> bool {
    &&& places.len() == needle.len()
    &&& forall|i: int|
        0 <= i < places.len() ==> 0 <= #[trigger] places[i] < haystack.len()
            && haystack[places[i]] == needle[i]
    &&& forall|i: int, j: int|
        0 <= i < j < places.len() ==> #[trigger] places[i] < #[trigger] places[j]
}

/// A query whose characters stand in a path in their order is found in it.
pub proof fn scattered_letters_match(needle: Seq<char>, haystack: Seq<char>, places: Seq<int>)
    requires
        stands_at(needle, haystack, places),
    ensures
        subsequence(needle, haystack),
    decreases haystack.len(),
{
    if needle.len() > 0 {
        let first = places[0];
        let tail = haystack.skip(1);
        if needle[0] == haystack[0] {
            let rest = Seq::new((places.len() - 1) as nat, |i: int| places[i + 1] - 1);
            assert forall|i: int| 0 <= i < rest.len() implies 0 <= #[trigger] rest[i] < tail.len()
                && tail[rest[i]] == needle.skip(1)[i] by {
                assert(places[0] < places[i + 1]);
            }
            assert forall|i: int, j: int| 0 <= i < j < rest.len() implies #[trigger] rest[i]
                < #[trigger] rest[j] by {
                assert(places[i + 1] < places[j + 1]);
            }
            scattered_letters_match(needle.skip(1), tail, rest);
        } else {
            let rest = Seq::new(places.len(), |i: int| places[i] - 1);
            assert forall|i: int| 0 <= i < rest.len() implies 0 <= #[trigger] rest[i] < tail.len()
                && tail[rest[i]] == needle[i] by {
                if i > 0 {
                    assert(places[0] < places[i]);
                }
            }
            assert forall|i: int, j: int| 0 <= i < j < rest.len() implies #[trigger] rest[i]
                < #[trigger] rest[j] by {
                assert(places[i] < places[j]);
            }
            scattered_letters_match(needle, tail, rest);
        }
    }
}

/// A query that is found in a path this way stands in it.
pub proof fn scattered_matches_stand(needle: Seq<char>, haystack: Seq<char>) -> (places: Seq<int>)
    requires
        subsequence(needle, haystack),
    ensures
        stands_at(needle, haystack, places),
    decreases haystack.len(),
{
    if needle.len() == 0 {
        Seq::empty()
    } else {
        let tail = haystack.skip(1);
        if needle[0] == haystack[0] {
            let rest = scattered_matches_stand(needle.skip(1), tail);
            let places = seq![0int] + rest.map_values(|p: int| p + 1);
            assert forall|i: int| 0 <= i < places.len() implies 0 <= #[trigger] places[i]
                < haystack.len() && haystack[places[i]] == needle[i] by {
                if i > 0 {
                    assert(places[i] == rest[i - 1] + 1);
                    assert(tail[rest[i - 1]] == needle.skip(1)[i - 1]);
                }
            }
            assert forall|i: int, j: int| 0 <= i < j < places.len() implies #[trigger] places[i]
                < #[trigger] places[j] by {
                if i > 0 {
                    assert(rest[i - 1] < rest[j - 1]);
                }
            }
            places
        } else {
            let rest = scattered_matches_stand(needle, tail);
            let places = rest.map_values(|p: int| p + 1);
            assert forall|i: int| 0 <= i < places.len() implies 0 <= #[trigger] places[i]
                < haystack.len() && haystack[places[i]] == needle[i] by {
                assert(tail[rest[i]] == needle[i]);
            }
            assert forall|i: int, j: int| 0 <= i < j < places.len() implies #[trigger] places[i]
                < #[trigger] places[j] by {
                assert(rest[i] < rest[j]);
            }
            places
        }
    }
}

/// The closer a match, the better its rank: a name that begins with the query
/// comes before one that holds it, that before a path that holds it, and that
/// before one in which its letters stand scattered. Of equal ranks the shorter
/// path comes first.
pub proof fn closer_matches_rank_better(
    query: Seq<char>,
    a: Seq<char>,
    b: Seq<char>,
)
    requires
        match_rank(a, query) is Some,
        match_rank(b, query) is Some,
    ensures
        ({
            let begins = |p: Seq<char>| starts(lowercase(file_name(p)), query);
            let named = |p: Seq<char>| occurs(lowercase(file_name(p)), query);
            let held = |p: Seq<char>| occurs(lowercase(p), query);
            &&& begins(a) && !begins(b) ==> precedes(query, a, b) && !precedes(query, b, a)
            &&& !begins(a) && !begins(b) && named(a) && !named(b) ==> precedes(query, a, b)
                && !precedes(query, b, a)
            &&& !begins(a) && !begins(b) && !named(a) && !named(b) && held(a) && !held(b)
                ==> precedes(query, a, b) && !precedes(query, b, a)
            &&& begins(a) && begins(b) && encode_utf8(a).len() < encode_utf8(b).len() ==> precedes(
                query,
                a,
                b,
            ) && !precedes(query, b, a)
        }),
{
}

/// A path is offered where the query stands in its name or in itself, or its
/// letters do in their order; no other path is.
pub proof fn matching_paths_are_offered(path: Seq<char>, query: Seq<char>)
    ensures
        match_rank(path, query) is Some <==> starts(lowercase(file_name(path)), query) || occurs(
            lowercase(file_name(path)),
            query,
        ) || occurs(lowercase(path), query) || subsequence(query, lowercase(path)),
{
}

/// At most 32 files are offered, and these are the best: whatever is left out
/// comes behind each of them.
pub proof fn best_matches_come_first(entries: Seq<Seq<char>>, query: Seq<char>)
    ensures
        ({
            let all = ranked(lowercase(query), entries);
            let shown = best_matches(entries, query);
            &&& shown.len() == (if all.len() < 32 {
                all.len() as int
            } else {
                32
            })
            &&& forall|i: int| 0 <= i < shown.len() ==> #[trigger] shown[i] == all[i]
            &&& forall|i: int, j: int|
                0 <= i < shown.len() <= j < all.len() ==> precedes(
                    lowercase(query),
                    #[trigger] shown[i],
                    #[trigger] all[j],
                )
        }),
{
    let all = ranked(lowercase(query), entries);
    let shown = best_matches(entries, query);
    ranking_orders_the_matches(lowercase(query), entries);
    assert forall|i: int, j: int| 0 <= i < shown.len() <= j < all.len() implies precedes(
        lowercase(query),
        #[trigger] shown[i],
        #[trigger] all[j],
    ) by {
        assert(shown[i] == all[i]);
    }
}

/// The index lists every file once, however often it was named.
pub proof fn repeats_are_left_out(s: Seq<Seq<char>>)
    ensures
        forall|p: Seq<char>| #[trigger] without_repeats(s).contains(p) <==> s.contains(p),
        forall|i: int|
            0 < i < without_repeats(s).len() ==> without_repeats(s)[i - 1]
                != #[trigger] without_repeats(s)[i],
        s.len() > 0 ==> without_repeats(s).len() > 0 && without_repeats(s).last() == s.last(),
    decreases s.len(),
{
    if s.len() > 0 {
        let before = s.drop_last();
        repeats_are_left_out(before);
        let now = without_repeats(s);
        let earlier = without_repeats(before);
        assert(before.push(s.last()) =~= s);
        assert forall|p: Seq<char>| #[trigger] now.contains(p) <==> s.contains(p) by {
            if now.contains(p) {
                let k = choose|k: int| 0 <= k < now.len() && now[k] == p;
                if k < earlier.len() {
                    assert(earlier[k] == p);
                    assert(earlier.contains(p));
                    assert(before.contains(p));
                    let m = choose|m: int| 0 <= m < before.len() && before[m] == p;
                    assert(s[m] == p);
                } else {
                    assert(s[s.len() - 1] == p);
                }
            }
            if s.contains(p) {
                let m = choose|m: int| 0 <= m < s.len() && s[m] == p;
                if m < s.len() - 1 {
                    assert(before[m] == p);
                    assert(earlier.contains(p));
                    let k = choose|k: int| 0 <= k < earlier.len() && earlier[k] == p;
                    assert(now[k] == p);
                } else {
                    assert(now[now.len() - 1] == p);
                }
            }
        }
    }
}

/// The paths of a listing, each followed by a zero byte, as they are listed.
pub open spec fn zero_ended(paths: Seq<Seq<char>>) -> Seq<u8>
    decreases paths.len(),
{
    if paths.len() == 0 {
        Seq::empty()
    } else {
        (zero_ended(paths.drop_last()) + encode_utf8(paths.last())).push(0)
    }
}

proof fn part_grows(bytes: Seq<u8>, part: Seq<u8>)
    requires
        bytes.len() == 0 || bytes.last() == 0,
        forall|i: int| 0 <= i < part.len() ==> #[trigger] part[i] != 0,
    ensures
        zero_separated(bytes + part) == zero_separated(bytes).drop_last().push(part),
        zero_separated(bytes).len() > 0,
    decreases part.len(),
{
    if part.len() == 0 {
        assert(bytes + part =~= bytes);
        if bytes.len() == 0 {
            assert(part =~= Seq::<u8>::empty());
            assert(zero_separated(bytes) =~= seq![part]);
            assert(zero_separated(bytes).drop_last().push(part) =~= zero_separated(bytes));
        } else {
            let before = zero_separated(bytes.drop_last());
            assert(part =~= Seq::<u8>::empty());
            assert(before.push(Seq::empty()).drop_last() =~= before);
        }
    } else {
        let shorter = part.drop_last();
        assert forall|i: int| 0 <= i < shorter.len() implies #[trigger] shorter[i] != 0 by {
            assert(shorter[i] == part[i]);
        }
        part_grows(bytes, shorter);
        assert((bytes + part).drop_last() =~= bytes + shorter);
        assert((bytes + part).last() == part[part.len() - 1]);
        let before = zero_separated(bytes).drop_last();
        assert(before.push(shorter).drop_last() =~= before);
        assert(shorter.push(part.last()) =~= part);
    }
}

/// A listing reads back as its paths, in their order, up to the limit of the
/// index.
pub proof fn listings_read_back(paths: Seq<Seq<char>>)
    requires
        paths.len() <= 20000,
        forall|i: int| 0 <= i < paths.len() ==> (#[trigger] paths[i]).len() > 0,
        forall|i: int, k: int|
            0 <= i < paths.len() && 0 <= k < encode_utf8(paths[i]).len() ==> #[trigger] encode_utf8(
                paths[i],
            )[k] != 0,
    ensures
        listed_paths(zero_separated(zero_ended(paths))) == paths,
    decreases paths.len(),
{
    let parts = zero_separated(zero_ended(paths));
    reading_back(paths);
    assert(parts.drop_last().push(Seq::<u8>::empty()) =~= parts);
    assert(listed_paths(parts) == listed_paths(parts.drop_last()));
}

proof fn reading_back(paths: Seq<Seq<char>>)
    requires
        paths.len() <= 20000,
        forall|i: int| 0 <= i < paths.len() ==> (#[trigger] paths[i]).len() > 0,
        forall|i: int, k: int|
            0 <= i < paths.len() && 0 <= k < encode_utf8(paths[i]).len() ==> #[trigger] encode_utf8(
                paths[i],
            )[k] != 0,
    ensures
        zero_ended(paths).len() == 0 || zero_ended(paths).last() == 0,
        zero_separated(zero_ended(paths)).len() > 0,
        zero_separated(zero_ended(paths)).last() == Seq::<u8>::empty(),
        listed_paths(zero_separated(zero_ended(paths)).drop_last()) == paths,
    decreases paths.len(),
{
    if paths.len() == 0 {
        assert(zero_separated(zero_ended(paths)).drop_last() =~= Seq::<Seq<u8>>::empty());
        assert(listed_paths(Seq::<Seq<u8>>::empty()) =~= paths);
    } else {
        let before = paths.drop_last();
        let part = encode_utf8(paths.last());
        assert forall|i: int| 0 <= i < before.len() implies (#[trigger] before[i]).len() > 0 by {
            assert(before[i] == paths[i]);
        }
        assert forall|i: int, k: int|
            0 <= i < before.len() && 0 <= k < encode_utf8(
                before[i],
            ).len() implies #[trigger] encode_utf8(before[i])[k] != 0 by {
            assert(before[i] == paths[i]);
        }
        reading_back(before);
        assert(paths.last() == paths[paths.len() - 1]);
        assert forall|i: int| 0 <= i < part.len() implies #[trigger] part[i] != 0 by {
            assert(encode_utf8(paths[paths.len() - 1])[i] != 0);
        }
        part_grows(zero_ended(before), part);
        let bytes = zero_ended(before) + part;
        assert(zero_ended(paths) == bytes.push(0));
        assert(bytes.push(0).drop_last() =~= bytes);
        let parts = zero_separated(bytes);
        assert(zero_separated(zero_ended(paths)) == parts.push(Seq::empty()));
        assert(parts.push(Seq::empty()).drop_last() =~= parts);
        assert(parts.drop_last() =~= zero_separated(zero_ended(before)).drop_last());
        assert(parts.last() == part);
        vstd::utf8::encode_utf8_valid_utf8(paths.last());
        vstd::utf8::encode_utf8_decode_utf8(paths.last());
        assert(part.len() > 0);
        assert(before.push(paths.last()) =~= paths);
    }
}

/// Hidden directories and those of builds are passed over, and others are not.
pub proof fn build_directories_are_passed_over(name: Seq<char>)
    ensures
        name.len() > 0 && name[0] == '.' ==> passed_over(name),
        name == "target"@ || name == "node_modules"@ || name == "dist"@ || name == "build"@ || name
            == "__pycache__"@ ==> passed_over(name),
        passed_over("src"@) == false,
{
    reveal_strlit(".");
    reveal_strlit("src");
    reveal_strlit("target");
    reveal_strlit("node_modules");
    reveal_strlit("dist");
    reveal_strlit("build");
    reveal_strlit("__pycache__");
    assert("."@ =~= seq!['.']);
    if name.len() > 0 && name[0] == '.' {
        assert(name.take(1) =~= "."@);
    }
    assert("src"@.len() == 3 && "src"@[0] == 's' && "target"@.len() == 6 && "node_modules"@.len()
        == 12 && "dist"@.len() == 4 && "build"@.len() == 5 && "__pycache__"@.len() == 11);
    if starts("src"@, "."@) {
        assert("src"@.take(1)[0] == 's');
        assert(seq!['.'][0] == '.');
    }
}

} // verus!
