//! Syntax highlighting of single source lines.
//!
//! A line is read from left to right: a comment takes the rest of the line, a
//! string goes up to its closing quote, and a word is a number, a keyword or
//! plain. Control characters are shown as spaces.

use vstd::prelude::*;
use crate::markdown::{ansi_after, ansi_after_join, sanitized, stripped, Ansi};
use crate::text::{chars_of, digit, is_digit, same, starts_with, string_of, sub_chars};

verus! {

broadcast use vstd::string::group_string_axioms;

/// The characters that begin a comment in a language; empty where it has none.
pub open spec fn comment_marker(language: Seq<char>) -> Seq<char> {
    if language == "python"@ || language == "bash"@ || language == "toml"@ {
        "#"@
    } else if language == "rust"@ || language == "javascript"@ || language == "typescript"@
        || language == "go"@ || language == "c"@ || language == "cpp"@ {
        "//"@
    } else {
        ""@
    }
}

fn marker_of(language: &str) -> (r: &'static str)
    ensures
        r@ == comment_marker(language@),
{
    if same(language, "python") || same(language, "bash") || same(language, "toml") {
        "#"
    } else if same(language, "rust") || same(language, "javascript") || same(
        language,
        "typescript",
    ) || same(language, "go") || same(language, "c") || same(language, "cpp") {
        "//"
    } else {
        ""
    }
}

/// Whether a word is a keyword of a language.
pub open spec fn keyword(language: Seq<char>, word: Seq<char>) -> bool {
    if language == "rust"@ {
        word == "fn"@ || word == "let"@ || word == "mut"@ || word == "pub"@ || word == "struct"@
            || word == "enum"@ || word == "impl"@ || word == "trait"@ || word == "use"@ || word
            == "mod"@ || word == "if"@ || word == "else"@ || word == "match"@ || word == "for"@
            || word == "while"@ || word == "loop"@ || word == "in"@ || word == "return"@ || word
            == "true"@ || word == "false"@ || word == "self"@ || word == "const"@
    } else if language == "python"@ {
        word == "def"@ || word == "class"@ || word == "if"@ || word == "elif"@ || word == "else"@
            || word == "for"@ || word == "while"@ || word == "in"@ || word == "return"@ || word
            == "import"@ || word == "from"@ || word == "True"@ || word == "False"@ || word
            == "None"@
    } else if language == "bash"@ {
        word == "if"@ || word == "fi"@ || word == "for"@ || word == "do"@ || word == "done"@
            || word == "case"@ || word == "esac"@ || word == "function"@ || word == "return"@
    } else if language == "go"@ {
        word == "func"@ || word == "package"@ || word == "import"@ || word == "type"@ || word
            == "struct"@ || word == "if"@ || word == "else"@ || word == "for"@ || word == "range"@
            || word == "return"@ || word == "var"@
    } else if language == "javascript"@ || language == "typescript"@ || language == "c"@ || language
        == "cpp"@ {
        word == "function"@ || word == "const"@ || word == "let"@ || word == "var"@ || word
            == "class"@ || word == "struct"@ || word == "if"@ || word == "else"@ || word == "for"@
            || word == "while"@ || word == "return"@ || word == "true"@ || word == "false"@
    } else {
        false
    }
}

fn is_keyword(language: &str, word: &str) -> (r: bool)
    ensures
        r == keyword(language@, word@),
{
    if same(language, "rust") {
        same(word, "fn") || same(word, "let") || same(word, "mut") || same(word, "pub") || same(
            word,
            "struct",
        ) || same(word, "enum") || same(word, "impl") || same(word, "trait") || same(word, "use")
            || same(word, "mod") || same(word, "if") || same(word, "else") || same(word, "match")
            || same(word, "for") || same(word, "while") || same(word, "loop") || same(word, "in")
            || same(word, "return") || same(word, "true") || same(word, "false") || same(
            word,
            "self",
        ) || same(word, "const")
    } else if same(language, "python") {
        same(word, "def") || same(word, "class") || same(word, "if") || same(word, "elif") || same(
            word,
            "else",
        ) || same(word, "for") || same(word, "while") || same(word, "in") || same(word, "return")
            || same(word, "import") || same(word, "from") || same(word, "True") || same(
            word,
            "False",
        ) || same(word, "None")
    } else if same(language, "bash") {
        same(word, "if") || same(word, "fi") || same(word, "for") || same(word, "do") || same(
            word,
            "done",
        ) || same(word, "case") || same(word, "esac") || same(word, "function") || same(
            word,
            "return",
        )
    } else if same(language, "go") {
        same(word, "func") || same(word, "package") || same(word, "import") || same(word, "type")
            || same(word, "struct") || same(word, "if") || same(word, "else") || same(word, "for")
            || same(word, "range") || same(word, "return") || same(word, "var")
    } else if same(language, "javascript") || same(language, "typescript") || same(language, "c")
        || same(language, "cpp") {
        same(word, "function") || same(word, "const") || same(word, "let") || same(word, "var")
            || same(word, "class") || same(word, "struct") || same(word, "if") || same(word, "else")
            || same(word, "for") || same(word, "while") || same(word, "return") || same(
            word,
            "true",
        ) || same(word, "false")
    } else {
        false
    }
}

pub open spec fn word_char(c: char) -> bool {
    digit(c) || 'a' <= c <= 'z' || 'A' <= c <= 'Z' || c == '_'
}

fn is_word_char(c: char) -> (r: bool)
    ensures
        r == word_char(c),
{
    is_digit(c) || ('a' <= c && c <= 'z') || ('A' <= c && c <= 'Z') || c == '_'
}

/// The length of the word that a text begins with.
pub open spec fn word_length(s: Seq<char>) -> nat
    decreases s.len(),
{
    if s.len() > 0 && word_char(s[0]) {
        1 + word_length(s.skip(1))
    } else {
        0
    }
}

/// The length of a string up to and with its closing quote, or to the end.
pub open spec fn quoted_length(s: Seq<char>, quote: char) -> nat
    decreases s.len(),
{
    if s.len() == 0 {
        0
    } else if s[0] == quote {
        1
    } else {
        1 + quoted_length(s.skip(1), quote)
    }
}

pub proof fn word_length_bound(s: Seq<char>)
    ensures
        word_length(s) <= s.len(),
    decreases s.len(),
{
    if s.len() > 0 && word_char(s[0]) {
        word_length_bound(s.skip(1));
    }
}

pub proof fn quoted_length_bound(s: Seq<char>, quote: char)
    ensures
        quoted_length(s, quote) <= s.len(),
    decreases s.len(),
{
    if s.len() > 0 && s[0] != quote {
        quoted_length_bound(s.skip(1), quote);
    }
}

/// A text in a style.
pub open spec fn styled(style: Seq<char>, s: Seq<char>) -> Seq<char> {
    style + s + "\x1b[0m"@
}

/// What the first token of a text is, and how many characters it has.
pub enum Token {
    Comment,
    Quoted,
    Number,
    Keyword,
    Plain,
}

pub open spec fn first_token(language: Seq<char>, s: Seq<char>) -> (Token, nat) {
    let marker = comment_marker(language);
    if marker.len() > 0 && crate::text::starts(s, marker) {
        (Token::Comment, s.len())
    } else if language.len() > 0 && s[0] == '"' {
        (Token::Quoted, 1 + quoted_length(s.skip(1), '"'))
    } else if word_char(s[0]) {
        let n = word_length(s);
        if language.len() > 0 && digit(s[0]) {
            (Token::Number, n)
        } else if keyword(language, s.take(n as int)) {
            (Token::Keyword, n)
        } else {
            (Token::Plain, n)
        }
    } else {
        (Token::Plain, 1)
    }
}

pub open spec fn token_text(token: Token, s: Seq<char>) -> Seq<char> {
    match token {
        Token::Comment => styled("\x1b[2;36m"@, s),
        Token::Quoted => styled("\x1b[32m"@, s),
        Token::Number => styled("\x1b[35m"@, s),
        Token::Keyword => styled("\x1b[1;34m"@, s),
        Token::Plain => s,
    }
}

pub proof fn first_token_bound(language: Seq<char>, s: Seq<char>)
    requires
        s.len() > 0,
    ensures
        0 < first_token(language, s).1 <= s.len(),
{
    word_length_bound(s);
    quoted_length_bound(s.skip(1), '"');
}

/// A sanitized line with its tokens styled.
pub open spec fn highlighted(language: Seq<char>, s: Seq<char>) -> Seq<char>
    decreases s.len(),
{
    if s.len() == 0 {
        Seq::empty()
    } else {
        let (token, n) = first_token(language, s);
        if 0 < n <= s.len() {
            token_text(token, s.take(n as int)) + highlighted(language, s.skip(n as int))
        } else {
            Seq::empty()
        }
    }
}

proof fn styled_is_plain(style: Seq<char>, parameters: Seq<char>, s: Seq<char>)
    requires
        crate::markdown::sgr_parameters(parameters),
        style == crate::markdown::sgr(parameters),
        ansi_after(s) == Ansi::Text,
    ensures
        ansi_after(styled(style, s)) == Ansi::Text,
        stripped(styled(style, s)) == stripped(s),
{
    crate::markdown::sgr_is_hidden(parameters);
    crate::markdown::reset_is_hidden();
    ansi_after_join(style, s);
    ansi_after_join(style + s, "\x1b[0m"@);
    assert(Seq::<char>::empty() + stripped(s) + Seq::<char>::empty() =~= stripped(s));
}

proof fn token_is_plain(token: Token, s: Seq<char>)
    requires
        ansi_after(s) == Ansi::Text,
    ensures
        ansi_after(token_text(token, s)) == Ansi::Text,
        stripped(token_text(token, s)) == stripped(s),
{
    reveal_strlit("\x1b[2;36m");
    reveal_strlit("\x1b[32m");
    reveal_strlit("\x1b[35m");
    reveal_strlit("\x1b[1;34m");
    assert("\x1b[2;36m"@ =~= crate::markdown::sgr(seq!['2', ';', '3', '6']));
    assert("\x1b[32m"@ =~= crate::markdown::sgr(seq!['3', '2']));
    assert("\x1b[35m"@ =~= crate::markdown::sgr(seq!['3', '5']));
    assert("\x1b[1;34m"@ =~= crate::markdown::sgr(seq!['1', ';', '3', '4']));
    match token {
        Token::Comment => styled_is_plain("\x1b[2;36m"@, seq!['2', ';', '3', '6'], s),
        Token::Quoted => styled_is_plain("\x1b[32m"@, seq!['3', '2'], s),
        Token::Number => styled_is_plain("\x1b[35m"@, seq!['3', '5'], s),
        Token::Keyword => styled_is_plain("\x1b[1;34m"@, seq!['1', ';', '3', '4'], s),
        Token::Plain => {},
    }
}

/// Text without control characters is shown as it stands.
pub proof fn plain_text_is_shown(s: Seq<char>)
    requires
        forall|i: int| 0 <= i < s.len() ==> !crate::text::control(#[trigger] s[i]),
    ensures
        ansi_after(s) == Ansi::Text,
        stripped(s) == s,
{
    assert(sanitized(s) =~= s);
    crate::markdown::sanitized_is_plain(s);
}

/// Highlighting adds styles to a line and changes nothing that is shown.
pub proof fn highlighting_shows_the_line(language: Seq<char>, s: Seq<char>)
    requires
        forall|i: int| 0 <= i < s.len() ==> !crate::text::control(#[trigger] s[i]),
    ensures
        ansi_after(highlighted(language, s)) == Ansi::Text,
        stripped(highlighted(language, s)) == s,
    decreases s.len(),
{
    if s.len() > 0 {
        first_token_bound(language, s);
        let (token, n) = first_token(language, s);
        let head = s.take(n as int);
        let tail = s.skip(n as int);
        assert forall|i: int| 0 <= i < head.len() implies !crate::text::control(
            #[trigger] head[i],
        ) by {
            assert(head[i] == s[i]);
        }
        assert forall|i: int| 0 <= i < tail.len() implies !crate::text::control(
            #[trigger] tail[i],
        ) by {
            assert(tail[i] == s[i + n]);
        }
        plain_text_is_shown(head);
        token_is_plain(token, head);
        highlighting_shows_the_line(language, tail);
        ansi_after_join(token_text(token, head), highlighted(language, tail));
        assert(head + tail =~= s);
    } else {
        assert(stripped(highlighted(language, s)) =~= s);
    }
}

fn word_end(s: &Vec<char>, from: usize) -> (r: usize)
    requires
        from <= s@.len(),
    ensures
        r == from + word_length(s@.skip(from as int)),
        r <= s@.len(),
{
    let mut i: usize = from;
    while i < s.len() && is_word_char(s[i])
        invariant
            from <= i <= s@.len(),
            word_length(s@.skip(from as int)) == (i - from) + word_length(s@.skip(i as int)),
        decreases s@.len() - i,
    {
        assert(s@.skip(i as int).skip(1) =~= s@.skip(i + 1));
        i += 1;
    }
    i
}

fn quote_end(s: &Vec<char>, from: usize, quote: char) -> (r: usize)
    requires
        from <= s@.len(),
    ensures
        r == from + quoted_length(s@.skip(from as int), quote),
        r <= s@.len(),
{
    let mut i: usize = from;
    while i < s.len() && s[i] != quote
        invariant
            from <= i <= s@.len(),
            quoted_length(s@.skip(from as int), quote) == (i - from) + quoted_length(
                s@.skip(i as int),
                quote,
            ),
        decreases s@.len() - i,
    {
        assert(s@.skip(i as int).skip(1) =~= s@.skip(i + 1));
        i += 1;
    }
    if i < s.len() {
        i + 1
    } else {
        i
    }
}

fn token_style(token: &Token) -> (r: Option<&'static str>)
    ensures
        forall|s: Seq<char>| #[trigger]
            token_text(*token, s) == match r {
                Some(style) => styled(style@, s),
                None => s,
            },
{
    match token {
        Token::Comment => Some("\x1b[2;36m"),
        Token::Quoted => Some("\x1b[32m"),
        Token::Number => Some("\x1b[35m"),
        Token::Keyword => Some("\x1b[1;34m"),
        Token::Plain => None,
    }
}

fn read_token(language: &str, s: &Vec<char>, at: usize) -> (r: (Token, usize))
    requires
        at < s@.len(),
    ensures
        r.0 == first_token(language@, s@.skip(at as int)).0,
        r.1 == at + first_token(language@, s@.skip(at as int)).1,
        at < r.1 <= s@.len(),
{
    let ghost rest = s@.skip(at as int);
    proof {
        first_token_bound(language@, rest);
        assert(rest.skip(1) =~= s@.skip(at + 1));
    }
    let tail = sub_chars(s, at, s.len());
    assert(tail@ =~= rest);
    let marker = chars_of(marker_of(language));
    if marker.len() > 0 && starts_with(&tail, &marker) {
        return (Token::Comment, s.len());
    }
    let c = s[at];
    let has_language = !language.is_empty();
    if has_language && c == '"' {
        return (Token::Quoted, quote_end(s, at + 1, '"'));
    }
    if is_word_char(c) {
        let end: usize = word_end(s, at);
        if has_language && is_digit(c) {
            return (Token::Number, end);
        }
        let word = sub_chars(s, at, end);
        assert(word@ =~= rest.take(end - at));
        let word = string_of(&word);
        if is_keyword(language, word.as_str()) {
            return (Token::Keyword, end);
        }
        return (Token::Plain, end);
    }
    (Token::Plain, at + 1)
}

/// Highlights a source line; see `highlighted`.
pub fn render_line(language: &str, text: &str) -> (r: String)
    ensures
        r@ == highlighted(language@, sanitized(text@)),
{
    let clean = crate::markdown::sanitize_plain(text);
    let s = chars_of(clean.as_str());
    let mut r: String = String::new();
    let mut at: usize = 0;
    assert(s@.skip(0) =~= s@);
    assert(r@ + highlighted(language@, s@) =~= highlighted(language@, s@));
    while at < s.len()
        invariant
            at <= s@.len(),
            r@ + highlighted(language@, s@.skip(at as int)) == highlighted(language@, s@),
        decreases s@.len() - at,
    {
        let ghost rest = s@.skip(at as int);
        let ghost before = r@;
        let (token, end) = read_token(language, &s, at);
        let part = sub_chars(&s, at, end);
        assert(part@ =~= rest.take(end - at));
        assert(rest.skip(end - at) =~= s@.skip(end as int));
        let piece = string_of(&part);
        match token_style(&token) {
            Some(style) => {
                r.append(style);
                r.append(piece.as_str());
                r.append("\x1b[0m");
                assert(r@ =~= before + token_text(token, part@));
            },
            None => {
                r.append(piece.as_str());
            },
        }
        assert(r@ + highlighted(language@, s@.skip(end as int)) =~= before + highlighted(
            language@,
            rest,
        ));
        at = end;
    }
    assert(highlighted(language@, s@.skip(at as int)) =~= Seq::empty());
    assert(r@ =~= highlighted(language@, s@));
    r
}

/// The names of the languages tell them apart.
proof fn languages_differ()
    ensures
        "python"@.len() == 6,
        "bash"@.len() == 4,
        "toml"@.len() == 4,
        "rust"@.len() == 4,
        "javascript"@.len() == 10,
        "typescript"@.len() == 10,
        "go"@.len() == 2,
        "c"@.len() == 1,
        "cpp"@.len() == 3,
        "rust"@[0] == 'r',
        "bash"@[0] == 'b',
        "toml"@[0] == 't',
        "javascript"@[0] == 'j',
        "typescript"@[0] == 't',
{
    reveal_strlit("python");
    reveal_strlit("bash");
    reveal_strlit("toml");
    reveal_strlit("rust");
    reveal_strlit("javascript");
    reveal_strlit("typescript");
    reveal_strlit("go");
    reveal_strlit("c");
    reveal_strlit("cpp");
}

/// The words that stand out in a language.
pub open spec fn words_of(language: Seq<char>, words: Seq<Seq<char>>) -> bool {
    forall|word: Seq<char>| #[trigger] keyword(language, word) <==> words.contains(word)
}

/// A comment begins with a hash in Python, in a shell script and in TOML, and
/// with two slashes in the languages that look like C.
pub proof fn languages_have_their_comments()
    ensures
        comment_marker("python"@) == "#"@,
        comment_marker("bash"@) == "#"@,
        comment_marker("toml"@) == "#"@,
        comment_marker("rust"@) == "//"@,
        comment_marker("javascript"@) == "//"@,
        comment_marker("typescript"@) == "//"@,
        comment_marker("go"@) == "//"@,
        comment_marker("c"@) == "//"@,
        comment_marker("cpp"@) == "//"@,
        comment_marker(""@).len() == 0,
{
    reveal_strlit("");
    languages_differ();
}

/// The words that stand out in Rust.
pub proof fn rust_words_stand_out()
    ensures
        ({
            let words = seq![
                "fn"@, "let"@, "mut"@, "pub"@, "struct"@, "enum"@, "impl"@, "trait"@,
                "use"@, "mod"@, "if"@, "else"@, "match"@, "for"@, "while"@, "loop"@, "in"@,
                "return"@, "true"@, "false"@, "self"@, "const"@,
            ];
            &&& words_of("rust"@, words)
        }),
{
    languages_differ();
    let words = seq![
        "fn"@, "let"@, "mut"@, "pub"@, "struct"@, "enum"@, "impl"@, "trait"@, "use"@,
        "mod"@, "if"@, "else"@, "match"@, "for"@, "while"@, "loop"@, "in"@, "return"@,
        "true"@, "false"@, "self"@, "const"@,
    ];
    assert(words[0] == "fn"@);
    assert(words[1] == "let"@);
    assert(words[2] == "mut"@);
    assert(words[3] == "pub"@);
    assert(words[4] == "struct"@);
    assert(words[5] == "enum"@);
    assert(words[6] == "impl"@);
    assert(words[7] == "trait"@);
    assert(words[8] == "use"@);
    assert(words[9] == "mod"@);
    assert(words[10] == "if"@);
    assert(words[11] == "else"@);
    assert(words[12] == "match"@);
    assert(words[13] == "for"@);
    assert(words[14] == "while"@);
    assert(words[15] == "loop"@);
    assert(words[16] == "in"@);
    assert(words[17] == "return"@);
    assert(words[18] == "true"@);
    assert(words[19] == "false"@);
    assert(words[20] == "self"@);
    assert(words[21] == "const"@);
    assert forall|language: Seq<char>, word: Seq<char>|
        (language == "rust"@) implies (#[trigger] keyword(language, word)
            <==> words.contains(word)) by {
        if words.contains(word) {
            let i = choose|i: int| 0 <= i < words.len() && words[i] == word;
            assert(words[i] == word);
        }
    }
}

/// The words that stand out in Python.
pub proof fn python_words_stand_out()
    ensures
        ({
            let words = seq![
                "def"@, "class"@, "if"@, "elif"@, "else"@, "for"@, "while"@, "in"@,
                "return"@, "import"@, "from"@, "True"@, "False"@, "None"@,
            ];
            &&& words_of("python"@, words)
        }),
{
    languages_differ();
    let words = seq![
        "def"@, "class"@, "if"@, "elif"@, "else"@, "for"@, "while"@, "in"@, "return"@,
        "import"@, "from"@, "True"@, "False"@, "None"@,
    ];
    assert(words[0] == "def"@);
    assert(words[1] == "class"@);
    assert(words[2] == "if"@);
    assert(words[3] == "elif"@);
    assert(words[4] == "else"@);
    assert(words[5] == "for"@);
    assert(words[6] == "while"@);
    assert(words[7] == "in"@);
    assert(words[8] == "return"@);
    assert(words[9] == "import"@);
    assert(words[10] == "from"@);
    assert(words[11] == "True"@);
    assert(words[12] == "False"@);
    assert(words[13] == "None"@);
    assert forall|language: Seq<char>, word: Seq<char>|
        (language == "python"@) implies (#[trigger] keyword(language, word)
            <==> words.contains(word)) by {
        if words.contains(word) {
            let i = choose|i: int| 0 <= i < words.len() && words[i] == word;
            assert(words[i] == word);
        }
    }
}

/// The words that stand out in a shell script.
pub proof fn shell_words_stand_out()
    ensures
        ({
            let words = seq![
                "if"@, "fi"@, "for"@, "do"@, "done"@, "case"@, "esac"@, "function"@,
                "return"@,
            ];
            &&& words_of("bash"@, words)
        }),
{
    languages_differ();
    let words = seq![
        "if"@, "fi"@, "for"@, "do"@, "done"@, "case"@, "esac"@, "function"@, "return"@,
    ];
    assert(words[0] == "if"@);
    assert(words[1] == "fi"@);
    assert(words[2] == "for"@);
    assert(words[3] == "do"@);
    assert(words[4] == "done"@);
    assert(words[5] == "case"@);
    assert(words[6] == "esac"@);
    assert(words[7] == "function"@);
    assert(words[8] == "return"@);
    assert forall|language: Seq<char>, word: Seq<char>|
        (language == "bash"@) implies (#[trigger] keyword(language, word)
            <==> words.contains(word)) by {
        if words.contains(word) {
            let i = choose|i: int| 0 <= i < words.len() && words[i] == word;
            assert(words[i] == word);
        }
    }
}

/// The words that stand out in Go.
pub proof fn go_words_stand_out()
    ensures
        ({
            let words = seq![
                "func"@, "package"@, "import"@, "type"@, "struct"@, "if"@, "else"@, "for"@,
                "range"@, "return"@, "var"@,
            ];
            &&& words_of("go"@, words)
        }),
{
    languages_differ();
    let words = seq![
        "func"@, "package"@, "import"@, "type"@, "struct"@, "if"@, "else"@, "for"@,
        "range"@, "return"@, "var"@,
    ];
    assert(words[0] == "func"@);
    assert(words[1] == "package"@);
    assert(words[2] == "import"@);
    assert(words[3] == "type"@);
    assert(words[4] == "struct"@);
    assert(words[5] == "if"@);
    assert(words[6] == "else"@);
    assert(words[7] == "for"@);
    assert(words[8] == "range"@);
    assert(words[9] == "return"@);
    assert(words[10] == "var"@);
    assert forall|language: Seq<char>, word: Seq<char>|
        (language == "go"@) implies (#[trigger] keyword(language, word)
            <==> words.contains(word)) by {
        if words.contains(word) {
            let i = choose|i: int| 0 <= i < words.len() && words[i] == word;
            assert(words[i] == word);
        }
    }
}

/// The words that stand out in the other languages.
pub proof fn other_words_stand_out()
    ensures
        ({
            let words = seq![
                "function"@, "const"@, "let"@, "var"@, "class"@, "struct"@, "if"@, "else"@,
                "for"@, "while"@, "return"@, "true"@, "false"@,
            ];
            &&& words_of("javascript"@, words)
            &&& words_of("typescript"@, words)
            &&& words_of("c"@, words)
            &&& words_of("cpp"@, words)
        }),
{
    languages_differ();
    let words = seq![
        "function"@, "const"@, "let"@, "var"@, "class"@, "struct"@, "if"@, "else"@, "for"@,
        "while"@, "return"@, "true"@, "false"@,
    ];
    assert(words[0] == "function"@);
    assert(words[1] == "const"@);
    assert(words[2] == "let"@);
    assert(words[3] == "var"@);
    assert(words[4] == "class"@);
    assert(words[5] == "struct"@);
    assert(words[6] == "if"@);
    assert(words[7] == "else"@);
    assert(words[8] == "for"@);
    assert(words[9] == "while"@);
    assert(words[10] == "return"@);
    assert(words[11] == "true"@);
    assert(words[12] == "false"@);
    assert forall|language: Seq<char>, word: Seq<char>|
        (language == "javascript"@
            || language == "typescript"@
            || language == "c"@
            || language == "cpp"@) implies (#[trigger] keyword(language, word)
            <==> words.contains(word)) by {
        if words.contains(word) {
            let i = choose|i: int| 0 <= i < words.len() && words[i] == word;
            assert(words[i] == word);
        }
    }
}

} // verus!
