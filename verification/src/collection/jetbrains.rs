//! Reader for `.http` request files.
//!
//! A file is read line by line. A line of three hashes separates two
//! requests and may name the one that follows; a line `# @name=..` names
//! it too. A line `@key = value` sets a variable. What follows a `#`, and a
//! line that starts with `//`, is a comment. Every other line belongs to
//! the request.

use crate::util::{key_index, with_entry};
use vstd::prelude::*;

verus! {

/// One line of a request file, as far as the reader tells lines apart.
#[derive(Debug, PartialEq)]
pub enum Line {
    Seperator,
    Name(String),
    Request(String),
}

pub enum LineView {
    Seperator,
    Name(Seq<char>),
    Request(Seq<char>),
}

impl DeepView for Line {
    type V = LineView;

    open spec fn deep_view(&self) -> LineView {
        match self {
            Line::Seperator => LineView::Seperator,
            Line::Name(name) => LineView::Name(name@),
            Line::Request(request) => LineView::Request(request@),
        }
    }
}

/// That a text does not begin as the parser asked.
#[derive(Debug, Clone, Copy, PartialEq, Eq, Structural)]
pub struct ParseError;

/// A space or a tab.
pub open spec fn is_space(c: char) -> bool {
    c == ' ' || c == '\t'
}

/// A space or a line feed: what ends a name.
pub open spec fn ends_name(c: char) -> bool {
    c == ' ' || c == '\n'
}

/// A letter of the ASCII alphabet.
pub open spec fn is_letter(c: char) -> bool {
    ('a' <= c && c <= 'z') || ('A' <= c && c <= 'Z')
}

/// A character that may follow the first of a variable's name: a letter or
/// digit of ASCII, an underscore, a hyphen or a dot.
pub open spec fn is_name_char(c: char) -> bool {
    is_letter(c) || ('0' <= c && c <= '9') || c == '_' || c == '-' || c == '.'
}

/// Where the run of spaces and tabs ends that begins at `from`.
pub open spec fn spaces_end(s: Seq<char>, from: int) -> int
    decreases s.len() - from,
{
    if 0 <= from < s.len() && is_space(s[from]) {
        spaces_end(s, from + 1)
    } else {
        from
    }
}

/// Where the run of characters that end no name ends that begins at
/// `from`.
pub open spec fn name_end(s: Seq<char>, from: int) -> int
    decreases s.len() - from,
{
    if 0 <= from < s.len() && !ends_name(s[from]) {
        name_end(s, from + 1)
    } else {
        from
    }
}

/// Where the run of characters of a variable's name ends that begins at
/// `from`.
pub open spec fn name_chars_end(s: Seq<char>, from: int) -> int
    decreases s.len() - from,
{
    if 0 <= from < s.len() && is_name_char(s[from]) {
        name_chars_end(s, from + 1)
    } else {
        from
    }
}

/// Where the line ends that `from` is in: at the next line feed, or at the
/// end of the text.
pub open spec fn line_end(s: Seq<char>, from: int) -> int
    decreases s.len() - from,
{
    if 0 <= from < s.len() && s[from] != '\n' {
        line_end(s, from + 1)
    } else {
        from
    }
}

/// Whether `word` stands in `s` at `at`.
pub open spec fn has_at(s: Seq<char>, at: int, word: Seq<char>) -> bool {
    0 <= at && at + word.len() <= s.len() && s.subrange(at, at + word.len()) == word
}

/// The first place at or after `from` where `word` stands, or the length of
/// the text where it stands nowhere.
pub open spec fn find(s: Seq<char>, from: int, word: Seq<char>) -> int
    decreases s.len() - from,
{
    if 0 <= from < s.len() && !has_at(s, from, word) {
        find(s, from + 1, word)
    } else {
        from
    }
}

/// The characters of a text.
pub fn chars_of(text: &str) -> (chars: Vec<char>)
    ensures
        chars@ == text@,
{
    let mut chars: Vec<char> = Vec::new();
    for c in it: text.chars()
        invariant
            it.seq() == text@,
            chars@ == it.seq().take(it.index() as int),
    {
        chars.push(c);
        assert(it.seq().take(it.index() as int + 1) =~= it.seq().take(it.index() as int).push(c));
    }
    assert(text@.take(text@.len() as int) =~= text@);
    chars
}

fn skip_spaces(chars: &Vec<char>, from: usize) -> (to: usize)
    requires
        from <= chars.len(),
    ensures
        to == spaces_end(chars@, from as int),
        from <= to <= chars.len(),
{
    let mut to = from;
    while to < chars.len() && (chars[to] == ' ' || chars[to] == '\t')
        invariant
            from <= to <= chars.len(),
            spaces_end(chars@, from as int) == spaces_end(chars@, to as int),
        decreases chars.len() - to,
    {
        to += 1;
    }
    to
}

fn skip_name(chars: &Vec<char>, from: usize) -> (to: usize)
    requires
        from <= chars.len(),
    ensures
        to == name_end(chars@, from as int),
        from <= to <= chars.len(),
{
    let mut to = from;
    while to < chars.len() && !(chars[to] == ' ' || chars[to] == '\n')
        invariant
            from <= to <= chars.len(),
            name_end(chars@, from as int) == name_end(chars@, to as int),
        decreases chars.len() - to,
    {
        to += 1;
    }
    to
}

fn letter(c: char) -> (yes: bool)
    ensures
        yes == is_letter(c),
{
    ('a' <= c && c <= 'z') || ('A' <= c && c <= 'Z')
}

fn name_char(c: char) -> (yes: bool)
    ensures
        yes == is_name_char(c),
{
    letter(c) || ('0' <= c && c <= '9') || c == '_' || c == '-' || c == '.'
}

fn skip_name_chars(chars: &Vec<char>, from: usize) -> (to: usize)
    requires
        from <= chars.len(),
    ensures
        to == name_chars_end(chars@, from as int),
        from <= to <= chars.len(),
{
    let mut to = from;
    while to < chars.len() && name_char(chars[to])
        invariant
            from <= to <= chars.len(),
            name_chars_end(chars@, from as int) == name_chars_end(chars@, to as int),
        decreases chars.len() - to,
    {
        to += 1;
    }
    to
}

fn skip_line(chars: &Vec<char>, from: usize) -> (to: usize)
    requires
        from <= chars.len(),
    ensures
        to == line_end(chars@, from as int),
        from <= to <= chars.len(),
{
    let mut to = from;
    while to < chars.len() && chars[to] != '\n'
        invariant
            from <= to <= chars.len(),
            line_end(chars@, from as int) == line_end(chars@, to as int),
        decreases chars.len() - to,
    {
        to += 1;
    }
    to
}

/// Whether `word` stands in `chars` at `at`.
fn stands_at(chars: &Vec<char>, at: usize, word: &str) -> (yes: bool)
    requires
        at <= chars.len(),
    ensures
        yes == has_at(chars@, at as int, word@),
{
    let count = word.unicode_len();
    if count > chars.len() - at {
        return false;
    }
    let mut i: usize = 0;
    while i < count
        invariant
            count == word@.len(),
            at + count <= chars.len(),
            i <= count,
            forall|k: int| 0 <= k < i ==> chars@[at + k] == word@[k],
        decreases count - i,
    {
        if chars[at + i] != word.get_char(i) {
            assert(chars@.subrange(at as int, at + count)[i as int] != word@[i as int]);
            return false;
        }
        i += 1;
    }
    assert(chars@.subrange(at as int, at + count) =~= word@);
    true
}

fn search(chars: &Vec<char>, from: usize, word: &str) -> (to: usize)
    requires
        from <= chars.len(),
    ensures
        to == find(chars@, from as int, word@),
        from <= to <= chars.len(),
{
    let mut to = from;
    while to < chars.len() && !stands_at(chars, to, word)
        invariant
            from <= to <= chars.len(),
            find(chars@, from as int, word@) == find(chars@, to as int, word@),
        decreases chars.len() - to,
    {
        to += 1;
    }
    to
}

/// What a parser made of the beginning of a text, and where the rest of
/// the text begins.
pub struct Parsed<T> {
    pub rest: int,
    pub value: T,
}

/// A separator line: three hashes, and after spaces the name of the
/// request that follows, which ends at a space or at the line's end.
pub open spec fn seperator(s: Seq<char>) -> Option<Parsed<Seq<LineView>>> {
    if has_at(s, 0, "###"@) {
        let name = spaces_end(s, 3);
        if name > 3 {
            let end = name_end(s, name);
            Some(
                Parsed {
                    rest: end,
                    value: seq![LineView::Seperator, LineView::Name(s.subrange(name, end))],
                },
            )
        } else {
            Some(Parsed { rest: 3, value: seq![LineView::Seperator] })
        }
    } else {
        None
    }
}

/// A name annotation: a hash, `@name`, an equals sign or a space, and the
/// name, which ends at a space or at the line's end.
pub open spec fn name_annotation(s: Seq<char>) -> Option<Parsed<Seq<char>>> {
    if s.len() > 0 && s[0] == '#' {
        let word = spaces_end(s, 1);
        if has_at(s, word, "@name"@) && word + 5 < s.len() && (s[word + 5] == '=' || s[word + 5]
            == ' ') {
            let name = spaces_end(s, word + 6);
            let end = name_end(s, name);
            Some(Parsed { rest: end, value: s.subrange(name, end) })
        } else {
            None
        }
    } else {
        None
    }
}

/// Where the name of a variable ends that begins at `from`: it is a
/// letter, and then any letters, digits, underscores, hyphens and dots.
pub open spec fn identifier_end(s: Seq<char>, from: int) -> Option<int> {
    if 0 <= from < s.len() && is_letter(s[from]) {
        Some(name_chars_end(s, from + 1))
    } else {
        None
    }
}

/// The name of a variable at the beginning of the text.
pub open spec fn identifier(s: Seq<char>) -> Option<Parsed<Seq<char>>> {
    match identifier_end(s, 0) {
        Some(end) => Some(Parsed { rest: end, value: s.subrange(0, end) }),
        None => None,
    }
}

/// The assignment of a variable: an at sign, the name, an equals sign with
/// spaces about it, and the value up to the line feed that must end it.
pub open spec fn assignment(s: Seq<char>) -> Option<Parsed<(Seq<char>, Seq<char>)>> {
    match identifier_end(s, 1) {
        Some(end) => {
            let sign = spaces_end(s, end);
            if s[0] == '@' && sign < s.len() && s[sign] == '=' {
                let value = spaces_end(s, sign + 1);
                let feed = line_end(s, value);
                if feed < s.len() {
                    Some(
                        Parsed {
                            rest: feed + 1,
                            value: (s.subrange(1, end), s.subrange(value, feed)),
                        },
                    )
                } else {
                    None
                }
            } else {
                None
            }
        },
        None => None,
    }
}

/// The two slashes that begin a comment line.
pub open spec fn slash_comment(s: Seq<char>) -> Option<Parsed<Seq<char>>> {
    if has_at(s, 0, "//"@) {
        Some(Parsed { rest: 2, value: "//"@ })
    } else {
        None
    }
}

/// The line without its comment: nothing of a line that begins with two
/// slashes, and of another line what stands before its first hash. A line
/// without a comment is no match.
pub open spec fn without_comment(s: Seq<char>) -> Option<Parsed<Seq<char>>> {
    if has_at(s, 0, "//"@) {
        Some(Parsed { rest: 2, value: Seq::empty() })
    } else {
        let hash = find(s, 0, "#"@);
        if hash < s.len() {
            Some(Parsed { rest: hash, value: s.subrange(0, hash) })
        } else {
            None
        }
    }
}

/// The use of a variable: its name in double braces, with spaces about it.
pub open spec fn substitution(s: Seq<char>) -> Option<Parsed<Seq<char>>> {
    if has_at(s, 0, "{{"@) {
        let name = spaces_end(s, 2);
        match identifier_end(s, name) {
            Some(end) => {
                let close = spaces_end(s, end);
                if has_at(s, close, "}}"@) {
                    Some(Parsed { rest: close + 2, value: s.subrange(name, end) })
                } else {
                    None
                }
            },
            None => None,
        }
    } else {
        None
    }
}

/// What stands before the next opening double brace. A text without one
/// is no match.
pub open spec fn before_variable(s: Seq<char>) -> Option<Parsed<Seq<char>>> {
    let open = find(s, 0, "{{"@);
    if open < s.len() {
        Some(Parsed { rest: open, value: s.subrange(0, open) })
    } else {
        None
    }
}

/// Whether a parser's result is what the grammar says of the text: the
/// value, and the rest of the text behind it.
pub open spec fn agrees(
    input: Seq<char>,
    result: Result<(&str, &str), ParseError>,
    parsed: Option<Parsed<Seq<char>>>,
) -> bool {
    match result {
        Ok(found) => {
            &&& parsed matches Some(parsed)
            &&& 0 <= parsed.rest <= input.len()
            &&& found.0@ == input.skip(parsed.rest)
            &&& found.1@ == parsed.value
        },
        Err(_) => parsed is None,
    }
}

fn seperator_in<'a>(input: &'a str, chars: &Vec<char>) -> (result: Result<
    (&'a str, Vec<Line>),
    ParseError,
>)
    requires
        chars@ == input@,
    ensures
        match result {
            Ok(found) => {
                &&& seperator(input@) matches Some(parsed)
                &&& 0 <= parsed.rest <= input@.len()
                &&& found.0@ == input@.skip(parsed.rest)
                &&& found.1.deep_view() == parsed.value
            },
            Err(_) => seperator(input@) is None,
        },
{
    proof {
        reveal_strlit("###");
    }
    if !stands_at(chars, 0, "###") {
        return Err(ParseError);
    }
    let name = skip_spaces(chars, 3);
    let mut lines: Vec<Line> = Vec::new();
    lines.push(Line::Seperator);
    if name > 3 {
        let end = skip_name(chars, name);
        lines.push(Line::Name(input.substring_char(name, end).to_owned()));
        assert(lines.deep_view() =~= seq![
            LineView::Seperator,
            LineView::Name(input@.subrange(name as int, end as int)),
        ]);
        Ok((input.substring_char(end, chars.len()), lines))
    } else {
        assert(lines.deep_view() =~= seq![LineView::Seperator]);
        Ok((input.substring_char(3, chars.len()), lines))
    }
}

fn name_annotation_in<'a>(input: &'a str, chars: &Vec<char>) -> (result: Result<
    (&'a str, Line),
    ParseError,
>)
    requires
        chars@ == input@,
    ensures
        match result {
            Ok(found) => {
                &&& name_annotation(input@) matches Some(parsed)
                &&& 0 <= parsed.rest <= input@.len()
                &&& found.0@ == input@.skip(parsed.rest)
                &&& found.1.deep_view() == LineView::Name(parsed.value)
            },
            Err(_) => name_annotation(input@) is None,
        },
{
    proof {
        reveal_strlit("@name");
    }
    if chars.len() == 0 || chars[0] != '#' {
        return Err(ParseError);
    }
    let word = skip_spaces(chars, 1);
    if !stands_at(chars, word, "@name") {
        return Err(ParseError);
    }
    let sign = word + 5;
    if sign >= chars.len() || !(chars[sign] == '=' || chars[sign] == ' ') {
        return Err(ParseError);
    }
    let name = skip_spaces(chars, sign + 1);
    let end = skip_name(chars, name);
    Ok(
        (
            input.substring_char(end, chars.len()),
            Line::Name(input.substring_char(name, end).to_owned()),
        ),
    )
}

/// Where the name of a variable ends that begins at `from`.
fn identifier_at(chars: &Vec<char>, from: usize) -> (end: Option<usize>)
    requires
        from <= chars.len(),
    ensures
        match end {
            Some(end) => identifier_end(chars@, from as int) == Some(end as int) && from < end
                <= chars.len(),
            None => identifier_end(chars@, from as int) is None,
        },
{
    if from < chars.len() && letter(chars[from]) {
        Some(skip_name_chars(chars, from + 1))
    } else {
        None
    }
}

fn identifier_in<'a>(input: &'a str, chars: &Vec<char>) -> (result: Result<
    (&'a str, &'a str),
    ParseError,
>)
    requires
        chars@ == input@,
    ensures
        agrees(input@, result, identifier(input@)),
{
    match identifier_at(chars, 0) {
        Some(end) => Ok((input.substring_char(end, chars.len()), input.substring_char(0, end))),
        None => Err(ParseError),
    }
}

fn assignment_in<'a>(input: &'a str, chars: &Vec<char>) -> (result: Result<
    (&'a str, (&'a str, &'a str)),
    ParseError,
>)
    requires
        chars@ == input@,
    ensures
        match result {
            Ok(found) => {
                &&& assignment(input@) matches Some(parsed)
                &&& 0 <= parsed.rest <= input@.len()
                &&& found.0@ == input@.skip(parsed.rest)
                &&& found.1.deep_view() == parsed.value
            },
            Err(_) => assignment(input@) is None,
        },
{
    if chars.len() == 0 || chars[0] != '@' {
        return Err(ParseError);
    }
    let end = match identifier_at(chars, 1) {
        Some(end) => end,
        None => {
            return Err(ParseError);
        },
    };
    let sign = skip_spaces(chars, end);
    if sign >= chars.len() || chars[sign] != '=' {
        return Err(ParseError);
    }
    let value = skip_spaces(chars, sign + 1);
    let feed = skip_line(chars, value);
    if feed >= chars.len() {
        return Err(ParseError);
    }
    Ok(
        (
            input.substring_char(feed + 1, chars.len()),
            (input.substring_char(1, end), input.substring_char(value, feed)),
        ),
    )
}

fn slash_comment_in<'a>(input: &'a str, chars: &Vec<char>) -> (result: Result<
    (&'a str, &'a str),
    ParseError,
>)
    requires
        chars@ == input@,
    ensures
        agrees(input@, result, slash_comment(input@)),
{
    proof {
        reveal_strlit("//");
    }
    if stands_at(chars, 0, "//") {
        Ok((input.substring_char(2, chars.len()), input.substring_char(0, 2)))
    } else {
        Err(ParseError)
    }
}

fn without_comment_in<'a>(input: &'a str, chars: &Vec<char>) -> (result: Result<
    (&'a str, &'a str),
    ParseError,
>)
    requires
        chars@ == input@,
    ensures
        agrees(input@, result, without_comment(input@)),
{
    proof {
        reveal_strlit("//");
    }
    if stands_at(chars, 0, "//") {
        assert(input@.subrange(0, 0) =~= Seq::<char>::empty());
        return Ok((input.substring_char(2, chars.len()), input.substring_char(0, 0)));
    }
    let hash = search(chars, 0, "#");
    if hash < chars.len() {
        Ok((input.substring_char(hash, chars.len()), input.substring_char(0, hash)))
    } else {
        Err(ParseError)
    }
}

fn substitution_in<'a>(input: &'a str, chars: &Vec<char>) -> (result: Result<
    (&'a str, &'a str),
    ParseError,
>)
    requires
        chars@ == input@,
    ensures
        agrees(input@, result, substitution(input@)),
{
    proof {
        reveal_strlit("{{");
        reveal_strlit("}}");
    }
    if !stands_at(chars, 0, "{{") {
        return Err(ParseError);
    }
    let name = skip_spaces(chars, 2);
    let end = match identifier_at(chars, name) {
        Some(end) => end,
        None => {
            return Err(ParseError);
        },
    };
    let close = skip_spaces(chars, end);
    if !stands_at(chars, close, "}}") {
        return Err(ParseError);
    }
    Ok((input.substring_char(close + 2, chars.len()), input.substring_char(name, end)))
}

fn before_variable_in<'a>(input: &'a str, chars: &Vec<char>) -> (result: Result<
    (&'a str, &'a str),
    ParseError,
>)
    requires
        chars@ == input@,
    ensures
        agrees(input@, result, before_variable(input@)),
{
    let open = search(chars, 0, "{{");
    if open < chars.len() {
        Ok((input.substring_char(open, chars.len()), input.substring_char(0, open)))
    } else {
        Err(ParseError)
    }
}

/// Reads a separator line. The lines that come back are the separator
/// and, where the line names the request that follows, the name.
pub fn parse_seperator<'a>(input: &'a str) -> (result: Result<(&'a str, Vec<Line>), ParseError>)
    ensures
        match result {
            Ok(found) => {
                &&& seperator(input@) matches Some(parsed)
                &&& 0 <= parsed.rest <= input@.len()
                &&& found.0@ == input@.skip(parsed.rest)
                &&& found.1.deep_view() == parsed.value
            },
            Err(_) => seperator(input@) is None,
        },
{
    let chars = chars_of(input);
    seperator_in(input, &chars)
}

/// Reads a line that names the request it stands in.
pub fn parse_request_name_annotation<'a>(input: &'a str) -> (result: Result<
    (&'a str, Line),
    ParseError,
>)
    ensures
        match result {
            Ok(found) => {
                &&& name_annotation(input@) matches Some(parsed)
                &&& 0 <= parsed.rest <= input@.len()
                &&& found.0@ == input@.skip(parsed.rest)
                &&& found.1.deep_view() == LineView::Name(parsed.value)
            },
            Err(_) => name_annotation(input@) is None,
        },
{
    let chars = chars_of(input);
    name_annotation_in(input, &chars)
}

/// Reads the name of a variable.
pub fn parse_variable_identifier<'a>(input: &'a str) -> (result: Result<
    (&'a str, &'a str),
    ParseError,
>)
    ensures
        agrees(input@, result, identifier(input@)),
{
    let chars = chars_of(input);
    identifier_in(input, &chars)
}

/// Reads the assignment of a variable, `@name = value`, with the line
/// feed that ends it. The name and the value come back.
pub fn parse_variable_assignment<'a>(input: &'a str) -> (result: Result<
    (&'a str, (&'a str, &'a str)),
    ParseError,
>)
    ensures
        match result {
            Ok(found) => {
                &&& assignment(input@) matches Some(parsed)
                &&& 0 <= parsed.rest <= input@.len()
                &&& found.0@ == input@.skip(parsed.rest)
                &&& found.1.deep_view() == parsed.value
            },
            Err(_) => assignment(input@) is None,
        },
{
    let chars = chars_of(input);
    assignment_in(input, &chars)
}

/// Reads the two slashes that begin a comment line.
pub fn starting_slash_comment<'a>(line: &'a str) -> (result: Result<(&'a str, &'a str), ParseError>)
    ensures
        agrees(line@, result, slash_comment(line@)),
{
    let chars = chars_of(line);
    slash_comment_in(line, &chars)
}

/// Reads a line up to its comment. A comment begins with two slashes only
/// at the line's beginning, so that a URL may hold them.
pub fn parse_line_without_comment<'a>(line: &'a str) -> (result: Result<
    (&'a str, &'a str),
    ParseError,
>)
    ensures
        agrees(line@, result, without_comment(line@)),
{
    let chars = chars_of(line);
    without_comment_in(line, &chars)
}

/// Reads the use of a variable, `{{name}}`. The name comes back.
pub fn parse_variable_substitution<'a>(input: &'a str) -> (result: Result<
    (&'a str, &'a str),
    ParseError,
>)
    ensures
        agrees(input@, result, substitution(input@)),
{
    let chars = chars_of(input);
    substitution_in(input, &chars)
}

/// Reads up to the next opening double brace.
pub fn until_variable_open<'a>(input: &'a str) -> (result: Result<(&'a str, &'a str), ParseError>)
    ensures
        agrees(input@, result, before_variable(input@)),
{
    let chars = chars_of(input);
    before_variable_in(input, &chars)
}

pub struct JetbrainsRequestView {
    pub name: Option<Seq<char>>,
    pub request: Seq<char>,
}

/// One request of a file: its name, where it has one, and its lines.
#[derive(Debug, PartialEq)]
pub struct JetbrainsRequest {
    pub name: Option<String>,
    pub request: String,
}

impl DeepView for JetbrainsRequest {
    type V = JetbrainsRequestView;

    open spec fn deep_view(&self) -> JetbrainsRequestView {
        JetbrainsRequestView { name: self.name.deep_view(), request: self.request@ }
    }
}

/// What ends each line of a request.
pub open spec fn line_break() -> Seq<char> {
    seq!['\r', '\n']
}

impl JetbrainsRequest {
    /// Whether the request has no line yet.
    pub fn is_empty(&self) -> (empty: bool)
        ensures
            empty == (self.request@.len() == 0),
    {
        self.request.as_str().unicode_len() == 0
    }

    /// Adds a line to the request, ended by a carriage return and a line
    /// feed.
    pub fn push_line(&mut self, value: &str) -> (this: &mut Self)
        ensures
            this.deep_view() == (JetbrainsRequestView {
                name: old(self).name.deep_view(),
                request: old(self).request@ + value@ + line_break(),
            }),
            *final(self) == *final(this),
    {
        proof {
            reveal_strlit("\r\n");
        }
        self.request.append(value);
        self.request.append("\r\n");
        assert("\r\n"@ =~= line_break());
        self
    }

    /// Names the request.
    pub fn set_name(&mut self, name: &str) -> (this: &mut Self)
        ensures
            this.deep_view() == (JetbrainsRequestView {
                name: Some(name@),
                request: old(self).request@,
            }),
            *final(self) == *final(this),
    {
        self.name = Some(name.to_owned());
        self
    }

    /// Leaves the request as it is: the lines of a request are kept with
    /// the white space at their ends.
    pub fn trim(&mut self) -> (this: &mut Self)
        ensures
            *this == *old(self),
            *final(self) == *final(this),
    {
        self
    }
}

impl Default for JetbrainsRequest {
    fn default() -> (request: Self)
        ensures
            request.deep_view() == (JetbrainsRequestView { name: None, request: Seq::empty() }),
    {
        JetbrainsRequest { name: None, request: String::new() }
    }
}

/// A variable's name and value.
pub type Variable = (Seq<char>, Seq<char>);

/// The value of the variable with the name.
pub open spec fn value_of(variables: Seq<Variable>, name: Seq<char>) -> Option<Seq<char>> {
    let at = key_index(variables, 0, name);
    if at < variables.len() {
        Some(variables[at].1)
    } else {
        None
    }
}

fn index_of(variables: &Vec<(String, String)>, name: &str) -> (at: usize)
    ensures
        at == key_index(variables.deep_view(), 0, name@),
        at <= variables.len(),
{
    let mut at: usize = 0;
    let key = name.to_owned();
    while at < variables.len() && !(variables[at].0 == key)
        invariant
            at <= variables.len(),
            key@ == name@,
            key_index(variables.deep_view(), 0, name@) == key_index(
                variables.deep_view(),
                at as int,
                name@,
            ),
        decreases variables.len() - at,
    {
        assert(variables.deep_view()[at as int].0 == variables[at as int].0@);
        at += 1;
    }
    proof {
        if at < variables.len() {
            assert(variables.deep_view()[at as int].0 == variables[at as int].0@);
        }
    }
    at
}

/// Sets a variable. A variable that is set again keeps its place and takes
/// the new value.
pub fn assign(variables: &mut Vec<(String, String)>, name: &str, value: &str)
    ensures
        final(variables).deep_view() == with_entry(old(variables).deep_view(), name@, value@),
{
    let at = index_of(variables, name);
    let ghost before = variables.deep_view();
    if at < variables.len() {
        variables.set(at, (name.to_owned(), value.to_owned()));
        assert(variables.deep_view() =~= before.update(at as int, (name@, value@)));
    } else {
        variables.push((name.to_owned(), value.to_owned()));
        assert(variables.deep_view() =~= before.push((name@, value@)));
    }
}

/// The value of a variable.
pub fn lookup<'a>(variables: &'a Vec<(String, String)>, name: &str) -> (value: Option<&'a str>)
    ensures
        value.deep_view() == value_of(variables.deep_view(), name@),
{
    let at = index_of(variables, name);
    if at < variables.len() {
        assert(variables.deep_view()[at as int].1 == variables[at as int].1@);
        Some(variables[at].1.as_str())
    } else {
        None
    }
}

pub struct JetbrainsHttpView {
    pub sections: Seq<JetbrainsRequestView>,
    pub variables: Seq<Variable>,
}

/// A request file: its requests in order, and its variables in the order
/// in which they were first set.
#[derive(Debug, PartialEq)]
pub struct JetbrainsHttp {
    pub sections: Vec<JetbrainsRequest>,
    pub variables: Vec<(String, String)>,
}

impl DeepView for JetbrainsHttp {
    type V = JetbrainsHttpView;

    open spec fn deep_view(&self) -> JetbrainsHttpView {
        JetbrainsHttpView {
            sections: self.sections.deep_view(),
            variables: self.variables.deep_view(),
        }
    }
}

/// The request line with the variables' values in place of their uses,
/// read from `from` on. Reading stops where no opening double brace
/// follows, and at double braces that use no variable; what follows there
/// is the rest. The use of a variable that is not set is an error.
pub open spec fn request_line(s: Seq<char>, from: int, variables: Seq<Variable>) -> Option<
    Parsed<Seq<char>>,
>
    decreases s.len() - from,
{
    if 0 <= from <= s.len() {
        match substitution(s.skip(from)) {
            Some(parsed) => match value_of(variables, parsed.value) {
                None => None,
                Some(value) => if 0 < parsed.rest <= s.len() - from {
                    match request_line(s, from + parsed.rest, variables) {
                        Some(rest) => Some(Parsed { rest: rest.rest, value: value + rest.value }),
                        None => None,
                    }
                } else {
                    None
                },
            },
            None => match before_variable(s.skip(from)) {
                Some(parsed) => if 0 < parsed.rest <= s.len() - from {
                    match request_line(s, from + parsed.rest, variables) {
                        Some(rest) => Some(
                            Parsed { rest: rest.rest, value: parsed.value + rest.value },
                        ),
                        None => None,
                    }
                } else {
                    Some(Parsed { rest: from, value: Seq::empty() })
                },
                None => Some(Parsed { rest: from, value: Seq::empty() }),
            },
        }
    } else {
        None
    }
}

/// Reads a request line and puts the variables' values in place of their
/// uses. The rest that comes back begins where reading stopped: behind the
/// last use of a variable where no other follows, or at double braces that
/// use none. The use of a variable that is not set is an error.
pub fn parse_request_line<'a>(line: &'a str, variables: &Vec<(String, String)>) -> (result: Result<
    (&'a str, Line),
    ParseError,
>)
    ensures
        match result {
            Ok(found) => {
                &&& request_line(line@, 0, variables.deep_view()) matches Some(parsed)
                &&& 0 <= parsed.rest <= line@.len()
                &&& found.0@ == line@.skip(parsed.rest)
                &&& found.1.deep_view() == LineView::Request(parsed.value)
            },
            Err(_) => request_line(line@, 0, variables.deep_view()) is None,
        },
{
    let count = line.unicode_len();
    let mut text = String::new();
    let mut at: usize = 0;
    loop
        invariant
            count == line@.len(),
            at <= count,
            match request_line(line@, at as int, variables.deep_view()) {
                Some(rest) => request_line(line@, 0, variables.deep_view()) == Some(
                    Parsed { rest: rest.rest, value: text@ + rest.value },
                ),
                None => request_line(line@, 0, variables.deep_view()) is None,
            },
        decreases count - at,
    {
        let here = line.substring_char(at, count);
        let chars = chars_of(here);
        assert(here@ == line@.skip(at as int));
        match substitution_in(here, &chars) {
            Ok(found) => {
                match lookup(variables, found.1) {
                    Some(value) => {
                        let ghost parsed = substitution(here@)->Some_0;
                        proof {
                            reveal_strlit("{{");
                        }
                        let ghost before = text@;
                        text.append(value);
                        let used = count - at - found.0.unicode_len();
                        proof {
                            let rest = request_line(
                                line@,
                                at + parsed.rest,
                                variables.deep_view(),
                            );
                            if rest is Some {
                                assert(before + (value@ + rest->Some_0.value) =~= text@
                                    + rest->Some_0.value);
                            }
                        }
                        at = at + used;
                    },
                    None => {
                        return Err(ParseError);
                    },
                }
            },
            Err(_) => match before_variable_in(here, &chars) {
                Ok(found) => {
                    let used = count - at - found.0.unicode_len();
                    if used == 0 {
                        assert(text@ + Seq::<char>::empty() =~= text@);
                        return Ok((here, Line::Request(text)));
                    }
                    let ghost parsed = before_variable(here@)->Some_0;
                    let ghost before = text@;
                    text.append(found.1);
                    proof {
                        let rest = request_line(line@, at + parsed.rest, variables.deep_view());
                        if rest is Some {
                            assert(before + (found.1@ + rest->Some_0.value) =~= text@
                                + rest->Some_0.value);
                        }
                    }
                    at = at + used;
                },
                Err(_) => {
                    assert(text@ + Seq::<char>::empty() =~= text@);
                    return Ok((here, Line::Request(text)));
                },
            },
        }
    }
}

/// Whether the character has the `White_Space` property of Unicode.
pub uninterp spec fn white_space(c: char) -> bool;

/// `char::is_whitespace`: whether the character has the `White_Space`
/// property of Unicode. The answer is a function of the character alone.
#[verifier::external_body]
fn is_white_space(c: char) -> (yes: bool)
    ensures
        yes == white_space(c),
{
    c.is_whitespace()
}

/// Where the run of white space ends that begins at `from`.
pub open spec fn blank_end(s: Seq<char>, from: int) -> int
    decreases s.len() - from,
{
    if 0 <= from < s.len() && white_space(s[from]) {
        blank_end(s, from + 1)
    } else {
        from
    }
}

/// Where the run of white space begins that ends before `to`, at `low` at
/// the least.
pub open spec fn blank_start(s: Seq<char>, low: int, to: int) -> int
    decreases to,
{
    if low < to <= s.len() && 0 <= low && white_space(s[to - 1]) {
        blank_start(s, low, to - 1)
    } else {
        to
    }
}

/// The text without the white space at its ends.
pub open spec fn trimmed_text(s: Seq<char>) -> Seq<char> {
    let start = blank_end(s, 0);
    s.subrange(start, blank_start(s, start, s.len() as int))
}

/// The line without the carriage return at its end.
pub open spec fn without_return(line: Seq<char>) -> Seq<char> {
    if line.len() > 0 && line.last() == '\r' {
        line.drop_last()
    } else {
        line
    }
}

/// The lines of the text from `from` on. A line ends at a line feed, or at
/// a carriage return before a line feed; the last line needs none.
pub open spec fn lines_from(s: Seq<char>, from: int) -> Seq<Seq<char>>
    decreases s.len() - from,
{
    if 0 <= from < s.len() {
        let end = line_end(s, from);
        if from <= end < s.len() {
            seq![without_return(s.subrange(from, end))] + lines_from(s, end + 1)
        } else {
            seq![s.subrange(from, s.len() as int)]
        }
    } else {
        Seq::empty()
    }
}

/// The lines and variables that were read so far.
pub struct ReadView {
    pub lines: Seq<LineView>,
    pub variables: Seq<Variable>,
}

/// A line feed.
pub open spec fn feed() -> Seq<char> {
    seq!['\n']
}

/// What is read after one more line. A separator line gives its lines, a
/// name annotation a name. Of any other line the comment is taken off; an
/// assignment sets its variable, and what else is left and is not just
/// the line feed is a line of the request.
pub open spec fn read_line(read: ReadView, line: Seq<char>) -> ReadView {
    let line = line + feed();
    match seperator(line) {
        Some(parsed) => ReadView { lines: read.lines + parsed.value, variables: read.variables },
        None => match name_annotation(line) {
            Some(parsed) => ReadView {
                lines: read.lines.push(LineView::Name(parsed.value)),
                variables: read.variables,
            },
            None => {
                let body = match without_comment(line) {
                    Some(parsed) => parsed.value,
                    None => line,
                };
                match assignment(body) {
                    Some(parsed) => ReadView {
                        lines: read.lines,
                        variables: with_entry(read.variables, parsed.value.0, parsed.value.1),
                    },
                    None => if body != feed() {
                        ReadView {
                            lines: read.lines.push(LineView::Request(body)),
                            variables: read.variables,
                        }
                    } else {
                        read
                    },
                }
            },
        },
    }
}

/// What is read of the lines, one after the other.
pub open spec fn read_lines(lines: Seq<Seq<char>>) -> ReadView
    decreases lines.len(),
{
    if lines.len() == 0 {
        ReadView { lines: Seq::empty(), variables: Seq::empty() }
    } else {
        read_line(read_lines(lines.drop_last()), lines.last())
    }
}

/// Reads the lines of a file and its variables. White space at the ends of
/// the file is left out.
pub fn parse_lines(input: &str) -> (read: (Vec<Line>, Vec<(String, String)>))
    ensures
        (ReadView { lines: read.0.deep_view(), variables: read.1.deep_view() }) == read_lines(
            lines_from(trimmed_text(input@), 0),
        ),
{
    let all = chars_of(input);
    let mut start: usize = 0;
    while start < all.len() && is_white_space(all[start])
        invariant
            start <= all.len(),
            blank_end(all@, 0) == blank_end(all@, start as int),
        decreases all.len() - start,
    {
        start += 1;
    }
    let mut end: usize = all.len();
    while start < end && is_white_space(all[end - 1])
        invariant
            start <= end <= all.len(),
            blank_start(all@, start as int, all.len() as int) == blank_start(
                all@,
                start as int,
                end as int,
            ),
        decreases end,
    {
        end -= 1;
    }
    let text = input.substring_char(start, end);
    let chars = chars_of(text);
    let mut lines: Vec<Line> = Vec::new();
    let mut variables: Vec<(String, String)> = Vec::new();
    let ghost mut done: Seq<Seq<char>> = Seq::empty();
    let mut at: usize = 0;
    assert(lines.deep_view() =~= Seq::<LineView>::empty());
    assert(variables.deep_view() =~= Seq::<Variable>::empty());
    assert(done + lines_from(chars@, 0) =~= lines_from(chars@, 0));
    while at < chars.len()
        invariant
            at <= chars.len(),
            chars@ == text@,
            lines_from(chars@, 0) == done + lines_from(chars@, at as int),
            (ReadView { lines: lines.deep_view(), variables: variables.deep_view() }) == read_lines(
                done,
            ),
        decreases chars.len() - at,
    {
        let stop = skip_line(&chars, at);
        let ended = stop < chars.len();
        let cut = if ended && stop > at && chars[stop - 1] == '\r' {
            stop - 1
        } else {
            stop
        };
        let ghost line = text@.subrange(at as int, cut as int);
        proof {
            let whole = chars@.subrange(at as int, stop as int);
            if ended {
                if stop > at && chars@[stop - 1] == '\r' {
                    assert(whole.last() == '\r');
                    assert(whole.drop_last() =~= line);
                } else {
                    assert(whole =~= line);
                    if whole.len() > 0 {
                        assert(whole.last() == chars@[stop - 1]);
                    }
                }
                assert(line == without_return(whole));
                assert(done + (seq![line] + lines_from(chars@, stop + 1)) =~= done.push(line)
                    + lines_from(chars@, stop + 1));
            } else {
                assert(done + seq![line] =~= done.push(line) + lines_from(
                    chars@,
                    chars.len() as int,
                ));
            }
        }
        let ghost before = done;
        proof {
            done = before.push(line);
            assert(done.drop_last() =~= before);
            assert(done.last() == line);
        }
        let mut full = text.substring_char(at, cut).to_owned();
        proof {
            reveal_strlit("\n");
        }
        full.append("\n");
        assert(full@ =~= line + feed());
        assert(full@.drop_last() =~= line);
        read(&mut lines, &mut variables, full.as_str());
        at = if ended {
            stop + 1
        } else {
            stop
        };
    }
    (lines, variables)
}

/// Reads one line, which ends with its line feed.
fn read(lines: &mut Vec<Line>, variables: &mut Vec<(String, String)>, full: &str)
    requires
        full@.len() > 0,
        full@.last() == '\n',
    ensures
        (ReadView { lines: final(lines).deep_view(), variables: final(variables).deep_view() })
            == read_line(
            ReadView { lines: old(lines).deep_view(), variables: old(variables).deep_view() },
            full@.drop_last(),
        ),
{
    assert(full@.drop_last() + feed() =~= full@);
    let chars = chars_of(full);
    let ghost before = lines.deep_view();
    match seperator_in(full, &chars) {
        Ok(found) => {
            let mut found_lines = found.1;
            let ghost added = found_lines.deep_view();
            lines.append(&mut found_lines);
            assert(lines.deep_view() =~= before + added);
            return ;
        },
        Err(_) => {},
    }
    match name_annotation_in(full, &chars) {
        Ok(found) => {
            lines.push(found.1);
            assert(lines.deep_view() =~= before.push(found.1.deep_view()));
            return ;
        },
        Err(_) => {},
    }
    let body = match without_comment_in(full, &chars) {
        Ok(found) => found.1,
        Err(_) => full,
    };
    let body_chars = chars_of(body);
    match assignment_in(body, &body_chars) {
        Ok(found) => {
            assign(variables, found.1.0, found.1.1);
            return ;
        },
        Err(_) => {},
    }
    if !(body_chars.len() == 1 && body_chars[0] == '\n') {
        lines.push(Line::Request(body.to_owned()));
        assert(lines.deep_view() =~= before.push(LineView::Request(body@)));
        assert(body@ != feed()) by {
            if body@ == feed() {
                assert(body@.len() == 1 && body@[0] == '\n');
            }
        }
    } else {
        assert(body@ =~= feed());
    }
}

/// The requests that were finished so far, and the one that is being
/// read.
pub struct BuildView {
    pub sections: Seq<JetbrainsRequestView>,
    pub current: JetbrainsRequestView,
}

/// What is built after one more line. A separator finishes the request
/// that is being read, unless it has no line yet, and begins another; a
/// name names the request; a request line is added to it.
pub open spec fn built_line(built: BuildView, line: LineView) -> BuildView {
    match line {
        LineView::Seperator => BuildView {
            sections: if built.current.request.len() == 0 {
                built.sections
            } else {
                built.sections.push(built.current)
            },
            current: JetbrainsRequestView { name: None, request: Seq::empty() },
        },
        LineView::Name(name) => BuildView {
            sections: built.sections,
            current: JetbrainsRequestView { name: Some(name), request: built.current.request },
        },
        LineView::Request(request) => BuildView {
            sections: built.sections,
            current: JetbrainsRequestView {
                name: built.current.name,
                request: built.current.request + request + line_break(),
            },
        },
    }
}

/// What is built of the lines, one after the other.
pub open spec fn built(lines: Seq<LineView>) -> BuildView
    decreases lines.len(),
{
    if lines.len() == 0 {
        BuildView {
            sections: Seq::empty(),
            current: JetbrainsRequestView { name: None, request: Seq::empty() },
        }
    } else {
        built_line(built(lines.drop_last()), lines.last())
    }
}

/// Builds the file of its lines and variables. Each separator finishes the
/// request before it; a request that no separator follows is not part of
/// the file.
pub fn build_file_from_lines(lines: Vec<Line>, variables: Vec<(String, String)>) -> (file:
    JetbrainsHttp)
    ensures
        file.deep_view() == (JetbrainsHttpView {
            sections: built(lines.deep_view()).sections,
            variables: variables.deep_view(),
        }),
{
    let mut sections: Vec<JetbrainsRequest> = Vec::new();
    let mut current_request = JetbrainsRequest::default();
    let mut i: usize = 0;
    assert(lines.deep_view().take(0) =~= Seq::<LineView>::empty());
    assert(sections.deep_view() =~= Seq::<JetbrainsRequestView>::empty());
    while i < lines.len()
        invariant
            i <= lines.len(),
            built(lines.deep_view().take(i as int)) == (BuildView {
                sections: sections.deep_view(),
                current: current_request.deep_view(),
            }),
        decreases lines.len() - i,
    {
        proof {
            let prefix = lines.deep_view().take(i as int + 1);
            assert(prefix.drop_last() =~= lines.deep_view().take(i as int));
            assert(prefix.last() == lines[i as int].deep_view());
        }
        match &lines[i] {
            Line::Seperator => {
                if !current_request.is_empty() {
                    current_request.trim();
                    let ghost before = sections.deep_view();
                    sections.push(current_request);
                    assert(sections.deep_view() =~= before.push(current_request.deep_view()));
                }
                current_request = JetbrainsRequest::default();
            },
            Line::Name(name) => {
                current_request.set_name(name.as_str());
            },
            Line::Request(request) => {
                current_request.push_line(request.as_str());
            },
        }
        i += 1;
    }
    assert(lines.deep_view().take(lines.len() as int) =~= lines.deep_view());
    JetbrainsHttp { sections, variables }
}

} // verus!
