//! Text primitives: decoding, trimming, line splitting, path operations and
//! the small string helpers the rest of the crate is built on.

use vstd::prelude::*;
use vstd::string::*;
use vstd::utf8::*;

verus! {

/// The text that `String::from_utf8_lossy` makes of a byte sequence.
pub uninterp spec fn utf8_lossy(bytes: Seq<u8>) -> Seq<char>;

/// The text that `str::trim` leaves of a text.
pub uninterp spec fn trimmed(text: Seq<char>) -> Seq<char>;

/// The pieces of a text between its `\n` characters (one more than there
/// are of them).
pub open spec fn newline_pieces(text: Seq<char>) -> Seq<Seq<char>>
    decreases text.len(),
{
    if text.len() == 0 {
        seq![Seq::empty()]
    } else if text.last() == '\n' {
        newline_pieces(text.drop_last()).push(Seq::empty())
    } else {
        let p = newline_pieces(text.drop_last());
        p.update(p.len() - 1, p.last().push(text.last()))
    }
}

/// A line without the `\r` of a `\r\n` ending.
pub open spec fn without_cr(line: Seq<char>) -> Seq<char> {
    if line.len() > 0 && line.last() == '\r' {
        line.drop_last()
    } else {
        line
    }
}

/// The lines of a text as `str::lines` documents them: split at `\n` or
/// `\r\n`, without the line endings, the final ending optional (no empty
/// last line after it).
pub open spec fn text_lines(text: Seq<char>) -> Seq<Seq<char>> {
    let p = newline_pieces(text);
    let ended = p.drop_last().map_values(|l: Seq<char>| without_cr(l));
    if p.last().len() == 0 {
        ended
    } else {
        ended.push(p.last())
    }
}

/// The text of `Path::new(base).join(rel)`.
pub uninterp spec fn path_join(base: Seq<char>, rel: Seq<char>) -> Seq<char>;

/// The text of `Path::new(path).parent()`, if it has one.
pub uninterp spec fn path_parent(path: Seq<char>) -> Option<Seq<char>>;

/// The text of `Path::new(path).file_name()`, if it has one that is valid UTF-8.
pub uninterp spec fn path_file_name(path: Seq<char>) -> Option<Seq<char>>;

/// Calls `String::from_utf8_lossy`. Claimed: the result is the name
/// `utf8_lossy` applied to the bytes, and valid UTF-8 is decoded unchanged
/// (the documentation: "If our byte slice is valid UTF-8, then no conversion
/// occurs"). What invalid sequences become is left to the name.
#[verifier::external_body]
pub(crate) fn decode_lossy(bytes: &[u8]) -> (text: String)
    ensures
        text@ == utf8_lossy(bytes@),
        valid_utf8(bytes@) ==> text@ == decode_utf8(bytes@),
{
    String::from_utf8_lossy(bytes).into_owned()
}

/// Calls `str::trim`. Claimed: the result is the name `trimmed` of the text.
#[verifier::external_body]
pub(crate) fn trim_text(text: &str) -> (res: &str)
    ensures
        res@ == trimmed(text@),
{
    text.trim()
}

/// Calls `str::lines`. Claimed: the lines are, in order, those of
/// `text_lines`, which states the documented splitting rule.
#[verifier::external_body]
pub(crate) fn split_lines(text: &str) -> (lines: Vec<&str>)
    ensures
        lines@.len() == text_lines(text@).len(),
        forall|i: int| 0 <= i < lines@.len() ==> #[trigger] lines@[i]@ == text_lines(text@)[i],
{
    text.lines().collect()
}

/// Calls `Path::join` on `base` and `rel` and returns the joined path as text.
/// Claimed: the result is the name `path_join` of the two texts; an absolute
/// (`/`-rooted) `rel` replaces `base`; a relative `rel` is adjoined to a
/// non-empty `base` that does not end in `/` with one `/` between them (the
/// documentation's "adjoined", as its examples show). What joining to an
/// empty base, or to a base ending in `/`, gives is left to the name.
#[verifier::external_body]
pub(crate) fn join_path(base: &str, rel: &str) -> (joined: String)
    ensures
        joined@ == path_join(base@, rel@),
        "/"@.is_prefix_of(rel@) ==> joined@ == rel@,
        !"/"@.is_prefix_of(rel@) && base@.len() > 0 && base@.last() != '/' ==> joined@ == base@
            + "/"@ + rel@,
{
    std::path::Path::new(base).join(rel).to_string_lossy().into_owned()
}

/// Calls `Path::parent`. Claimed: the result is the name `path_parent` of the text.
#[verifier::external_body]
pub(crate) fn parent_path(path: &str) -> (parent: Option<String>)
    ensures
        opt_text(parent) == path_parent(path@),
{
    std::path::Path::new(path).parent().map(|p| p.to_string_lossy().into_owned())
}

/// Calls `Path::file_name` and `OsStr::to_str`. Claimed: the result is the
/// name `path_file_name` of the text, and a name, being the final component
/// of the path, is not empty and holds no `/`.
#[verifier::external_body]
pub(crate) fn file_name_of(path: &str) -> (name: Option<String>)
    ensures
        opt_text(name) == path_file_name(path@),
        match name {
            Some(n) => n@.len() > 0 && !n@.contains('/'),
            None => true,
        },
{
    std::path::Path::new(path).file_name().and_then(|n| n.to_str()).map(|n| n.to_owned())
}

/// `String::push` appends one character.
pub assume_specification[ String::push ](s: &mut String, ch: char)
    ensures
        final(s)@ == old(s)@.push(ch),
;

/// `String::pop` removes the last character and returns it, or returns `None`
/// on an empty string.
pub assume_specification[ String::pop ](s: &mut String) -> (last: Option<char>)
    ensures
        old(s)@.len() == 0 ==> last is None && final(s)@ == old(s)@,
        old(s)@.len() > 0 ==> last == Some(old(s)@.last()) && final(s)@ == old(s)@.drop_last(),
;

/// `String::clear` empties the string.
pub assume_specification[ String::clear ](s: &mut String)
    ensures
        final(s)@ == Seq::<char>::empty(),
;

/// The view of an optional string.
pub open spec fn opt_text(s: Option<String>) -> Option<Seq<char>> {
    match s {
        Some(t) => Some(t@),
        None => None,
    }
}

/// A string with the given text.
pub fn owned(s: &str) -> (res: String)
    ensures
        res@ == s@,
{
    s.to_owned()
}

/// Whether `a` and `b` hold the same text.
pub fn same_text(a: &str, b: &str) -> (res: bool)
    ensures
        res == (a@ == b@),
{
    let n = a.unicode_len();
    let m = b.unicode_len();
    if n != m {
        return false;
    }
    let mut i: usize = 0;
    while i < n
        invariant
            n == a@.len(),
            m == b@.len(),
            n == m,
            i <= n,
            forall|j: int| 0 <= j < i ==> a@[j] == b@[j],
        decreases n - i,
    {
        if a.get_char(i) != b.get_char(i) {
            return false;
        }
        i = i + 1;
    }
    assert(a@ =~= b@);
    true
}

/// Whether `text` begins with `prefix`.
pub fn has_prefix(text: &str, prefix: &str) -> (res: bool)
    ensures
        res == prefix@.is_prefix_of(text@),
{
    let n = text.unicode_len();
    let m = prefix.unicode_len();
    if m > n {
        return false;
    }
    let mut i: usize = 0;
    while i < m
        invariant
            n == text@.len(),
            m == prefix@.len(),
            m <= n,
            i <= m,
            forall|j: int| 0 <= j < i ==> prefix@[j] == text@[j],
        decreases m - i,
    {
        if text.get_char(i) != prefix.get_char(i) {
            return false;
        }
        i = i + 1;
    }
    true
}

/// The rest of `text` after `prefix`, when `text` begins with it.
pub fn strip_prefix_text<'a>(text: &'a str, prefix: &str) -> (res: Option<&'a str>)
    ensures
        match res {
            Some(rest) => prefix@.is_prefix_of(text@) && rest@ == text@.skip(prefix@.len() as int),
            None => !prefix@.is_prefix_of(text@),
        },
{
    if has_prefix(text, prefix) {
        let n = text.unicode_len();
        let m = prefix.unicode_len();
        let rest = text.substring_char(m, n);
        assert(rest@ =~= text@.skip(prefix@.len() as int));
        Some(rest)
    } else {
        None
    }
}

/// The part of `path` after its last `/`, or the whole of it if it has none.
pub open spec fn after_last_slash(path: Seq<char>) -> Seq<char>
    decreases path.len(),
{
    if path.len() == 0 {
        path
    } else if path.last() == '/' {
        Seq::empty()
    } else {
        after_last_slash(path.drop_last()).push(path.last())
    }
}

proof fn lemma_after_last_slash(path: Seq<char>, k: int)
    requires
        0 <= k <= path.len(),
        k == 0 || path[k - 1] == '/',
        forall|j: int| k <= j < path.len() ==> path[j] != '/',
    ensures
        after_last_slash(path) == path.subrange(k, path.len() as int),
    decreases path.len(),
{
    if path.len() == k {
        if k > 0 {
            assert(after_last_slash(path) == Seq::<char>::empty());
        }
        assert(path.subrange(k, path.len() as int) =~= Seq::<char>::empty());
    } else {
        lemma_after_last_slash(path.drop_last(), k);
        assert(path.subrange(k, path.len() as int) =~= path.drop_last().subrange(
            k,
            path.len() - 1,
        ).push(path.last()));
    }
}

/// The last `/`-separated piece of `path` (what `path.split('/').next_back()` gives).
pub fn last_path_piece(path: &str) -> (piece: &str)
    ensures
        piece@ == after_last_slash(path@),
{
    let n = path.unicode_len();
    let mut k: usize = n;
    while k > 0
        invariant
            n == path@.len(),
            k <= n,
            forall|j: int| k <= j < n ==> path@[j] != '/',
        ensures
            k <= n,
            k == 0 || path@[k - 1] == '/',
            forall|j: int| k <= j < n ==> path@[j] != '/',
        decreases k,
    {
        if path.get_char(k - 1) == '/' {
            break;
        }
        k = k - 1;
    }
    proof {
        lemma_after_last_slash(path@, k as int);
    }
    path.substring_char(k, n)
}

/// How a character stands inside single quotes: a `'` closes the quotes, is
/// escaped, and opens them again.
pub open spec fn quoted_char(c: char) -> Seq<char> {
    if c == '\'' {
        seq!['\'', '\\', '\'', '\'']
    } else {
        seq![c]
    }
}

/// The characters of `text` as they stand inside single quotes.
pub open spec fn quoted_body(text: Seq<char>) -> Seq<char>
    decreases text.len(),
{
    if text.len() == 0 {
        Seq::empty()
    } else {
        quoted_body(text.drop_last()) + quoted_char(text.last())
    }
}

/// `text` as one word of a POSIX shell command line.
pub open spec fn shell_quote(text: Seq<char>) -> Seq<char> {
    seq!['\''] + quoted_body(text) + seq!['\'']
}

/// `text` as one word of a POSIX shell command line.
pub fn shell_quoted(text: &str) -> (q: String)
    ensures
        q@ == shell_quote(text@),
{
    let n = text.unicode_len();
    let mut q = String::new();
    q.push('\'');
    let mut i: usize = 0;
    assert(text@.take(0) =~= Seq::<char>::empty());
    while i < n
        invariant
            n == text@.len(),
            i <= n,
            q@ == seq!['\''] + quoted_body(text@.take(i as int)),
        decreases n - i,
    {
        let c = text.get_char(i);
        let ghost before = q@;
        if c == '\'' {
            q.push('\'');
            q.push('\\');
            q.push('\'');
            q.push('\'');
        } else {
            q.push(c);
        }
        assert(text@.take(i + 1).drop_last() =~= text@.take(i as int));
        assert(q@ =~= before + quoted_char(c));
        i = i + 1;
    }
    assert(text@.take(n as int) =~= text@);
    q.push('\'');
    q
}

/// Words of a shell command line, each quoted and preceded by a space.
pub open spec fn shell_words(words: Seq<Seq<char>>) -> Seq<char>
    decreases words.len(),
{
    if words.len() == 0 {
        Seq::empty()
    } else {
        shell_words(words.drop_last()) + seq![' '] + shell_quote(words.last())
    }
}

/// The character of a decimal digit.
pub open spec fn digit_char(d: nat) -> char {
    if d == 0 { '0' }
    else if d == 1 { '1' }
    else if d == 2 { '2' }
    else if d == 3 { '3' }
    else if d == 4 { '4' }
    else if d == 5 { '5' }
    else if d == 6 { '6' }
    else if d == 7 { '7' }
    else if d == 8 { '8' }
    else { '9' }
}

/// The decimal digits of a natural number, most significant first.
pub open spec fn digits(n: nat) -> Seq<char>
    decreases n,
{
    if n < 10 {
        seq![digit_char(n)]
    } else {
        digits(n / 10).push(digit_char(n % 10))
    }
}

/// The decimal text of an integer, with a leading `-` when it is negative
/// (what `Display` and `Debug` write for Rust's integer types).
pub open spec fn decimal(x: int) -> Seq<char> {
    if x < 0 {
        seq!['-'] + digits((-x) as nat)
    } else {
        digits(x as nat)
    }
}

fn digit(d: u64) -> (c: char)
    requires
        d < 10,
    ensures
        c == digit_char(d as nat),
{
    if d == 0 { '0' }
    else if d == 1 { '1' }
    else if d == 2 { '2' }
    else if d == 3 { '3' }
    else if d == 4 { '4' }
    else if d == 5 { '5' }
    else if d == 6 { '6' }
    else if d == 7 { '7' }
    else if d == 8 { '8' }
    else { '9' }
}

fn push_digits(s: &mut String, n: u64)
    ensures
        final(s)@ == old(s)@ + digits(n as nat),
    decreases n,
{
    if n >= 10 {
        push_digits(s, n / 10);
    }
    s.push(digit(n % 10));
    proof {
        if n >= 10 {
            assert(old(s)@ + digits(n as nat) =~= (old(s)@ + digits((n / 10) as nat)).push(
                digit_char((n % 10) as nat),
            ));
        } else {
            assert(old(s)@ + digits(n as nat) =~= old(s)@.push(digit_char((n % 10) as nat)));
        }
    }
}

/// The decimal text of `x`.
pub fn decimal_text(x: i64) -> (s: String)
    ensures
        s@ == decimal(x as int),
{
    let mut s = String::new();
    if x < 0 {
        s.push('-');
        push_digits(&mut s, (0i128 - x as i128) as u64);
    } else {
        push_digits(&mut s, x as u64);
    }
    s
}

} // verus!
