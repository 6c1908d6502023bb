//! Character-level parsing helpers for the os-release line grammar:
//! backslash-unescaping, quote trimming, and locating the `=` separator.

use vstd::prelude::*;

verus! {

/// Backslash-unescaping of a character sequence: a backslash causes the next
/// character to be copied literally and the backslash itself to be dropped; a
/// backslash at the end of the sequence is dropped with nothing following it.
pub open spec fn spec_unescape(s: Seq<char>) -> Seq<char>
    decreases s.len(),
{
    if s.len() == 0 {
        Seq::empty()
    } else if s[0] == '\\' {
        if s.len() == 1 {
            Seq::empty()
        } else {
            seq![s[1]] + spec_unescape(s.skip(2))
        }
    } else {
        seq![s[0]] + spec_unescape(s.skip(1))
    }
}

/// Relies on String::push: appends one character at the end of the string.
#[verifier::external_body]
pub(crate) fn push_char(s: &mut String, c: char)
    ensures
        final(s)@ == old(s)@.push(c),
{
    s.push(c);
}

/// Unescape a string: drop each backslash and copy the character after it
/// verbatim. No named escapes are recognized.
pub fn unescape(value: &str) -> (r: String)
    ensures
        r@ == spec_unescape(value@),
{
    let n = value.unicode_len();
    let mut out = String::new();
    let mut i: usize = 0;
    proof {
        assert(value@.skip(0) =~= value@);
        assert(out@ + spec_unescape(value@) =~= spec_unescape(value@));
    }
    while i < n
        invariant
            n == value@.len(),
            i <= n,
            spec_unescape(value@) == out@ + spec_unescape(value@.skip(i as int)),
        decreases n - i,
    {
        let c = value.get_char(i);
        if c == '\\' {
            if i + 1 < n {
                let d = value.get_char(i + 1);
                push_char(&mut out, d);
                proof {
                    assert(value@.skip(i as int).skip(2) =~= value@.skip(i + 2));
                    assert(out@ + spec_unescape(value@.skip(i + 2)) =~= spec_unescape(value@));
                }
                i += 2;
            } else {
                proof {
                    assert(out@ + spec_unescape(value@.skip(i + 1)) =~= spec_unescape(value@));
                }
                i += 1;
            }
        } else {
            push_char(&mut out, c);
            proof {
                assert(value@.skip(i as int).skip(1) =~= value@.skip(i + 1));
                assert(out@ + spec_unescape(value@.skip(i + 1)) =~= spec_unescape(value@));
            }
            i += 1;
        }
    }
    proof {
        assert(value@.skip(n as int) =~= Seq::<char>::empty());
        assert(out@ =~= spec_unescape(value@));
    }
    out
}

/// Trimming the outermost quotes from a value: a leading `"` or `'` is
/// stripped; if the last character of the remaining text equals the same quote
/// character, it is stripped too; a missing closing quote leaves the remaining
/// text as it is. The second component reports the quote character, if any.
pub open spec fn spec_trim_quote(s: Seq<char>) -> (Seq<char>, Option<char>) {
    if s.len() > 0 && (s[0] == '"' || s[0] == '\'') {
        let rest = s.skip(1);
        if rest.len() > 0 && rest.last() == s[0] {
            (rest.drop_last(), Some(s[0]))
        } else {
            (rest, Some(s[0]))
        }
    } else {
        (s, None)
    }
}

/// Trim the outermost quotes from a string.
///
/// Returns the trimmed string and the quote character, if any.
pub fn trim_quote(value: &str) -> (r: (&str, Option<char>))
    ensures
        r.0@ == spec_trim_quote(value@).0,
        r.1 == spec_trim_quote(value@).1,
{
    let n = value.unicode_len();
    if n > 0 {
        let c = value.get_char(0);
        if c == '"' || c == '\'' {
            if n > 1 && value.get_char(n - 1) == c {
                let inner = value.substring_char(1, n - 1);
                proof {
                    assert(value@.skip(1).drop_last() =~= inner@);
                }
                return (inner, Some(c));
            } else {
                let rest = value.substring_char(1, n);
                proof {
                    assert(value@.skip(1) =~= rest@);
                }
                return (rest, Some(c));
            }
        }
    }
    (value, None)
}

/// The index of the first occurrence of a character in a sequence, if any.
pub open spec fn spec_find(s: Seq<char>, c: char) -> Option<int>
    decreases s.len(),
{
    if s.len() == 0 {
        None
    } else if s[0] == c {
        Some(0int)
    } else {
        match spec_find(s.skip(1), c) {
            None => None,
            Some(i) => Some(i + 1),
        }
    }
}

/// `spec_find` returns the smallest index holding the character, or reports
/// that the character does not occur at all.
pub proof fn lemma_find(s: Seq<char>, c: char)
    ensures
        match spec_find(s, c) {
            Some(i) => 0 <= i < s.len() && s[i] == c && (forall|j: int| 0 <= j < i ==> s[j] != c),
            None => forall|j: int| 0 <= j < s.len() ==> s[j] != c,
        },
    decreases s.len(),
{
    if s.len() == 0 {
    } else if s[0] == c {
    } else {
        lemma_find(s.skip(1), c);
        match spec_find(s.skip(1), c) {
            Some(i) => {
                assert(s[i + 1] == s.skip(1)[i]);
                assert forall|j: int| 0 <= j < i + 1 implies s[j] != c by {
                    if j > 0 {
                        assert(s[j] == s.skip(1)[j - 1]);
                    }
                }
            },
            None => {
                assert forall|j: int| 0 <= j < s.len() implies s[j] != c by {
                    if j > 0 {
                        assert(s[j] == s.skip(1)[j - 1]);
                    }
                }
            },
        }
    }
}

/// Find the first occurrence of a character in a string.
pub fn find_char(s: &str, c: char) -> (r: Option<usize>)
    ensures
        match r {
            Some(i) => spec_find(s@, c) == Some(i as int),
            None => spec_find(s@, c) is None,
        },
{
    let n = s.unicode_len();
    let mut i: usize = 0;
    while i < n
        invariant
            n == s@.len(),
            i <= n,
            forall|j: int| 0 <= j < i ==> s@[j] != c,
        decreases n - i,
    {
        if s.get_char(i) == c {
            proof {
                lemma_find(s@, c);
            }
            return Some(i);
        }
        i += 1;
    }
    proof {
        lemma_find(s@, c);
    }
    None
}

/// The Unicode white-space characters, the separators for list-valued fields.
pub open spec fn is_space(c: char) -> bool {
    let u = c as u32;
    u == 0x20 || (0x09 <= u && u <= 0x0d) || u == 0x85 || u == 0xa0 || u == 0x1680 || (0x2000
        <= u && u <= 0x200a) || u == 0x2028 || u == 0x2029 || u == 0x202f || u == 0x205f || u
        == 0x3000
}

/// Whether a character is Unicode white space.
pub fn is_space_char(c: char) -> (r: bool)
    ensures
        r == is_space(c),
{
    let u = c as u32;
    u == 0x20 || (0x09 <= u && u <= 0x0d) || u == 0x85 || u == 0xa0 || u == 0x1680 || (0x2000
        <= u && u <= 0x200a) || u == 0x2028 || u == 0x2029 || u == 0x202f || u == 0x205f || u
        == 0x3000
}

/// Splitting on runs of white space, scanning left to right while `cur` holds
/// the token gathered so far: a white-space character closes the gathered
/// token, if any; any other character extends it.
pub open spec fn spec_split_ws_rec(s: Seq<char>, cur: Seq<char>) -> Seq<Seq<char>>
    decreases s.len(),
{
    if s.len() == 0 {
        if cur.len() > 0 {
            seq![cur]
        } else {
            Seq::empty()
        }
    } else if is_space(s[0]) {
        if cur.len() > 0 {
            seq![cur] + spec_split_ws_rec(s.skip(1), Seq::empty())
        } else {
            spec_split_ws_rec(s.skip(1), Seq::empty())
        }
    } else {
        spec_split_ws_rec(s.skip(1), cur.push(s[0]))
    }
}

/// The non-empty tokens of a sequence, in order, where runs of white space
/// separate tokens and leading and trailing white space is ignored.
pub open spec fn spec_split_ws(s: Seq<char>) -> Seq<Seq<char>> {
    spec_split_ws_rec(s, Seq::empty())
}

/// The views of a sequence of strings.
pub open spec fn str_views(q: Seq<String>) -> Seq<Seq<char>> {
    q.map_values(|t: String| t@)
}

/// Split a string on runs of white space into its non-empty tokens.
pub fn split_whitespace_list(s: &str) -> (r: Vec<String>)
    ensures
        str_views(r@) == spec_split_ws(s@),
{
    let n = s.unicode_len();
    let mut out: Vec<String> = Vec::new();
    let mut cur = String::new();
    let mut i: usize = 0;
    proof {
        assert(s@.skip(0) =~= s@);
        assert(str_views(out@) + spec_split_ws_rec(s@, cur@) =~= spec_split_ws(s@));
    }
    while i < n
        invariant
            n == s@.len(),
            i <= n,
            spec_split_ws(s@) == str_views(out@) + spec_split_ws_rec(s@.skip(i as int), cur@),
        decreases n - i,
    {
        let c = s.get_char(i);
        proof {
            assert(s@.skip(i as int).skip(1) =~= s@.skip(i + 1));
        }
        if is_space_char(c) {
            if cur.as_str().unicode_len() > 0 {
                let ghost old_out = out@;
                let ghost old_cur = cur@;
                out.push(cur);
                cur = String::new();
                proof {
                    assert(spec_split_ws_rec(s@.skip(i as int), old_cur) == seq![old_cur]
                        + spec_split_ws_rec(s@.skip(i + 1), cur@));
                    assert(str_views(out@) =~= str_views(old_out) + seq![old_cur]);
                    assert(str_views(out@) + spec_split_ws_rec(s@.skip(i + 1), cur@)
                        =~= str_views(old_out) + spec_split_ws_rec(s@.skip(i as int), old_cur));
                }
            } else {
                proof {
                    assert(cur@ =~= Seq::<char>::empty());
                    assert(spec_split_ws_rec(s@.skip(i as int), cur@) == spec_split_ws_rec(
                        s@.skip(i + 1),
                        cur@,
                    ));
                }
            }
        } else {
            let ghost old_cur = cur@;
            push_char(&mut cur, c);
            proof {
                assert(spec_split_ws_rec(s@.skip(i as int), old_cur) == spec_split_ws_rec(
                    s@.skip(i + 1),
                    cur@,
                ));
            }
        }
        i += 1;
    }
    proof {
        assert(s@.skip(n as int) =~= Seq::<char>::empty());
    }
    if cur.as_str().unicode_len() > 0 {
        let ghost old_out = out@;
        let ghost old_cur = cur@;
        out.push(cur);
        proof {
            assert(str_views(out@) =~= str_views(old_out) + seq![old_cur]);
            assert(str_views(out@) =~= spec_split_ws(s@));
        }
    } else {
        proof {
            assert(str_views(out@) =~= spec_split_ws(s@));
        }
    }
    out
}

/// Classification of one os-release line. An empty line, a comment line
/// (first character `#`), or a line without `=` yields nothing; otherwise the
/// text before the first `=` is the key, used verbatim, and the text after it
/// is quote-trimmed and, unless it was single-quoted, backslash-unescaped.
pub open spec fn spec_parse_line(line: Seq<char>) -> Option<(Seq<char>, Seq<char>)> {
    if line.len() == 0 || line[0] == '#' {
        None
    } else {
        match spec_find(line, '=') {
            None => None,
            Some(i) => {
                let key = line.take(i);
                let raw = line.skip(i + 1);
                let trimmed = spec_trim_quote(raw).0;
                let value = if spec_trim_quote(raw).1 == Some('\'') {
                    trimmed
                } else {
                    spec_unescape(trimmed)
                };
                Some((key, value))
            },
        }
    }
}

/// A token of a list-valued field: non-empty, with no white space inside.
pub open spec fn is_token(t: Seq<char>) -> bool {
    t.len() > 0 && forall|j: int| 0 <= j < t.len() ==> !is_space(#[trigger] t[j])
}

proof fn lemma_split_ws_rec_tokens(s: Seq<char>, cur: Seq<char>)
    requires
        forall|j: int| 0 <= j < cur.len() ==> !is_space(#[trigger] cur[j]),
    ensures
        forall|i: int|
            0 <= i < spec_split_ws_rec(s, cur).len() ==> is_token(
                #[trigger] spec_split_ws_rec(s, cur)[i],
            ),
    decreases s.len(),
{
    let r = spec_split_ws_rec(s, cur);
    if s.len() == 0 {
        if cur.len() > 0 {
            assert(r[0] == cur);
            assert(is_token(cur));
        }
    } else if is_space(s[0]) {
        lemma_split_ws_rec_tokens(s.skip(1), Seq::empty());
        let rest = spec_split_ws_rec(s.skip(1), Seq::empty());
        if cur.len() > 0 {
            assert forall|i: int| 0 <= i < r.len() implies is_token(#[trigger] r[i]) by {
                if i == 0 {
                    assert(r[0] == cur);
                    assert(is_token(cur));
                } else {
                    assert(r[i] == rest[i - 1]);
                }
            }
        } else {
            assert forall|i: int| 0 <= i < r.len() implies is_token(#[trigger] r[i]) by {
                assert(r[i] == rest[i]);
            }
        }
    } else {
        assert forall|j: int| 0 <= j < cur.push(s[0]).len() implies !is_space(
            #[trigger] cur.push(s[0])[j],
        ) by {
            if j < cur.len() {
                assert(cur.push(s[0])[j] == cur[j]);
            }
        }
        lemma_split_ws_rec_tokens(s.skip(1), cur.push(s[0]));
        let rest = spec_split_ws_rec(s.skip(1), cur.push(s[0]));
        assert forall|i: int| 0 <= i < r.len() implies is_token(#[trigger] r[i]) by {
            assert(r[i] == rest[i]);
        }
    }
}

/// Every token that splitting on white space yields is non-empty and holds no
/// white space.
pub proof fn lemma_split_ws_tokens(s: Seq<char>)
    ensures
        forall|i: int|
            0 <= i < spec_split_ws(s).len() ==> is_token(#[trigger] spec_split_ws(s)[i]),
{
    lemma_split_ws_rec_tokens(s, Seq::empty());
}

/// A line with a trailing carriage return loses it, so that text with
/// carriage-return line endings reads the same as text without them.
pub open spec fn spec_strip_cr(l: Seq<char>) -> Seq<char> {
    if l.len() > 0 && l.last() == '\r' {
        l.drop_last()
    } else {
        l
    }
}

/// Splitting text into lines, scanning left to right while `cur` holds the
/// line gathered so far: a line feed closes the gathered line, dropping a
/// carriage return just before it; the final line needs no line ending, and a
/// final empty line is not reported.
pub open spec fn spec_lines_rec(s: Seq<char>, cur: Seq<char>) -> Seq<Seq<char>>
    decreases s.len(),
{
    if s.len() == 0 {
        if cur.len() > 0 {
            seq![cur]
        } else {
            Seq::empty()
        }
    } else if s[0] == '\n' {
        seq![spec_strip_cr(cur)] + spec_lines_rec(s.skip(1), Seq::empty())
    } else {
        spec_lines_rec(s.skip(1), cur.push(s[0]))
    }
}

/// The lines of a text, split at line feeds or at carriage return followed by
/// line feed, the final line ending optional.
pub open spec fn spec_lines(s: Seq<char>) -> Seq<Seq<char>> {
    spec_lines_rec(s, Seq::empty())
}

/// Split a text into its lines.
pub fn split_lines(s: &str) -> (r: Vec<String>)
    ensures
        str_views(r@) == spec_lines(s@),
{
    let n = s.unicode_len();
    let mut out: Vec<String> = Vec::new();
    let mut cur = String::new();
    let mut i: usize = 0;
    proof {
        assert(s@.skip(0) =~= s@);
        assert(str_views(out@) + spec_lines_rec(s@, cur@) =~= spec_lines(s@));
    }
    while i < n
        invariant
            n == s@.len(),
            i <= n,
            spec_lines(s@) == str_views(out@) + spec_lines_rec(s@.skip(i as int), cur@),
        decreases n - i,
    {
        let c = s.get_char(i);
        proof {
            assert(s@.skip(i as int).skip(1) =~= s@.skip(i + 1));
        }
        if c == '\n' {
            let ghost old_out = out@;
            let ghost old_cur = cur@;
            let m = cur.as_str().unicode_len();
            if m > 0 && cur.as_str().get_char(m - 1) == '\r' {
                let stripped = cur.as_str().substring_char(0, m - 1).to_owned();
                proof {
                    assert(stripped@ =~= spec_strip_cr(old_cur));
                }
                out.push(stripped);
            } else {
                out.push(cur);
            }
            cur = String::new();
            proof {
                assert(str_views(out@) =~= str_views(old_out) + seq![spec_strip_cr(old_cur)]);
                assert(str_views(out@) + spec_lines_rec(s@.skip(i + 1), cur@) =~= str_views(
                    old_out,
                ) + spec_lines_rec(s@.skip(i as int), old_cur));
            }
        } else {
            let ghost old_cur = cur@;
            push_char(&mut cur, c);
            proof {
                assert(spec_lines_rec(s@.skip(i as int), old_cur) == spec_lines_rec(
                    s@.skip(i + 1),
                    cur@,
                ));
            }
        }
        i += 1;
    }
    proof {
        assert(s@.skip(n as int) =~= Seq::<char>::empty());
    }
    if cur.as_str().unicode_len() > 0 {
        let ghost old_out = out@;
        let ghost old_cur = cur@;
        out.push(cur);
        proof {
            assert(str_views(out@) =~= str_views(old_out) + seq![old_cur]);
            assert(str_views(out@) =~= spec_lines(s@));
        }
    } else {
        proof {
            assert(str_views(out@) =~= spec_lines(s@));
        }
    }
    out
}

/// A line that is empty or whose first character is `#` is never an entry.
pub proof fn lemma_blank_or_comment_line(line: Seq<char>)
    requires
        line.len() == 0 || line[0] == '#',
    ensures
        spec_parse_line(line) is None,
{
}

/// A line in which `=` does not occur is never an entry.
pub proof fn lemma_no_assign_line(line: Seq<char>)
    requires
        forall|j: int| 0 <= j < line.len() ==> line[j] != '=',
    ensures
        spec_parse_line(line) is None,
{
    lemma_find(line, '=');
}

} // verus!
