//! Text utilities the document builders and parsers are defined over:
//! substring search, the minimal JSON field scan used on the small JSON
//! documents this tool consumes, path joining, and line splitting.
//!
//! The tool reads exactly two JSON shapes — the credential helper's
//! `{"Username": .., "Secret": ..}` and the cloud API's create response
//! carrying the new cluster's `id` — and both are consumed by scanning for
//! a quoted key and taking the quoted string value that follows it. The
//! scan is specified exactly by the spec functions in this module.

use vstd::prelude::*;
use vstd::string::*;

verus! {

/// A character that may stand verbatim inside a JSON string literal,
/// needing no escape: not a quote, not a backslash, not a control
/// character.
pub open spec fn json_plain_char(c: char) -> bool {
    c != '"' && c != '\\' && c as int >= 0x20
}

/// A string that may be embedded verbatim in a JSON document.
pub open spec fn json_plain(s: Seq<char>) -> bool {
    forall|i: int| 0 <= i < s.len() ==> json_plain_char(s[i])
}

/// Whether `s` may be embedded verbatim in a JSON document.
pub fn is_json_plain(s: &str) -> (r: bool)
    ensures
        r == json_plain(s@),
{
    let n = s.unicode_len();
    let mut i: usize = 0;
    while i < n
        invariant
            n == s@.len(),
            i <= n,
            forall|j: int| 0 <= j < i ==> json_plain_char(s@[j]),
        decreases n - i,
    {
        let c = s.get_char(i);
        if c == '"' || c == '\\' || (c as u32) < 0x20 {
            return false;
        }
        i += 1;
    }
    true
}

/// Index of the first occurrence of `pat` in `s` at or after `i`, when
/// there is one.
pub open spec fn first_occurrence_from(s: Seq<char>, pat: Seq<char>, i: int) -> Option<int>
    decreases s.len() - i,
{
    if i < 0 || pat.len() == 0 || i + pat.len() > s.len() {
        Option::None
    } else if s.subrange(i, i + pat.len() as int) == pat {
        Option::Some(i)
    } else {
        first_occurrence_from(s, pat, i + 1)
    }
}

/// Whether `pat` stands in `s` at position `i`.
fn match_at(s: &str, pat: &str, i: usize) -> (r: bool)
    requires
        i + pat@.len() <= s@.len(),
    ensures
        r == (s@.subrange(i as int, i as int + pat@.len() as int) == pat@),
{
    let n = s.unicode_len();
    let m = pat.unicode_len();
    let mut j: usize = 0;
    while j < m
        invariant
            n == s@.len(),
            m == pat@.len(),
            i + m <= n,
            j <= m,
            forall|t: int| 0 <= t < j ==> s@[i + t] == pat@[t],
        decreases m - j,
    {
        if s.get_char(i + j) != pat.get_char(j) {
            proof {
                let sub = s@.subrange(i as int, i as int + m as int);
                assert(sub[j as int] == s@[i + j]);
            }
            return false;
        }
        j += 1;
    }
    proof {
        assert(s@.subrange(i as int, i as int + m as int) =~= pat@);
    }
    true
}

/// First occurrence of `pat` in `s` at or after `from`.
pub fn find_from(s: &str, pat: &str, from: usize) -> (r: Option<usize>)
    requires
        from <= s@.len(),
    ensures
        match r {
            Option::Some(i) => from <= i && i + pat@.len() <= s@.len()
                && first_occurrence_from(s@, pat@, from as int) == Option::Some(i as int),
            Option::None => first_occurrence_from(s@, pat@, from as int) is None,
        },
{
    let n = s.unicode_len();
    let m = pat.unicode_len();
    if m == 0 || m > n {
        return Option::None;
    }
    let mut i: usize = from;
    while i <= n - m
        invariant
            n == s@.len(),
            m == pat@.len(),
            1 <= m <= n,
            from <= i,
            i <= n,
            first_occurrence_from(s@, pat@, from as int)
                == first_occurrence_from(s@, pat@, i as int),
        decreases n - i,
    {
        if match_at(s, pat, i) {
            return Option::Some(i);
        }
        i += 1;
    }
    Option::None
}

/// A JSON whitespace character.
pub open spec fn json_ws(c: char) -> bool {
    c == ' ' || c == '\n' || c == '\t' || c == '\r'
}

/// First index at or after `i` whose character is not whitespace (or the
/// end of `s`).
pub open spec fn skip_spaces(s: Seq<char>, i: int) -> int
    decreases s.len() - i,
{
    if 0 <= i < s.len() && json_ws(s[i]) {
        skip_spaces(s, i + 1)
    } else {
        i
    }
}

/// Skips JSON whitespace.
fn skip_ws(s: &str, from: usize) -> (r: usize)
    requires
        from <= s@.len(),
    ensures
        r == skip_spaces(s@, from as int),
        from <= r <= s@.len(),
{
    let n = s.unicode_len();
    let mut i: usize = from;
    while i < n
        invariant
            n == s@.len(),
            from <= i <= n,
            skip_spaces(s@, from as int) == skip_spaces(s@, i as int),
        decreases n - i,
    {
        let c = s.get_char(i);
        if !(c == ' ' || c == '\n' || c == '\t' || c == '\r') {
            return i;
        }
        i += 1;
    }
    i
}

/// The key, in quotes.
pub open spec fn quoted(key: Seq<char>) -> Seq<char> {
    seq!['"'] + key + seq!['"']
}

/// The string value of the first occurrence of `"key"` in `s`: after the
/// quoted key, optional whitespace, a colon, optional whitespace and an
/// opening quote must follow; the value runs to the next quote. `None`
/// when `s` has no such field.
pub open spec fn json_field_value(s: Seq<char>, key: Seq<char>) -> Option<Seq<char>> {
    match first_occurrence_from(s, quoted(key), 0) {
        Option::None => Option::None,
        Option::Some(i) => {
            let p = skip_spaces(s, i + quoted(key).len());
            if p < s.len() && s[p] == ':' {
                let q = skip_spaces(s, p + 1);
                if q < s.len() && s[q] == '"' {
                    match first_occurrence_from(s, seq!['"'], q + 1) {
                        Option::None => Option::None,
                        Option::Some(e) => Option::Some(s.subrange(q + 1, e)),
                    }
                } else {
                    Option::None
                }
            } else {
                Option::None
            }
        },
    }
}

/// Scans `s` for the string field named `key`, exactly as
/// [`json_field_value`] describes.
pub fn json_string_field(s: &str, key: &str) -> (r: Option<String>)
    ensures
        match r {
            Option::Some(v) => json_field_value(s@, key@) == Option::Some(v@),
            Option::None => json_field_value(s@, key@) is None,
        },
{
    let mut pat = String::new();
    pat.append("\"");
    pat.append(key);
    pat.append("\"");
    proof {
        reveal_strlit("\"");
        assert("\""@ =~= seq!['"']);
        assert(pat@ =~= quoted(key@));
    }
    let n = s.unicode_len();
    let i = match find_from(s, pat.as_str(), 0) {
        Option::None => {
            return Option::None;
        },
        Option::Some(i) => i,
    };
    let p = skip_ws(s, i + pat.unicode_len());
    if !(p < n && s.get_char(p) == ':') {
        return Option::None;
    }
    let q = skip_ws(s, p + 1);
    if !(q < n && s.get_char(q) == '"') {
        return Option::None;
    }
    proof {
        reveal_strlit("\"");
        assert("\""@ =~= seq!['"']);
    }
    match find_from(s, "\"", q + 1) {
        Option::None => Option::None,
        Option::Some(e) => Option::Some(s.substring_char(q + 1, e).to_owned()),
    }
}

/// `dir`, a slash, `file`.
pub open spec fn spec_path_join(dir: Seq<char>, file: Seq<char>) -> Seq<char> {
    dir + seq!['/'] + file
}

/// Joins a directory path and an entry name with a slash.
pub fn path_join(dir: &str, file: &str) -> (r: String)
    ensures
        r@ == spec_path_join(dir@, file@),
{
    let mut out = dir.to_owned();
    out.append("/");
    out.append(file);
    proof {
        reveal_strlit("/");
        assert("/"@ =~= seq!['/']);
        assert(out@ =~= spec_path_join(dir@, file@));
    }
    out
}

/// The non-empty lines of `s` from position `i` on, split on newlines.
pub open spec fn spec_lines(s: Seq<char>, i: int) -> Seq<Seq<char>>
    decreases s.len() - i,
{
    match first_occurrence_from(s, seq!['\n'], i) {
        Option::Some(e) => if i <= e < s.len() {
            let line = s.subrange(i, e);
            let rest = spec_lines(s, e + 1);
            if line.len() > 0 {
                seq![line] + rest
            } else {
                rest
            }
        } else {
            Seq::empty()
        },
        Option::None => {
            if 0 <= i <= s.len() && s.subrange(i, s.len() as int).len() > 0 {
                seq![s.subrange(i, s.len() as int)]
            } else {
                Seq::empty()
            }
        },
    }
}

/// Splits `s` into its non-empty lines. This is how a backend's textual
/// cluster list becomes the live-name list the reconciler consumes.
pub fn split_lines(s: &str) -> (r: Vec<String>)
    ensures
        r@.map_values(|x: String| x@) == spec_lines(s@, 0),
{
    let n = s.unicode_len();
    let mut out: Vec<String> = Vec::new();
    let mut pos: usize = 0;
    loop
        invariant
            n == s@.len(),
            pos <= n,
            out@.map_values(|x: String| x@) + spec_lines(s@, pos as int) =~= spec_lines(s@, 0),
        decreases n - pos,
    {
        match find_from(s, "\n", pos) {
            Option::Some(e) => {
                proof {
                    reveal_strlit("\n");
                    assert("\n"@ =~= seq!['\n']);
                }
                if e > pos {
                    out.push(s.substring_char(pos, e).to_owned());
                }
                proof {
                    assert(out@.map_values(|x: String| x@) + spec_lines(s@, (e + 1) as int)
                        =~= spec_lines(s@, 0));
                }
                pos = e + 1;
            },
            Option::None => {
                proof {
                    reveal_strlit("\n");
                    assert("\n"@ =~= seq!['\n']);
                }
                if pos < n {
                    out.push(s.substring_char(pos, n).to_owned());
                }
                proof {
                    assert(out@.map_values(|x: String| x@) =~= spec_lines(s@, 0));
                }
                return out;
            },
        }
    }
}

} // verus!
