//! Links and titles in dragged text, and the address in an Internet shortcut file.
use vstd::prelude::*;

use crate::text::{
    chars_of, copy_range, find, find_chars, has_prefix, is_white_space, is_white_space_char,
    lines_view, split_lines, split_lines_of, starts_with, string_from_chars, trim, trim_chars,
    trim_in, trim_white_space, CharClass,
};
use crate::urls::{opt_view, web_url};

verus! {

// ---------------------------------------------------------------------------
// Links in dragged text

/// The link on one line of text: the trimmed line without surrounding `<` `>`,
/// when that is a web link.
pub open spec fn line_url(l: Seq<char>) -> Option<Seq<char>> {
    let t = trim(l);
    if t.len() == 0 {
        None
    } else {
        web_url(trim_in(t, CharClass::AngleBracket))
    }
}

/// The first line, in order, that is a link.
pub open spec fn first_line_url(lines: Seq<Seq<char>>) -> Option<Seq<char>>
    decreases lines.len(),
{
    if lines.len() == 0 {
        None
    } else {
        match line_url(lines[0]) {
            Some(u) => Some(u),
            None => first_line_url(lines.drop_first()),
        }
    }
}

/// The characters that end a link found inside other text.
pub open spec fn ends_url(c: char) -> bool {
    is_white_space(c) || c == '<' || c == '>' || c == '"' || c == '\''
}

/// The first index at or after `i` of a character that ends a link, or the length.
pub open spec fn url_end_from(s: Seq<char>, i: int) -> int
    decreases s.len() - i,
{
    if i < 0 || i >= s.len() {
        s.len() as int
    } else if ends_url(s[i]) {
        i
    } else {
        url_end_from(s, i + 1)
    }
}

/// A link inside other text: from the first `https://` (else the first
/// `http://`) up to the first character that ends a link.
pub open spec fn embedded_url(text: Seq<char>) -> Option<Seq<char>> {
    let start = match find(text, "https://"@) {
        Some(i) => Some(i),
        None => find(text, "http://"@),
    };
    match start {
        Some(s) => {
            let rest = text.skip(s);
            web_url(rest.take(url_end_from(rest, 0)))
        },
        None => None,
    }
}

/// The link in dragged text: the first line that is a link, else a link inside the text.
pub open spec fn text_url(text: Seq<char>) -> Option<Seq<char>> {
    match first_line_url(split_lines(text)) {
        Some(u) => Some(u),
        None => embedded_url(text),
    }
}

/// The first non-blank trimmed line, in order, that holds no link.
pub open spec fn first_label_line(lines: Seq<Seq<char>>) -> Option<Seq<char>>
    decreases lines.len(),
{
    if lines.len() == 0 {
        None
    } else {
        let t = trim(lines[0]);
        if t.len() > 0 && text_url(t) is None {
            Some(t)
        } else {
            first_label_line(lines.drop_first())
        }
    }
}

/// The title in dragged text: its first non-blank line that holds no link.
pub open spec fn text_label(text: Seq<char>) -> Option<Seq<char>> {
    first_label_line(split_lines(text))
}

proof fn lemma_first_line_url_push(a: Seq<Seq<char>>, x: Seq<char>)
    ensures
        first_line_url(a.push(x)) == match first_line_url(a) {
            Some(u) => Some(u),
            None => line_url(x),
        },
    decreases a.len(),
{
    if a.len() == 0 {
        assert(a.push(x).drop_first() =~= Seq::<Seq<char>>::empty());
        assert(first_line_url(Seq::<Seq<char>>::empty()) is None);
        assert(a.push(x)[0] == x);
    } else {
        assert(a.push(x).drop_first() =~= a.drop_first().push(x));
        assert(a.push(x)[0] == a[0]);
        lemma_first_line_url_push(a.drop_first(), x);
    }
}

proof fn lemma_first_label_line_push(a: Seq<Seq<char>>, x: Seq<char>)
    ensures
        first_label_line(a.push(x)) == match first_label_line(a) {
            Some(u) => Some(u),
            None => first_label_line(seq![x]),
        },
    decreases a.len(),
{
    if a.len() == 0 {
        assert(a.push(x) =~= seq![x]);
    } else {
        assert(a.push(x).drop_first() =~= a.drop_first().push(x));
        lemma_first_label_line_push(a.drop_first(), x);
    }
}

/// The link on one line of text.
fn line_url_of(l: &Vec<char>) -> (r: Option<Vec<char>>)
    ensures
        match r {
            Some(u) => line_url(l@) == Some(u@),
            None => line_url(l@) is None,
        },
{
    let t = trim_white_space(l);
    if t.len() == 0 {
        return None;
    }
    let inner = trim_chars(&t, CharClass::AngleBracket);
    web_url_of(&inner)
}

/// The web link in a character sequence.
fn web_url_of(v: &Vec<char>) -> (r: Option<Vec<char>>)
    ensures
        match r {
            Some(u) => web_url(v@) == Some(u@),
            None => web_url(v@) is None,
        },
{
    let t = trim_white_space(v);
    if starts_with(&t, &chars_of("http://")) || starts_with(&t, &chars_of("https://")) {
        Some(t)
    } else {
        None
    }
}

/// The first index at or after `i` of a character that ends a link.
fn url_end_in(s: &Vec<char>) -> (r: usize)
    ensures
        r as int == url_end_from(s@, 0),
        r <= s@.len(),
{
    let mut i: usize = 0;
    while i < s.len()
        invariant
            i <= s@.len(),
            url_end_from(s@, 0) == url_end_from(s@, i as int),
        decreases s.len() - i,
    {
        let c = s[i];
        if is_white_space_char(c) || c == '<' || c == '>' || c == '"' || c == '\'' {
            return i;
        }
        i += 1;
    }
    i
}

/// A link inside other text.
fn embedded_url_of(text: &Vec<char>) -> (r: Option<Vec<char>>)
    ensures
        match r {
            Some(u) => embedded_url(text@) == Some(u@),
            None => embedded_url(text@) is None,
        },
{
    let start = match find_chars(text, &chars_of("https://")) {
        Some(i) => i,
        None => match find_chars(text, &chars_of("http://")) {
            Some(i) => i,
            None => return None,
        },
    };
    let rest = copy_range(text, start, text.len());
    assert(rest@ =~= text@.skip(start as int));
    let end = url_end_in(&rest);
    let candidate = copy_range(&rest, 0, end);
    assert(candidate@ =~= rest@.take(end as int));
    web_url_of(&candidate)
}

/// The link in dragged text.
fn text_url_of(text: &Vec<char>) -> (r: Option<Vec<char>>)
    ensures
        match r {
            Some(u) => text_url(text@) == Some(u@),
            None => text_url(text@) is None,
        },
{
    let lines = split_lines_of(text);
    let mut i: usize = 0;
    assert(lines_view(lines@).take(0) =~= Seq::<Seq<char>>::empty());
    while i < lines.len()
        invariant
            i <= lines@.len(),
            lines_view(lines@) == split_lines(text@),
            first_line_url(lines_view(lines@).take(i as int)) is None,
        decreases lines.len() - i,
    {
        let found = line_url_of(&lines[i]);
        proof {
            assert(lines_view(lines@).take(i + 1) =~= lines_view(lines@).take(i as int).push(
                lines@[i as int]@,
            ));
            lemma_first_line_url_push(lines_view(lines@).take(i as int), lines@[i as int]@);
        }
        match found {
            Some(u) => {
                proof {
                    let whole = lines_view(lines@);
                    assert(whole =~= whole.take(i + 1) + whole.skip(i + 1));
                    lemma_first_line_url_concat(whole.take(i + 1), whole.skip(i + 1));
                }
                return Some(u);
            },
            None => {},
        }
        i += 1;
    }
    assert(lines_view(lines@).take(lines@.len() as int) =~= lines_view(lines@));
    embedded_url_of(text)
}

proof fn lemma_first_line_url_concat(a: Seq<Seq<char>>, b: Seq<Seq<char>>)
    requires
        first_line_url(a) is Some,
    ensures
        first_line_url(a + b) == first_line_url(a),
    decreases a.len(),
{
    assert(a.len() > 0);
    assert((a + b).drop_first() =~= a.drop_first() + b);
    if line_url(a[0]) is None {
        lemma_first_line_url_concat(a.drop_first(), b);
    }
}

proof fn lemma_first_label_line_concat(a: Seq<Seq<char>>, b: Seq<Seq<char>>)
    requires
        first_label_line(a) is Some,
    ensures
        first_label_line(a + b) == first_label_line(a),
    decreases a.len(),
{
    assert(a.len() > 0);
    assert((a + b).drop_first() =~= a.drop_first() + b);
    let t = trim(a[0]);
    if !(t.len() > 0 && text_url(t) is None) {
        lemma_first_label_line_concat(a.drop_first(), b);
    }
}

/// The first link in dragged text: the first non-blank line that, trimmed and
/// without surrounding `<` `>`, is a web link; else the text from the first
/// `https://` (or `http://`) up to white space or one of `<` `>` `"` `'`.
pub fn first_url_from_text(text: &str) -> (r: Option<String>)
    ensures
        opt_view(r) == text_url(text@),
{
    match text_url_of(&chars_of(text)) {
        Some(u) => Some(string_from_chars(u.as_slice())),
        None => None,
    }
}

/// The title in dragged text: its first non-blank trimmed line that holds no link.
pub fn label_from_text(text: &str) -> (r: Option<String>)
    ensures
        opt_view(r) == text_label(text@),
{
    let lines = split_lines_of(&chars_of(text));
    let mut i: usize = 0;
    assert(lines_view(lines@).take(0) =~= Seq::<Seq<char>>::empty());
    while i < lines.len()
        invariant
            i <= lines@.len(),
            lines_view(lines@) == split_lines(text@),
            first_label_line(lines_view(lines@).take(i as int)) is None,
        decreases lines.len() - i,
    {
        let t = trim_white_space(&lines[i]);
        let is_label = t.len() > 0 && text_url_of(&t).is_none();
        proof {
            let whole = lines_view(lines@);
            assert(whole.take(i + 1) =~= whole.take(i as int).push(lines@[i as int]@));
            lemma_first_label_line_push(whole.take(i as int), lines@[i as int]@);
            assert(seq![lines@[i as int]@].drop_first() =~= Seq::<Seq<char>>::empty());
            assert(first_label_line(Seq::<Seq<char>>::empty()) is None);
        }
        if is_label {
            proof {
                let whole = lines_view(lines@);
                assert(whole =~= whole.take(i + 1) + whole.skip(i + 1));
                lemma_first_label_line_concat(whole.take(i + 1), whole.skip(i + 1));
            }
            return Some(string_from_chars(t.as_slice()));
        }
        i += 1;
    }
    assert(lines_view(lines@).take(lines@.len() as int) =~= lines_view(lines@));
    None
}

// ---------------------------------------------------------------------------
// Internet shortcut files

/// The address of an Internet shortcut (`.url`, `.website`) whose text is split
/// into `lines`: on the first line that, trimmed, starts with `URL=`, the trimmed
/// rest, when that is not empty.
pub open spec fn shortcut_url_in(lines: Seq<Seq<char>>) -> Option<Seq<char>>
    decreases lines.len(),
{
    if lines.len() == 0 {
        None
    } else {
        let t = trim(lines[0]);
        if has_prefix(t, "URL="@) {
            let u = trim(t.skip(4));
            if u.len() > 0 {
                Some(u)
            } else {
                None
            }
        } else {
            shortcut_url_in(lines.drop_first())
        }
    }
}

/// The address in the text of an Internet shortcut.
pub open spec fn shortcut_url(text: Seq<char>) -> Option<Seq<char>> {
    shortcut_url_in(split_lines(text))
}

/// The address in the text of an Internet shortcut file: the value of its first
/// `URL=` line, trimmed, unless that is empty.
pub fn shortcut_url_from_text(text: &str) -> (r: Option<String>)
    ensures
        opt_view(r) == shortcut_url(text@),
{
    let lines = split_lines_of(&chars_of(text));
    let key = chars_of("URL=");
    proof {
        reveal_strlit("URL=");
    }
    let mut i: usize = 0;
    assert(lines_view(lines@).skip(0) =~= lines_view(lines@));
    while i < lines.len()
        invariant
            i <= lines@.len(),
            key@ == "URL="@,
            key@.len() == 4,
            shortcut_url(text@) == shortcut_url_in(lines_view(lines@).skip(i as int)),
        decreases lines.len() - i,
    {
        let t = trim_white_space(&lines[i]);
        proof {
            let rest = lines_view(lines@).skip(i as int);
            assert(rest.drop_first() =~= lines_view(lines@).skip(i + 1));
            assert(rest[0] == lines@[i as int]@);
        }
        if starts_with(&t, &key) {
            let value = trim_white_space(&copy_range(&t, 4, t.len()));
            assert(t@.subrange(4, t@.len() as int) =~= t@.skip(4));
            if value.len() > 0 {
                return Some(string_from_chars(value.as_slice()));
            } else {
                return None;
            }
        }
        i += 1;
    }
    None
}

// ---------------------------------------------------------------------------
// Links dragged from other programs

/// The views of a list of optional strings.
pub open spec fn opt_views(v: Seq<Option<String>>) -> Seq<Option<Seq<char>>> {
    v.map_values(|o: Option<String>| opt_view(o))
}

/// The first dragged text, in order of preference, that holds a link: the link,
/// with the title that text gives.
pub open spec fn first_candidate_url(texts: Seq<Option<Seq<char>>>) -> Option<(Seq<char>, Option<Seq<char>>)>
    decreases texts.len(),
{
    if texts.len() == 0 {
        None
    } else {
        match texts[0] {
            Some(t) => match text_url(t) {
                Some(u) => Some((u, text_label(t))),
                None => first_candidate_url(texts.drop_first()),
            },
            None => first_candidate_url(texts.drop_first()),
        }
    }
}

/// A link description, trimmed, unless it is blank.
pub open spec fn description_label(desc: Option<Seq<char>>) -> Option<Seq<char>> {
    match desc {
        Some(d) => if trim(d).len() > 0 {
            Some(trim(d))
        } else {
            None
        },
        None => None,
    }
}

/// The link and title of a drag: the link of the first text that holds one; the
/// title from the description when it is not blank, else from that same text.
pub open spec fn url_and_label(texts: Seq<Option<Seq<char>>>, desc: Option<Seq<char>>) -> (Option<Seq<char>>, Option<Seq<char>>) {
    match first_candidate_url(texts) {
        Some((u, fallback)) => (
            Some(u),
            match description_label(desc) {
                Some(l) => Some(l),
                None => fallback,
            },
        ),
        None => (None, description_label(desc)),
    }
}

/// The link and title of a drag, from the texts that the drag offers in order of
/// preference (`None` where a format was absent) and the link description.
pub fn url_and_label_from_texts(texts: &Vec<Option<String>>, description: Option<&str>) -> (r: (
    Option<String>,
    Option<String>,
))
    ensures
        (opt_view(r.0), opt_view(r.1)) == url_and_label(
            opt_views(texts@),
            match description {
                Some(d) => Some(d@),
                None => None,
            },
        ),
{
    let ghost desc = match description {
        Some(d) => Some(d@),
        None => None,
    };
    let label = match description {
        Some(d) => {
            let t = trim_white_space(&chars_of(d));
            if t.len() > 0 {
                Some(string_from_chars(t.as_slice()))
            } else {
                None
            }
        },
        None => None,
    };
    assert(opt_view(label) == description_label(desc));
    let mut i: usize = 0;
    assert(opt_views(texts@).skip(0) =~= opt_views(texts@));
    while i < texts.len()
        invariant
            i <= texts@.len(),
            first_candidate_url(opt_views(texts@)) == first_candidate_url(
                opt_views(texts@).skip(i as int),
            ),
            opt_view(label) == description_label(desc),
            desc == match description {
                Some(d) => Some(d@),
                None => None,
            },
        decreases texts.len() - i,
    {
        proof {
            let rest = opt_views(texts@).skip(i as int);
            assert(rest.drop_first() =~= opt_views(texts@).skip(i + 1));
            assert(rest[0] == opt_view(texts@[i as int]));
        }
        match &texts[i] {
            Some(t) => {
                match first_url_from_text(t.as_str()) {
                    Some(u) => {
                        let fallback = label_from_text(t.as_str());
                        let chosen = match label {
                            Some(l) => Some(l),
                            None => fallback,
                        };
                        return (Some(u), chosen);
                    },
                    None => {},
                }
            },
            None => {},
        }
        i += 1;
    }
    (None, label)
}

proof fn lemma_first_line_url_is_web_url(lines: Seq<Seq<char>>)
    ensures
        first_line_url(lines) matches Some(u) ==> web_url(u) == Some(u),
    decreases lines.len(),
{
    if lines.len() > 0 {
        let t = trim(lines[0]);
        if t.len() > 0 {
            crate::urls::lemma_web_url_idempotent(trim_in(t, CharClass::AngleBracket));
        }
        lemma_first_line_url_is_web_url(lines.drop_first());
    }
}

/// The link found in dragged text is a web link as `normalize_web_url` gives
/// it: recognising it again leaves it unchanged.
pub proof fn lemma_text_url_is_web_url(text: Seq<char>)
    ensures
        text_url(text) matches Some(u) ==> web_url(u) == Some(u),
{
    lemma_first_line_url_is_web_url(split_lines(text));
    match find(text, "https://"@) {
        Some(i) => {
            let rest = text.skip(i);
            crate::urls::lemma_web_url_idempotent(rest.take(url_end_from(rest, 0)));
        },
        None => match find(text, "http://"@) {
            Some(i) => {
                let rest = text.skip(i);
                crate::urls::lemma_web_url_idempotent(rest.take(url_end_from(rest, 0)));
            },
            None => {},
        },
    }
}

proof fn lemma_first_label_line_props(lines: Seq<Seq<char>>)
    ensures
        first_label_line(lines) matches Some(l) ==> l.len() > 0 && trim(l) == l && text_url(l) is None,
    decreases lines.len(),
{
    if lines.len() > 0 {
        crate::text::lemma_trim_idempotent(lines[0], CharClass::WhiteSpace);
        lemma_first_label_line_props(lines.drop_first());
    }
}

/// The title found in dragged text is a non-blank trimmed line that holds no link.
pub proof fn lemma_text_label_is_plain(text: Seq<char>)
    ensures
        text_label(text) matches Some(l) ==> l.len() > 0 && trim(l) == l && text_url(l) is None,
{
    lemma_first_label_line_props(split_lines(text));
}

proof fn lemma_shortcut_url_in_plain(lines: Seq<Seq<char>>)
    ensures
        shortcut_url_in(lines) matches Some(u) ==> u.len() > 0 && trim(u) == u,
    decreases lines.len(),
{
    if lines.len() > 0 {
        let t = trim(lines[0]);
        if has_prefix(t, "URL="@) {
            crate::text::lemma_trim_idempotent(t.skip(4), CharClass::WhiteSpace);
        } else {
            lemma_shortcut_url_in_plain(lines.drop_first());
        }
    }
}

/// The address read from an Internet shortcut is never blank and has no white
/// space at either end.
pub proof fn lemma_shortcut_url_is_trimmed(text: Seq<char>)
    ensures
        shortcut_url(text) matches Some(u) ==> u.len() > 0 && trim(u) == u,
{
    lemma_shortcut_url_in_plain(split_lines(text));
}

/// Up to where a link ends, no character ends a link.
proof fn lemma_url_end_from(s: Seq<char>, i: int)
    requires
        0 <= i <= s.len(),
    ensures
        i <= url_end_from(s, i) <= s.len(),
        forall|j: int| i <= j < url_end_from(s, i) ==> !ends_url(s[j]),
    decreases s.len() - i,
{
    if i < s.len() && !ends_url(s[i]) {
        lemma_url_end_from(s, i + 1);
    }
}

/// What trimming the start leaves is the text from some index on.
spec fn trim_start_in_len_ok(s: Seq<char>, k: CharClass) -> bool {
    let t = crate::text::trim_start_in(s, k);
    t.len() <= s.len() && t == s.skip(s.len() - t.len())
}

/// Trimming the start drops a prefix.
proof fn lemma_trim_start_is_suffix(s: Seq<char>, k: CharClass)
    ensures
        trim_start_in_len_ok(s, k),
    decreases s.len(),
{
    if s.len() > 0 && crate::text::in_class(k, s[0]) {
        lemma_trim_start_is_suffix(s.drop_first(), k);
        assert(s.drop_first().skip(s.drop_first().len() - crate::text::trim_start_in(s.drop_first(), k).len())
            =~= s.skip(s.len() - crate::text::trim_start_in(s, k).len()));
    } else {
        assert(s.skip(0) =~= s);
    }
}

/// A link found inside other text stops before the first character that ends a
/// link: it holds no white space and none of `<`, `>`, `"`, `'`.
pub proof fn lemma_embedded_url_has_no_link_end(text: Seq<char>)
    ensures
        embedded_url(text) matches Some(u) ==> forall|j: int|
            0 <= j < u.len() ==> !is_white_space(u[j]) && u[j] != '<' && u[j] != '>' && u[j] != '"'
                && u[j] != '\'',
{
    let start = match find(text, "https://"@) {
        Some(i) => Some(i),
        None => find(text, "http://"@),
    };
    if let Some(st) = start {
        crate::text::lemma_find_bounds(text, "https://"@);
        crate::text::lemma_find_bounds(text, "http://"@);
        let rest = text.skip(st);
        lemma_url_end_from(rest, 0);
        let e = url_end_from(rest, 0);
        let c = rest.take(e);
        lemma_trim_start_is_suffix(c, CharClass::WhiteSpace);
        crate::text::lemma_trim_end_prefix(crate::text::trim_start_in(c, CharClass::WhiteSpace), CharClass::WhiteSpace);
        let ts = crate::text::trim_start_in(c, CharClass::WhiteSpace);
        let m = c.len() - ts.len();
        let u = trim(c);
        assert forall|j: int| 0 <= j < u.len() implies !ends_url(u[j]) by {
            assert(u[j] == ts[j]);
            assert(ts[j] == c[j + m]);
            assert(c[j + m] == rest[j + m]);
        }
    }
}

} // verus!
