//! Dropped files: names, extensions and the icons shown for them.
use vstd::prelude::*;

use crate::text::{chars_of, copy_range, eq_chars, string_from_chars, trim, trim_white_space};

verus! {

/// The last index of `c` in `s`.
pub open spec fn rfind_char(s: Seq<char>, c: char) -> Option<int>
    decreases s.len(),
{
    if s.len() == 0 {
        None
    } else if s.last() == c {
        Some(s.len() - 1)
    } else {
        rfind_char(s.drop_last(), c)
    }
}

/// Where a file name splits into stem and extension: at its last `.`, unless the
/// name is `..`, has no `.`, or has its only `.` in front (`Path::file_stem`, `Path::extension`).
pub open spec fn extension_dot(name: Seq<char>) -> Option<int> {
    if name == ".."@ {
        None
    } else {
        match rfind_char(name, '.') {
            Some(i) => if i > 0 {
                Some(i)
            } else {
                None
            },
            None => None,
        }
    }
}

/// The stem of a file name: the part before the extension's dot, or the whole name.
pub open spec fn file_stem_of(name: Seq<char>) -> Seq<char> {
    match extension_dot(name) {
        Some(i) => name.take(i),
        None => name,
    }
}

/// The extension of a file name: the part after its last dot, if it has one.
pub open spec fn extension_of(name: Seq<char>) -> Option<Seq<char>> {
    match extension_dot(name) {
        Some(i) => Some(name.skip(i + 1)),
        None => None,
    }
}

/// The label of a dropped file with file name `name`: the stem when it is not
/// blank, else the whole name, else `Dropped Item`.
pub open spec fn label_of_file_name(name: Option<Seq<char>>) -> Seq<char> {
    match name {
        Some(n) => if trim(file_stem_of(n)).len() > 0 {
            file_stem_of(n)
        } else {
            n
        },
        None => "Dropped Item"@,
    }
}

/// The lower-case form of a text, as `str::to_lowercase` gives it.
pub uninterp spec fn lowercase(s: Seq<char>) -> Seq<char>;

/// Whether every character of a text is ASCII.
pub open spec fn is_ascii_text(s: Seq<char>) -> bool {
    forall|i: int| 0 <= i < s.len() ==> (s[i] as int) < 128
}

/// The lower-case form of an ASCII character: `A`-`Z` become `a`-`z`, the rest stay.
pub open spec fn ascii_lower(c: char) -> char {
    if 65 <= (c as int) <= 90 {
        ((c as int) + 32) as char
    } else {
        c
    }
}

/// A text with each character in its ASCII lower-case form.
pub open spec fn ascii_lower_text(s: Seq<char>) -> Seq<char> {
    Seq::new(s.len(), |i: int| ascii_lower(s[i]))
}

/// The lower-case form of a text: spelled out for ASCII text, the Unicode mapping otherwise.
pub open spec fn lower_text(s: Seq<char>) -> Seq<char> {
    if is_ascii_text(s) {
        ascii_lower_text(s)
    } else {
        lowercase(s)
    }
}

/// The lower-case extension of a file with file name `name` (empty when it has none).
pub open spec fn lower_extension_of(name: Option<Seq<char>>) -> Seq<char> {
    match name {
        Some(n) => match extension_of(n) {
            Some(e) => lower_text(e),
            None => Seq::empty(),
        },
        None => Seq::empty(),
    }
}

/// The lower-case extensions of the sound files that buttons can play.
pub open spec fn is_audio_extension(e: Seq<char>) -> bool {
    ||| e == "mp3"@
    ||| e == "wav"@
    ||| e == "ogg"@
    ||| e == "m4a"@
    ||| e == "flac"@
    ||| e == "aac"@
}

/// The icon shown for a file when the shell gives none.
pub open spec fn fallback_icon(is_dir: bool, is_audio: bool) -> Seq<char> {
    if is_dir {
        "\u{1F4C1}"@
    } else if is_audio {
        "\u{1F50A}"@
    } else {
        "\u{1F3AE}"@
    }
}

/// Whether `c` separates the components of a path: `/` everywhere, a backslash on Windows too.
pub open spec fn is_separator(windows: bool, c: char) -> bool {
    c == '/' || (windows && c == '\\')
}

/// The index of the last separator in `s`.
pub open spec fn last_separator(s: Seq<char>, windows: bool) -> Option<int>
    decreases s.len(),
{
    if s.len() == 0 {
        None
    } else if is_separator(windows, s.last()) {
        Some(s.len() - 1)
    } else {
        last_separator(s.drop_last(), windows)
    }
}

/// The index of the first separator in `s`.
pub open spec fn first_separator(s: Seq<char>, windows: bool) -> Option<int>
    decreases s.len(),
{
    if s.len() == 0 {
        None
    } else if is_separator(windows, s[0]) {
        Some(0)
    } else {
        match first_separator(s.drop_first(), windows) {
            Some(i) => Some(i + 1),
            None => None,
        }
    }
}

/// The last separator lies inside the text.
pub proof fn lemma_last_separator_bounds(s: Seq<char>, windows: bool)
    ensures
        last_separator(s, windows) matches Some(i) ==> 0 <= i < s.len() && is_separator(windows, s[i]),
    decreases s.len(),
{
    if s.len() > 0 && !is_separator(windows, s.last()) {
        lemma_last_separator_bounds(s.drop_last(), windows);
    }
}

/// The final component of a path without a prefix, as `Path::components` reads it: parts
/// between separators, where empty parts and `.` parts are skipped; the last part left is
/// the file name, unless it is `..` or none is left.
pub open spec fn last_component(s: Seq<char>, windows: bool) -> Option<Seq<char>>
    decreases s.len(),
{
    match last_separator(s, windows) {
        Some(i) => {
            let part = s.skip(i + 1);
            if part.len() == 0 || part == "."@ {
                proof {
                    lemma_last_separator_bounds(s, windows);
                }
                last_component(s.take(i), windows)
            } else if part == ".."@ {
                None
            } else {
                Some(part)
            }
        },
        None => if s.len() == 0 || s == "."@ || s == ".."@ {
            None
        } else {
            Some(s)
        },
    }
}

/// The file name of a path on Unix: its final component, with `/` alone separating.
pub open spec fn unix_file_name(path: Seq<char>) -> Option<Seq<char>> {
    last_component(path, false)
}

/// Whether a path starts with two separators and `?` or `.`: a verbatim or device path
/// on Windows, whose rules are not spelled out here.
pub open spec fn is_verbatim_or_device(path: Seq<char>) -> bool {
    &&& path.len() >= 3
    &&& is_separator(true, path[0])
    &&& is_separator(true, path[1])
    &&& (path[2] == '?' || path[2] == '.')
}

/// Whether `c` is an ASCII letter, as a drive letter is.
pub open spec fn is_ascii_letter(c: char) -> bool {
    (65 <= (c as int) <= 90) || (97 <= (c as int) <= 122)
}

/// The length of a Windows path's prefix: a network share `\\server\share` (two
/// separators, then two non-empty parts), a drive `C:`, or none.
pub open spec fn windows_prefix_len(path: Seq<char>) -> int {
    if path.len() >= 2 && is_separator(true, path[0]) && is_separator(true, path[1]) {
        let rest = path.skip(2);
        match first_separator(rest, true) {
            Some(j) => {
                let after = rest.skip(j + 1);
                let share = match first_separator(after, true) {
                    Some(k) => k,
                    None => after.len() as int,
                };
                if j > 0 && share > 0 {
                    2 + j + 1 + share
                } else {
                    0
                }
            },
            None => 0,
        }
    } else if path.len() >= 2 && is_ascii_letter(path[0]) && path[1] == ':' {
        2
    } else {
        0
    }
}

/// The file name of a path on Windows: the final component of what follows its prefix,
/// with `/` and backslash both separating.
pub open spec fn windows_file_name(path: Seq<char>) -> Option<Seq<char>> {
    last_component(path.skip(windows_prefix_len(path)), true)
}

/// Whether `name` can be what `Path::file_name` gives for `path` on the platform that runs:
/// a name is never empty, and (but for verbatim and device paths) it is the Unix reading
/// or the Windows reading of the path.
pub open spec fn is_file_name_of(path: Seq<char>, name: Option<Seq<char>>) -> bool {
    &&& (name matches Some(n) ==> n.len() > 0)
    &&& (!is_verbatim_or_device(path) ==> name == unix_file_name(path) || name
        == windows_file_name(path))
}

/// The final component of a path, as `Path::file_name` gives it (converted to UTF-8 text,
/// which it always is for a path made from a `&str`). Which reading applies depends on
/// the platform that runs, so both are allowed; the rules of Windows verbatim (`\\?\`) and
/// device (`\\.\`) paths are left unsaid, except that a file name is never empty.
#[verifier::external_body]
pub(crate) fn path_file_name(path: &str) -> (r: Option<String>)
    ensures
        is_file_name_of(path@, crate::urls::opt_view(r)),
{
    std::path::Path::new(path).file_name().and_then(|n| n.to_str()).map(|n| n.to_string())
}

/// The lower-case form of a text (`str::to_lowercase`). Its documentation defines it by
/// Unicode's lower-case mapping, which on ASCII text turns `A`-`Z` into `a`-`z`, keeps
/// every other character and so keeps the length; beyond ASCII only the name is stated.
#[verifier::external_body]
fn to_lowercase(s: &str) -> (r: String)
    ensures
        r@ == lowercase(s@),
        is_ascii_text(s@) ==> r@ == ascii_lower_text(s@),
{
    s.to_lowercase()
}

/// The last index of `c` in `s`.
fn rfind_char_in(s: &Vec<char>, c: char) -> (r: Option<usize>)
    ensures
        match r {
            Some(i) => i < s@.len() && rfind_char(s@, c) == Some(i as int),
            None => rfind_char(s@, c) is None,
        },
{
    let mut j: usize = s.len();
    assert(s@.take(j as int) =~= s@);
    while j > 0
        invariant
            j <= s@.len(),
            rfind_char(s@, c) == rfind_char(s@.take(j as int), c),
        decreases j,
    {
        assert(s@.take(j as int).drop_last() =~= s@.take(j - 1));
        if s[j - 1] == c {
            return Some(j - 1);
        }
        j -= 1;
    }
    None
}

/// The dot that separates stem and extension in a file name.
fn extension_dot_in(name: &Vec<char>) -> (r: Option<usize>)
    ensures
        match r {
            Some(i) => 0 < i < name@.len() && extension_dot(name@) == Some(i as int),
            None => extension_dot(name@) is None,
        },
{
    let dots = chars_of("..");
    if eq_chars(name, &dots) {
        return None;
    }
    match rfind_char_in(name, '.') {
        Some(i) => if i > 0 {
            Some(i)
        } else {
            None
        },
        None => None,
    }
}

/// The stem of a file name (`Path::file_stem` applied to the name).
pub fn file_stem_of_name(name: &str) -> (r: String)
    ensures
        r@ == file_stem_of(name@),
{
    let n = chars_of(name);
    match extension_dot_in(&n) {
        Some(i) => {
            let s = copy_range(&n, 0, i);
            assert(s@ =~= n@.take(i as int));
            string_from_chars(s.as_slice())
        },
        None => string_from_chars(n.as_slice()),
    }
}

/// The extension of a file name (`Path::extension` applied to the name).
pub fn extension_of_name(name: &str) -> (r: Option<String>)
    ensures
        match r {
            Some(e) => extension_of(name@) == Some(e@),
            None => extension_of(name@) is None,
        },
{
    let n = chars_of(name);
    let dot = extension_dot_in(&n);
    match dot {
        Some(i) => {
            assert(i < n.len());
            let e = copy_range(&n, i + 1, n.len());
            assert(e@ =~= n@.skip(i + 1));
            Some(string_from_chars(e.as_slice()))
        },
        None => None,
    }
}

/// The label of a dropped file whose path has the file name `name`.
pub fn label_from_file_name(name: Option<&str>) -> (r: String)
    ensures
        r@ == label_of_file_name(
            match name {
                Some(n) => Some(n@),
                None => None,
            },
        ),
{
    match name {
        Some(n) => {
            let stem = file_stem_of_name(n);
            if trim_white_space(&chars_of(stem.as_str())).len() > 0 {
                stem
            } else {
                string_from_chars(chars_of(n).as_slice())
            }
        },
        None => string_from_chars(chars_of("Dropped Item").as_slice()),
    }
}

/// The lower-case extension of a file whose path has the file name `name`.
pub fn extension_from_file_name(name: Option<&str>) -> (r: String)
    ensures
        r@ == lower_extension_of(
            match name {
                Some(n) => Some(n@),
                None => None,
            },
        ),
{
    proof {
        reveal_strlit("");
        assert(""@ =~= Seq::<char>::empty());
    }
    match name {
        Some(n) => {
            let ext = extension_of_name(n);
            match ext {
                Some(e) => {
                    let r = to_lowercase(e.as_str());
                    assert(extension_of(n@) == Some(e@));
                    r
                },
                None => to_lowercase(""),
            }
        },
        None => to_lowercase(""),
    }
}

/// Whether a lower-case extension is one of a playable sound file.
pub fn is_audio_extension_text(e: &str) -> (r: bool)
    ensures
        r == is_audio_extension(e@),
{
    let v = chars_of(e);
    eq_chars(&v, &chars_of("mp3")) || eq_chars(&v, &chars_of("wav")) || eq_chars(
        &v,
        &chars_of("ogg"),
    ) || eq_chars(&v, &chars_of("m4a")) || eq_chars(&v, &chars_of("flac")) || eq_chars(
        &v,
        &chars_of("aac"),
    )
}

/// Whether a lower-case extension is that of a program (`exe`).
pub fn is_application_extension(e: &str) -> (r: bool)
    ensures
        r == (e@ == "exe"@),
{
    eq_chars(&chars_of(e), &chars_of("exe"))
}

/// The icon shown for a file when the shell gives none: a folder, a speaker for
/// sound files, a game controller for anything else.
pub fn fallback_icon_text(is_dir: bool, is_audio: bool) -> (r: String)
    ensures
        r@ == fallback_icon(is_dir, is_audio),
{
    if is_dir {
        string_from_chars(chars_of("\u{1F4C1}").as_slice())
    } else if is_audio {
        string_from_chars(chars_of("\u{1F50A}").as_slice())
    } else {
        string_from_chars(chars_of("\u{1F3AE}").as_slice())
    }
}

/// The label of a dropped file: its stem when not blank, else its file name,
/// else `Dropped Item`. It is never empty.
pub fn file_label(path: &str) -> (r: String)
    ensures
        exists|name: Option<Seq<char>>| is_file_name_of(path@, name) && r@ == label_of_file_name(name),
        r@.len() > 0,
{
    let name = path_file_name(path);
    proof {
        lemma_label_nonempty(crate::urls::opt_view(name));
    }
    match name {
        Some(n) => label_from_file_name(Some(n.as_str())),
        None => label_from_file_name(None),
    }
}

/// The lower-case extension of a path, empty when it has none.
pub fn file_extension(path: &str) -> (r: String)
    ensures
        exists|name: Option<Seq<char>>| is_file_name_of(path@, name) && r@ == lower_extension_of(name),
{
    let name = path_file_name(path);
    match name {
        Some(n) => extension_from_file_name(Some(n.as_str())),
        None => extension_from_file_name(None),
    }
}

/// Whether a path names a sound file (`mp3`, `wav`, `ogg`, `m4a`, `flac`, `aac`).
pub fn is_audio_file(path: &str) -> (r: bool)
    ensures
        exists|name: Option<Seq<char>>|
            is_file_name_of(path@, name) && r == is_audio_extension(lower_extension_of(name)),
{
    let e = file_extension(path);
    is_audio_extension_text(e.as_str())
}

/// Whether a path names a program that a button can launch (`exe`).
pub fn is_supported_application(path: &str) -> (r: bool)
    ensures
        exists|name: Option<Seq<char>>|
            is_file_name_of(path@, name) && r == (lower_extension_of(name) == "exe"@),
{
    let e = file_extension(path);
    is_application_extension(e.as_str())
}

/// The icon shown for a path when the shell gives none; `is_dir` tells whether
/// the path is a directory.
pub fn fallback_icon_for_path(path: &str, is_dir: bool) -> (r: String)
    ensures
        is_dir ==> r@ == fallback_icon(true, false),
        !is_dir ==> exists|name: Option<Seq<char>>|
            is_file_name_of(path@, name) && r@ == fallback_icon(false, is_audio_extension(lower_extension_of(name))),
{
    if is_dir {
        fallback_icon_text(true, false)
    } else {
        let audio = is_audio_file(path);
        fallback_icon_text(false, audio)
    }
}

/// The label of a file is never empty: a file name is never empty, and
/// without one the label is `Dropped Item`.
pub proof fn lemma_label_nonempty(name: Option<Seq<char>>)
    requires
        name matches Some(n) ==> n.len() > 0,
    ensures
        label_of_file_name(name).len() > 0,
{
    reveal_strlit("Dropped Item");
    if let Some(n) = name {
        crate::text::lemma_trim_shorter(file_stem_of(n), crate::text::CharClass::WhiteSpace);
    }
}

/// Without backslashes, `/` alone separates on every platform.
proof fn lemma_last_separator_no_backslash(s: Seq<char>)
    requires
        forall|i: int| 0 <= i < s.len() ==> s[i] != '\\',
    ensures
        last_separator(s, true) == last_separator(s, false),
    decreases s.len(),
{
    if s.len() > 0 {
        lemma_last_separator_no_backslash(s.drop_last());
    }
}

/// Without backslashes, both platforms find the same final component.
proof fn lemma_last_component_no_backslash(s: Seq<char>)
    requires
        forall|i: int| 0 <= i < s.len() ==> s[i] != '\\',
    ensures
        last_component(s, true) == last_component(s, false),
    decreases s.len(),
{
    lemma_last_separator_no_backslash(s);
    lemma_last_separator_bounds(s, false);
    if let Some(i) = last_separator(s, false) {
        lemma_last_component_no_backslash(s.take(i));
    }
}

/// A path without a backslash, without a drive (`:` as its second character) and not
/// starting with `//` has the same file name on every platform, and that is the
/// only name `path_file_name` can give for it.
pub proof fn lemma_plain_path_file_name(path: Seq<char>, name: Option<Seq<char>>)
    requires
        forall|i: int| 0 <= i < path.len() ==> path[i] != '\\',
        !(path.len() >= 2 && path[1] == ':'),
        !(path.len() >= 2 && path[0] == '/' && path[1] == '/'),
        is_file_name_of(path, name),
    ensures
        windows_file_name(path) == unix_file_name(path),
        name == unix_file_name(path),
{
    assert(windows_prefix_len(path) == 0);
    assert(path.skip(0) =~= path);
    lemma_last_component_no_backslash(path);
}

/// No character after the last `c` is `c`.
proof fn lemma_rfind_char_last(s: Seq<char>, c: char)
    ensures
        rfind_char(s, c) matches Some(i) ==> 0 <= i < s.len() && s[i] == c && forall|j: int|
            i < j < s.len() ==> s[j] != c,
        rfind_char(s, c) is None ==> forall|j: int| 0 <= j < s.len() ==> s[j] != c,
    decreases s.len(),
{
    if s.len() > 0 {
        lemma_rfind_char_last(s.drop_last(), c);
        if s.last() != c {
            assert forall|j: int| 0 <= j < s.len() - 1 implies s[j] == s.drop_last()[j] by {}
        }
    }
}

/// An extension holds no dot; when it is ASCII, its lower-case form holds no dot
/// either and is its own lower-case form.
pub proof fn lemma_extension_lower_case(name: Option<Seq<char>>)
    ensures
        name matches Some(n) ==> (extension_of(n) matches Some(e) ==> !e.contains('.')),
        (name matches Some(n) && extension_of(n) matches Some(e) && is_ascii_text(e)) || lower_extension_of(name).len() == 0 ==> {
            &&& !lower_extension_of(name).contains('.')
            &&& ascii_lower_text(lower_extension_of(name)) == lower_extension_of(name)
        },
{
    if let Some(n) = name {
        lemma_rfind_char_last(n, '.');
        if let Some(e) = extension_of(n) {
            let i = extension_dot(n).unwrap();
            assert forall|j: int| 0 <= j < e.len() implies e[j] != '.' by {
                assert(e[j] == n[i + 1 + j]);
            }
            if is_ascii_text(e) {
                let l = lower_extension_of(name);
                assert forall|j: int| 0 <= j < l.len() implies l[j] != '.' by {
                    assert(l[j] == ascii_lower(e[j]));
                }
                assert forall|j: int| 0 <= j < l.len() implies ascii_lower(l[j]) == l[j] by {
                    assert(l[j] == ascii_lower(e[j]));
                }
                assert(ascii_lower_text(l) =~= l);
            }
        }
    }
    if lower_extension_of(name).len() == 0 {
        assert(ascii_lower_text(lower_extension_of(name)) =~= lower_extension_of(name));
    }
}

/// A program is never a sound file: `exe` is not a sound extension.
pub proof fn lemma_program_is_not_sound(e: Seq<char>)
    ensures
        e == "exe"@ ==> !is_audio_extension(e),
{
    reveal_strlit("exe");
    reveal_strlit("mp3");
    reveal_strlit("wav");
    reveal_strlit("ogg");
    reveal_strlit("m4a");
    reveal_strlit("flac");
    reveal_strlit("aac");
    if e == "exe"@ {
        assert(e[0] != "mp3"@[0]);
        assert(e[0] != "wav"@[0]);
        assert(e[0] != "ogg"@[0]);
        assert(e[0] != "m4a"@[0]);
        assert(e.len() != "flac"@.len());
        assert(e[0] != "aac"@[0]);
    }
}

} // verus!
