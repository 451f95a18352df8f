//! What the installer decides from its arguments, the registry, the release
//! metadata and the programs it runs.
use vstd::prelude::*;

use crate::text::{
    append_chars, chars_of, copy_range, eq_chars, find, find_chars, has_prefix, owned,
    string_from_chars, trim, trim_chars, trim_in, trim_white_space, CharClass, same_text,
};
use crate::urls::opt_view;

verus! {

// ---------------------------------------------------------------------------
// Launch arguments

/// How the installer was asked to run.
#[derive(Debug)]
pub enum LaunchRequest {
    /// Install (no uninstall flag).
    Install,
    /// Uninstall with the given uninstaller (or the default one). With `relaunch`,
    /// first copy the installer to a temporary folder and run it from there.
    Uninstall { uninstall_path: Option<String>, relaunch: bool },
}

/// The content of a [`LaunchRequest`].
pub enum LaunchModel {
    Install,
    Uninstall(Option<Seq<char>>, bool),
}

impl View for LaunchRequest {
    type V = LaunchModel;

    open spec fn view(&self) -> LaunchModel {
        match self {
            LaunchRequest::Install => LaunchModel::Install,
            LaunchRequest::Uninstall { uninstall_path, relaunch } => LaunchModel::Uninstall(
                opt_view(*uninstall_path),
                *relaunch,
            ),
        }
    }
}

/// Whether an argument asks for uninstalling.
pub open spec fn is_uninstall_flag(a: Seq<char>) -> bool {
    a == "--uninstall"@ || a == "--uninstall-temp"@
}

/// The index of the first uninstall flag at or after `i`.
pub open spec fn first_flag_from(args: Seq<Seq<char>>, i: int) -> Option<int>
    decreases args.len() - i,
{
    if i < 0 || i >= args.len() {
        None
    } else if is_uninstall_flag(args[i]) {
        Some(i)
    } else {
        first_flag_from(args, i + 1)
    }
}

/// How the arguments (after the program name) ask the installer to run: the
/// first uninstall flag decides, with the argument after it as the uninstaller.
pub open spec fn launch_request(args: Seq<Seq<char>>) -> LaunchModel {
    match first_flag_from(args, 0) {
        Some(i) => LaunchModel::Uninstall(
            if i + 1 < args.len() {
                Some(args[i + 1])
            } else {
                None
            },
            args[i] == "--uninstall"@,
        ),
        None => LaunchModel::Install,
    }
}

/// How the arguments (after the program name) ask the installer to run.
pub fn resolve_launch_request(args: &Vec<String>) -> (r: LaunchRequest)
    ensures
        r@ == launch_request(args.deep_view()),
{
    let mut i: usize = 0;
    while i < args.len()
        invariant
            i <= args@.len(),
            first_flag_from(args.deep_view(), 0) == first_flag_from(args.deep_view(), i as int),
        decreases args.len() - i,
    {
        let relaunch = same_text(args[i].as_str(), "--uninstall");
        let temp = same_text(args[i].as_str(), "--uninstall-temp");
        if relaunch || temp {
            let uninstall_path = if i + 1 < args.len() {
                Some(args[i + 1].clone())
            } else {
                None
            };
            return LaunchRequest::Uninstall { uninstall_path, relaunch };
        }
        i += 1;
    }
    LaunchRequest::Install
}

// ---------------------------------------------------------------------------
// Install location from the registry

/// A registry value as an install location: trimmed, without surrounding
/// quotes, unless nothing is left.
pub open spec fn registry_path(value: Seq<char>) -> Option<Seq<char>> {
    let t = trim_in(trim(value), CharClass::DoubleQuote);
    if t.len() == 0 {
        None
    } else {
        Some(t)
    }
}

/// A registry value as an install location: trimmed and unquoted, unless empty.
pub fn clean_registry_path(value: &str) -> (r: Option<String>)
    ensures
        opt_view(r) == registry_path(value@),
{
    let t = trim_chars(&trim_white_space(&chars_of(value)), CharClass::DoubleQuote);
    if t.len() == 0 {
        None
    } else {
        Some(string_from_chars(t.as_slice()))
    }
}

/// The install location from the first registry value, in order, that gives one.
pub open spec fn first_registry_path(values: Seq<Option<Seq<char>>>) -> Option<Seq<char>>
    decreases values.len(),
{
    if values.len() == 0 {
        None
    } else {
        match values[0] {
            Some(v) => match registry_path(v) {
                Some(p) => Some(p),
                None => first_registry_path(values.drop_first()),
            },
            None => first_registry_path(values.drop_first()),
        }
    }
}

/// The install location from registry values read in order of preference
/// (`None` where a key or value is missing).
pub fn installed_path_from_values(values: &Vec<Option<String>>) -> (r: Option<String>)
    ensures
        opt_view(r) == first_registry_path(values@.map_values(|o: Option<String>| opt_view(o))),
{
    let ghost vs = values@.map_values(|o: Option<String>| opt_view(o));
    let mut i: usize = 0;
    assert(vs.skip(0) =~= vs);
    while i < values.len()
        invariant
            i <= values@.len(),
            vs == values@.map_values(|o: Option<String>| opt_view(o)),
            first_registry_path(vs) == first_registry_path(vs.skip(i as int)),
        decreases values.len() - i,
    {
        proof {
            assert(vs.skip(i as int).drop_first() =~= vs.skip(i + 1));
            assert(vs.skip(i as int)[0] == opt_view(values@[i as int]));
        }
        match &values[i] {
            Some(v) => match clean_registry_path(v.as_str()) {
                Some(p) => return Some(p),
                None => {},
            },
            None => {},
        }
        i += 1;
    }
    None
}

// ---------------------------------------------------------------------------
// Release metadata

/// The value of the string member `key` in JSON text, found by text search: the
/// characters between the first two `"` after the first `"key"`.
pub open spec fn json_string_member(source: Seq<char>, key: Seq<char>) -> Option<Seq<char>> {
    let needle = seq!['"'] + key + seq!['"'];
    match find(source, needle) {
        Some(start) => {
            let after = start + needle.len();
            match find(source.skip(after), seq!['"']) {
                Some(q) => {
                    let value_start = after + q + 1;
                    match find(source.skip(value_start), seq!['"']) {
                        Some(e) => Some(source.subrange(value_start, value_start + e)),
                        None => None,
                    }
                },
                None => None,
            }
        },
        None => None,
    }
}

/// The value of the string member `key` in JSON text, found by text search.
pub fn parse_json_string(source: &str, key: &str) -> (r: Option<String>)
    ensures
        opt_view(r) == json_string_member(source@, key@),
{
    let s = chars_of(source);
    let mut quote: Vec<char> = Vec::new();
    quote.push('"');
    let mut needle = quote.clone();
    append_chars(&mut needle, &chars_of(key));
    append_chars(&mut needle, &quote);
    assert(quote@ =~= seq!['"']);
    let n = s.len();
    let nl = needle.len();
    let found = find_chars(&s, &needle);
    let start = match found {
        Some(i) => i,
        None => return None,
    };
    assert(start + nl <= n);
    let after = start + nl;
    let tail = copy_range(&s, after, s.len());
    assert(tail@ =~= s@.skip(after as int));
    let found_q = find_chars(&tail, &quote);
    let q = match found_q {
        Some(q) => q,
        None => return None,
    };
    assert(q + 1 <= tail.len());
    let value_start = after + q + 1;
    let rest = copy_range(&s, value_start, s.len());
    assert(rest@ =~= s@.skip(value_start as int));
    let found_e = find_chars(&rest, &quote);
    let e = match found_e {
        Some(e) => e,
        None => return None,
    };
    assert(e + 1 <= rest.len());
    let value = copy_range(&s, value_start, value_start + e);
    Some(string_from_chars(value.as_slice()))
}

/// Where releases are published.
pub open spec fn release_base() -> Seq<char> {
    "https://github.com/Antonis-ge0/Stream-Pad/releases"@
}

/// The file name of the setup program of a release.
pub open spec fn setup_file_name(version: Seq<char>) -> Seq<char> {
    "Stream.Pad_"@ + version + "_x64-setup.exe"@
}

/// The download address of the setup program of a release.
pub open spec fn setup_download_url(version: Seq<char>) -> Seq<char> {
    release_base() + "/download/"@ + "v"@ + version + "/"@ + setup_file_name(version)
}

/// The release to install: the `version` in the release metadata, else the
/// installer's own version.
pub open spec fn release_version(metadata: Seq<char>, own_version: Seq<char>) -> Seq<char> {
    match json_string_member(metadata, "version"@) {
        Some(v) => v,
        None => own_version,
    }
}

/// The version to install, from the release metadata.
pub fn release_version_of(metadata: &str, own_version: &str) -> (r: String)
    ensures
        r@ == release_version(metadata@, own_version@),
{
    match parse_json_string(metadata, "version") {
        Some(v) => v,
        None => owned(own_version),
    }
}

/// The file name of the setup program of a release.
pub fn setup_file_name_of(version: &str) -> (r: String)
    ensures
        r@ == setup_file_name(version@),
{
    crate::text::concat3("Stream.Pad_", version, "_x64-setup.exe")
}

/// The download address of the setup program of a release.
pub fn setup_download_url_of(version: &str) -> (r: String)
    ensures
        r@ == setup_download_url(version@),
{
    let mut v = chars_of("https://github.com/Antonis-ge0/Stream-Pad/releases");
    append_chars(&mut v, &chars_of("/download/"));
    append_chars(&mut v, &chars_of("v"));
    append_chars(&mut v, &chars_of(version));
    append_chars(&mut v, &chars_of("/"));
    let name = setup_file_name_of(version);
    append_chars(&mut v, &chars_of(name.as_str()));
    string_from_chars(v.as_slice())
}

/// Whether a file beside the installer is a setup program it can run instead of downloading.
pub open spec fn is_companion_setup(name: Seq<char>) -> bool {
    has_prefix(name, "Stream.Pad_"@) && has_suffix(name, "_x64-setup.exe"@)
}

/// `p` is a suffix of `s`.
pub open spec fn has_suffix(s: Seq<char>, p: Seq<char>) -> bool {
    p.len() <= s.len() && s.skip(s.len() - p.len()) == p
}

/// Whether a file name is that of a setup program (`Stream.Pad_*_x64-setup.exe`).
pub fn is_companion_setup_name(name: &str) -> (r: bool)
    ensures
        r == is_companion_setup(name@),
{
    let n = chars_of(name);
    let prefix = chars_of("Stream.Pad_");
    let suffix = chars_of("_x64-setup.exe");
    if !crate::text::starts_with(&n, &prefix) {
        return false;
    }
    if suffix.len() > n.len() {
        return false;
    }
    let tail = copy_range(&n, n.len() - suffix.len(), n.len());
    assert(tail@ =~= n@.skip(n@.len() - suffix@.len()));
    eq_chars(&tail, &suffix)
}

/// The first setup program among the names of the files beside the installer
/// (`None` where a name is not text).
pub open spec fn first_companion_from(names: Seq<Option<Seq<char>>>, i: int) -> Option<int>
    decreases names.len() - i,
{
    if i < 0 || i >= names.len() {
        None
    } else if names[i] matches Some(n) && is_companion_setup(n) {
        Some(i)
    } else {
        first_companion_from(names, i + 1)
    }
}

/// The index of the first setup program among the names of the files beside the installer.
pub fn find_companion_setup(names: &Vec<Option<String>>) -> (r: Option<usize>)
    ensures
        match r {
            Some(i) => i < names@.len() && first_companion_from(
                names@.map_values(|o: Option<String>| opt_view(o)),
                0,
            ) == Some(i as int),
            None => first_companion_from(names@.map_values(|o: Option<String>| opt_view(o)), 0) is None,
        },
{
    let ghost ns = names@.map_values(|o: Option<String>| opt_view(o));
    let mut i: usize = 0;
    while i < names.len()
        invariant
            i <= names@.len(),
            ns == names@.map_values(|o: Option<String>| opt_view(o)),
            first_companion_from(ns, 0) == first_companion_from(ns, i as int),
        decreases names.len() - i,
    {
        assert(ns[i as int] == opt_view(names@[i as int]));
        match &names[i] {
            Some(n) => if is_companion_setup_name(n.as_str()) {
                return Some(i);
            },
            None => {},
        }
        i += 1;
    }
    None
}

/// A setup program that the installer downloads is one it would also find and
/// run from beside itself.
pub proof fn lemma_downloaded_setup_is_companion(version: Seq<char>)
    ensures
        is_companion_setup(setup_file_name(version)),
{
    reveal_strlit("Stream.Pad_");
    reveal_strlit("_x64-setup.exe");
    let n = setup_file_name(version);
    assert(n.take(11) =~= "Stream.Pad_"@);
    assert(n.skip(n.len() - 14) =~= "_x64-setup.exe"@);
}

// ---------------------------------------------------------------------------
// Exit codes

/// The decimal digit for `d`.
pub open spec fn digit_char(d: nat) -> char {
    if d == 0 {
        '0'
    } else if d == 1 {
        '1'
    } else if d == 2 {
        '2'
    } else if d == 3 {
        '3'
    } else if d == 4 {
        '4'
    } else if d == 5 {
        '5'
    } else if d == 6 {
        '6'
    } else if d == 7 {
        '7'
    } else if d == 8 {
        '8'
    } else {
        '9'
    }
}

/// The decimal digits of `n`.
pub open spec fn decimal_digits(n: nat) -> Seq<char>
    decreases n,
{
    if n < 10 {
        seq![digit_char(n)]
    } else {
        decimal_digits(n / 10).push(digit_char(n % 10))
    }
}

/// The decimal text of an integer, as `Display` writes it.
pub open spec fn decimal_text(n: int) -> Seq<char> {
    if n < 0 {
        seq!['-'] + decimal_digits((-n) as nat)
    } else {
        decimal_digits(n as nat)
    }
}

fn digit(d: u64) -> (c: char)
    requires
        d < 10,
    ensures
        c == digit_char(d as nat),
{
    match d {
        0 => '0',
        1 => '1',
        2 => '2',
        3 => '3',
        4 => '4',
        5 => '5',
        6 => '6',
        7 => '7',
        8 => '8',
        _ => '9',
    }
}

fn push_digits(out: &mut Vec<char>, m: u64)
    ensures
        final(out)@ == old(out)@ + decimal_digits(m as nat),
    decreases m,
{
    if m >= 10 {
        push_digits(out, m / 10);
    }
    let c = digit(m % 10);
    out.push(c);
    assert(out@ =~= old(out)@ + decimal_digits(m as nat));
}

/// The decimal text of an exit code.
pub fn code_text(code: i32) -> (r: String)
    ensures
        r@ == decimal_text(code as int),
{
    let mut out: Vec<char> = Vec::new();
    if code < 0 {
        out.push('-');
        let m = (-(code as i64)) as u64;
        push_digits(&mut out, m);
        assert(out@ =~= seq!['-'] + decimal_digits((-(code as int)) as nat));
    } else {
        push_digits(&mut out, code as u64);
        assert(out@ =~= decimal_digits(code as nat));
    }
    string_from_chars(out.as_slice())
}

/// The program whose exit is reported.
#[derive(Debug, Clone, Copy, PartialEq, Eq, Structural)]
pub enum Program {
    Setup,
    Uninstaller,
}

/// The report of a program that ended without success: its exit code, or
/// `unknown` when it has none.
pub open spec fn exit_failure_message(p: Program, code: Option<i32>) -> Seq<char> {
    (match p {
        Program::Setup => "The Stream Pad setup exited with code "@,
        Program::Uninstaller => "The Stream Pad uninstaller exited with code "@,
    }) + (match code {
        Some(c) => decimal_text(c as int),
        None => "unknown"@,
    }) + "."@
}

/// How a setup or uninstall run ends: success, or the failure report.
pub fn program_outcome(p: Program, success: bool, code: Option<i32>) -> (r: Result<(), String>)
    ensures
        success ==> r is Ok,
        !success ==> (r matches Err(m) && m@ == exit_failure_message(p, code)),
{
    if success {
        return Ok(());
    }
    let head = match p {
        Program::Setup => "The Stream Pad setup exited with code ",
        Program::Uninstaller => "The Stream Pad uninstaller exited with code ",
    };
    let code_part = match code {
        Some(c) => code_text(c),
        None => owned("unknown"),
    };
    Err(crate::text::concat3(head, code_part.as_str(), "."))
}

/// A value found in JSON text by [`parse_json_string`] never holds a `"`.
pub proof fn lemma_json_value_has_no_quote(source: Seq<char>, key: Seq<char>)
    ensures
        json_string_member(source, key) matches Some(v) ==> forall|i: int| 0 <= i < v.len() ==> v[i] != '"',
{
    let needle = seq!['"'] + key + seq!['"'];
    match find(source, needle) {
        Some(start) => {
            crate::text::lemma_find_bounds(source, needle);
            let after = start + needle.len();
            match find(source.skip(after), seq!['"']) {
                Some(q) => {
                    crate::text::lemma_find_bounds(source.skip(after), seq!['"']);
                    let value_start = after + q + 1;
                    let rest = source.skip(value_start);
                    match find(rest, seq!['"']) {
                        Some(e) => {
                            lemma_find_first(rest, seq!['"'], 0);
                            crate::text::lemma_find_bounds(rest, seq!['"']);
                            let v = source.subrange(value_start, value_start + e);
                            assert forall|i: int| 0 <= i < v.len() implies v[i] != '"' by {
                                assert(v[i] == rest[i]);
                                assert(!crate::text::occurs_at(rest, seq!['"'], i));
                                assert(rest.subrange(i, i + 1)[0] == rest[i]);
                                if rest[i] == '"' {
                                    assert(rest.subrange(i, i + 1) =~= seq!['"']);
                                }
                            }
                        },
                        None => {},
                    }
                },
                None => {},
            }
        },
        None => {},
    }
}

/// Before the index that `find_from` returns, the pattern does not occur.
proof fn lemma_find_first(s: Seq<char>, p: Seq<char>, i: int)
    requires
        0 <= i,
    ensures
        crate::text::find_from(s, p, i) matches Some(j) ==> forall|k: int| i <= k < j ==> !crate::text::occurs_at(s, p, k),
    decreases s.len() - i,
{
    if i + p.len() > s.len() {
    } else if p.len() == 0 || crate::text::occurs_at(s, p, i) {
    } else {
        lemma_find_first(s, p, i + 1);
    }
}

/// An install location read from the registry is never empty and never starts
/// or ends with a quote.
pub proof fn lemma_registry_path_unquoted(value: Seq<char>)
    ensures
        registry_path(value) matches Some(p) ==> p.len() > 0 && p[0] != '"' && p.last() != '"',
{
    crate::text::lemma_trim_ends(trim(value), CharClass::DoubleQuote);
}

/// The numeric value of a sequence of decimal digits.
pub open spec fn digits_value(s: Seq<char>) -> int
    decreases s.len(),
{
    if s.len() == 0 {
        0
    } else {
        10 * digits_value(s.drop_last()) + (s.last() as int - '0' as int)
    }
}

proof fn lemma_digit_value(d: nat)
    requires
        d < 10,
    ensures
        digit_char(d) as int - '0' as int == d,
{
}

/// Reading the decimal text of a number back gives the number.
pub proof fn lemma_decimal_digits_roundtrip(n: nat)
    ensures
        digits_value(decimal_digits(n)) == n,
        decimal_digits(n).len() > 0,
    decreases n,
{
    lemma_digit_value((n % 10) as nat);
    if n >= 10 {
        lemma_decimal_digits_roundtrip(n / 10);
        let d = decimal_digits(n);
        assert(d.drop_last() =~= decimal_digits(n / 10));
        assert(d.last() == digit_char(n % 10));
        assert(d.len() > 0);
        assert(digits_value(d) == 10 * digits_value(d.drop_last()) + (d.last() as int - '0' as int));
        assert(n == 10 * (n / 10) + n % 10);
    } else {
        let d = decimal_digits(n);
        assert(d.drop_last() =~= Seq::<char>::empty());
        assert(digits_value(Seq::<char>::empty()) == 0);
        assert(digits_value(d) == 10 * digits_value(d.drop_last()) + (d.last() as int - '0' as int));
        assert(n % 10 == n);
    }
}

/// The first flag at or after `j` is the one at `i` when nothing between is a flag.
proof fn lemma_first_flag_at(args: Seq<Seq<char>>, j: int, i: int)
    requires
        0 <= j <= i < args.len(),
        args[i] == "--uninstall"@ || args[i] == "--uninstall-temp"@,
        forall|k: int| j <= k < i ==> args[k] != "--uninstall"@ && args[k] != "--uninstall-temp"@,
    ensures
        first_flag_from(args, j) == Some(i),
    decreases i - j,
{
    if j < i {
        lemma_first_flag_at(args, j + 1, i);
    }
}

/// With no flag from `j` on, none is found.
proof fn lemma_no_flag_from(args: Seq<Seq<char>>, j: int)
    requires
        0 <= j,
        forall|k: int| j <= k < args.len() ==> args[k] != "--uninstall"@ && args[k] != "--uninstall-temp"@,
    ensures
        first_flag_from(args, j) is None,
    decreases args.len() - j,
{
    if j < args.len() {
        lemma_no_flag_from(args, j + 1);
    }
}

/// The first `--uninstall` or `--uninstall-temp` argument decides: the installer
/// uninstalls, with the argument right after that flag (when there is one) as the
/// uninstaller, whichever of the two flags it is, and relaunches itself only for
/// `--uninstall`. Without either flag, it installs.
pub proof fn lemma_launch_request_flags(args: Seq<Seq<char>>, i: int)
    requires
        0 <= i < args.len(),
        args[i] == "--uninstall"@ || args[i] == "--uninstall-temp"@,
        forall|k: int| 0 <= k < i ==> args[k] != "--uninstall"@ && args[k] != "--uninstall-temp"@,
    ensures
        launch_request(args) == LaunchModel::Uninstall(
            if i + 1 < args.len() {
                Some(args[i + 1])
            } else {
                None
            },
            args[i] == "--uninstall"@,
        ),
{
    lemma_first_flag_at(args, 0, i);
}

/// Without an uninstall flag, the installer installs.
pub proof fn lemma_launch_request_install(args: Seq<Seq<char>>)
    requires
        forall|k: int| 0 <= k < args.len() ==> args[k] != "--uninstall"@ && args[k] != "--uninstall-temp"@,
    ensures
        launch_request(args) == LaunchModel::Install,
{
    lemma_no_flag_from(args, 0);
}

} // verus!
