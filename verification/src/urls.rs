//! Web links: recognising them, naming them and finding their icon.
use vstd::prelude::*;

use crate::text::{
    chars_of, copy_range, find, find_chars, has_prefix, string_from_chars, trim, trim_white_space,
    CharClass,
};

verus! {

/// The view of an optional string.
pub open spec fn opt_view(o: Option<String>) -> Option<Seq<char>> {
    match o {
        Some(s) => Some(s@),
        None => None,
    }
}

/// A web link: the trimmed text, when it starts with `http://` or `https://`.
pub open spec fn web_url(v: Seq<char>) -> Option<Seq<char>> {
    let t = trim(v);
    if has_prefix(t, "http://"@) || has_prefix(t, "https://"@) {
        Some(t)
    } else {
        None
    }
}

/// The part of `s` before the first occurrence of `p`, and the part after it.
pub open spec fn split_once(s: Seq<char>, p: Seq<char>) -> Option<(Seq<char>, Seq<char>)> {
    match find(s, p) {
        Some(i) => Some((s.take(i), s.skip(i + p.len()))),
        None => None,
    }
}

/// The part of `s` before its first `'/'` (the first piece of `split('/')`).
pub open spec fn before_slash(s: Seq<char>) -> Seq<char> {
    match find(s, seq!['/']) {
        Some(i) => s.take(i),
        None => s,
    }
}

/// `s` with every leading repetition of the non-empty `p` removed (`str::trim_start_matches`).
pub open spec fn strip_prefix_repeated(s: Seq<char>, p: Seq<char>) -> Seq<char>
    decreases s.len(),
{
    if p.len() > 0 && has_prefix(s, p) {
        strip_prefix_repeated(s.skip(p.len() as int), p)
    } else {
        s
    }
}

/// The host part of a link, without leading `www.`.
pub open spec fn url_host_label(url: Seq<char>) -> Seq<char> {
    let rest = match split_once(url, "://"@) {
        Some((_, rest)) => rest,
        None => url,
    };
    strip_prefix_repeated(before_slash(rest), "www."@)
}

/// The label of a button that opens `url`: its host, or `Website` when that is empty.
pub open spec fn url_label(url: Seq<char>) -> Seq<char> {
    let host = url_host_label(url);
    if host.len() == 0 {
        "Website"@
    } else {
        host
    }
}

/// The favicon service address for `url`, when it has a scheme and a host.
pub open spec fn url_favicon(url: Seq<char>) -> Option<Seq<char>> {
    match split_once(url, "://"@) {
        Some((scheme, rest)) => {
            let host = trim(before_slash(rest));
            if scheme.len() == 0 || host.len() == 0 {
                None
            } else {
                Some("https://www.google.com/s2/favicons?domain="@ + host + "&sz=64"@)
            }
        },
        None => None,
    }
}

/// Recognises a web link: trims `value` and keeps it when it starts with
/// `http://` or `https://`.
pub fn normalize_web_url(value: &str) -> (r: Option<String>)
    ensures
        opt_view(r) == web_url(value@),
{
    let v = chars_of(value);
    let t = trim_white_space(&v);
    let http = chars_of("http://");
    let https = chars_of("https://");
    if crate::text::starts_with(&t, &http) || crate::text::starts_with(&t, &https) {
        Some(string_from_chars(t.as_slice()))
    } else {
        None
    }
}

/// `s` split at the first occurrence of `p`.
fn split_once_chars(s: &Vec<char>, p: &Vec<char>) -> (r: Option<(Vec<char>, Vec<char>)>)
    ensures
        match r {
            Some((a, b)) => split_once(s@, p@) == Some((a@, b@)),
            None => split_once(s@, p@) is None,
        },
{
    let found = find_chars(s, p);
    match found {
        Some(i) => {
            let n = s.len();
            let pl = p.len();
            assert(i + pl <= n);
            proof {
                crate::text::lemma_find_bounds(s@, p@);
            }
            let a = copy_range(s, 0, i);
            let b = copy_range(s, i + pl, n);
            assert(a@ =~= s@.take(i as int));
            assert(b@ =~= s@.skip(i + p@.len()));
            Some((a, b))
        },
        None => None,
    }
}

/// The part of `s` before its first `'/'`.
fn before_slash_chars(s: &Vec<char>) -> (r: Vec<char>)
    ensures
        r@ == before_slash(s@),
{
    let mut slash: Vec<char> = Vec::new();
    slash.push('/');
    assert(slash@ =~= seq!['/']);
    match find_chars(s, &slash) {
        Some(i) => {
            proof {
                crate::text::lemma_find_bounds(s@, slash@);
            }
            let r = copy_range(s, 0, i);
            assert(r@ =~= s@.take(i as int));
            r
        },
        None => copy_range(s, 0, s.len()),
    }
}

/// `s` with every leading repetition of `p` removed.
fn strip_prefix_repeated_chars(s: &Vec<char>, p: &Vec<char>) -> (r: Vec<char>)
    requires
        p.len() > 0,
    ensures
        r@ == strip_prefix_repeated(s@, p@),
{
    let n = s.len();
    let mut a: usize = 0;
    assert(s@.skip(0) =~= s@);
    while p.len() <= n - a && crate::text::matches_at(s, p, a)
        invariant
            a <= n == s.len(),
            p.len() > 0,
            strip_prefix_repeated(s@, p@) == strip_prefix_repeated(s@.skip(a as int), p@),
        decreases n - a,
    {
        assert(s@.skip(a as int).take(p@.len() as int) =~= s@.subrange(a as int, a + p@.len()));
        assert(s@.skip(a as int).skip(p@.len() as int) =~= s@.skip(a + p@.len()));
        a += p.len();
    }
    if p.len() <= n - a {
        assert(s@.skip(a as int).take(p@.len() as int) =~= s@.subrange(a as int, a + p@.len()));
    }
    let r = copy_range(s, a, n);
    assert(r@ =~= s@.skip(a as int));
    r
}

/// The label of a button that opens `url`: the host without leading `www.`,
/// or `Website` when that is empty.
pub fn label_for_url(url: &str) -> (r: String)
    ensures
        r@ == url_label(url@),
{
    let u = chars_of(url);
    let sep = chars_of("://");
    let rest = match split_once_chars(&u, &sep) {
        Some((_, rest)) => rest,
        None => u,
    };
    let host0 = before_slash_chars(&rest);
    let www = chars_of("www.");
    proof {
        reveal_strlit("www.");
    }
    let host = strip_prefix_repeated_chars(&host0, &www);
    if host.len() == 0 {
        string_from_chars(chars_of("Website").as_slice())
    } else {
        string_from_chars(host.as_slice())
    }
}

/// The favicon service address for `url`: `None` unless `url` has a non-empty
/// scheme before `://` and a non-empty host after it.
pub fn favicon_for_url(url: &str) -> (r: Option<String>)
    ensures
        opt_view(r) == url_favicon(url@),
{
    let u = chars_of(url);
    let sep = chars_of("://");
    let (scheme, rest) = match split_once_chars(&u, &sep) {
        Some(parts) => parts,
        None => return None,
    };
    let host = trim_white_space(&before_slash_chars(&rest));
    if scheme.len() == 0 || host.len() == 0 {
        return None;
    }
    let mut out = chars_of("https://www.google.com/s2/favicons?domain=");
    let tail = chars_of("&sz=64");
    let ghost head = out@;
    let mut i: usize = 0;
    while i < host.len()
        invariant
            i <= host.len(),
            out@ == head + host@.take(i as int),
        decreases host.len() - i,
    {
        out.push(host[i]);
        i += 1;
        assert(out@ =~= head + host@.take(i as int));
    }
    let mut j: usize = 0;
    let ghost mid = out@;
    while j < tail.len()
        invariant
            j <= tail.len(),
            out@ == mid + tail@.take(j as int),
        decreases tail.len() - j,
    {
        out.push(tail[j]);
        j += 1;
        assert(out@ =~= mid + tail@.take(j as int));
    }
    assert(host@.take(host@.len() as int) =~= host@);
    assert(tail@.take(tail@.len() as int) =~= tail@);
    Some(string_from_chars(out.as_slice()))
}

/// Recognising a web link again changes nothing: what `normalize_web_url`
/// returns is itself a web link, unchanged.
pub proof fn lemma_web_url_idempotent(v: Seq<char>)
    ensures
        web_url(v) matches Some(u) ==> web_url(u) == Some(u),
{
    crate::text::lemma_trim_idempotent(v, CharClass::WhiteSpace);
}

/// The label of a link button is never empty.
pub proof fn lemma_url_label_nonempty(url: Seq<char>)
    ensures
        url_label(url).len() > 0,
{
    reveal_strlit("Website");
}

} // verus!
