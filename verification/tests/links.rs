use stream_pad::text::{chars_of, trim_white_space};
use stream_pad::urls::{favicon_for_url, label_for_url, normalize_web_url};

#[test]
fn normalize_keeps_trimmed_web_links() {
    assert_eq!(normalize_web_url("  https://example.com/a  "), Some("https://example.com/a".to_string()));
    assert_eq!(normalize_web_url("http://x"), Some("http://x".to_string()));
    assert_eq!(normalize_web_url("\u{3000}http://x\t\n"), Some("http://x".to_string()));
}

#[test]
fn normalize_refuses_other_text() {
    assert_eq!(normalize_web_url("ftp://example.com"), None);
    assert_eq!(normalize_web_url("C:\\Games\\game.exe"), None);
    assert_eq!(normalize_web_url(""), None);
    assert_eq!(normalize_web_url("HTTP://upper.case"), None);
    assert_eq!(normalize_web_url("http:/missing"), None);
}

#[test]
fn normalize_is_idempotent_on_examples() {
    for input in ["  https://a.b/c ", "http://q", "x https://no"] {
        if let Some(u) = normalize_web_url(input) {
            assert_eq!(normalize_web_url(&u), Some(u.clone()));
        }
    }
}

#[test]
fn trim_matches_std_trim() {
    for input in ["  a b  ", "\u{85}x\u{a0}", "", "   ", "\u{2003}y\u{200b}"] {
        let t: String = trim_white_space(&chars_of(input)).into_iter().collect();
        assert_eq!(t, input.trim());
    }
}

#[test]
fn label_is_host_without_www() {
    assert_eq!(label_for_url("https://www.example.com/path/page"), "example.com");
    assert_eq!(label_for_url("https://www.www.example.com"), "example.com");
    assert_eq!(label_for_url("http://twitch.tv"), "twitch.tv");
    assert_eq!(label_for_url("example.org/abc"), "example.org");
}

#[test]
fn label_falls_back_to_website() {
    assert_eq!(label_for_url("https://"), "Website");
    assert_eq!(label_for_url("https:///path"), "Website");
    assert_eq!(label_for_url("https://www."), "Website");
}

#[test]
fn favicon_uses_host() {
    assert_eq!(
        favicon_for_url("https://www.youtube.com/watch?v=1"),
        Some("https://www.google.com/s2/favicons?domain=www.youtube.com&sz=64".to_string())
    );
    assert_eq!(
        favicon_for_url("custom://host name/x"),
        Some("https://www.google.com/s2/favicons?domain=host name&sz=64".to_string())
    );
}

#[test]
fn favicon_needs_scheme_and_host() {
    assert_eq!(favicon_for_url("example.com"), None);
    assert_eq!(favicon_for_url("://example.com"), None);
    assert_eq!(favicon_for_url("https:///x"), None);
    assert_eq!(favicon_for_url("https://   /x"), None);
}
