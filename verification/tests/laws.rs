use stream_pad::deck::{find_button_actions, Action, DeckButton, DeckConfig, Profile};
use stream_pad::dragged::{first_url_from_text, label_from_text};
use stream_pad::screen::{click_point, to_wide};
use stream_pad::setup::{clean_registry_path, code_text, parse_json_string};
use stream_pad::urls::{label_for_url, normalize_web_url};

#[test]
fn active_profile_is_the_default_profile() {
    let c = DeckConfig {
        active_profile_id: "b".to_string(),
        profiles: vec![
            Profile { id: "a".to_string(), name: "A".to_string(), buttons: vec![] },
            Profile {
                id: "b".to_string(),
                name: "B".to_string(),
                buttons: vec![DeckButton {
                    id: "x".to_string(),
                    label: "X".to_string(),
                    icon: None,
                    actions: vec![Action::OpenFolder { path: "/f".to_string() }],
                }],
            },
        ],
    };
    let by_default = find_button_actions(&c, "x", None).unwrap();
    let by_name = find_button_actions(&c, "x", Some("b")).unwrap();
    assert_eq!(format!("{by_default:?}"), format!("{by_name:?}"));
    assert!(find_button_actions(&c, "y", None).is_err() && find_button_actions(&c, "y", Some("b")).is_err());
}

#[test]
fn links_found_in_text_are_normalized() {
    for text in ["x\n <https://a.b/c> \n", "see http://q.r/s\"t", "  https://z  "] {
        let u = first_url_from_text(text).unwrap();
        assert_eq!(normalize_web_url(&u), Some(u.clone()));
    }
}

#[test]
fn titles_hold_no_links() {
    let t = label_from_text("https://a\n   Plain title \n").unwrap();
    assert_eq!(t, "Plain title");
    assert_eq!(first_url_from_text(&t), None);
}

#[test]
fn link_labels_are_never_empty() {
    for u in ["", "https://", "://", "www.", "https://www./x"] {
        assert!(!label_for_url(u).is_empty());
    }
}

#[test]
fn packed_clicks_read_back() {
    for (x, y) in [(0i16, 0i16), (-1, 5), (979, 639), (i16::MIN, i16::MAX), (-300, -20)] {
        let lparam = (((y as isize) & 0xffff) << 16) | ((x as isize) & 0xffff);
        assert_eq!(click_point(lparam), (x as i32, y as i32));
    }
}

#[test]
fn wide_text_has_a_single_terminator() {
    let w = to_wide("Stream Pad \u{1F3AE}");
    assert_eq!(w.iter().filter(|u| **u == 0).count(), 1);
    assert_eq!(*w.last().unwrap(), 0);
}

#[test]
fn exit_codes_read_back() {
    for c in [0, 9, 10, 1603, -1, -2147483647, i32::MAX] {
        assert_eq!(code_text(c).parse::<i32>().unwrap(), c);
    }
}

#[test]
fn found_values_and_paths_are_unquoted() {
    let v = parse_json_string(r#"{"version":"2.0.1","x":"y"}"#, "version").unwrap();
    assert!(!v.contains('"'));
    let p = clean_registry_path(r#" "C:\A B" "#).unwrap();
    assert!(!p.starts_with('"') && !p.ends_with('"') && !p.is_empty());
}
