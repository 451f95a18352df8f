use stream_pad::deck::Action;
use stream_pad::dragged::{first_url_from_text, label_from_text, shortcut_url_from_text, url_and_label_from_texts};
use stream_pad::drop_target::{DropEffect, DropTargetState};
use stream_pad::import::{
    apply_drop_label, describe_dropped_file, describe_dropped_item, import_source, native_drop_payload, DropFacts,
    DropQuery, DropStep, ImportedButtonData, NativeDropData, NativeDropPosition,
};

fn facts(is_dir: Option<bool>, text: Option<Option<&str>>, icon: Option<Option<&str>>) -> DropFacts {
    DropFacts {
        is_dir,
        shortcut_text: text.map(|t| t.map(|s| s.to_string())),
        file_icon: icon.map(|i| i.map(|s| s.to_string())),
    }
}

fn finished(step: DropStep) -> Result<ImportedButtonData, String> {
    match step {
        DropStep::Finished(r) => r,
        DropStep::Needs(q) => panic!("still needs {q:?}"),
    }
}

fn needs(step: DropStep) -> DropQuery {
    match step {
        DropStep::Needs(q) => q,
        DropStep::Finished(r) => panic!("finished early: {r:?}"),
    }
}

#[test]
fn first_url_prefers_a_link_line() {
    assert_eq!(first_url_from_text("My site\r\n<https://a.com/x>\r\n"), Some("https://a.com/x".to_string()));
    assert_eq!(first_url_from_text("  \n  http://b.org  \nhttps://c.org"), Some("http://b.org".to_string()));
}

#[test]
fn first_url_finds_links_inside_text() {
    assert_eq!(
        first_url_from_text("see <a href=\"https://x.y/z\">here</a>"),
        Some("https://x.y/z".to_string())
    );
    assert_eq!(first_url_from_text("go to http://plain.site now"), Some("http://plain.site".to_string()));
    assert_eq!(
        first_url_from_text("old http://first.one then https://second.one"),
        Some("https://second.one".to_string())
    );
    assert_eq!(first_url_from_text("no links here"), None);
    assert_eq!(first_url_from_text(""), None);
}

#[test]
fn label_is_first_plain_line() {
    assert_eq!(label_from_text("https://a.com\n  Channel page  \nmore"), Some("Channel page".to_string()));
    assert_eq!(label_from_text("https://a.com\n\n"), None);
    assert_eq!(label_from_text("Watch http://x.y/z"), None);
}

#[test]
fn shortcut_text_gives_its_url() {
    let text = "[InternetShortcut]\r\nIDList=\r\n  URL= https://example.com/page \r\nIconIndex=0\r\n";
    assert_eq!(shortcut_url_from_text(text), Some("https://example.com/page".to_string()));
    assert_eq!(shortcut_url_from_text("[InternetShortcut]\nURL=\nURL=https://late"), None);
    assert_eq!(shortcut_url_from_text("nothing"), None);
    assert_eq!(shortcut_url_from_text("url=lowercase"), None);
}

#[test]
fn link_and_title_from_drag_texts() {
    let texts = vec![None, Some("not a link".to_string()), Some("Title\nhttps://a.b".to_string()), Some("https://later".to_string())];
    assert_eq!(
        url_and_label_from_texts(&texts, None),
        (Some("https://a.b".to_string()), Some("Title".to_string()))
    );
    assert_eq!(
        url_and_label_from_texts(&texts, Some("  Described  ")),
        (Some("https://a.b".to_string()), Some("Described".to_string()))
    );
    assert_eq!(
        url_and_label_from_texts(&texts, Some("   ")),
        (Some("https://a.b".to_string()), Some("Title".to_string()))
    );
    assert_eq!(url_and_label_from_texts(&vec![None, Some("plain".to_string())], Some("Desc")), (None, Some("Desc".to_string())));
}

fn drop(paths: &[&str], url: Option<&str>, label: Option<&str>) -> NativeDropData {
    NativeDropData {
        paths: paths.iter().map(|p| p.to_string()).collect(),
        url: url.map(|u| u.to_string()),
        label: label.map(|l| l.to_string()),
        position: NativeDropPosition { x: 5, y: -2 },
    }
}

#[test]
fn import_source_prefers_the_link() {
    assert_eq!(import_source(&drop(&["/a", "/b"], Some("https://l"), None)), Some("https://l".to_string()));
    assert_eq!(import_source(&drop(&["/a", "/b"], None, None)), Some("/a".to_string()));
    assert_eq!(import_source(&drop(&[], None, None)), None);
    assert!(drop(&["/a"], None, None).has_content());
    assert!(!drop(&[], None, Some("t")).has_content());
}

#[test]
fn web_link_drop_opens_the_link() {
    let d = finished(describe_dropped_file(" https://www.twitch.tv/x ", &DropFacts::new())).unwrap();
    assert_eq!(d.label, "twitch.tv");
    assert_eq!(d.icon, Some("https://www.google.com/s2/favicons?domain=www.twitch.tv&sz=64".to_string()));
    assert_eq!(format!("{:?}", d.actions), "[OpenUrl { url: \"https://www.twitch.tv/x\" }]");
}

#[test]
fn folder_drop_opens_the_folder() {
    assert_eq!(needs(describe_dropped_item("/home/me/Clips", Some("Clips"), &DropFacts::new())), DropQuery::IsDirectory);
    let d = finished(describe_dropped_item("/home/me/Clips", Some("Clips"), &facts(Some(true), None, None))).unwrap();
    assert_eq!(d.label, "Clips");
    assert_eq!(d.icon, Some("\u{1F4C1}".to_string()));
    assert_eq!(format!("{:?}", d.actions), "[OpenFolder { path: \"/home/me/Clips\" }]");
}

#[test]
fn internet_shortcut_drop_opens_its_address() {
    let path = "C:/Links/News.URL";
    assert_eq!(needs(describe_dropped_item(path, Some("News.URL"), &facts(Some(false), None, None))), DropQuery::ShortcutText);
    let d = finished(describe_dropped_item(
        path,
        Some("News.URL"),
        &facts(Some(false), Some(Some("[InternetShortcut]\nURL=https://news.example/")), None),
    ))
    .unwrap();
    assert_eq!(d.label, "News");
    assert_eq!(d.icon, Some("https://www.google.com/s2/favicons?domain=news.example&sz=64".to_string()));
    assert_eq!(format!("{:?}", d.actions), "[OpenUrl { url: \"https://news.example/\" }]");
    let e = finished(describe_dropped_item(path, Some("News.URL"), &facts(Some(false), Some(None), None)));
    assert_eq!(e.unwrap_err(), "Could not read URL from shortcut.");
    let e = finished(describe_dropped_item("a.website", Some("a.website"), &facts(Some(false), Some(Some("junk")), None)));
    assert_eq!(e.unwrap_err(), "Could not read URL from shortcut.");
}

#[test]
fn windows_shortcut_drop_opens_itself() {
    let path = "C:/Desktop/Game.lnk";
    assert_eq!(needs(describe_dropped_item(path, Some("Game.lnk"), &facts(Some(false), None, None))), DropQuery::FileIcon);
    let d = finished(describe_dropped_item(path, Some("Game.lnk"), &facts(Some(false), None, Some(None)))).unwrap();
    assert_eq!(d.label, "Game");
    assert_eq!(d.icon, Some("\u{1F517}".to_string()));
    assert_eq!(format!("{:?}", d.actions), "[OpenUrl { url: \"C:/Desktop/Game.lnk\" }]");
    let d = finished(describe_dropped_item(path, Some("Game.lnk"), &facts(Some(false), None, Some(Some("data:img"))))).unwrap();
    assert_eq!(d.icon, Some("data:img".to_string()));
}

#[test]
fn sound_drop_plays_the_file() {
    let d = finished(describe_dropped_item("/s/Air Horn.MP3", Some("Air Horn.MP3"), &facts(Some(false), None, None))).unwrap();
    assert_eq!(d.label, "Air Horn");
    assert_eq!(d.icon, Some("\u{1F50A}".to_string()));
    assert_eq!(format!("{:?}", d.actions), "[PlaySound { sound: \"/s/Air Horn.MP3\" }]");
}

#[test]
fn program_drop_launches_it() {
    let path = "C:/Apps/obs64.exe";
    assert_eq!(needs(describe_dropped_item(path, Some("obs64.exe"), &facts(Some(false), None, None))), DropQuery::FileIcon);
    let d = finished(describe_dropped_item(path, Some("obs64.exe"), &facts(Some(false), None, Some(None)))).unwrap();
    assert_eq!(d.label, "obs64");
    assert_eq!(d.icon, Some("\u{1F3AE}".to_string()));
    assert_eq!(format!("{:?}", d.actions), "[LaunchApp { path: \"C:/Apps/obs64.exe\", args: Some([]) }]");
}

#[test]
fn other_files_are_refused() {
    let e = finished(describe_dropped_item("/x/notes.txt", Some("notes.txt"), &facts(Some(false), None, None)));
    assert_eq!(
        e.unwrap_err(),
        "Unsupported item. Only folders, sound files, website URLs, shortcuts, and .exe applications can be dropped."
    );
}

#[test]
fn describing_asks_each_fact_at_most_once() {
    let path = "/apps/tool.exe";
    let mut f = DropFacts::new();
    let mut rounds = 0;
    let outcome = loop {
        rounds += 1;
        match describe_dropped_file(path, &f) {
            DropStep::Finished(r) => break r,
            DropStep::Needs(DropQuery::IsDirectory) => {
                assert!(f.is_dir.is_none());
                f.is_dir = Some(false)
            }
            DropStep::Needs(DropQuery::ShortcutText) => {
                assert!(f.shortcut_text.is_none());
                f.shortcut_text = Some(None)
            }
            DropStep::Needs(DropQuery::FileIcon) => {
                assert!(f.file_icon.is_none());
                f.file_icon = Some(None)
            }
        }
    };
    assert!(rounds <= 4);
    assert_eq!(outcome.unwrap().label, "tool");
}

#[test]
fn drop_title_renames_link_buttons_only() {
    let link = finished(describe_dropped_file("https://a.com", &DropFacts::new())).unwrap();
    let renamed = apply_drop_label(link, Some("  A Title "));
    assert_eq!(renamed.label, "A Title");
    let kept = apply_drop_label(renamed, Some("   "));
    assert_eq!(kept.label, "A Title");
    let song = finished(describe_dropped_item("/s/a.wav", Some("a.wav"), &facts(Some(false), None, None))).unwrap();
    assert_eq!(apply_drop_label(song, Some("Title")).label, "a");
    let payload = native_drop_payload(&drop(&[], Some("https://a.com"), None), ImportedButtonData {
        label: "x".to_string(),
        icon: None,
        actions: vec![Action::OpenUrl { url: "https://a.com".to_string() }],
    });
    assert_eq!((payload.position.x, payload.position.y), (5, -2));
    assert_eq!(payload.import_data.label, "x");
}

#[test]
fn drop_target_cursor() {
    let mut s = DropTargetState::new();
    assert_eq!(s.drag_over(), DropEffect::Refuse);
    assert_eq!(s.drag_enter(true), DropEffect::Copy);
    assert_eq!(s.drag_over(), DropEffect::Copy);
    s.drag_leave();
    assert_eq!(s.drag_over(), DropEffect::Refuse);
    assert_eq!(s.drag_enter(false), DropEffect::Refuse);
    assert_eq!(s.drag_over(), DropEffect::Refuse);
    s.drag_enter(true);
    assert_eq!(s.drop_data(true), DropEffect::Copy);
    assert_eq!(s.drag_over(), DropEffect::Refuse);
    assert_eq!(s.drop_data(false), DropEffect::Refuse);
}

#[test]
fn dropped_sound_path_with_folders_becomes_a_sound_button() {
    let f = facts(Some(false), Some(None), Some(None));
    let b = finished(describe_dropped_file("/music/song.mp3", &f)).unwrap();
    assert_eq!(b.label, "song");
    assert!(matches!(b.actions.as_slice(), [Action::PlaySound { sound }] if sound == "/music/song.mp3"));
}

#[test]
fn dropped_windows_sound_path_becomes_a_sound_button() {
    let f = facts(Some(false), Some(None), Some(None));
    let b = finished(describe_dropped_file("C:\\Music\\song.mp3", &f)).unwrap();
    assert!(b.label == "song" || b.label == "C:\\Music\\song");
    assert!(matches!(b.actions.as_slice(), [Action::PlaySound { sound }] if sound == "C:\\Music\\song.mp3"));
}
