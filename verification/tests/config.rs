use stream_pad::deck::{default_config, find_button_actions, validate_config, Action, DeckButton, DeckConfig, Profile};

fn button(id: &str, actions: Vec<Action>) -> DeckButton {
    DeckButton { id: id.to_string(), label: id.to_string(), icon: None, actions }
}

fn profile(id: &str, name: &str, buttons: Vec<DeckButton>) -> Profile {
    Profile { id: id.to_string(), name: name.to_string(), buttons }
}

fn buttons(n: usize) -> Vec<DeckButton> {
    (0..n).map(|i| button(&format!("b{i}"), vec![])).collect()
}

#[test]
fn default_config_is_empty_and_valid() {
    let c = default_config();
    assert_eq!(c.active_profile_id, "");
    assert!(c.profiles.is_empty());
    assert_eq!(validate_config(&c), Ok(()));
}

#[test]
fn fifteen_profiles_of_twenty_buttons_are_accepted() {
    let profiles = (0..15).map(|i| profile(&format!("p{i}"), "P", buttons(20))).collect();
    let c = DeckConfig { active_profile_id: "p0".to_string(), profiles };
    assert_eq!(validate_config(&c), Ok(()));
}

#[test]
fn sixteen_profiles_are_refused() {
    let profiles = (0..16).map(|i| profile(&format!("p{i}"), "P", vec![])).collect();
    let c = DeckConfig { active_profile_id: String::new(), profiles };
    assert_eq!(validate_config(&c), Err("Only 15 profiles are allowed.".to_string()));
}

#[test]
fn the_first_profile_over_twenty_buttons_is_named() {
    let c = DeckConfig {
        active_profile_id: String::new(),
        profiles: vec![
            profile("a", "Main", buttons(20)),
            profile("b", "Games", buttons(21)),
            profile("c", "Music", buttons(30)),
        ],
    };
    assert_eq!(
        validate_config(&c),
        Err("Profile 'Games' has too many buttons. Maximum allowed is 20.".to_string())
    );
}

#[test]
fn profile_limit_is_checked_before_button_limit() {
    let mut profiles: Vec<Profile> = (0..16).map(|i| profile(&format!("p{i}"), "P", vec![])).collect();
    profiles[0].buttons = buttons(25);
    let c = DeckConfig { active_profile_id: String::new(), profiles };
    assert_eq!(validate_config(&c), Err("Only 15 profiles are allowed.".to_string()));
}

fn sample() -> DeckConfig {
    DeckConfig {
        active_profile_id: "stream".to_string(),
        profiles: vec![
            profile("games", "Games", vec![button("b1", vec![Action::OpenFolder { path: "C:/Games".to_string() }])]),
            profile(
                "stream",
                "Stream",
                vec![
                    button("b1", vec![
                        Action::OpenUrl { url: "https://twitch.tv".to_string() },
                        Action::LaunchApp { path: "obs.exe".to_string(), args: Some(vec!["--start".to_string()]) },
                    ]),
                    button("b2", vec![Action::PlaySound { sound: "ding.wav".to_string() }]),
                ],
            ),
            profile("stream", "Duplicate", vec![button("b1", vec![])]),
        ],
    }
}

fn describe(actions: &[Action]) -> Vec<String> {
    actions.iter().map(|a| format!("{a:?}")).collect()
}

#[test]
fn trigger_uses_the_active_profile_by_default() {
    let actions = find_button_actions(&sample(), "b1", None).unwrap();
    assert_eq!(
        describe(&actions),
        vec![
            "OpenUrl { url: \"https://twitch.tv\" }".to_string(),
            "LaunchApp { path: \"obs.exe\", args: Some([\"--start\"]) }".to_string(),
        ]
    );
}

#[test]
fn trigger_uses_the_named_profile() {
    let actions = find_button_actions(&sample(), "b1", Some("games")).unwrap();
    assert_eq!(describe(&actions), vec!["OpenFolder { path: \"C:/Games\" }".to_string()]);
}

#[test]
fn trigger_reports_missing_profile_and_button() {
    assert_eq!(find_button_actions(&sample(), "b1", Some("nope")).unwrap_err(), "Profile not found");
    assert_eq!(find_button_actions(&sample(), "zz", None).unwrap_err(), "Button not found");
    let mut c = sample();
    c.active_profile_id = "gone".to_string();
    assert_eq!(find_button_actions(&c, "b1", None).unwrap_err(), "Active profile not found");
}
