//! The deck configuration: profiles of buttons, each running a list of actions.
use vstd::prelude::*;

use crate::text::{chars_of, concat3, string_from_chars};

verus! {

/// What pressing a button does.
#[derive(Debug)]
pub enum Action {
    /// Open a web address (or anything the shell can open) in its default handler.
    OpenUrl { url: String },
    /// Start a program, optionally with arguments.
    LaunchApp { path: String, args: Option<Vec<String>> },
    /// Play a sound file or an inline `data:audio` address.
    PlaySound { sound: String },
    /// Open a folder in the file manager.
    OpenFolder { path: String },
}

/// The content of an [`Action`], as plain sequences.
pub enum ActionModel {
    OpenUrl(Seq<char>),
    LaunchApp(Seq<char>, Option<Seq<Seq<char>>>),
    PlaySound(Seq<char>),
    OpenFolder(Seq<char>),
}

impl View for Action {
    type V = ActionModel;

    open spec fn view(&self) -> ActionModel {
        match self {
            Action::OpenUrl { url } => ActionModel::OpenUrl(url@),
            Action::LaunchApp { path, args } => ActionModel::LaunchApp(
                path@,
                match args {
                    Some(a) => Some(a.deep_view()),
                    None => None,
                },
            ),
            Action::PlaySound { sound } => ActionModel::PlaySound(sound@),
            Action::OpenFolder { path } => ActionModel::OpenFolder(path@),
        }
    }
}

/// Copies a list of strings.
fn clone_strings(v: &Vec<String>) -> (r: Vec<String>)
    ensures
        r.deep_view() == v.deep_view(),
{
    let mut r: Vec<String> = Vec::new();
    let mut i: usize = 0;
    while i < v.len()
        invariant
            i <= v.len(),
            r@.len() == i,
            forall|j: int| 0 <= j < i ==> r@[j]@ == v@[j]@,
        decreases v.len() - i,
    {
        r.push(v[i].clone());
        i += 1;
    }
    assert(r.deep_view() =~= v.deep_view());
    r
}

impl Clone for Action {
    fn clone(&self) -> (r: Self)
        ensures
            r@ == self@,
    {
        match self {
            Action::OpenUrl { url } => Action::OpenUrl { url: url.clone() },
            Action::LaunchApp { path, args } => Action::LaunchApp {
                path: path.clone(),
                args: match args {
                    Some(a) => Some(clone_strings(a)),
                    None => None,
                },
            },
            Action::PlaySound { sound } => Action::PlaySound { sound: sound.clone() },
            Action::OpenFolder { path } => Action::OpenFolder { path: path.clone() },
        }
    }
}

/// The views of a list of actions.
pub open spec fn actions_view(v: Seq<Action>) -> Seq<ActionModel> {
    v.map_values(|a: Action| a@)
}

/// Copies a list of actions.
pub fn clone_actions(v: &Vec<Action>) -> (r: Vec<Action>)
    ensures
        actions_view(r@) == actions_view(v@),
{
    let mut r: Vec<Action> = Vec::new();
    let mut i: usize = 0;
    while i < v.len()
        invariant
            i <= v.len(),
            r@.len() == i,
            forall|j: int| 0 <= j < i ==> r@[j]@ == v@[j]@,
        decreases v.len() - i,
    {
        r.push(v[i].clone());
        i += 1;
    }
    assert(actions_view(r@) =~= actions_view(v@));
    r
}

/// One button of a profile.
#[derive(Debug)]
pub struct DeckButton {
    pub id: String,
    pub label: String,
    pub icon: Option<String>,
    pub actions: Vec<Action>,
}

/// A named page of buttons.
#[derive(Debug)]
pub struct Profile {
    pub id: String,
    pub name: String,
    pub buttons: Vec<DeckButton>,
}

/// The whole configuration: the profiles and which of them is active.
#[derive(Debug)]
pub struct DeckConfig {
    pub active_profile_id: String,
    pub profiles: Vec<Profile>,
}

/// The most profiles a configuration may hold.
pub const MAX_PROFILES: usize = 15;

/// The most buttons a profile may hold.
pub const MAX_BUTTONS: usize = 20;

/// The configuration used when none has been saved: no profiles, none active.
pub fn default_config() -> (r: DeckConfig)
    ensures
        r.active_profile_id@ == Seq::<char>::empty(),
        r.profiles@.len() == 0,
{
    DeckConfig { active_profile_id: String::new(), profiles: Vec::new() }
}

/// The index of the first profile at or after `i` with more than the allowed buttons.
pub open spec fn first_oversized_from(ps: Seq<Profile>, i: int) -> Option<int>
    decreases ps.len() - i,
{
    if i < 0 || i >= ps.len() {
        None
    } else if ps[i].buttons@.len() > MAX_BUTTONS {
        Some(i)
    } else {
        first_oversized_from(ps, i + 1)
    }
}

/// The message for a profile with too many buttons.
pub open spec fn too_many_buttons_message(name: Seq<char>) -> Seq<char> {
    "Profile '"@ + name + "' has too many buttons. Maximum allowed is 20."@
}

/// Why a configuration is refused, if it is.
pub open spec fn config_error(c: DeckConfig) -> Option<Seq<char>> {
    if c.profiles@.len() > MAX_PROFILES {
        Some("Only 15 profiles are allowed."@)
    } else {
        match first_oversized_from(c.profiles@, 0) {
            Some(i) => Some(too_many_buttons_message(c.profiles@[i].name@)),
            None => None,
        }
    }
}

/// Checks the limits on a configuration before it is saved: at most 15 profiles,
/// and at most 20 buttons in each; the first profile over the limit is named.
pub fn validate_config(config: &DeckConfig) -> (r: Result<(), String>)
    ensures
        match r {
            Ok(()) => config_error(*config) is None,
            Err(msg) => config_error(*config) == Some(msg@),
        },
{
    if config.profiles.len() > MAX_PROFILES {
        return Err(string_from_chars(chars_of("Only 15 profiles are allowed.").as_slice()));
    }
    let mut i: usize = 0;
    while i < config.profiles.len()
        invariant
            i <= config.profiles@.len() <= MAX_PROFILES,
            first_oversized_from(config.profiles@, 0) == first_oversized_from(
                config.profiles@,
                i as int,
            ),
        decreases config.profiles.len() - i,
    {
        let profile = &config.profiles[i];
        if profile.buttons.len() > MAX_BUTTONS {
            return Err(
                concat3(
                    "Profile '",
                    profile.name.as_str(),
                    "' has too many buttons. Maximum allowed is 20.",
                ),
            );
        }
        i += 1;
    }
    Ok(())
}

/// The index of the first profile at or after `i` whose id is `id`.
pub open spec fn find_profile_from(ps: Seq<Profile>, id: Seq<char>, i: int) -> Option<int>
    decreases ps.len() - i,
{
    if i < 0 || i >= ps.len() {
        None
    } else if ps[i].id@ == id {
        Some(i)
    } else {
        find_profile_from(ps, id, i + 1)
    }
}

/// The index of the first button at or after `i` whose id is `id`.
pub open spec fn find_button_from(bs: Seq<DeckButton>, id: Seq<char>, i: int) -> Option<int>
    decreases bs.len() - i,
{
    if i < 0 || i >= bs.len() {
        None
    } else if bs[i].id@ == id {
        Some(i)
    } else {
        find_button_from(bs, id, i + 1)
    }
}

/// Where the button that a trigger names stands: the profile and button
/// indices, or the message of the first lookup that failed.
pub open spec fn button_location(
    c: DeckConfig,
    button_id: Seq<char>,
    profile_id: Option<Seq<char>>,
) -> Result<(int, int), Seq<char>> {
    let profile = match profile_id {
        Some(pid) => match find_profile_from(c.profiles@, pid, 0) {
            Some(p) => Ok(p),
            None => Err("Profile not found"@),
        },
        None => match find_profile_from(c.profiles@, c.active_profile_id@, 0) {
            Some(p) => Ok(p),
            None => Err("Active profile not found"@),
        },
    };
    match profile {
        Ok(p) => match find_button_from(c.profiles@[p].buttons@, button_id, 0) {
            Some(b) => Ok((p, b)),
            None => Err("Button not found"@),
        },
        Err(e) => Err(e),
    }
}

/// The index of the first profile whose id is `id`.
fn find_profile(ps: &Vec<Profile>, id: &str) -> (r: Option<usize>)
    ensures
        match r {
            Some(i) => i < ps@.len() && find_profile_from(ps@, id@, 0) == Some(i as int),
            None => find_profile_from(ps@, id@, 0) is None,
        },
{
    let mut i: usize = 0;
    while i < ps.len()
        invariant
            i <= ps@.len(),
            find_profile_from(ps@, id@, 0) == find_profile_from(ps@, id@, i as int),
        decreases ps.len() - i,
    {
        if crate::text::same_text(ps[i].id.as_str(), id) {
            return Some(i);
        }
        i += 1;
    }
    None
}

/// The index of the first button whose id is `id`.
fn find_button(bs: &Vec<DeckButton>, id: &str) -> (r: Option<usize>)
    ensures
        match r {
            Some(i) => i < bs@.len() && find_button_from(bs@, id@, 0) == Some(i as int),
            None => find_button_from(bs@, id@, 0) is None,
        },
{
    let mut i: usize = 0;
    while i < bs.len()
        invariant
            i <= bs@.len(),
            find_button_from(bs@, id@, 0) == find_button_from(bs@, id@, i as int),
        decreases bs.len() - i,
    {
        if crate::text::same_text(bs[i].id.as_str(), id) {
            return Some(i);
        }
        i += 1;
    }
    None
}

/// The actions of the button that a trigger names: the button `button_id` of
/// the profile `profile_id`, or of the active profile when none is given.
pub fn find_button_actions(
    config: &DeckConfig,
    button_id: &str,
    profile_id: Option<&str>,
) -> (r: Result<Vec<Action>, String>)
    ensures
        match r {
            Ok(actions) => button_location(
                *config,
                button_id@,
                match profile_id {
                    Some(p) => Some(p@),
                    None => None,
                },
            ) matches Ok((p, b)) && actions_view(actions@) == actions_view(
                config.profiles@[p].buttons@[b].actions@,
            ),
            Err(msg) => button_location(
                *config,
                button_id@,
                match profile_id {
                    Some(p) => Some(p@),
                    None => None,
                },
            ) == Err::<(int, int), Seq<char>>(msg@),
        },
{
    let p = match profile_id {
        Some(pid) => match find_profile(&config.profiles, pid) {
            Some(p) => p,
            None => return Err(string_from_chars(chars_of("Profile not found").as_slice())),
        },
        None => match find_profile(&config.profiles, config.active_profile_id.as_str()) {
            Some(p) => p,
            None => return Err(
                string_from_chars(chars_of("Active profile not found").as_slice()),
            ),
        },
    };
    let profile = &config.profiles[p];
    match find_button(&profile.buttons, button_id) {
        Some(b) => Ok(clone_actions(&profile.buttons[b].actions)),
        None => Err(string_from_chars(chars_of("Button not found").as_slice())),
    }
}

/// Whether a configuration keeps the limits: at most 15 profiles, at most 20
/// buttons in each.
pub open spec fn within_limits(c: DeckConfig) -> bool {
    &&& c.profiles@.len() <= MAX_PROFILES
    &&& forall|i: int| 0 <= i < c.profiles@.len() ==> c.profiles@[i].buttons@.len() <= MAX_BUTTONS
}

proof fn lemma_first_oversized_none(ps: Seq<Profile>, i: int)
    requires
        0 <= i <= ps.len(),
    ensures
        first_oversized_from(ps, i) is None <==> forall|j: int| i <= j < ps.len() ==> ps[j].buttons@.len() <= MAX_BUTTONS,
        first_oversized_from(ps, i) matches Some(j) ==> i <= j < ps.len() && ps[j].buttons@.len() > MAX_BUTTONS,
    decreases ps.len() - i,
{
    if i < ps.len() {
        lemma_first_oversized_none(ps, i + 1);
    }
}

/// A configuration is accepted exactly when it keeps the limits; when it is
/// refused for a profile, that profile is over the button limit.
pub proof fn lemma_validate_exactly_limits(c: DeckConfig)
    ensures
        config_error(c) is None <==> within_limits(c),
        c.profiles@.len() <= MAX_PROFILES ==> (first_oversized_from(c.profiles@, 0) matches Some(j) ==> c.profiles@[j].buttons@.len() > MAX_BUTTONS),
{
    lemma_first_oversized_none(c.profiles@, 0);
}

/// The configuration used when none is saved keeps the limits.
pub proof fn lemma_default_config_valid(c: DeckConfig)
    requires
        c.profiles@.len() == 0,
    ensures
        config_error(c) is None,
{
    lemma_first_oversized_none(c.profiles@, 0);
}

/// Pressing a button without naming a profile is pressing it in the active
/// profile: both find the same button, or neither does.
pub proof fn lemma_default_profile_is_active(c: DeckConfig, button_id: Seq<char>)
    ensures
        button_location(c, button_id, None) is Ok <==> button_location(
            c,
            button_id,
            Some(c.active_profile_id@),
        ) is Ok,
        button_location(c, button_id, None) matches Ok(loc) ==> button_location(
            c,
            button_id,
            Some(c.active_profile_id@),
        ) == Ok::<(int, int), Seq<char>>(loc),
{
}

} // verus!
