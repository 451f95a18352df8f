//! Turning dropped paths and links into button data.
use vstd::prelude::*;

use crate::deck::{actions_view, Action, ActionModel};
use crate::files::{
    extension_from_file_name, fallback_icon, is_application_extension, is_audio_extension,
    is_audio_extension_text, label_from_file_name, label_of_file_name, lower_extension_of,
};
use crate::text::{chars_of, eq_chars, owned, string_from_chars, trim_white_space};
use crate::dragged::{shortcut_url, shortcut_url_from_text, description_label};
use crate::urls::{
    favicon_for_url, label_for_url, normalize_web_url, opt_view, url_favicon, url_label, web_url,
};

verus! {

/// Where an item was dropped, in the window's client coordinates.
#[derive(Debug, Clone, Copy)]
pub struct NativeDropPosition {
    pub x: i32,
    pub y: i32,
}

/// What the button editor receives for a dropped item: a label, an icon and the actions.
#[derive(Debug)]
pub struct ImportedButtonData {
    pub label: String,
    pub icon: Option<String>,
    pub actions: Vec<Action>,
}

/// The content of [`ImportedButtonData`], as plain sequences.
pub struct ImportedModel {
    pub label: Seq<char>,
    pub icon: Option<Seq<char>>,
    pub actions: Seq<ActionModel>,
}

impl View for ImportedButtonData {
    type V = ImportedModel;

    open spec fn view(&self) -> ImportedModel {
        ImportedModel { label: self.label@, icon: opt_view(self.icon), actions: actions_view(self.actions@) }
    }
}

/// An imported item together with where it was dropped.
#[derive(Debug)]
pub struct NativeDropImportPayload {
    pub position: NativeDropPosition,
    pub import_data: ImportedButtonData,
}

/// What a drop onto the window carried: file paths, a link and its title.
#[derive(Debug)]
pub struct NativeDropData {
    pub paths: Vec<String>,
    pub url: Option<String>,
    pub label: Option<String>,
    pub position: NativeDropPosition,
}

impl NativeDropData {
    /// Whether the drop carries something that can become a button: a path or a link.
    pub fn has_content(&self) -> (r: bool)
        ensures
            r == (self.paths@.len() > 0 || self.url is Some),
    {
        self.paths.len() > 0 || self.url.is_some()
    }
}

/// What an import starts from: the dragged link, else the first dragged path.
pub open spec fn import_source_of(url: Option<Seq<char>>, paths: Seq<Seq<char>>) -> Option<Seq<char>> {
    match url {
        Some(u) => Some(u),
        None => if paths.len() > 0 {
            Some(paths[0])
        } else {
            None
        },
    }
}

/// What the import of a drop starts from: its link, else its first path.
pub fn import_source(drop: &NativeDropData) -> (r: Option<String>)
    ensures
        opt_view(r) == import_source_of(opt_view(drop.url), drop.paths.deep_view()),
{
    match &drop.url {
        Some(u) => Some(u.clone()),
        None => if drop.paths.len() > 0 {
            Some(drop.paths[0].clone())
        } else {
            None
        },
    }
}

/// The imported data with the drag's title as its label, when the title is not
/// blank and the first action opens a link.
pub open spec fn relabeled(data: ImportedModel, title: Option<Seq<char>>) -> ImportedModel {
    match description_label(title) {
        Some(l) => if data.actions.len() > 0 && data.actions[0] is OpenUrl {
            ImportedModel { label: l, ..data }
        } else {
            data
        },
        None => data,
    }
}

/// Gives the imported data the drag's title as its label, when the title is not
/// blank and the first action opens a link.
pub fn apply_drop_label(data: ImportedButtonData, title: Option<&str>) -> (r: ImportedButtonData)
    ensures
        r@ == relabeled(
            data@,
            match title {
                Some(t) => Some(t@),
                None => None,
            },
        ),
{
    let mut data = data;
    match title {
        Some(t) => {
            let trimmed = trim_white_space(&chars_of(t));
            if trimmed.len() > 0 && data.actions.len() > 0 {
                let opens_link = match &data.actions[0] {
                    Action::OpenUrl { .. } => true,
                    _ => false,
                };
                if opens_link {
                    data.label = string_from_chars(trimmed.as_slice());
                }
            }
            data
        },
        None => data,
    }
}

/// The payload announced to the window for an imported drop.
pub fn native_drop_payload(drop: &NativeDropData, import_data: ImportedButtonData) -> (r: NativeDropImportPayload)
    ensures
        r.position == drop.position,
        r.import_data@ == import_data@,
{
    NativeDropImportPayload { position: drop.position, import_data }
}

// ---------------------------------------------------------------------------
// Describing a dropped item

/// A fact about a dropped path that only the file system can give.
#[derive(Debug, Clone, Copy, PartialEq, Eq)]
pub enum DropQuery {
    /// Whether the path is a directory.
    IsDirectory,
    /// The text of the file, read as UTF-8.
    ShortcutText,
    /// The shell's icon for the file, as an image address.
    FileIcon,
}

/// The facts gathered so far about a dropped path.
#[derive(Debug)]
pub struct DropFacts {
    /// Whether the path is a directory, once asked.
    pub is_dir: Option<bool>,
    /// The file's text once asked: `None` inside when it could not be read.
    pub shortcut_text: Option<Option<String>>,
    /// The shell's icon once asked: `None` inside when there is none.
    pub file_icon: Option<Option<String>>,
}

/// The content of [`DropFacts`], as plain values.
pub struct FactsModel {
    pub is_dir: Option<bool>,
    pub shortcut_text: Option<Option<Seq<char>>>,
    pub file_icon: Option<Option<Seq<char>>>,
}

impl View for DropFacts {
    type V = FactsModel;

    open spec fn view(&self) -> FactsModel {
        FactsModel {
            is_dir: self.is_dir,
            shortcut_text: match self.shortcut_text {
                Some(t) => Some(opt_view(t)),
                None => None,
            },
            file_icon: match self.file_icon {
                Some(i) => Some(opt_view(i)),
                None => None,
            },
        }
    }
}

impl DropFacts {
    /// No facts yet.
    pub fn new() -> (r: DropFacts)
        ensures
            r@.is_dir is None,
            r@.shortcut_text is None,
            r@.file_icon is None,
    {
        DropFacts { is_dir: None, shortcut_text: None, file_icon: None }
    }
}

/// Whether the facts hold the answer to a query.
pub open spec fn answered(f: FactsModel, q: DropQuery) -> bool {
    match q {
        DropQuery::IsDirectory => f.is_dir is Some,
        DropQuery::ShortcutText => f.shortcut_text is Some,
        DropQuery::FileIcon => f.file_icon is Some,
    }
}

/// One step of describing a dropped item: the outcome, or the fact still needed.
#[derive(Debug)]
pub enum DropStep {
    Finished(Result<ImportedButtonData, String>),
    Needs(DropQuery),
}

/// The content of a [`DropStep`].
pub enum StepModel {
    Finished(Result<ImportedModel, Seq<char>>),
    Needs(DropQuery),
}

impl View for DropStep {
    type V = StepModel;

    open spec fn view(&self) -> StepModel {
        match self {
            DropStep::Finished(Ok(d)) => StepModel::Finished(Ok(d@)),
            DropStep::Finished(Err(e)) => StepModel::Finished(Err(e@)),
            DropStep::Needs(q) => StepModel::Needs(*q),
        }
    }
}

/// Button data with a single action.
pub open spec fn imported(label: Seq<char>, icon: Option<Seq<char>>, action: ActionModel) -> ImportedModel {
    ImportedModel { label, icon, actions: seq![action] }
}

/// The message for an item that cannot become a button.
pub open spec fn unsupported_message() -> Seq<char> {
    "Unsupported item. Only folders, sound files, website URLs, shortcuts, and .exe applications can be dropped."@
}

/// How a dropped path becomes button data, given its file name and the facts
/// gathered so far: a web link opens the link; a folder opens the folder; an
/// Internet shortcut opens its address; a Windows shortcut opens itself; a sound
/// file plays; a program launches; anything else is refused.
pub open spec fn describe_model(path: Seq<char>, name: Option<Seq<char>>, f: FactsModel) -> StepModel {
    match web_url(path) {
        Some(url) => StepModel::Finished(
            Ok(imported(url_label(url), url_favicon(url), ActionModel::OpenUrl(url))),
        ),
        None => {
            let label = label_of_file_name(name);
            let ext = lower_extension_of(name);
            match f.is_dir {
                None => StepModel::Needs(DropQuery::IsDirectory),
                Some(true) => StepModel::Finished(
                    Ok(imported(label, Some("\u{1F4C1}"@), ActionModel::OpenFolder(path))),
                ),
                Some(false) => if ext == "url"@ || ext == "website"@ {
                    match f.shortcut_text {
                        None => StepModel::Needs(DropQuery::ShortcutText),
                        Some(text) => match (match text {
                            Some(t) => shortcut_url(t),
                            None => None,
                        }) {
                            Some(url) => StepModel::Finished(
                                Ok(imported(label, url_favicon(url), ActionModel::OpenUrl(url))),
                            ),
                            None => StepModel::Finished(
                                Err("Could not read URL from shortcut."@),
                            ),
                        },
                    }
                } else if ext == "lnk"@ {
                    match f.file_icon {
                        None => StepModel::Needs(DropQuery::FileIcon),
                        Some(icon) => StepModel::Finished(
                            Ok(
                                imported(
                                    label,
                                    Some(
                                        match icon {
                                            Some(i) => i,
                                            None => "\u{1F517}"@,
                                        },
                                    ),
                                    ActionModel::OpenUrl(path),
                                ),
                            ),
                        ),
                    }
                } else if is_audio_extension(ext) {
                    StepModel::Finished(
                        Ok(imported(label, Some("\u{1F50A}"@), ActionModel::PlaySound(path))),
                    )
                } else if ext != "exe"@ {
                    StepModel::Finished(Err(unsupported_message()))
                } else {
                    match f.file_icon {
                        None => StepModel::Needs(DropQuery::FileIcon),
                        Some(icon) => StepModel::Finished(
                            Ok(
                                imported(
                                    label,
                                    Some(
                                        match icon {
                                            Some(i) => i,
                                            None => fallback_icon(false, is_audio_extension(ext)),
                                        },
                                    ),
                                    ActionModel::LaunchApp(path, Some(Seq::<Seq<char>>::empty())),
                                ),
                            ),
                        ),
                    }
                }
            }
        },
    }
}

/// Button data with a single action.
fn single(label: String, icon: Option<String>, action: Action) -> (r: ImportedButtonData)
    ensures
        r@ == imported(label@, opt_view(icon), action@),
{
    let mut actions: Vec<Action> = Vec::new();
    actions.push(action);
    let r = ImportedButtonData { label, icon, actions };
    assert(actions_view(r.actions@) =~= seq![action@]);
    r
}

/// One step of describing the dropped `path` whose file name is `file_name`,
/// given the facts gathered so far.
pub fn describe_dropped_item(path: &str, file_name: Option<&str>, facts: &DropFacts) -> (r: DropStep)
    ensures
        r@ == describe_model(
            path@,
            match file_name {
                Some(n) => Some(n@),
                None => None,
            },
            facts@,
        ),
{
    if let Some(url) = normalize_web_url(path) {
        let label = label_for_url(url.as_str());
        let icon = favicon_for_url(url.as_str());
        return DropStep::Finished(Ok(single(label, icon, Action::OpenUrl { url })));
    }
    let label = label_from_file_name(file_name);
    let ext = extension_from_file_name(file_name);
    let e = chars_of(ext.as_str());
    proof {
        reveal_strlit("url");
        reveal_strlit("website");
        reveal_strlit("lnk");
    }
    match facts.is_dir {
        None => return DropStep::Needs(DropQuery::IsDirectory),
        Some(true) => {
            let icon = owned("\u{1F4C1}");
            return DropStep::Finished(
                Ok(single(label, Some(icon), Action::OpenFolder { path: owned(path) })),
            );
        },
        Some(false) => {},
    }
    if eq_chars(&e, &chars_of("url")) || eq_chars(&e, &chars_of("website")) {
        return match &facts.shortcut_text {
            None => DropStep::Needs(DropQuery::ShortcutText),
            Some(text) => {
                let url = match text {
                    Some(t) => shortcut_url_from_text(t.as_str()),
                    None => None,
                };
                match url {
                    Some(url) => {
                        let icon = favicon_for_url(url.as_str());
                        DropStep::Finished(Ok(single(label, icon, Action::OpenUrl { url })))
                    },
                    None => DropStep::Finished(Err(owned("Could not read URL from shortcut."))),
                }
            },
        };
    }
    if eq_chars(&e, &chars_of("lnk")) {
        return match &facts.file_icon {
            None => DropStep::Needs(DropQuery::FileIcon),
            Some(icon) => {
                let shown = match icon {
                    Some(i) => i.clone(),
                    None => owned("\u{1F517}"),
                };
                DropStep::Finished(
                    Ok(single(label, Some(shown), Action::OpenUrl { url: owned(path) })),
                )
            },
        };
    }
    let audio = is_audio_extension_text(ext.as_str());
    if audio {
        let icon = owned("\u{1F50A}");
        return DropStep::Finished(
            Ok(single(label, Some(icon), Action::PlaySound { sound: owned(path) })),
        );
    }
    if !is_application_extension(ext.as_str()) {
        return DropStep::Finished(
            Err(
                owned(
                    "Unsupported item. Only folders, sound files, website URLs, shortcuts, and .exe applications can be dropped.",
                ),
            ),
        );
    }
    match &facts.file_icon {
        None => DropStep::Needs(DropQuery::FileIcon),
        Some(icon) => {
            let shown = match icon {
                Some(i) => i.clone(),
                None => crate::files::fallback_icon_text(false, audio),
            };
            let args: Vec<String> = Vec::new();
            assert(args.deep_view() =~= Seq::<Seq<char>>::empty());
            DropStep::Finished(
                Ok(
                    single(
                        label,
                        Some(shown),
                        Action::LaunchApp { path: owned(path), args: Some(args) },
                    ),
                ),
            )
        },
    }
}

/// One step of describing a dropped path: the button data (or why there is
/// none), or the file-system fact that is still needed. The path's file name
/// comes from the platform's path rules.
pub fn describe_dropped_file(path: &str, facts: &DropFacts) -> (r: DropStep)
    ensures
        exists|name: Option<Seq<char>>|
            crate::files::is_file_name_of(path@, name) && r@ == describe_model(path@, name, facts@),
{
    let name = crate::files::path_file_name(path);
    match name {
        Some(n) => describe_dropped_item(path, Some(n.as_str()), facts),
        None => describe_dropped_item(path, None, facts),
    }
}

/// A step that asks for a fact only asks for one that is missing.
pub proof fn lemma_describe_asks_only_missing(path: Seq<char>, name: Option<Seq<char>>, f: FactsModel)
    ensures
        describe_model(path, name, f) matches StepModel::Needs(q) ==> !answered(f, q),
{
}

/// With every fact gathered, describing a dropped item is finished.
pub proof fn lemma_describe_finishes_with_all_facts(path: Seq<char>, name: Option<Seq<char>>, f: FactsModel)
    requires
        f.is_dir is Some,
        f.shortcut_text is Some,
        f.file_icon is Some,
    ensures
        describe_model(path, name, f) is Finished,
{
}

/// A dropped web link becomes a button that opens exactly that link, whatever
/// the file system says.
pub proof fn lemma_describe_web_link(path: Seq<char>, name: Option<Seq<char>>, f: FactsModel)
    requires
        web_url(path) is Some,
    ensures
        describe_model(path, name, f) == StepModel::Finished(
            Ok(
                imported(
                    url_label(web_url(path).unwrap()),
                    url_favicon(web_url(path).unwrap()),
                    ActionModel::OpenUrl(web_url(path).unwrap()),
                ),
            ),
        ),
{
}

/// Only the items that the panel supports become buttons: web links, folders,
/// Internet shortcuts, Windows shortcuts, sound files and programs. Anything
/// else that is not a folder is refused with the same message.
pub proof fn lemma_describe_accepts_only_supported(path: Seq<char>, name: Option<Seq<char>>, f: FactsModel)
    ensures
        describe_model(path, name, f) matches StepModel::Finished(Ok(_)) ==> {
            let ext = lower_extension_of(name);
            ||| web_url(path) is Some
            ||| f.is_dir == Some(true)
            ||| ext == "url"@ || ext == "website"@ || ext == "lnk"@ || ext == "exe"@
            ||| is_audio_extension(ext)
        },
        ({
            let ext = lower_extension_of(name);
            &&& web_url(path) is None
            &&& f.is_dir == Some(false)
            &&& !(ext == "url"@ || ext == "website"@ || ext == "lnk"@ || ext == "exe"@)
            &&& !is_audio_extension(ext)
        }) ==> describe_model(path, name, f) == StepModel::Finished(Err(unsupported_message())),
{
}

/// A dropped item that becomes a button gets a label that is not empty and exactly
/// one action.
pub proof fn lemma_describe_label_nonempty(path: Seq<char>, name: Option<Seq<char>>, f: FactsModel)
    requires
        crate::files::is_file_name_of(path, name),
    ensures
        describe_model(path, name, f) matches StepModel::Finished(Ok(d)) ==> d.label.len() > 0
            && d.actions.len() == 1,
{
    crate::files::lemma_label_nonempty(name);
    if let Some(u) = web_url(path) {
        crate::urls::lemma_url_label_nonempty(u);
    }
}

/// A dropped program or Windows shortcut keeps the icon the shell gives for it; the
/// fallback icon (a game controller for a program, a link for a shortcut) stands in
/// only when the shell gives none. The button is labelled from the file name and
/// launches the program, with no arguments, or opens the shortcut.
pub proof fn lemma_describe_keeps_shell_icon(path: Seq<char>, name: Option<Seq<char>>, f: FactsModel)
    requires
        web_url(path) is None,
        f.is_dir == Some(false),
        lower_extension_of(name) == "exe"@ || lower_extension_of(name) == "lnk"@,
        f.file_icon is Some,
    ensures
        describe_model(path, name, f) == StepModel::Finished(
            Ok(
                ImportedModel {
                    label: label_of_file_name(name),
                    icon: Some(
                        match f.file_icon.unwrap() {
                            Some(i) => i,
                            None => if lower_extension_of(name) == "exe"@ {
                                "\u{1F3AE}"@
                            } else {
                                "\u{1F517}"@
                            },
                        },
                    ),
                    actions: seq![
                        if lower_extension_of(name) == "exe"@ {
                            ActionModel::LaunchApp(path, Some(Seq::<Seq<char>>::empty()))
                        } else {
                            ActionModel::OpenUrl(path)
                        },
                    ],
                },
            ),
        ),
{
    reveal_strlit("exe");
    reveal_strlit("lnk");
    reveal_strlit("url");
    reveal_strlit("website");
    reveal_strlit("mp3");
    reveal_strlit("wav");
    reveal_strlit("ogg");
    reveal_strlit("m4a");
    reveal_strlit("flac");
    reveal_strlit("aac");
    reveal_strlit("\u{1F3AE}");
    let e = lower_extension_of(name);
    if e == "exe"@ {
        assert(e[0] != "lnk"@[0] && e[0] != "url"@[0] && e.len() != "website"@.len());
        crate::files::lemma_program_is_not_sound(e);
        assert(fallback_icon(false, false) == "\u{1F3AE}"@);
    } else {
        assert(e[0] != "url"@[0] && e.len() != "website"@.len());
    }
}

} // verus!
