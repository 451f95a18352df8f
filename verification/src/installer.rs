//! The installer window's logic: launch arguments, the progress state shown on
//! screen, and the texts and numbers it draws.
use vstd::prelude::*;

use crate::text::owned;

verus! {

/// Whether the window installs or uninstalls.
#[derive(Debug, Clone, Copy, PartialEq, Eq, Structural)]
pub enum AppMode {
    Install,
    Uninstall,
}

/// The stage that the window shows.
#[derive(Debug, Clone, Copy, PartialEq, Eq, Structural)]
pub enum ViewPhase {
    Ready,
    Preparing,
    Downloading,
    Installing,
    Removing,
    Complete,
    Failed,
}

/// Download progress: bytes so far, the expected total when known, and the speed
/// in whole bytes per second.
#[derive(Debug, Clone, Copy, PartialEq, Eq, Structural)]
pub struct DownloadView {
    pub downloaded: u64,
    pub total: Option<u64>,
    pub bytes_per_second: u64,
}

/// Everything the window draws about the installation.
#[derive(Debug)]
pub struct InstallerView {
    pub phase: ViewPhase,
    pub detail: String,
    pub status: String,
    pub install_path: String,
    pub free_space: String,
    pub download: Option<DownloadView>,
}

/// The content of an [`InstallerView`].
pub struct ViewModel {
    pub phase: ViewPhase,
    pub detail: Seq<char>,
    pub status: Seq<char>,
    pub install_path: Seq<char>,
    pub free_space: Seq<char>,
    pub download: Option<DownloadView>,
}

impl View for InstallerView {
    type V = ViewModel;

    open spec fn view(&self) -> ViewModel {
        ViewModel {
            phase: self.phase,
            detail: self.detail@,
            status: self.status@,
            install_path: self.install_path@,
            free_space: self.free_space@,
            download: self.download,
        }
    }
}

/// The detail line shown before anything starts.
pub open spec fn ready_detail(mode: AppMode) -> Seq<char> {
    match mode {
        AppMode::Install => "Ready to install Stream Pad."@,
        AppMode::Uninstall => "Ready to uninstall Stream Pad."@,
    }
}

/// The view when the window opens.
pub open spec fn initial_view(mode: AppMode, install_path: Seq<char>, free_space: Seq<char>) -> ViewModel {
    ViewModel {
        phase: ViewPhase::Ready,
        detail: ready_detail(mode),
        status: "Ready"@,
        install_path,
        free_space,
        download: None,
    }
}

/// The view after the stage changes to `phase` with the given texts; download
/// progress is kept only while downloading.
pub open spec fn with_phase(v: ViewModel, phase: ViewPhase, status: Seq<char>, detail: Seq<char>) -> ViewModel {
    ViewModel {
        phase,
        status,
        detail,
        download: if phase == ViewPhase::Downloading {
            v.download
        } else {
            None
        },
        ..v
    }
}

/// The outcome of pressing the action button: whether the work starts, and the
/// view afterwards. It starts only from `Ready`.
pub open spec fn begin_model(v: ViewModel, mode: AppMode) -> (bool, ViewModel) {
    if v.phase != ViewPhase::Ready {
        (false, v)
    } else {
        (
            true,
            match mode {
                AppMode::Install => with_phase(
                    v,
                    ViewPhase::Preparing,
                    "Preparing"@,
                    "Preparing Stream Pad setup."@,
                ),
                AppMode::Uninstall => with_phase(
                    v,
                    ViewPhase::Removing,
                    "Uninstalling"@,
                    "Please wait while we remove Stream Pad."@,
                ),
            },
        )
    }
}

/// The view while downloading.
pub open spec fn with_download(v: ViewModel, d: DownloadView) -> ViewModel {
    ViewModel {
        phase: ViewPhase::Downloading,
        status: "Downloading"@,
        detail: "Please wait while we install Stream Pad."@,
        download: Some(d),
        ..v
    }
}

/// The detail line shown when the work is done.
pub open spec fn done_detail(mode: AppMode) -> Seq<char> {
    match mode {
        AppMode::Install => "Stream Pad has been installed."@,
        AppMode::Uninstall => "Stream Pad has been removed."@,
    }
}

/// The view when the work ends: done, or failed with the error as detail.
pub open spec fn finished_view(v: ViewModel, mode: AppMode, outcome: Result<(), Seq<char>>) -> ViewModel {
    match outcome {
        Ok(()) => with_phase(v, ViewPhase::Complete, "Done"@, done_detail(mode)),
        Err(e) => with_phase(v, ViewPhase::Failed, "Failed"@, e),
    }
}

impl InstallerView {
    /// The view when the window opens, for the given install location and free space.
    pub fn new(mode: AppMode, install_path: String, free_space: String) -> (r: InstallerView)
        ensures
            r@ == initial_view(mode, install_path@, free_space@),
    {
        let detail = match mode {
            AppMode::Install => owned("Ready to install Stream Pad."),
            AppMode::Uninstall => owned("Ready to uninstall Stream Pad."),
        };
        InstallerView {
            phase: ViewPhase::Ready,
            detail,
            status: owned("Ready"),
            install_path,
            free_space,
            download: None,
        }
    }

    /// The view shown when the shared state cannot be read.
    pub fn unreadable(install_path: String, free_space: String) -> (r: InstallerView)
        ensures
            r@ == (ViewModel {
                phase: ViewPhase::Failed,
                detail: "The installer state could not be read."@,
                status: "Failed"@,
                install_path: install_path@,
                free_space: free_space@,
                download: None,
            }),
    {
        InstallerView {
            phase: ViewPhase::Failed,
            detail: owned("The installer state could not be read."),
            status: owned("Failed"),
            install_path,
            free_space,
            download: None,
        }
    }

    /// Starts the work when the window is still `Ready`; tells whether it started.
    pub fn begin(&mut self, mode: AppMode) -> (started: bool)
        ensures
            (started, final(self)@) == begin_model(old(self)@, mode),
    {
        if self.phase != ViewPhase::Ready {
            return false;
        }
        match mode {
            AppMode::Install => self.set_phase(
                ViewPhase::Preparing,
                owned("Preparing"),
                owned("Preparing Stream Pad setup."),
            ),
            AppMode::Uninstall => self.set_phase(
                ViewPhase::Removing,
                owned("Uninstalling"),
                owned("Please wait while we remove Stream Pad."),
            ),
        }
        true
    }

    /// Moves to another stage with new texts; download progress is dropped unless
    /// the new stage is `Downloading`.
    pub fn set_phase(&mut self, phase: ViewPhase, status: String, detail: String)
        ensures
            final(self)@ == with_phase(old(self)@, phase, status@, detail@),
    {
        self.phase = phase;
        self.status = status;
        self.detail = detail;
        if phase != ViewPhase::Downloading {
            self.download = None;
        }
    }

    /// Shows download progress.
    pub fn set_download_progress(&mut self, downloaded: u64, total: Option<u64>, bytes_per_second: u64)
        ensures
            final(self)@ == with_download(
                old(self)@,
                DownloadView { downloaded, total, bytes_per_second },
            ),
    {
        self.phase = ViewPhase::Downloading;
        self.status = owned("Downloading");
        self.detail = owned("Please wait while we install Stream Pad.");
        self.download = Some(DownloadView { downloaded, total, bytes_per_second });
    }

    /// Shows a failure with its reason.
    pub fn set_error(&mut self, detail: String)
        ensures
            final(self)@ == with_phase(old(self)@, ViewPhase::Failed, "Failed"@, detail@),
    {
        self.set_phase(ViewPhase::Failed, owned("Failed"), detail);
    }

    /// Shows that the installer's own setup step is running.
    pub fn set_preparing(&mut self)
        ensures
            final(self)@ == with_phase(
                old(self)@,
                ViewPhase::Preparing,
                "Preparing"@,
                "Preparing Stream Pad setup."@,
            ),
    {
        self.set_phase(ViewPhase::Preparing, owned("Preparing"), owned("Preparing Stream Pad setup."));
    }

    /// Shows that the downloaded setup is running.
    pub fn set_installing(&mut self)
        ensures
            final(self)@ == with_phase(
                old(self)@,
                ViewPhase::Installing,
                "Installing"@,
                "Please wait while we install Stream Pad."@,
            ),
    {
        self.set_phase(
            ViewPhase::Installing,
            owned("Installing"),
            owned("Please wait while we install Stream Pad."),
        );
    }

    /// Shows that the uninstaller is running.
    pub fn set_removing(&mut self)
        ensures
            final(self)@ == with_phase(
                old(self)@,
                ViewPhase::Removing,
                "Uninstalling"@,
                "Please wait while we remove Stream Pad."@,
            ),
    {
        self.set_phase(
            ViewPhase::Removing,
            owned("Uninstalling"),
            owned("Please wait while we remove Stream Pad."),
        );
    }

    /// Shows how the work ended; tells whether the window should close.
    pub fn finish(&mut self, mode: AppMode, outcome: Result<(), String>) -> (close: bool)
        ensures
            close == (outcome is Ok),
            final(self)@ == finished_view(
                old(self)@,
                mode,
                match outcome {
                    Ok(()) => Ok(()),
                    Err(e) => Err(e@),
                },
            ),
    {
        match outcome {
            Ok(()) => {
                let detail = match mode {
                    AppMode::Install => owned("Stream Pad has been installed."),
                    AppMode::Uninstall => owned("Stream Pad has been removed."),
                };
                self.set_phase(ViewPhase::Complete, owned("Done"), detail);
                true
            },
            Err(e) => {
                self.set_error(e);
                false
            },
        }
    }
}

/// The action button starts the work at most once: after a press that starts
/// it, another press starts nothing and changes nothing.
pub proof fn lemma_begin_at_most_once(v: ViewModel, mode: AppMode)
    ensures
        begin_model(v, mode).0 ==> begin_model(v, mode).1.phase != ViewPhase::Ready,
        begin_model(v, mode).0 ==> begin_model(begin_model(v, mode).1, mode) == (
            false,
            begin_model(v, mode).1,
        ),
        !begin_model(v, mode).0 ==> begin_model(v, mode).1 == v,
{
}

/// The window stays where it was told to be: every change of stage keeps the
/// install location and free space, and download progress is present exactly
/// while downloading.
pub proof fn lemma_download_only_while_downloading(
    v: ViewModel,
    phase: ViewPhase,
    status: Seq<char>,
    detail: Seq<char>,
    d: DownloadView,
)
    ensures
        with_phase(v, phase, status, detail).install_path == v.install_path,
        with_phase(v, phase, status, detail).free_space == v.free_space,
        phase != ViewPhase::Downloading ==> with_phase(v, phase, status, detail).download is None,
        with_download(v, d).phase == ViewPhase::Downloading,
        with_download(v, d).download == Some(d),
        with_phase(with_download(v, d), ViewPhase::Failed, status, detail).download is None,
{
}

} // verus!
