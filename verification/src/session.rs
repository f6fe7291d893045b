//! The editor's session state and the rules its operations follow.
//!
//! An [`AppState`] owns the persistent settings together with the
//! in-memory session: the path of the current document, whether it has
//! unsaved changes, and the file the process was asked to open at launch.
//! The operations here only decide and record; the caller performs the
//! file reads and writes, hands in their outcomes, and persists the
//! settings after every operation that changed them.

use vstd::prelude::*;
use vstd::string::{StringExecFns, StrSliceExecFns};
use crate::recent::{add_recent_file_impl, remove_recent_file, spec_add_recent, spec_remove_path};
use crate::settings::{Settings, SettingsModel};
use crate::text::{push_char, FileError};

verus! {

/// Settings plus in-memory session state, created once at process start.
pub struct AppState {
    pub settings: Settings,
    pub current_file: Option<String>,
    pub modified: bool,
    pub startup_file: Option<String>,
}

/// Mathematical model of a session: paths as character sequences.
#[verifier::ext_equal]
pub ghost struct AppStateModel {
    pub settings: SettingsModel,
    pub current_file: Option<Seq<char>>,
    pub modified: bool,
    pub startup_file: Option<Seq<char>>,
}

impl View for AppState {
    type V = AppStateModel;

    open spec fn view(&self) -> AppStateModel {
        AppStateModel {
            settings: self.settings@,
            current_file: self.current_file.deep_view(),
            modified: self.modified,
            startup_file: self.startup_file.deep_view(),
        }
    }
}

/// What the session reports about the current document.
pub struct FileState {
    pub path: Option<String>,
    pub modified: bool,
    pub filename: String,
}

/// Path separators recognised when taking a file's base name.
pub open spec fn spec_is_separator(c: char) -> bool {
    c == '/' || c == '\\'
}

/// The part of a path after its last separator.
pub open spec fn spec_base_name(p: Seq<char>) -> Seq<char>
    decreases p.len(),
{
    if p.len() == 0 {
        Seq::empty()
    } else if spec_is_separator(p.last()) {
        Seq::empty()
    } else {
        spec_base_name(p.drop_last()).push(p.last())
    }
}

/// What the title bar shows for the current document: the file's base
/// name, or `Untitled` when no file is associated.
pub open spec fn spec_display_name(current_file: Option<Seq<char>>) -> Seq<char> {
    match current_file {
        Some(p) => spec_base_name(p),
        None => "Untitled"@,
    }
}

/// The window title: application name, display name, and a trailing
/// marker when the document has unsaved changes.
pub open spec fn spec_title(current_file: Option<Seq<char>>, modified: bool) -> Seq<char> {
    "Quill - "@ + spec_display_name(current_file) + (if modified {
        "*"@
    } else {
        Seq::<char>::empty()
    })
}

/// When nothing at or after `start` is a separator and `start` sits
/// right after one (or at the front), the base name is the suffix
/// starting there.
proof fn lemma_base_name_suffix(p: Seq<char>, start: int)
    requires
        0 <= start <= p.len(),
        forall|j: int| start <= j < p.len() ==> !spec_is_separator(p[j]),
        start == 0 || spec_is_separator(p[start - 1]),
    ensures
        spec_base_name(p) == p.skip(start),
    decreases p.len(),
{
    if p.len() == 0 {
        assert(p.skip(0) =~= p);
    } else if spec_is_separator(p.last()) {
        assert(start == p.len());
        assert(p.skip(start) =~= Seq::<char>::empty());
    } else {
        assert(start < p.len());
        let q = p.drop_last();
        lemma_base_name_suffix(q, start);
        assert(q.skip(start).push(p.last()) =~= p.skip(start));
    }
}

/// The base name of a path: everything after the last `/` or `\`.
pub fn base_name(path: &str) -> (r: String)
    ensures
        r@ == spec_base_name(path@),
{
    let n = path.unicode_len();
    let mut start: usize = 0;
    let mut i: usize = 0;
    while i < n
        invariant
            n == path@.len(),
            i <= n,
            start <= i,
            forall|j: int| start <= j < i ==> !spec_is_separator(path@[j]),
            start == 0 || spec_is_separator(path@[start - 1]),
        decreases n - i,
    {
        let c = path.get_char(i);
        if c == '/' || c == '\\' {
            start = i + 1;
        }
        i += 1;
    }
    proof {
        lemma_base_name_suffix(path@, start as int);
    }
    let mut out = String::new();
    let mut k: usize = start;
    while k < n
        invariant
            n == path@.len(),
            start <= k <= n,
            out@ =~= path@.subrange(start as int, k as int),
        decreases n - k,
    {
        let c = path.get_char(k);
        push_char(&mut out, c);
        proof {
            assert(out@ =~= path@.subrange(start as int, k + 1 as int));
        }
        k += 1;
    }
    proof {
        assert(out@ =~= path@.skip(start as int));
    }
    out
}

impl AppState {
    /// The session as the process starts: settings as loaded, no current
    /// file, no unsaved changes, the launch-time file still pending.
    pub fn new(settings: Settings, startup_file: Option<String>) -> (r: AppState)
        ensures
            r@ == (AppStateModel {
                settings: settings@,
                current_file: None,
                modified: false,
                startup_file: startup_file.deep_view(),
            }),
    {
        AppState { settings, current_file: None, modified: false, startup_file }
    }

    /// Start an untitled document: no current file, no unsaved changes;
    /// the returned content is empty. Settings are untouched.
    pub fn new_file(&mut self) -> (content: String)
        ensures
            final(self)@ == (AppStateModel {
                current_file: None,
                modified: false,
                ..old(self)@
            }),
            content@ == Seq::<char>::empty(),
    {
        self.current_file = None;
        self.modified = false;
        proof {
            assert(final(self)@ =~~= (AppStateModel {
                current_file: None,
                modified: false,
                ..old(self)@
            }));
        }
        String::new()
    }

    /// Record that `path` was successfully read or written: it becomes
    /// the current file, the document is unmodified, and the path moves
    /// to the front of the recent-files list.
    pub fn record_open(&mut self, path: &str)
        ensures
            final(self)@ == (AppStateModel {
                current_file: Some(path@),
                modified: false,
                settings: SettingsModel {
                    recent_files: spec_add_recent(old(self)@.settings.recent_files, path@),
                    ..old(self)@.settings
                },
                ..old(self)@
            }),
    {
        self.current_file = Some(path.to_owned());
        self.modified = false;
        add_recent_file_impl(&mut self.settings, path);
        proof {
            assert(final(self)@ =~~= (AppStateModel {
                current_file: Some(path@),
                modified: false,
                settings: SettingsModel {
                    recent_files: spec_add_recent(old(self)@.settings.recent_files, path@),
                    ..old(self)@.settings
                },
                ..old(self)@
            }));
        }
    }

    /// Record that opening a recent file failed: a missing file is
    /// dropped from the recent-files list, any other failure changes
    /// nothing. The current document is untouched either way.
    pub fn record_open_failure(&mut self, path: &str, err: &FileError)
        ensures
            final(self)@ == (AppStateModel {
                settings: SettingsModel {
                    recent_files: if err is NotFound {
                        spec_remove_path(old(self)@.settings.recent_files, path@)
                    } else {
                        old(self)@.settings.recent_files
                    },
                    ..old(self)@.settings
                },
                ..old(self)@
            }),
    {
        if err.is_not_found() {
            remove_recent_file(&mut self.settings, path);
        }
        proof {
            assert(final(self)@ =~~= (AppStateModel {
                settings: SettingsModel {
                    recent_files: if err is NotFound {
                        spec_remove_path(old(self)@.settings.recent_files, path@)
                    } else {
                        old(self)@.settings.recent_files
                    },
                    ..old(self)@.settings
                },
                ..old(self)@
            }));
        }
    }

    /// Where a plain save goes: the current file's path, or nothing when
    /// the document is untitled and a destination must be chosen first.
    pub fn save_target(&self) -> (r: Option<String>)
        ensures
            r.deep_view() == self@.current_file,
    {
        match &self.current_file {
            Some(p) => Some(p.clone()),
            None => None,
        }
    }

    /// Assign the current file directly, without any I/O: the document
    /// counts as unmodified, and an assigned path is recorded as
    /// recently used.
    pub fn set_current_file(&mut self, path: Option<String>) -> (r: Option<String>)
        ensures
            final(self)@.current_file == path.deep_view(),
            final(self)@.modified == false,
            final(self)@.startup_file == old(self)@.startup_file,
            path matches Some(p) ==> final(self)@.settings == (SettingsModel {
                recent_files: spec_add_recent(old(self)@.settings.recent_files, p@),
                ..old(self)@.settings
            }),
            path is None ==> final(self)@.settings == old(self)@.settings,
            r.deep_view() == path.deep_view(),
    {
        match path {
            Some(p) => {
                self.current_file = Some(p.clone());
                self.modified = false;
                add_recent_file_impl(&mut self.settings, p.as_str());
                Some(p)
            },
            None => {
                self.current_file = None;
                self.modified = false;
                None
            },
        }
    }

    /// What the session reports: the current path, the modified flag,
    /// and the display name shown in the title bar.
    pub fn get_file_state(&self) -> (r: FileState)
        ensures
            r.path.deep_view() == self@.current_file,
            r.modified == self@.modified,
            r.filename@ == spec_display_name(self@.current_file),
    {
        let path: Option<String> = match &self.current_file {
            Some(p) => Some(p.clone()),
            None => None,
        };
        let filename: String = match &self.current_file {
            Some(p) => base_name(p.as_str()),
            None => String::from_str("Untitled"),
        };
        FileState { path, modified: self.modified, filename }
    }

    /// Set or clear the unsaved-changes flag; nothing else moves.
    pub fn set_modified(&mut self, modified: bool)
        ensures
            final(self)@ == (AppStateModel { modified, ..old(self)@ }),
    {
        self.modified = modified;
        proof {
            assert(final(self)@ =~~= (AppStateModel { modified, ..old(self)@ }));
        }
    }

    /// Hand out the launch-time file path at most once: the first call
    /// returns it and clears it, every later call returns nothing.
    pub fn consume_startup_file(&mut self) -> (r: Option<String>)
        ensures
            r.deep_view() == old(self)@.startup_file,
            final(self)@ == (AppStateModel { startup_file: None, ..old(self)@ }),
    {
        let r = self.startup_file.take();
        proof {
            assert(final(self)@ =~~= (AppStateModel { startup_file: None, ..old(self)@ }));
        }
        r
    }

    /// Record the window geometry ahead of shutdown, so the next run
    /// restores the same size and position.
    pub fn record_geometry(&mut self, width: u32, height: u32, x: i32, y: i32)
        ensures
            final(self)@ == (AppStateModel {
                settings: SettingsModel {
                    window_width: width,
                    window_height: height,
                    window_x: Some(x),
                    window_y: Some(y),
                    ..old(self)@.settings
                },
                ..old(self)@
            }),
    {
        self.settings.window_width = width;
        self.settings.window_height = height;
        self.settings.window_x = Some(x);
        self.settings.window_y = Some(y);
        proof {
            assert(final(self)@ =~~= (AppStateModel {
                settings: SettingsModel {
                    window_width: width,
                    window_height: height,
                    window_x: Some(x),
                    window_y: Some(y),
                    ..old(self)@.settings
                },
                ..old(self)@
            }));
        }
    }

    /// The window title for the current state.
    pub fn window_title(&self) -> (r: String)
        ensures
            r@ == spec_title(self@.current_file, self@.modified),
    {
        let name: String = match &self.current_file {
            Some(p) => base_name(p.as_str()),
            None => String::from_str("Untitled"),
        };
        let mut title: String = String::from_str("Quill - ");
        title.append(name.as_str());
        if self.modified {
            title.append("*");
            proof {
                assert(title@ =~= spec_title(self@.current_file, self@.modified));
            }
        } else {
            proof {
                assert(title@ =~= spec_title(self@.current_file, self@.modified));
            }
        }
        title
    }
}

/// Marking the document modified appends exactly the trailing marker to
/// the title it would otherwise have.
pub proof fn lemma_modified_title_marker(current_file: Option<Seq<char>>)
    ensures
        spec_title(current_file, true) == spec_title(current_file, false).push('*'),
{
    reveal_strlit("*");
    assert(spec_title(current_file, true) =~= spec_title(current_file, false).push('*'));
}

} // verus!
