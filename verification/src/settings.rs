//! Persistent editor preferences and their per-field defaulting rules.
//!
//! A [`Settings`] value is what the editor persists between runs. Loading
//! is split in two: the caller parses the settings file into a
//! [`SettingsParts`] record (one `Option` per field, `None` where the file
//! lacks the key or holds an unusable value), and [`Settings::from_parts`]
//! fills every missing field with its documented default. A file that
//! cannot be parsed at all corresponds to a parts record of all `None`,
//! which yields the full default record.

use vstd::prelude::*;
use vstd::string::StringExecFns;

verus! {

/// Upper bound on the recent-files list.
pub const MAX_RECENT_FILES: usize = 10;

/// The editor's persistent preferences.
pub struct Settings {
    pub theme: String,
    pub font_size: u32,
    pub word_wrap: bool,
    pub window_width: u32,
    pub window_height: u32,
    pub window_x: Option<i32>,
    pub window_y: Option<i32>,
    pub recent_files: Vec<String>,
}

/// Mathematical model of a [`Settings`] record: strings as character
/// sequences, the recent-files list as a sequence of those.
#[verifier::ext_equal]
pub ghost struct SettingsModel {
    pub theme: Seq<char>,
    pub font_size: u32,
    pub word_wrap: bool,
    pub window_width: u32,
    pub window_height: u32,
    pub window_x: Option<i32>,
    pub window_y: Option<i32>,
    pub recent_files: Seq<Seq<char>>,
}

impl View for Settings {
    type V = SettingsModel;

    open spec fn view(&self) -> SettingsModel {
        SettingsModel {
            theme: self.theme@,
            font_size: self.font_size,
            word_wrap: self.word_wrap,
            window_width: self.window_width,
            window_height: self.window_height,
            window_x: self.window_x,
            window_y: self.window_y,
            recent_files: self.recent_files.deep_view(),
        }
    }
}

/// The default preferences record as a model value.
pub open spec fn spec_default_settings() -> SettingsModel {
    SettingsModel {
        theme: "dark"@,
        font_size: 14,
        word_wrap: true,
        window_width: 1000,
        window_height: 700,
        window_x: None,
        window_y: None,
        recent_files: Seq::empty(),
    }
}

pub fn default_theme() -> (r: String)
    ensures
        r@ == spec_default_settings().theme,
{
    String::from_str("dark")
}

pub fn default_font_size() -> (r: u32)
    ensures
        r == spec_default_settings().font_size,
{
    14
}

pub fn default_true() -> (r: bool)
    ensures
        r,
{
    true
}

pub fn default_window_width() -> (r: u32)
    ensures
        r == spec_default_settings().window_width,
{
    1000
}

pub fn default_window_height() -> (r: u32)
    ensures
        r == spec_default_settings().window_height,
{
    700
}

impl Default for Settings {
    fn default() -> (r: Settings)
        ensures
            r@ == spec_default_settings(),
    {
        let r = Settings {
            theme: default_theme(),
            font_size: default_font_size(),
            word_wrap: default_true(),
            window_width: default_window_width(),
            window_height: default_window_height(),
            window_x: None,
            window_y: None,
            recent_files: Vec::new(),
        };
        proof {
            assert(r@.recent_files =~= spec_default_settings().recent_files);
            assert(r@ =~~= spec_default_settings());
        }
        r
    }
}

/// One `Option` per settings field, as read from a settings file:
/// `None` where the key is missing or its value unusable.
pub struct SettingsParts {
    pub theme: Option<String>,
    pub font_size: Option<u32>,
    pub word_wrap: Option<bool>,
    pub window_width: Option<u32>,
    pub window_height: Option<u32>,
    pub window_x: Option<i32>,
    pub window_y: Option<i32>,
    pub recent_files: Option<Vec<String>>,
}

/// Model of a parts record.
#[verifier::ext_equal]
pub ghost struct SettingsPartsModel {
    pub theme: Option<Seq<char>>,
    pub font_size: Option<u32>,
    pub word_wrap: Option<bool>,
    pub window_width: Option<u32>,
    pub window_height: Option<u32>,
    pub window_x: Option<i32>,
    pub window_y: Option<i32>,
    pub recent_files: Option<Seq<Seq<char>>>,
}

impl View for SettingsParts {
    type V = SettingsPartsModel;

    open spec fn view(&self) -> SettingsPartsModel {
        SettingsPartsModel {
            theme: match self.theme {
                Some(t) => Some(t@),
                None => None,
            },
            font_size: self.font_size,
            word_wrap: self.word_wrap,
            window_width: self.window_width,
            window_height: self.window_height,
            window_x: self.window_x,
            window_y: self.window_y,
            recent_files: match self.recent_files {
                Some(l) => Some(l.deep_view()),
                None => None,
            },
        }
    }
}

/// The settings record that a parts record denotes: each present field
/// keeps its value, each absent field takes its default.
pub open spec fn spec_from_parts(p: SettingsPartsModel) -> SettingsModel {
    SettingsModel {
        theme: match p.theme {
            Some(t) => t,
            None => spec_default_settings().theme,
        },
        font_size: match p.font_size {
            Some(v) => v,
            None => spec_default_settings().font_size,
        },
        word_wrap: match p.word_wrap {
            Some(v) => v,
            None => spec_default_settings().word_wrap,
        },
        window_width: match p.window_width {
            Some(v) => v,
            None => spec_default_settings().window_width,
        },
        window_height: match p.window_height {
            Some(v) => v,
            None => spec_default_settings().window_height,
        },
        window_x: p.window_x,
        window_y: p.window_y,
        recent_files: match p.recent_files {
            Some(l) => l,
            None => spec_default_settings().recent_files,
        },
    }
}

/// The parts record that stores every field of a settings record.
pub open spec fn spec_to_parts(s: SettingsModel) -> SettingsPartsModel {
    SettingsPartsModel {
        theme: Some(s.theme),
        font_size: Some(s.font_size),
        word_wrap: Some(s.word_wrap),
        window_width: Some(s.window_width),
        window_height: Some(s.window_height),
        window_x: s.window_x,
        window_y: s.window_y,
        recent_files: Some(s.recent_files),
    }
}

impl Settings {
    /// Build a settings record from whatever fields a settings file
    /// yielded: present fields keep their value, missing ones default.
    pub fn from_parts(parts: SettingsParts) -> (r: Settings)
        ensures
            r@ == spec_from_parts(parts@),
    {
        let r = Settings {
            theme: match parts.theme {
                Some(t) => t,
                None => default_theme(),
            },
            font_size: match parts.font_size {
                Some(v) => v,
                None => default_font_size(),
            },
            word_wrap: match parts.word_wrap {
                Some(v) => v,
                None => default_true(),
            },
            window_width: match parts.window_width {
                Some(v) => v,
                None => default_window_width(),
            },
            window_height: match parts.window_height {
                Some(v) => v,
                None => default_window_height(),
            },
            window_x: parts.window_x,
            window_y: parts.window_y,
            recent_files: match parts.recent_files {
                Some(l) => l,
                None => Vec::new(),
            },
        };
        proof {
            assert(r@ =~~= spec_from_parts(parts@));
        }
        r
    }

    /// Decompose a settings record into the parts a settings file stores.
    pub fn to_parts(self) -> (r: SettingsParts)
        ensures
            r@ == spec_to_parts(self@),
    {
        let r = SettingsParts {
            theme: Some(self.theme),
            font_size: Some(self.font_size),
            word_wrap: Some(self.word_wrap),
            window_width: Some(self.window_width),
            window_height: Some(self.window_height),
            window_x: self.window_x,
            window_y: self.window_y,
            recent_files: Some(self.recent_files),
        };
        proof {
            assert(r@ =~~= spec_to_parts(self@));
        }
        r
    }
}

impl Settings {
    /// Choose the colour theme.
    pub fn set_theme(&mut self, theme: String)
        ensures
            final(self)@ == (SettingsModel { theme: theme@, ..old(self)@ }),
    {
        self.theme = theme;
        proof {
            assert(final(self)@ =~~= (SettingsModel { theme: theme@, ..old(self)@ }));
        }
    }

    /// Set the font size; out-of-range requests are clamped into the
    /// accepted range. Returns the size actually stored.
    pub fn set_font_size(&mut self, size: u32) -> (r: u32)
        ensures
            final(self)@ == (SettingsModel {
                font_size: crate::spec_clamp_font_size(size),
                ..old(self)@
            }),
            r == crate::spec_clamp_font_size(size),
    {
        self.font_size = crate::clamp_font_size(size);
        proof {
            assert(final(self)@ =~~= (SettingsModel {
                font_size: crate::spec_clamp_font_size(size),
                ..old(self)@
            }));
        }
        self.font_size
    }

    /// Switch word wrapping on or off.
    pub fn set_word_wrap(&mut self, enabled: bool)
        ensures
            final(self)@ == (SettingsModel { word_wrap: enabled, ..old(self)@ }),
    {
        self.word_wrap = enabled;
        proof {
            assert(final(self)@ =~~= (SettingsModel { word_wrap: enabled, ..old(self)@ }));
        }
    }

    /// Flip word wrapping; returns the new state.
    pub fn toggle_word_wrap(&mut self) -> (r: bool)
        ensures
            final(self)@ == (SettingsModel { word_wrap: !old(self)@.word_wrap, ..old(self)@ }),
            r == !old(self)@.word_wrap,
    {
        self.word_wrap = !self.word_wrap;
        proof {
            assert(final(self)@ =~~= (SettingsModel {
                word_wrap: !old(self)@.word_wrap,
                ..old(self)@
            }));
        }
        self.word_wrap
    }

    /// Store the window size to restore on the next run.
    pub fn set_window_size(&mut self, width: u32, height: u32)
        ensures
            final(self)@ == (SettingsModel {
                window_width: width,
                window_height: height,
                ..old(self)@
            }),
    {
        self.window_width = width;
        self.window_height = height;
        proof {
            assert(final(self)@ =~~= (SettingsModel {
                window_width: width,
                window_height: height,
                ..old(self)@
            }));
        }
    }

    /// Store the window position to restore on the next run.
    pub fn set_window_position(&mut self, x: i32, y: i32)
        ensures
            final(self)@ == (SettingsModel {
                window_x: Some(x),
                window_y: Some(y),
                ..old(self)@
            }),
    {
        self.window_x = Some(x);
        self.window_y = Some(y);
        proof {
            assert(final(self)@ =~~= (SettingsModel {
                window_x: Some(x),
                window_y: Some(y),
                ..old(self)@
            }));
        }
    }

    /// The stored window position to restore at startup: present only
    /// when both coordinates were saved (a first run has neither).
    pub fn restore_position(&self) -> (r: Option<(i32, i32)>)
        ensures
            r matches Some(p) ==> self@.window_x == Some(p.0) && self@.window_y == Some(p.1),
            r is None <==> (self@.window_x is None || self@.window_y is None),
    {
        match (self.window_x, self.window_y) {
            (Some(x), Some(y)) => Some((x, y)),
            _ => None,
        }
    }

    /// A copy of the recent-files list, most recent first.
    pub fn get_recent_files(&self) -> (r: Vec<String>)
        ensures
            r.deep_view() == self@.recent_files,
    {
        let mut out: Vec<String> = Vec::new();
        let mut i: usize = 0;
        while i < self.recent_files.len()
            invariant
                i <= self.recent_files.len(),
                out.deep_view() =~= self.recent_files.deep_view().take(i as int),
            decreases self.recent_files.len() - i,
        {
            let ghost out_before = out.deep_view();
            let ghost l = self.recent_files.deep_view();
            let entry: &String = &self.recent_files[i];
            out.push(entry.clone());
            proof {
                assert(out@.last() == *entry);
                assert(out.deep_view() =~= out_before.push(entry@));
                assert(entry@ == l[i as int]);
                assert(l.take(i + 1 as int) =~= l.take(i as int).push(l[i as int]));
                assert(out.deep_view() =~= l.take(i + 1 as int));
            }
            i += 1;
        }
        proof {
            assert(out.deep_view() =~= self.recent_files.deep_view());
        }
        out
    }
}

/// A parts record with every field present denotes exactly the settings
/// it was taken from: storing a record and reading it back loses nothing.
pub proof fn lemma_parts_roundtrip(s: SettingsModel)
    ensures
        spec_from_parts(spec_to_parts(s)) == s,
{
}

/// A parts record with no field at all (an absent or unparsable settings
/// file) denotes the full default record.
pub proof fn lemma_all_absent_gives_defaults()
    ensures
        spec_from_parts(
            SettingsPartsModel {
                theme: None,
                font_size: None,
                word_wrap: None,
                window_width: None,
                window_height: None,
                window_x: None,
                window_y: None,
                recent_files: None,
            },
        ) == spec_default_settings(),
{
}

} // verus!
