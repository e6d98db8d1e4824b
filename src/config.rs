//! Window settings of the host program and what it does with them: defaults
//! where no settings could be read, the fullscreen toggle, the keys it answers.
use vstd::prelude::*;

use crate::builder::or_else;

verus! {

/// The window record kept in the settings file. `res` is width and height in
/// pixels; each flag may be absent.
#[derive(Clone, Copy, Debug, PartialEq, Eq)]
pub struct WindowSettings {
    pub res: [u32; 2],
    pub fullscreen: Option<bool>,
    pub borderless: Option<bool>,
    pub resizable: Option<bool>,
}

/// The window the host opens: each flag that the settings leave absent is off.
#[derive(Clone, Copy, Debug, PartialEq, Eq, Structural)]
pub struct WindowMode {
    pub width: u32,
    pub height: u32,
    pub fullscreen: bool,
    pub borderless: bool,
    pub resizable: bool,
}

/// The settings, and the path they were loaded from and are saved to.
#[derive(Clone, Debug)]
pub struct Config {
    pub window: WindowSettings,
    pub source_file: Option<String>,
}

/// A key as far as the host reacts to it.
#[derive(Clone, Copy, Debug, PartialEq, Eq, Structural)]
pub enum Key {
    Escape,
    F,
    Other,
}

/// What the host does after a key press.
#[derive(Clone, Copy, Debug, PartialEq, Eq, Structural)]
pub enum KeyCommand {
    /// End the program.
    Quit,
    /// Write the settings back to their file.
    Save,
    /// Nothing more.
    Ignore,
}

/// The settings used where none could be read: a 500 by 500 window, not
/// fullscreen, borderless and resizable.
pub open spec fn default_settings_spec() -> WindowSettings {
    WindowSettings {
        res: [500, 500],
        fullscreen: Some(false),
        borderless: Some(true),
        resizable: Some(true),
    }
}

/// The settings used where none could be read: a 500 by 500 window, not
/// fullscreen, borderless and resizable.
pub fn default_settings() -> (r: WindowSettings)
    ensures
        r == default_settings_spec(),
{
    WindowSettings { res: [500, 500], fullscreen: Some(false), borderless: Some(true), resizable: Some(true) }
}

/// The settings that `load` keeps, given what was parsed from the file.
pub open spec fn loaded_window(parsed: Option<WindowSettings>) -> WindowSettings {
    match parsed {
        Some(s) => s,
        None => default_settings_spec(),
    }
}

/// Loading what a configuration holds gives back its settings: whatever
/// settings record `c` holds, handing it to `load` as the parsed content keeps
/// it unchanged.
pub proof fn lemma_reload_keeps_window(c: Config)
    ensures
        loaded_window(Some(c.window)) == c.window,
{
}

/// The configuration for the settings file at `file`, given what could be read
/// and parsed from it: `Some(settings)` where the file was read and parsed,
/// `None` where it could not be read or parsed, in which case the defaults
/// stand. Either way `file` is where the settings are saved.
pub fn load(file: &str, parsed: Option<WindowSettings>) -> (r: Config)
    ensures
        r.window == loaded_window(parsed),
        r.source_file.is_some() && r.source_file.unwrap()@ == file@,
{
    let window = match parsed {
        Some(s) => s,
        None => default_settings(),
    };
    Config { window, source_file: Some(file.to_owned()) }
}

impl WindowSettings {
    /// The window to open: width and height from `res`, and each absent flag off.
    pub fn window_mode(&self) -> (r: WindowMode)
        ensures
            r == (WindowMode {
                width: self.res[0],
                height: self.res[1],
                fullscreen: or_else(self.fullscreen, false),
                borderless: or_else(self.borderless, false),
                resizable: or_else(self.resizable, false),
            }),
    {
        WindowMode {
            width: self.res[0],
            height: self.res[1],
            fullscreen: match self.fullscreen {
                Some(b) => b,
                None => false,
            },
            borderless: match self.borderless {
                Some(b) => b,
                None => false,
            },
            resizable: match self.resizable {
                Some(b) => b,
                None => false,
            },
        }
    }

    /// Switches fullscreen: on where it was off or absent, off where it was on.
    pub fn toggle_fullscreen(&mut self)
        ensures
            final(self).fullscreen == Some(!or_else(old(self).fullscreen, false)),
            final(self).res == old(self).res,
            final(self).borderless == old(self).borderless,
            final(self).resizable == old(self).resizable,
    {
        let on = match self.fullscreen {
            Some(b) => b,
            None => false,
        };
        self.fullscreen = Some(!on);
    }
}

impl Config {
    /// Sets the path that the settings are saved to.
    pub fn set_source(&mut self, file: String)
        ensures
            final(self).source_file == Some(file),
            final(self).window == old(self).window,
    {
        self.source_file = Some(file);
    }

    /// Answers a key press: Escape quits; F switches fullscreen, and the
    /// settings are then to be saved; any other key changes nothing.
    pub fn key_down(&mut self, key: Key) -> (r: KeyCommand)
        ensures
            r == (match key {
                Key::Escape => KeyCommand::Quit,
                Key::F => KeyCommand::Save,
                Key::Other => KeyCommand::Ignore,
            }),
            key == Key::F ==> final(self).window == (WindowSettings {
                fullscreen: Some(!or_else(old(self).window.fullscreen, false)),
                ..old(self).window
            }),
            key != Key::F ==> final(self).window == old(self).window,
            final(self).source_file == old(self).source_file,
    {
        match key {
            Key::Escape => KeyCommand::Quit,
            Key::F => {
                self.window.toggle_fullscreen();
                KeyCommand::Save
            },
            Key::Other => KeyCommand::Ignore,
        }
    }
}

} // verus!
