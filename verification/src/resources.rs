//! The application's persisted settings.

use vstd::prelude::*;

verus! {

/// What the application remembers between runs.
#[derive(Copy, Clone, Debug, PartialEq, Eq, Structural)]
pub struct AppSettings {
    /// Index of the microphone to record from.
    pub selected_mic: u32,
}

impl Default for AppSettings {
    fn default() -> (r: Self)
        ensures
            r.selected_mic == 0,
    {
        AppSettings { selected_mic: 0 }
    }
}

/// The settings the running application works with.
pub struct InnerResources {
    pub app_settings: AppSettings,
}

/// The application's shared resources.
pub struct Resources(pub InnerResources);

impl Resources {
    /// Resources from the settings file's contents: the settings it parsed
    /// to, or the defaults where it did not parse; the flag says whether the
    /// defaults must be written back to the file.
    pub fn init(parsed: Option<AppSettings>) -> (r: (Resources, bool))
        ensures
            match parsed {
                Some(s) => r.0.0.app_settings == s && !r.1,
                None => r.0.0.app_settings.selected_mic == 0 && r.1,
            },
    {
        match parsed {
            Some(app_settings) => (Resources(InnerResources { app_settings }), false),
            None => (Resources(InnerResources { app_settings: AppSettings::default() }), true),
        }
    }

    /// The current settings, as the settings file should hold them.
    pub fn settings(&self) -> (r: AppSettings)
        ensures
            r == self.0.app_settings,
    {
        self.0.app_settings
    }

    /// The user switched microphone `index` on. Returns whether the
    /// settings changed, in which case the settings file must be updated;
    /// switching on the selected microphone changes nothing.
    pub fn select_mic(&mut self, index: usize) -> (changed: bool)
        ensures
            changed == (index != old(self).0.app_settings.selected_mic as usize),
            changed ==> final(self).0.app_settings.selected_mic == index as u32,
            !changed ==> final(self).0.app_settings == old(self).0.app_settings,
    {
        if index == self.0.app_settings.selected_mic as usize {
            false
        } else {
            self.0.app_settings.selected_mic = #[verifier::truncate] (index as u32);
            true
        }
    }
}

} // verus!
