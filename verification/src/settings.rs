//! The settings that the program runs with, and the versions of the file that
//! they are kept in.

pub mod settings_file;

use crate::fursona::Fursona;
use settings_file::{CurrentSettingsFile, LoadSettingsResult};
use vstd::prelude::*;

pub use settings_file::{SettingsFile, V1SettingsFile, V2SettingsFile, V2SettingsFileFursona};

verus! {

/// The settings as the program uses them.
#[derive(Debug)]
pub struct Settings {
    pub fursona: Vec<Fursona>,
}

impl Settings {
    /// The names of the characters, in order.
    pub open spec fn names(&self) -> Seq<Seq<char>> {
        Seq::new(self.fursona@.len(), |i: int| self.fursona@[i].name@)
    }

    /// The settings that `file` holds: its characters, in order.
    pub fn from_settings_file(file: &CurrentSettingsFile) -> (settings: Settings)
        ensures
            settings.names() == file.names(),
    {
        let mut fursona: Vec<Fursona> = Vec::new();
        let mut i: usize = 0;
        while i < file.fursona.len()
            invariant
                i <= file.fursona@.len(),
                fursona@.len() == i,
                forall|j: int| 0 <= j < i ==> (#[trigger] fursona@[j]).name@ == file.fursona@[j].name@,
            decreases file.fursona@.len() - i,
        {
            fursona.push(Fursona { name: file.fursona[i].name.clone() });
            i += 1;
        }
        Settings { fursona }
    }

    /// What to run with once loading the settings file has ended as `loaded`
    /// says, `None` standing for a file that is not there: the settings, and
    /// the file to write back, if any.
    ///
    /// A file that was loaded gives the settings, and is written back where it
    /// was brought up to the current version. Without one the settings are
    /// those of a new file, which is to be written.
    pub fn from_load(loaded: Option<LoadSettingsResult>) -> (outcome: (Settings, Option<CurrentSettingsFile>))
        ensures
            match loaded {
                Some(LoadSettingsResult::Success { file, did_migrate }) => {
                    &&& outcome.0.names() == file.names()
                    &&& outcome.1 == if did_migrate {
                        Some(file)
                    } else {
                        None
                    }
                },
                _ => {
                    &&& outcome.0.names() == V2SettingsFile::default_names()
                    &&& outcome.1 matches Some(created)
                    &&& created.names() == V2SettingsFile::default_names()
                },
            },
    {
        match loaded {
            Some(LoadSettingsResult::Success { file, did_migrate }) => {
                let parsed = Settings::from_settings_file(&file);
                if did_migrate {
                    (parsed, Some(file))
                } else {
                    (parsed, None)
                }
            },
            _ => {
                // No file was loaded, so there is a new one from scratch.
                let created_file = CurrentSettingsFile::new();
                let created = Settings::from_settings_file(&created_file);
                (created, Some(created_file))
            },
        }
    }
}

} // verus!
