pub mod v1;
pub mod v2;

use vstd::prelude::*;

pub use v1::V1SettingsFile;
pub use v2::{V2SettingsFile, V2SettingsFileFursona};

verus! {

/// A settings file as it is kept, in any of its versions.
#[derive(Debug)]
pub enum SettingsFile {
    V1(V1SettingsFile),
    V2(V2SettingsFile),
}

/// The version of the settings file that the program works with.
pub type CurrentSettingsFile = V2SettingsFile;

/// How loading the settings file ended.
#[derive(Debug)]
pub enum LoadSettingsResult {
    Success { file: CurrentSettingsFile, did_migrate: bool },
    Error(String),
}

impl SettingsFile {
    /// The number of the file's version.
    pub open spec fn version(&self) -> nat {
        match self {
            SettingsFile::V1(_) => 1,
            SettingsFile::V2(_) => 2,
        }
    }
}

impl CurrentSettingsFile {
    /// Brings a settings file that was read as `loaded` says up to the current
    /// version, one version at a time, and tells whether anything had to be
    /// done. An error in reading is handed on.
    pub fn from_loaded(loaded: Result<SettingsFile, String>) -> (result: LoadSettingsResult)
        ensures
            match loaded {
                Ok(SettingsFile::V1(old_file)) => {
                    &&& result matches LoadSettingsResult::Success { file, did_migrate }
                    &&& did_migrate
                    &&& file.names() == seq![old_file.name@]
                },
                Ok(SettingsFile::V2(current_file)) => result == (LoadSettingsResult::Success {
                    file: current_file,
                    did_migrate: false,
                }),
                Err(e) => result == LoadSettingsResult::Error(e),
            },
    {
        let mut current = match loaded {
            Ok(file) => file,
            Err(e) => return LoadSettingsResult::Error(e),
        };

        let mut did_migrate = false;
        loop
            invariant
                match loaded {
                    Ok(SettingsFile::V1(old_file)) => if did_migrate {
                        current matches SettingsFile::V2(file) && file.names() == seq![old_file.name@]
                    } else {
                        current == loaded->Ok_0
                    },
                    Ok(SettingsFile::V2(_)) => !did_migrate && current == loaded->Ok_0,
                    Err(_) => false,
                },
            decreases 2 - current.version(),
        {
            current = match current {
                SettingsFile::V1(file) => {
                    did_migrate = true;
                    SettingsFile::V2(file.migrate())
                },
                SettingsFile::V2(file) => return LoadSettingsResult::Success { did_migrate, file },
            }
        }
    }
}

} // verus!
