use super::v2::{V2SettingsFile, V2SettingsFileFursona};
use vstd::prelude::*;

verus! {

/// The first version of the settings file: one character.
#[derive(Debug)]
pub struct V1SettingsFile {
    pub name: String,
    pub species: String,
}

impl V1SettingsFile {
    /// The same settings in the next version: the one character, by its name.
    /// The species is not kept.
    pub fn migrate(&self) -> (file: V2SettingsFile)
        ensures
            file.names() == seq![self.name@],
    {
        V2SettingsFile { fursona: vec![V2SettingsFileFursona { name: self.name.clone() }] }
    }
}

} // verus!
