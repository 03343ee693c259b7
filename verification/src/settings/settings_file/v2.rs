use vstd::prelude::*;

verus! {

/// A character in the second version of the settings file.
#[derive(Debug)]
pub struct V2SettingsFileFursona {
    pub name: String,
}

/// The second version of the settings file: any number of characters.
#[derive(Debug)]
pub struct V2SettingsFile {
    pub fursona: Vec<V2SettingsFileFursona>,
}

impl V2SettingsFile {
    /// The names of the characters, in order.
    pub open spec fn names(&self) -> Seq<Seq<char>> {
        Seq::new(self.fursona@.len(), |i: int| self.fursona@[i].name@)
    }

    /// The names of the characters of a new file: the one character "Jack".
    pub open spec fn default_names() -> Seq<Seq<char>> {
        seq!["Jack"@]
    }

    /// A new settings file, with the one character "Jack".
    pub fn new() -> (file: V2SettingsFile)
        ensures
            file.names() == V2SettingsFile::default_names(),
    {
        V2SettingsFile { fursona: vec![V2SettingsFileFursona { name: "Jack".to_owned() }] }
    }
}

} // verus!
