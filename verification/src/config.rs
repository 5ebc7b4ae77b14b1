//! The settings that the surrounding program hands to the library.

use vstd::prelude::*;

verus! {

/// Where the program keeps its files, and which cipher it asks for.
#[derive(Clone, Debug, PartialEq, Eq)]
pub struct Settings {
    /// Directory in which the key file is kept.
    pub key_path: String,
    /// Path of the configuration file, without its extension.
    pub config_path: String,
    /// Name of the cipher that the configuration asks for.
    pub encryption_standard: String,
}

impl Default for Settings {
    /// The settings of a program that configures nothing: the key file in the
    /// working directory, the configuration under `config/default`, AES-256 in
    /// CBC mode.
    fn default() -> (settings: Settings)
        ensures
            settings.key_path@ == "."@,
            settings.config_path@ == "config/default"@,
            settings.encryption_standard@ == "AES-256-CBC"@,
    {
        Settings {
            key_path: ".".to_owned(),
            config_path: "config/default".to_owned(),
            encryption_standard: "AES-256-CBC".to_owned(),
        }
    }
}

} // verus!
