//! Initialization options handed to the language server at startup.

use vstd::prelude::*;

use crate::resolve::ArturoExtension;

verus! {

/// The fixed capability flags of the variant that enables every feature.
pub struct CapabilityOptions {
    pub type_checking: bool,
    pub definitions: bool,
    pub hover: bool,
}

/// The pass-through envelope: the host's configuration blob for the
/// current project, if the host had one. The blob's text is opaque here;
/// the spawned server interprets it.
pub struct SettingsOptions {
    pub settings: Option<String>,
}

/// The fixed initialization options: type checking, definitions and hover
/// all enabled.
pub fn fixed_initialization_options() -> (r: CapabilityOptions)
    ensures
        r.type_checking,
        r.definitions,
        r.hover,
{
    CapabilityOptions { type_checking: true, definitions: true, hover: true }
}

impl ArturoExtension {
    /// Chooses the initialization options from the host's settings lookup:
    /// the settings blob when the lookup succeeded and held one, nothing
    /// otherwise. A failed lookup is not an error; the server then starts
    /// with no settings.
    pub fn language_server_initialization_options(
        &self,
        host_settings: Result<Option<String>, String>,
    ) -> (r: SettingsOptions)
        ensures
            host_settings is Ok ==> r.settings == host_settings->Ok_0,
            host_settings is Err ==> r.settings is None,
    {
        match host_settings {
            Ok(s) => SettingsOptions { settings: s },
            Err(_) => SettingsOptions { settings: None },
        }
    }
}

} // verus!
