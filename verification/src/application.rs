//! What an application tells the driver of itself.
pub mod api_version;

pub use self::api_version::ApiVersion;
use vstd::prelude::*;

verus! {

/// The names and versions of an application and its engine, and the version
/// of the interface that it was written for.
#[derive(Debug, PartialEq, Eq)]
pub struct ApplicationInfo {
    pub application_name: String,
    pub application_version: u32,
    pub engine_name: String,
    pub engine_version: u32,
    pub api_version: ApiVersion,
}

impl Default for ApplicationInfo {
    /// An application and an engine of version one, for the first version of
    /// the interface.
    fn default() -> (info: ApplicationInfo)
        ensures
            info.application_name@ == "Easy Ash Application"@,
            info.application_version == 1,
            info.engine_name@ == "Easy Ash Engine"@,
            info.engine_version == 1,
            info.api_version == (ApiVersion { variant: 0, major: 1, minor: 0, patch: 0 }),
    {
        Self {
            application_name: "Easy Ash Application".to_owned(),
            application_version: 1,
            engine_name: "Easy Ash Engine".to_owned(),
            engine_version: 1,
            api_version: ApiVersion::new(0, 1, 0, 0),
        }
    }
}

impl ApplicationInfo {
    /// The same, with the application's name.
    pub fn with_application_name(self, application_name: &str) -> (info: ApplicationInfo)
        ensures
            info.application_name@ == application_name@,
            info.application_version == self.application_version,
            info.engine_name == self.engine_name,
            info.engine_version == self.engine_version,
            info.api_version == self.api_version,
    {
        let mut info = self;
        info.application_name = application_name.to_owned();
        info
    }

    /// The same, with the application's version.
    pub fn with_application_version(self, application_version: u32) -> (info: ApplicationInfo)
        ensures
            info == (ApplicationInfo { application_version, ..self }),
    {
        let mut info = self;
        info.application_version = application_version;
        info
    }

    /// The same, with the engine's name.
    pub fn with_engine_name(self, engine_name: &str) -> (info: ApplicationInfo)
        ensures
            info.application_name == self.application_name,
            info.application_version == self.application_version,
            info.engine_name@ == engine_name@,
            info.engine_version == self.engine_version,
            info.api_version == self.api_version,
    {
        let mut info = self;
        info.engine_name = engine_name.to_owned();
        info
    }

    /// The same, with the engine's version.
    pub fn with_engine_version(self, engine_version: u32) -> (info: ApplicationInfo)
        ensures
            info == (ApplicationInfo { engine_version, ..self }),
    {
        let mut info = self;
        info.engine_version = engine_version;
        info
    }

    /// The same, with the version of the interface.
    pub fn with_api_version(self, api_version: ApiVersion) -> (info: ApplicationInfo)
        ensures
            info == (ApplicationInfo { api_version, ..self }),
    {
        let mut info = self;
        info.api_version = api_version;
        info
    }

    /// The version of the interface as the one number that the driver takes.
    pub fn encoded_api_version(&self) -> (version: u32)
        ensures
            version == self.api_version.encoded(),
    {
        self.api_version.encode()
    }
}

} // verus!
