use vstd::prelude::*;
use vstd::string::StringExecFns;
use crate::model::{CrashList, ErrorGroup, Version};

verus! {

/// Why crash data could not be had.
#[derive(Debug, Clone, Copy, PartialEq, Eq, Structural)]
pub enum CrashError {
    /// The crash service could not be reached, or did not answer.
    Retrieval,
    /// The answer did not have the expected shape, as when no app exists for the given
    /// organization, name and version.
    Parse,
    /// No version was given and none could be selected.
    NoVersionAvailable,
}

/// The description of an error for people.
pub open spec fn message_text(e: CrashError) -> Seq<char> {
    match e {
        CrashError::Retrieval => "Failed to get crashes json from API."@,
        CrashError::Parse => "\u{1F4A5} Failed to parse json into crash list. This happens when there is no app for the given organization, name and version."@,
        CrashError::NoVersionAvailable => "\u{1F4A5} Failed to get the latest version. Cannot get crashes without a version."@,
    }
}

impl CrashError {
    /// A description for people.
    pub fn message(&self) -> (r: &'static str)
        ensures
            r@ == message_text(*self),
    {
        match self {
            CrashError::Retrieval => "Failed to get crashes json from API.",
            CrashError::Parse => "\u{1F4A5} Failed to parse json into crash list. This happens when there is no app for the given organization, name and version.",
            CrashError::NoVersionAvailable => "\u{1F4A5} Failed to get the latest version. Cannot get crashes without a version.",
        }
    }
}

/// The crash service, as the report pipeline uses it. Each call is one request; answers come
/// decoded into the library's types.
pub trait API: Sized {
    /// A client that authenticates with `token`.
    fn new(token: String) -> Self;

    /// The recent releases of an app.
    fn recent_releases(&self, organization: String, application: String) -> Result<Vec<Version>, CrashError>;

    /// The crash groups of one version of an app.
    fn error_groups(
        &self,
        organization: String,
        application: String,
        version: String,
    ) -> Result<CrashList, CrashError>;

    /// The per-system breakdown of one error group.
    fn os_versions(
        &self,
        organization: &str,
        application: &str,
        error_group_id: &str,
    ) -> Result<ErrorGroup, CrashError>;
}

/// A stand-in for the crash service that answers from fixed data.
pub struct MockAPI {
    pub crashes: Option<CrashList>,
}

impl MockAPI {
    /// A mock whose crash lookups answer with `crashes`.
    pub fn with_crashes_json(crashes: CrashList) -> (r: MockAPI)
        ensures
            r.crashes == Some(crashes),
    {
        MockAPI { crashes: Some(crashes) }
    }
}

impl API for MockAPI {
    fn new(_token: String) -> MockAPI {
        MockAPI { crashes: None }
    }

    fn recent_releases(&self, _organization: String, _application: String) -> Result<Vec<Version>, CrashError> {
        let mut versions: Vec<Version> = Vec::new();
        versions.push(
            Version {
                short_version: String::from_str("1.2.3"),
                uploaded_at: String::new(),
                distribution_groups: None,
            },
        );
        Ok(versions)
    }

    fn error_groups(
        &self,
        _organization: String,
        _application: String,
        _version: String,
    ) -> Result<CrashList, CrashError> {
        match &self.crashes {
            Some(list) => Ok(list.duplicate()),
            None => Err(CrashError::Retrieval),
        }
    }

    fn os_versions(
        &self,
        _organization: &str,
        _application: &str,
        _error_group_id: &str,
    ) -> Result<ErrorGroup, CrashError> {
        Err(CrashError::Retrieval)
    }
}

} // verus!
