use vstd::prelude::*;
use vstd::string::StringExecFns;
use crate::api::{CrashError, API};
use crate::model::{CrashList, ErrorGroup, Report, Version};
use crate::version_list::{eligible, is_first_latest, VersionList};

verus! {

/// The text of an optional group name.
pub open spec fn group_text(g: Option<String>) -> Option<Seq<char>> {
    match g {
        Some(name) => Some(name@),
        None => None,
    }
}

/// Whether `version` is the version that selection picks (newest of the group `group`, where
/// given, first among equally new ones) from some list of releases.
pub open spec fn picked_from_some_list(version: String, group: Option<Seq<char>>) -> bool {
    exists|vs: Seq<Version>, i: int| is_first_latest(vs, i, group) && version == vs[i].short_version
}

/// Fetches crash data from the crash service and shapes it into reports.
pub struct CrashManager {}

impl CrashManager {
    /// Fetches the crash groups of a version. Without `version`, the newest version (of
    /// `distribution_group`, where one is given) is looked up first.
    pub fn crash_list<A: API>(
        &self,
        api: &A,
        organization: &str,
        application: &str,
        version: Option<String>,
        distribution_group: Option<String>,
    ) -> (r: Result<Report, CrashError>)
        ensures
            version is Some && r is Ok ==> r->Ok_0.version == version->0,
            version is None && r is Ok ==> picked_from_some_list(r->Ok_0.version, group_text(distribution_group)),
    {
        match version {
            Some(version) => self.crash_list_for_version(
                api,
                String::from_str(organization),
                String::from_str(application),
                version,
            ),
            None => self.crash_list_for_latest_version(
                api,
                String::from_str(organization),
                String::from_str(application),
                distribution_group,
            ),
        }
    }

    /// The report that a crash lookup for `version` answered with `crashes` makes.
    pub fn report_for_version(version: String, crashes: Result<CrashList, CrashError>) -> (r: Result<
        Report,
        CrashError,
    >)
        ensures
            match crashes {
                Ok(list) => r == Ok::<Report, CrashError>(Report { version, crash_list: list }),
                Err(e) => r == Err::<Report, CrashError>(e),
            },
    {
        match crashes {
            Ok(list) => Ok(Report::new(version, list)),
            Err(e) => Err(e),
        }
    }

    /// The version to report on, from the answer `releases` of a release lookup: the newest
    /// (of `distribution_group`, where one is given), first among equally new ones.
    pub fn resolve_version(
        releases: Result<Vec<Version>, CrashError>,
        distribution_group: Option<String>,
    ) -> (r: Result<String, CrashError>)
        ensures
            match releases {
                Ok(vs) => match r {
                    Ok(v) => exists|i: int|
                        is_first_latest(
                            vs@,
                            i,
                            match distribution_group { Some(g) => Some(g@), None => None },
                        ) && v == vs@[i].short_version,
                    Err(e) => e == CrashError::NoVersionAvailable && forall|j: int|
                        0 <= j < vs@.len() ==> !eligible(
                            #[trigger] vs@[j],
                            match distribution_group { Some(g) => Some(g@), None => None },
                        ),
                },
                Err(e) => r == Err::<String, CrashError>(e),
            },
    {
        match releases {
            Ok(versions) => {
                let latest = match distribution_group {
                    Some(group) => VersionList::latest_version_of_distribution_group(versions, group),
                    None => VersionList::latest_version(versions),
                };
                match latest {
                    Some(v) => Ok(v.short_version),
                    None => Err(CrashError::NoVersionAvailable),
                }
            },
            Err(e) => Err(e),
        }
    }

    /// Fetches the crash groups of `version`.
    fn crash_list_for_version<A: API>(
        &self,
        api: &A,
        organization: String,
        application: String,
        version: String,
    ) -> (r: Result<Report, CrashError>)
        ensures
            r is Ok ==> r->Ok_0.version == version,
    {
        let crashes = api.error_groups(organization, application, version.clone());
        CrashManager::report_for_version(version, crashes)
    }

    /// Looks up the newest version, then fetches its crash groups.
    fn crash_list_for_latest_version<A: API>(
        &self,
        api: &A,
        organization: String,
        application: String,
        distribution_group: Option<String>,
    ) -> (r: Result<Report, CrashError>)
        ensures
            r is Ok ==> picked_from_some_list(r->Ok_0.version, group_text(distribution_group)),
    {
        let releases = api.recent_releases(organization.clone(), application.clone());
        let ghost answer = releases;
        match CrashManager::resolve_version(releases, distribution_group) {
            Ok(version) => {
                proof {
                    let vs = answer->Ok_0@;
                    let i = choose|i: int| is_first_latest(vs, i, group_text(distribution_group)) && version == vs[i].short_version;
                }
                self.crash_list_for_version(api, organization, application, version)
            },
            Err(e) => Err(e),
        }
    }

    /// Fetches the per-system breakdown of the error group `error_group_id`.
    pub fn error_group_details<A: API>(
        &self,
        api: &A,
        error_group_id: &str,
        application: &str,
        organization: &str,
    ) -> (r: Result<ErrorGroup, CrashError>) {
        api.os_versions(organization, application, error_group_id)
    }
}

} // verus!
