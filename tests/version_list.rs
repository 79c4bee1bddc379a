use recrep::crashes::CrashManager;
use recrep::api::CrashError;
use recrep::{DistributionGroup, Version, VersionList};

fn version(short: &str, uploaded: &str, groups: Option<Vec<DistributionGroup>>) -> Version {
    Version {
        short_version: String::from(short),
        uploaded_at: String::from(uploaded),
        distribution_groups: groups,
    }
}

fn group(name: &str) -> DistributionGroup {
    DistributionGroup {
        id: String::from("irrelevant_ID"),
        name: String::from(name),
    }
}

#[test]
fn correct_sorting_of_version_list() {
    let version1 = Version {
        short_version: String::from("1.0"),
        uploaded_at: String::from("2019-11-16T22:29:48.000Z"),
        distribution_groups: None,
    };
    let version2 = Version {
        short_version: String::from("1.0"),
        uploaded_at: String::from("2019-11-17T22:29:48.000Z"),
        distribution_groups: None,
    };
    let version3 = Version {
        short_version: String::from("1.0"),
        uploaded_at: String::from("2019-11-18T22:29:48.000Z"),
        distribution_groups: None,
    };

    let vec = vec![version1, version2, version3];

    let latest = VersionList::latest_version(vec);
    match latest {
        Some(latest) => {
            assert_eq!(latest.uploaded_at, String::from("2019-11-18T22:29:48.000Z"))
        }
        None => panic!("There was no latest version in the returned sorted list"),
    }
}

#[test]
fn correct_version_when_filtering_by_distribution_group() {
    let distribution_group_name = "Test distribution group";

    let irrelevant_group = DistributionGroup {
        id: String::from("irrelevant_ID"),
        name: String::from("irrelevant_string"),
    };
    let irrelevant_group_copy = DistributionGroup {
        id: String::from("irrelevant_ID"),
        name: String::from("irrelevant_string"),
    };

    let relevant_group = DistributionGroup {
        id: String::from("irrelevant_ID"),
        name: String::from(distribution_group_name),
    };

    let expected_version_string = "1.1";

    let version1 = Version {
        short_version: String::from("1.0"),
        uploaded_at: String::from("2019-11-16T22:29:48.000Z"),
        distribution_groups: Some(vec![irrelevant_group]),
    };

    let version2 = Version {
        short_version: String::from(expected_version_string),
        uploaded_at: String::from("2019-11-17T22:29:48.000Z"),
        distribution_groups: Some(vec![relevant_group]),
    };
    let version3 = Version {
        short_version: String::from("1.2"),
        uploaded_at: String::from("2019-11-18T22:29:48.000Z"),
        distribution_groups: Some(vec![irrelevant_group_copy]),
    };

    let vec = vec![version1, version2, version3];

    let found_version = VersionList::latest_version_of_distribution_group(
        vec,
        distribution_group_name.to_string(),
    );
    match found_version {
        Some(found_version) => {
            assert_eq!(found_version.short_version, String::from(expected_version_string))
        }
        None => panic!("There was no latest version in the returned sorted list"),
    }
}

#[test]
fn dont_find_version_when_filtering_by_distribution_group() {
    let distribution_group_name = "Test distribution group";
    let other_distribution_group_name = "Another distribution group";

    let version1 = Version {
        short_version: String::from("1.0"),
        uploaded_at: String::from("2019-11-16T22:29:48.000Z"),
        distribution_groups: Some(vec![group(other_distribution_group_name)]),
    };

    let version2 = Version {
        short_version: String::from("1.1"),
        uploaded_at: String::from("2019-11-17T22:29:48.000Z"),
        distribution_groups: Some(vec![group(other_distribution_group_name)]),
    };
    let version3 = Version {
        short_version: String::from("1.2"),
        uploaded_at: String::from("2019-11-18T22:29:48.000Z"),
        distribution_groups: Some(vec![group(other_distribution_group_name)]),
    };

    let vec = vec![version1, version2, version3];

    let found_version = VersionList::latest_version_of_distribution_group(
        vec,
        distribution_group_name.to_string(),
    );
    match found_version {
        Some(_found_version) => {
            panic!("Should not find any version");
        }
        None => (),
    }
}

#[test]
fn latest_version_of_empty_list_is_none() {
    assert!(VersionList::latest_version(vec![]).is_none());
    assert!(VersionList::latest_version_of_distribution_group(vec![], String::from("g")).is_none());
}

#[test]
fn latest_version_ties_keep_list_order() {
    let vs = vec![
        version("a", "2019-11-16", None),
        version("b", "2019-11-18", None),
        version("c", "2019-11-18", None),
        version("d", "2019-11-17", None),
    ];
    let latest = VersionList::latest_version(vs).unwrap();
    assert_eq!(latest.short_version, "b");
}

#[test]
fn latest_version_is_lexically_greatest() {
    let vs = vec![
        version("short", "2019-11-1", None),
        version("long", "2019-11-10", None),
        version("other", "2019-11-09", None),
    ];
    assert_eq!(VersionList::latest_version(vs).unwrap().short_version, "long");
}

#[test]
fn group_search_skips_versions_without_group_data() {
    let vs = vec![
        version("1.0", "2019-11-16", Some(vec![group("beta")])),
        version("1.2", "2019-11-18", None),
        version("1.1", "2019-11-17", Some(vec![group("alpha"), group("beta")])),
    ];
    let found = VersionList::latest_version_of_distribution_group(vs, String::from("beta")).unwrap();
    assert_eq!(found.short_version, "1.1");
}

#[test]
fn group_search_ties_keep_list_order() {
    let vs = vec![
        version("x", "2019-11-18", Some(vec![group("beta")])),
        version("y", "2019-11-18", Some(vec![group("beta")])),
    ];
    let found = VersionList::latest_version_of_distribution_group(vs, String::from("beta")).unwrap();
    assert_eq!(found.short_version, "x");
}

#[test]
fn group_name_match_is_exact() {
    let groups = Some(vec![group("Beta")]);
    assert!(!VersionList::by_distribution_group(&String::from("beta"), &groups));
    assert!(VersionList::by_distribution_group(&String::from("Beta"), &groups));
    assert!(!VersionList::by_distribution_group(&String::from("Beta"), &None));
}

#[test]
fn resolve_version_reports_each_outcome() {
    let vs = vec![version("1.0", "2019-11-16", None), version("2.0", "2019-11-17", None)];
    assert_eq!(CrashManager::resolve_version(Ok(vs), None), Ok(String::from("2.0")));
    let vs = vec![version("1.0", "2019-11-16", None)];
    assert_eq!(
        CrashManager::resolve_version(Ok(vs), Some(String::from("beta"))),
        Err(CrashError::NoVersionAvailable)
    );
    assert_eq!(
        CrashManager::resolve_version(Err(CrashError::Parse), None),
        Err(CrashError::Parse)
    );
    assert_eq!(CrashManager::resolve_version(Ok(vec![]), None), Err(CrashError::NoVersionAvailable));
}
