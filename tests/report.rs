use std::cell::RefCell;

use recrep::api::{CrashError, MockAPI, API};
use recrep::crashes::CrashManager;
use recrep::output::{Printing, Writing};
use recrep::transform::{
    arithmetic_mean, filter_out_errors, keep_at_least, os_summary, threshold_percentage,
    threshold_reached,
};
use recrep::{Crash, CrashList, CrashReporter, OperatingSystemCount, Report};

fn crash(id: Option<&str>, count: Option<u64>, app_code: Option<bool>) -> Crash {
    Crash {
        exception_method: None,
        app_version: Some(String::from("1.2.3")),
        app_build: Some(String::from("42")),
        first_occurrence: Some(String::from("2019-11-16T22:29:48Z")),
        exception_file: None,
        exception_classname: None,
        error_group_id: id.map(String::from),
        device_count: None,
        exception_app_code: app_code,
        count,
        operating_systems: None,
    }
}

fn os(name: &str, count: u64) -> OperatingSystemCount {
    OperatingSystemCount { name: String::from(name), count }
}

fn reporter(threshold: Option<u64>, mean: bool, show_os: bool, omit_errors: bool) -> CrashReporter {
    CrashReporter::with_token("abc", "org name", "app id", None, None, threshold, mean, show_os, omit_errors)
}

fn report(crashes: Vec<Crash>) -> Report {
    Report::new(String::from("version"), CrashList { crashes })
}

const HEADER: &str = "\nHello everyone!\n\nThis is the crash newsletter of vversion\n\nIf your team is assigned to take a look at a certain crash but decides to not to be responsible for handling the crash, please forward it \nto another team or the community yourself.\nPlease be proactive to raise awareness of crashes among the community - especially if your team can't address a crash at hand on its own.\n\n";

const FOOTER: &str = "\n\n\nHaven't found your section above? Please checkout the rest of the crashes in the diagnostics overview: https://appcenter.ms/orgs/org name/apps/app id/crashes/errors?version=version&period=last30Days&status=&errorType=unhandlederror&sortCol=count&sortDir=desc.\n\nCheers,\nThe Mobile Releases Team\n\n\nThis report was created using `recrep` for org name/app id/version.";

#[test]
fn test_report_template_if_no_crash_exists() {
    let reporter = CrashReporter::with_token(
        "abc", "org name", "app id", None, None, Some(300), false, false, false,
    );
    let report = Report::new("version".to_string(), CrashList { crashes: vec![] });
    let formatted_report = reporter.format_report(report);
    assert_eq!(formatted_report.chars().count(), 218)
}

#[test]
fn with_token_keeps_settings() {
    let r = CrashReporter::with_token(
        "abc", "org", "app", Some("1.2.3".to_string()), Some("My-Distribution-Group".to_string()),
        None, false, false, false,
    );
    assert_eq!("abc", r.token);
    assert_eq!(r.organization, "org");
    assert_eq!(r.version, Some("1.2.3".to_string()));
}

#[test]
fn threshold_percentage_at_and_below_threshold() {
    assert_eq!(threshold_percentage(300, 300), "100.00%");
    assert!(threshold_reached(300, 300));
    assert_eq!(threshold_percentage(299, 300), "99.67%");
    assert!(!threshold_reached(299, 300));
    assert_eq!(threshold_percentage(1412, 300), "470.67%");
    assert_eq!(threshold_percentage(0, 300), "0.00%");
    assert_eq!(threshold_percentage(5, 0), "inf%");
    assert_eq!(threshold_percentage(0, 0), "NaN%");
}

#[test]
fn threshold_annotation_in_report() {
    let r = reporter(Some(300), false, false, false);
    let text = r.format_report(report(vec![crash(Some("g1"), Some(300), Some(true)), crash(Some("g2"), Some(299), Some(true))]));
    let expected = format!(
        "{}\n{}{}{}",
        HEADER,
        "\n!! THRESHOLD EXCEEDED !! \n\n100.00% (300/300) of threshold reached. (crashes/threshold)\n\nFirst appeared on 2019-11-16T22:29:48Z\nMore on AppCenter: https://appcenter.ms/orgs/org name/apps/app id/crashes/errors/g1/overview.\n\n-------------------------------\n",
        "\n99.67% (299/300) of threshold reached. (crashes/threshold)\n\nFirst appeared on 2019-11-16T22:29:48Z\nMore on AppCenter: https://appcenter.ms/orgs/org name/apps/app id/crashes/errors/g2/overview.\n\n-------------------------------\n",
        FOOTER
    );
    assert_eq!(text, expected);
}

#[test]
fn report_without_settings_lists_counts() {
    let r = reporter(None, false, false, false);
    let mut c = crash(None, Some(7), None);
    c.exception_file = Some(String::from("Main.swift"));
    c.exception_classname = Some(String::new());
    c.exception_method = Some(String::from("<init>"));
    let text = r.format_report(report(vec![c]));
    let expected = format!(
        "{}\n{}{}",
        HEADER,
        "\n7 times in 1.2.3 (42)\n\nFirst appeared on 2019-11-16T22:29:48Z\nFile:    Main.swift\nMethod:  &lt;init&gt;\n\n-------------------------------\n",
        FOOTER
    );
    assert_eq!(text, expected);
}

#[test]
fn arithmetic_mean_keeps_groups_at_or_above_mean() {
    let cs = vec![crash(None, Some(10), None), crash(None, Some(20), None), crash(None, Some(30), None)];
    assert_eq!(arithmetic_mean(&cs), Some(20));
    let kept = keep_at_least(cs, 20);
    let counts: Vec<Option<u64>> = kept.iter().map(|c| c.count).collect();
    assert_eq!(counts, vec![Some(20), Some(30)]);
}

#[test]
fn arithmetic_mean_of_zero_counts_is_skipped() {
    let cs = vec![crash(None, Some(0), None), crash(None, Some(0), None)];
    assert_eq!(arithmetic_mean(&cs), None);
    let r = reporter(None, true, false, false);
    let text = r.format_report(report(cs));
    assert!(!text.contains("arithmetic mean"));
    assert_eq!(text.matches("times in").count(), 2);
}

#[test]
fn arithmetic_mean_in_report() {
    let cs = vec![crash(None, Some(10), None), crash(None, Some(20), None), crash(None, Some(30), None)];
    let r = reporter(None, true, false, false);
    let text = r.format_report(report(cs));
    assert!(text.contains("arithmetic mean of all crashes (20). Crashes that occurred less than (<) 20 times are excluded.\n"));
    assert!(!text.contains("\n10 times in"));
    assert!(text.contains("\n20 times in"));
    assert!(text.contains("\n30 times in"));
}

#[test]
fn error_filter_keeps_exactly_the_crashes() {
    let cs = vec![
        crash(Some("a"), Some(1), Some(true)),
        crash(Some("b"), Some(1), Some(false)),
        crash(Some("c"), Some(1), None),
        crash(Some("d"), Some(1), Some(true)),
    ];
    let kept = filter_out_errors(cs);
    let ids: Vec<String> = kept.iter().map(|c| c.error_group_id.clone().unwrap()).collect();
    assert_eq!(ids, vec![String::from("a"), String::from("d")]);
}

#[test]
fn error_filter_in_report() {
    let cs = || vec![
        crash(Some("a"), Some(1), Some(true)),
        crash(Some("b"), Some(1), Some(false)),
        crash(Some("c"), Some(1), None),
    ];
    let omitting = reporter(Some(300), false, false, true).format_report(report(cs()));
    assert_eq!(omitting.matches("More on AppCenter").count(), 1);
    let keeping = reporter(Some(300), false, false, false).format_report(report(cs()));
    assert_eq!(keeping.matches("More on AppCenter").count(), 3);
}

#[test]
fn os_summary_drops_small_shares() {
    let oses = vec![os("A", 60), os("B", 3), os("C", 37)];
    assert_eq!(os_summary(&oses, 100), "A: 60 crashes (60.00%) | C: 37 crashes (37.00%) and more");
    assert_eq!(os_summary(&vec![os("A", 1)], 1), "A: 1 crashes (100.00%) and more");
    assert_eq!(os_summary(&vec![os("A", 1), os("B", 0)], 0), "A: 1 crashes (inf%)");
    assert_eq!(os_summary(&vec![os("A", 2), os("B", 1), os("C", 1)], 3), "A: 2 crashes (66.67%) | B: 1 crashes (33.33%) | C: 1 crashes (33.33%) and more");
    assert_eq!(os_summary(&vec![os("A", 5)], 100), " and more");
}

#[test]
fn os_summary_in_report() {
    let mut c = crash(Some("g"), Some(5), Some(true));
    c.device_count = Some(100);
    c.operating_systems = Some(vec![os("iOS 13", 60), os("iOS 12", 3), os("iOS 11", 37)]);
    let text = reporter(None, false, true, false).format_report(report(vec![c]));
    assert!(text.contains("\nAffected OSes: iOS 13: 60 crashes (60.00%) | iOS 11: 37 crashes (37.00%) and more on 100 overall affected devices\n"));
}

#[test]
fn filtered_empty_report_uses_no_crashes_template() {
    let text = reporter(Some(3), true, true, true).format_report(report(vec![crash(Some("x"), Some(9), Some(false))]));
    assert_eq!(
        text,
        "\nHello everyone!\n\nThis is the crash newsletter of vversion\n\nLuckily this version does not have any crashes AppCenter knows about. Congratulations \u{1F389}!\n\nThis report was created using `recrep` for org name/app id/version.\n"
    );
    assert!(!text.contains("x"));
}

#[test]
fn formatting_twice_gives_same_text() {
    let make = || {
        let mut c = crash(Some("g"), Some(12), Some(true));
        c.device_count = Some(3);
        c.operating_systems = Some(vec![os("A", 2), os("B", 1)]);
        report(vec![c, crash(None, Some(4), Some(true))])
    };
    let r = reporter(Some(10), true, true, false);
    assert_eq!(r.format_report(make()), r.format_report(make()));
}

#[test]
fn values_are_escaped_in_report() {
    let text = CrashReporter::with_token("t", "a&b", "x=y", None, None, None, false, false, false)
        .format_report(Report::new(String::from("1'2"), CrashList { crashes: vec![] }));
    assert!(text.contains("for a&amp;b/x&#x3D;y/1&#x27;2."));
}

#[test]
fn operating_system_details_are_attached_by_group_id() {
    let mut r = report(vec![crash(Some("a"), Some(1), None), crash(None, Some(1), None), crash(Some("b"), Some(1), None)]);
    r.assign_operating_system_details(vec![(String::from("b"), vec![os("X", 4)]), (String::from("z"), vec![])]);
    let cs = &r.crash_list.crashes;
    assert!(cs[0].operating_systems.is_none());
    assert!(cs[1].operating_systems.is_none());
    let b = cs[2].operating_systems.as_ref().unwrap();
    assert_eq!(b.len(), 1);
    assert_eq!(b[0].name, "X");
    assert_eq!(b[0].count, 4);
}

#[test]
fn crash_manager_uses_given_version() {
    let api = MockAPI::with_crashes_json(CrashList { crashes: vec![crash(Some("a"), Some(1), None), crash(Some("b"), Some(2), None)] });
    let manager = CrashManager {};
    let report = manager.crash_list(&api, "org", "app", Some("1.2.3".to_string()), None).unwrap();
    assert_eq!(report.crash_list.crashes.len(), 2);
    assert_eq!(report.version, "1.2.3");
}

#[test]
fn crash_manager_selects_latest_version() {
    let api = MockAPI::with_crashes_json(CrashList { crashes: vec![] });
    let manager = CrashManager {};
    let report = manager.crash_list(&api, "org", "app", None, None).unwrap();
    assert_eq!(report.version, "1.2.3");
    let missing = manager.crash_list(&api, "org", "app", None, Some(String::from("beta")));
    assert_eq!(missing.err(), Some(CrashError::NoVersionAvailable));
    let empty = MockAPI::new(String::from("t"));
    assert_eq!(manager.crash_list(&empty, "org", "app", Some(String::from("1")), None).err(), Some(CrashError::Retrieval));
}

#[test]
fn report_for_version_wraps_the_answer() {
    let r = CrashManager::report_for_version(String::from("9"), Ok(CrashList { crashes: vec![crash(None, None, None)] })).unwrap();
    assert_eq!(r.version, "9");
    assert_eq!(r.crash_list.crashes.len(), 1);
    assert_eq!(CrashManager::report_for_version(String::from("9"), Err(CrashError::Parse)).err(), Some(CrashError::Parse));
}

struct Collect {
    printed: RefCell<Vec<String>>,
    written: RefCell<Vec<(String, String)>>,
}

impl Printing for Collect {
    fn print(&self, text: String) {
        self.printed.borrow_mut().push(text);
    }
}

impl Writing for Collect {
    fn write(&self, text: String, path: String) {
        self.written.borrow_mut().push((text, path));
    }
}

#[test]
fn create_report_prints_or_writes() {
    let sink = Collect { printed: RefCell::new(vec![]), written: RefCell::new(vec![]) };
    let api = MockAPI::with_crashes_json(CrashList { crashes: vec![crash(Some("a"), Some(3), Some(true))] });
    let r = CrashReporter::with_token("abc", "org name", "app id", Some(String::from("version")), None, None, false, true, false);
    r.create_report(&api, None, &sink, &sink);
    r.create_report(&api, Some("out.txt"), &sink, &sink);
    {
        let printed = sink.printed.borrow();
        let written = sink.written.borrow();
        assert_eq!(printed.len(), 1);
        assert!(printed[0].contains("\n3 times in 1.2.3 (42)\n"));
        assert_eq!(written.len(), 1);
        assert_eq!(written[0].1, "out.txt");
        assert_eq!(written[0].0, printed[0]);
    }

    let failing = MockAPI::new(String::from("t"));
    r.create_report(&failing, None, &sink, &sink);
    assert_eq!(sink.printed.borrow()[1], "Failed to get list of crashes with error: Failed to get crashes json from API.");
}

#[test]
fn group_details_are_fetched_per_distinct_id() {
    let api = MockAPI::with_crashes_json(CrashList { crashes: vec![] });
    let r = reporter(None, false, true, false);
    let rep = report(vec![crash(Some("a"), Some(1), None), crash(Some("a"), Some(1), None)]);
    assert!(r.download_group_details_for_crashes(&api, &rep).is_empty());
}

/// Thirty crash groups with ids, of which the first 26 are crashes and the rest errors.
fn mixed_report() -> Report {
    let mut crashes = Vec::new();
    for i in 0..30u64 {
        let code = if i < 26 { Some(true) } else { Some(false) };
        let id = format!("group-{}", i);
        crashes.push(crash(Some(id.as_str()), Some(100 + i), code));
    }
    report(crashes)
}

#[test]
fn test_filtering_out_errors() {
    let report = mixed_report();
    let all_crashes = filter_out_errors(report.crash_list.crashes);
    assert_eq!(all_crashes.len(), 26);
}

#[test]
fn test_report_formatting_supports_filtering_out_errors() {
    let reporter = CrashReporter::with_token(
        "abc", "org name", "app id", None, None, Some(300), false, false, true,
    );
    let report = mixed_report();
    let amount_of_crashes_in_fixture = report.crash_list.crashes.len();
    let formatted_report = reporter.format_report(report);
    let amount_of_formatted_crashes = formatted_report.matches("More on AppCenter").count();
    assert!(amount_of_crashes_in_fixture != amount_of_formatted_crashes);
}

#[test]
fn test_report_formatting_does_not_filter_out_errors() {
    let reporter = CrashReporter::with_token(
        "abc", "org name", "app id", None, None, Some(300), false, false, false,
    );
    let report = mixed_report();
    let amount_of_crashes_in_fixture = report.crash_list.crashes.len();
    let formatted_report = reporter.format_report(report);
    let amount_of_formatted_crashes = formatted_report.matches("More on AppCenter").count();
    assert_eq!(amount_of_crashes_in_fixture, amount_of_formatted_crashes);
}

struct CountingAPI {
    lookups: RefCell<Vec<String>>,
}

impl API for CountingAPI {
    fn new(_token: String) -> Self {
        CountingAPI { lookups: RefCell::new(vec![]) }
    }

    fn recent_releases(&self, _o: String, _a: String) -> Result<Vec<recrep::Version>, CrashError> {
        Err(CrashError::Retrieval)
    }

    fn error_groups(&self, _o: String, _a: String, _v: String) -> Result<CrashList, CrashError> {
        Err(CrashError::Retrieval)
    }

    fn os_versions(&self, _o: &str, _a: &str, id: &str) -> Result<recrep::ErrorGroup, CrashError> {
        self.lookups.borrow_mut().push(String::from(id));
        if id == "a" {
            Ok(recrep::ErrorGroup { operating_systems: vec![os("iOS", 3)], count: 3 })
        } else {
            Err(CrashError::Retrieval)
        }
    }
}

#[test]
fn one_lookup_per_distinct_error_group() {
    let api = CountingAPI::new(String::from("t"));
    let r = reporter(None, false, true, false);
    let mut rep = report(vec![
        crash(Some("a"), Some(1), None),
        crash(Some("b"), Some(1), None),
        crash(Some("a"), Some(1), None),
        crash(Some("b"), Some(1), None),
        crash(Some(""), Some(1), None),
        crash(None, Some(1), None),
    ]);
    let details = r.download_group_details_for_crashes(&api, &rep);
    assert_eq!(*api.lookups.borrow(), vec![String::from("a"), String::from("b")]);
    assert_eq!(details.len(), 1);
    assert_eq!(details[0].0, "a");
    rep.assign_operating_system_details(details);
    let cs = &rep.crash_list.crashes;
    assert!(cs[0].operating_systems.is_some());
    assert!(cs[1].operating_systems.is_none());
    assert!(cs[2].operating_systems.is_some());
    assert!(cs[5].operating_systems.is_none());
}
