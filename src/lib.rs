use vstd::prelude::*;
use vstd::string::StringExecFns;

pub mod api;
pub mod crashes;
pub mod enrich;
pub mod model;
pub mod output;
pub mod render;
pub mod text;
pub mod transform;
pub mod version_list;

pub use crate::model::{
    Crash, CrashList, DistributionGroup, ErrorGroup, GroupDetails, OperatingSystemCount, Report,
    Version,
};
pub use crate::version_list::VersionList;
use crate::api::{message_text, CrashError, API};
use crate::crashes::CrashManager;
use crate::enrich::{collect_details, details_view, group_of_some, kept_details, lemma_kept_keys, lemma_lookup_ids, lookup_id_seq, lookup_ids};
use crate::output::{Printing, Writing};
use crate::render::{crashes_page, entry_for, no_crashes_page, render_document, render_no_crashes, CrashEntry, ReportDocument};
use crate::text::escaped;
use crate::transform::{arithmetic_mean, at_least, filter_out_errors, is_crash, keep_at_least, mean_of};

verus! {

/// Builds crash reports for one app of one organization, with the report settings.
pub struct CrashReporter {
    pub token: String,
    pub organization: String,
    pub application: String,
    /// The version to report on; the newest one where absent.
    pub version: Option<String>,
    /// The distribution group whose newest version is reported on, where no version is given.
    pub distribution_group: Option<String>,
    /// The crash count that stands for 100%.
    pub threshold: Option<u64>,
    /// Whether crash groups below the mean count are left out.
    pub use_arithmetic_mean: bool,
    /// Whether each crash group shows the operating systems it affected.
    pub show_os_information: bool,
    /// Whether groups classed as errors are left out.
    pub filter_out_errors: bool,
}

/// The crash groups that the reporter's error setting keeps.
pub open spec fn kept_crashes(cfg: CrashReporter, crashes: Seq<Crash>) -> Seq<Crash> {
    if cfg.filter_out_errors {
        crashes.filter(|c: Crash| is_crash(c))
    } else {
        crashes
    }
}

/// The mean that the reporter's mean setting uses on the kept crash groups, if any.
pub open spec fn used_mean(cfg: CrashReporter, kept: Seq<Crash>) -> Option<nat> {
    if cfg.use_arithmetic_mean {
        mean_of(kept)
    } else {
        None
    }
}

/// The crash groups left after the mean cut.
pub open spec fn above_mean(kept: Seq<Crash>, mean: Option<nat>) -> Seq<Crash> {
    match mean {
        Some(m) => kept.filter(|c: Crash| at_least(c, m)),
        None => kept,
    }
}

/// The text of the report on `report` under the settings of `cfg`.
pub open spec fn report_text(cfg: CrashReporter, report: Report) -> Seq<char> {
    let kept = kept_crashes(cfg, report.crash_list.crashes@);
    if kept.len() == 0 {
        no_crashes_page(cfg.organization@, cfg.application@, report.version@)
    } else {
        let mean = used_mean(cfg, kept);
        crashes_page(
            cfg.organization@,
            cfg.application@,
            report.version@,
            mean,
            above_mean(kept, mean),
            cfg.threshold,
            cfg.show_os_information,
        )
    }
}

/// Whether `t` occurs in `s`.
pub open spec fn contains_text(s: Seq<char>, t: Seq<char>) -> bool {
    exists|k: int| 0 <= k && k + t.len() <= s.len() && #[trigger] s.subrange(k, k + t.len()) == t
}

/// When no crash group is left after the error filter, the report is the no-crashes page: it
/// names the organization, the application and the version, and holds nothing of any crash group.
pub proof fn lemma_empty_report_page(cfg: CrashReporter, report: Report)
    requires
        kept_crashes(cfg, report.crash_list.crashes@).len() == 0,
    ensures
        report_text(cfg, report) == no_crashes_page(cfg.organization@, cfg.application@, report.version@),
        contains_text(report_text(cfg, report), escaped(cfg.organization@)),
        contains_text(report_text(cfg, report), escaped(cfg.application@)),
        contains_text(report_text(cfg, report), escaped(report.version@)),
{
    let o = escaped(cfg.organization@);
    let a = escaped(cfg.application@);
    let v = escaped(report.version@);
    let p = "\nHello everyone!\n\nThis is the crash newsletter of v"@;
    let q = "\n\nLuckily this version does not have any crashes AppCenter knows about. Congratulations \u{1F389}!\n\nThis report was created using `recrep` for "@;
    let page = report_text(cfg, report);
    assert(page == p + v + q + o + "/"@ + a + "/"@ + v + ".\n"@);
    let ko: int = (p.len() + v.len() + q.len()) as int;
    assert(page.subrange(ko, ko + o.len()) =~= o);
    reveal_strlit("/");
    let ka: int = ko + o.len() + 1;
    assert(page.subrange(ka, ka + a.len()) =~= a);
    let kv: int = p.len() as int;
    assert(page.subrange(kv, kv + v.len()) =~= v);
}

/// The report text depends on the settings and on the report's version and crash groups
/// alone: formatting the same report twice gives the same text.
pub proof fn lemma_report_text_deterministic(cfg: CrashReporter, first: Report, second: Report)
    requires
        first.version@ == second.version@,
        first.crash_list.crashes@ == second.crash_list.crashes@,
    ensures
        report_text(cfg, first) == report_text(cfg, second),
{
}

impl CrashReporter {
    /// A reporter for `application` of `organization`, authenticated by `token`, with the
    /// given report settings.
    pub fn with_token(
        token: &str,
        organization: &str,
        application: &str,
        version: Option<String>,
        distribution_group: Option<String>,
        threshold: Option<u64>,
        use_arithmetic_mean: bool,
        show_os_information: bool,
        filter_out_errors: bool,
    ) -> (r: CrashReporter)
        ensures
            r.token@ == token@,
            r.organization@ == organization@,
            r.application@ == application@,
            r.version == version,
            r.distribution_group == distribution_group,
            r.threshold == threshold,
            r.use_arithmetic_mean == use_arithmetic_mean,
            r.show_os_information == show_os_information,
            r.filter_out_errors == filter_out_errors,
    {
        CrashReporter {
            token: String::from_str(token),
            organization: String::from_str(organization),
            application: String::from_str(application),
            version,
            distribution_group,
            threshold,
            use_arithmetic_mean,
            show_os_information,
            filter_out_errors,
        }
    }

    /// Formats a report: filters, annotates and renders its crash groups.
    pub fn format_report(&self, report: Report) -> (r: String)
        ensures
            r@ == report_text(*self, report),
    {
        let ghost all = report.crash_list.crashes@;
        let version = report.version;
        let kept = if self.filter_out_errors {
            filter_out_errors(report.crash_list.crashes)
        } else {
            report.crash_list.crashes
        };
        assert(kept@ == kept_crashes(*self, all));
        if kept.len() == 0 {
            return render_no_crashes(self.organization.as_str(), self.application.as_str(), version.as_str());
        }
        let mean = if self.use_arithmetic_mean {
            arithmetic_mean(&kept)
        } else {
            None
        };
        let ghost m = used_mean(*self, kept@);
        assert(m == match mean { Some(v) => Some(v as nat), None => None::<nat> });
        let retained = match mean {
            Some(v) => keep_at_least(kept, v),
            None => kept,
        };
        assert(retained@ == above_mean(kept_crashes(*self, all), m));
        let ghost cs = retained@;
        let n = retained.len();
        let mut rest = retained;
        let mut entries: Vec<CrashEntry> = Vec::new();
        let mut i: usize = 0;
        while i < n
            invariant
                n == cs.len(),
                i <= n,
                rest@ == cs.skip(i as int),
                entries@.len() == i,
                forall|k: int| 0 <= k < i ==> (#[trigger] entries@[k]).crash == cs[k],
                forall|k: int|
                    0 <= k < i ==> crate::render::entry_fits(
                        #[trigger] entries@[k],
                        self.threshold,
                        self.show_os_information,
                    ),
            decreases n - i,
        {
            let c = rest.remove(0);
            entries.push(entry_for(c, self.threshold, self.show_os_information));
            assert(cs.skip(i as int).drop_first() =~= cs.skip(i + 1));
            i = i + 1;
        }
        let doc = ReportDocument {
            organization: self.organization.clone(),
            application: self.application.clone(),
            version,
            entries,
            threshold: self.threshold,
            arithmetic_mean: mean,
            show_oses_affected: self.show_os_information,
        };
        assert(doc.crashes() =~= cs);
        render_document(&doc)
    }

    /// Fetches the crash groups of the configured version from `api`.
    pub fn crashes_from_api<A: API>(&self, api: &A) -> (r: Result<Report, CrashError>)
        ensures
            self.version is Some && r is Ok ==> r->Ok_0.version == self.version->0,
    {
        let crash_downloader = CrashManager {};
        crash_downloader.crash_list(
            api,
            self.organization.as_str(),
            self.application.as_str(),
            self.version.clone(),
            self.distribution_group.clone(),
        )
    }

    /// Fetches the per-system breakdown of each distinct, non-empty error group id of the
    /// report, with one lookup per id in order of first appearance; ids whose lookup fails are
    /// left out.
    pub fn download_group_details_for_crashes<A: API>(&self, api: &A, crash_report: &Report) -> (r: GroupDetails)
        ensures
            exists|answers: Seq<Result<ErrorGroup, CrashError>>|
                answers.len() == lookup_id_seq(crash_report.crash_list.crashes@).len()
                    && details_view(r@) == kept_details(lookup_id_seq(crash_report.crash_list.crashes@), answers),
            forall|k: int|
                0 <= k < r@.len() ==> (#[trigger] r@[k]).0@.len() > 0 && group_of_some(
                    crash_report.crash_list.crashes@,
                    crash_report.crash_list.crashes@.len() as int,
                    r@[k].0@,
                ),
            forall|a: int, b: int| 0 <= a < b < r@.len() ==> (#[trigger] r@[a]).0@ != (#[trigger] r@[b]).0@,
    {
        let ids = lookup_ids(&crash_report.crash_list.crashes);
        let crash_downloader = CrashManager {};
        let mut answers: Vec<Result<ErrorGroup, CrashError>> = Vec::new();
        let mut i: usize = 0;
        while i < ids.len()
            invariant
                i <= ids@.len(),
                answers@.len() == i,
            decreases ids@.len() - i,
        {
            let answer = crash_downloader.error_group_details(
                api,
                ids[i].as_str(),
                self.application.as_str(),
                self.organization.as_str(),
            );
            answers.push(answer);
            i = i + 1;
        }
        let ghost cs = crash_report.crash_list.crashes@;
        let ghost ans = answers@;
        let r = collect_details(&ids, answers);
        proof {
            let idv = lookup_id_seq(cs);
            lemma_lookup_ids(cs);
            lemma_kept_keys(idv, ans);
            let k = kept_details(idv, ans);
            assert forall|a: int| 0 <= a < r@.len() implies (#[trigger] r@[a]).0@.len() > 0 && group_of_some(cs, cs.len() as int, r@[a].0@) by {
                assert(details_view(r@)[a] == k[a]);
                let j = choose|j: int| 0 <= j < idv.len() && idv[j] == k[a].0;
                assert(idv[j].len() > 0 && group_of_some(cs, cs.len() as int, idv[j]));
            }
            assert forall|a: int, b: int| 0 <= a < b < r@.len() implies (#[trigger] r@[a]).0@ != (#[trigger] r@[b]).0@ by {
                assert(details_view(r@)[a] == k[a]);
                assert(details_view(r@)[b] == k[b]);
            }
        }
        r
    }

    /// What formatting `report` delivers: its text, to the file at `path` where one is given.
    pub fn report_delivery(&self, report: Report, path: Option<&str>) -> (d: Delivery)
        ensures
            d.text@ == report_text(*self, report),
            match path {
                Some(p) => d.file_path is Some && d.file_path->0@ == p@,
                None => d.file_path is None,
            },
    {
        let text = self.format_report(report);
        let file_path = match path {
            Some(p) => Some(String::from_str(p)),
            None => None,
        };
        Delivery { text, file_path }
    }

    /// What a run delivers once the crash groups were fetched as `fetched`: the report, to
    /// `outfile` where one is given; after a failed fetch only the reason, shown and written
    /// nowhere.
    pub fn outcome_delivery(&self, fetched: Result<Report, CrashError>, outfile: Option<&str>) -> (d: Delivery)
        ensures
            match fetched {
                Ok(report) => {
                    &&& d.text@ == report_text(*self, report)
                    &&& match outfile {
                        Some(p) => d.file_path is Some && d.file_path->0@ == p@,
                        None => d.file_path is None,
                    }
                },
                Err(e) => d.text@ == failure_text(e) && d.file_path is None,
            },
    {
        match fetched {
            Ok(report) => self.report_delivery(report, outfile),
            Err(e) => {
                let mut text = String::from_str("Failed to get list of crashes with error: ");
                crate::text::push_str(&mut text, e.message());
                Delivery { text, file_path: None }
            },
        }
    }

    /// Formats a report and writes it to the file at `path`, or shows it where no path is given.
    pub fn write_report<W: Writing, P: Printing>(&self, report: Report, path: Option<&str>, writer: &W, printer: &P) {
        deliver(self.report_delivery(report, path), writer, printer)
    }

    /// Fetches the crash groups, adds the per-system breakdowns where asked for, and delivers
    /// what `outcome_delivery` makes of the result.
    pub fn create_report<A: API, W: Writing, P: Printing>(&self, api: &A, outfile: Option<&str>, writer: &W, printer: &P) {
        let fetched = match self.crashes_from_api(api) {
            Ok(mut crash_report) => {
                if self.show_os_information {
                    let error_groups = self.download_group_details_for_crashes(api, &crash_report);
                    crash_report.assign_operating_system_details(error_groups);
                }
                Ok(crash_report)
            },
            Err(e) => Err(e),
        };
        deliver(self.outcome_delivery(fetched, outfile), writer, printer)
    }
}

/// Text to hand to a sink: written to the file at `file_path`, or shown where there is none.
pub struct Delivery {
    pub text: String,
    pub file_path: Option<String>,
}

/// The text shown after a failed fetch.
pub open spec fn failure_text(e: CrashError) -> Seq<char> {
    "Failed to get list of crashes with error: "@ + message_text(e)
}

/// Hands `d.text` to `writer` with its path, or to `printer` where it has none.
pub fn deliver<W: Writing, P: Printing>(d: Delivery, writer: &W, printer: &P) {
    match d.file_path {
        Some(path) => writer.write(d.text, path),
        None => printer.print(d.text),
    }
}

} // verus!
