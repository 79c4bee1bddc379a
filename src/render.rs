use vstd::prelude::*;
use crate::model::Crash;
use crate::text::{decimal, escaped, push_decimal, push_escaped, push_str};
use crate::transform::{count_of, os_summary, os_summary_text, percentage_text, reaches_threshold,
    threshold_percentage, threshold_reached};

verus! {

/// A crash group ready for rendering, with the fields derived from the report's settings.
pub struct CrashEntry {
    pub crash: Crash,
    /// The threshold in force, if any.
    pub threshold: Option<u64>,
    /// The share of the threshold reached, as text.
    pub percentage: Option<String>,
    /// The threshold, where the group's count reaches it.
    pub threshold_exceeded: Option<u64>,
    /// The summary of affected operating systems, where it is asked for and known.
    pub os_summary: Option<String>,
}

/// Everything that a report page shows.
pub struct ReportDocument {
    pub organization: String,
    pub application: String,
    pub version: String,
    pub entries: Vec<CrashEntry>,
    pub threshold: Option<u64>,
    pub arithmetic_mean: Option<u64>,
    pub show_oses_affected: bool,
}

/// The operating-system summary of a crash group, where it is asked for and its data is there.
pub open spec fn os_text(c: Crash, show_os: bool) -> Option<Seq<char>> {
    if show_os && c.operating_systems is Some && c.device_count is Some {
        Some(os_summary_text(c.operating_systems->0@, c.device_count->0 as nat))
    } else {
        None
    }
}

/// Whether the derived fields of `e` are those that `threshold` and `show_os` call for.
pub open spec fn entry_fits(e: CrashEntry, threshold: Option<u64>, show_os: bool) -> bool {
    &&& e.threshold == threshold
    &&& match threshold {
        Some(t) => {
            &&& e.percentage is Some
            &&& e.percentage->0@ == percentage_text(count_of(e.crash), t as nat)
            &&& e.threshold_exceeded == if reaches_threshold(count_of(e.crash), t as nat) {
                Some(t)
            } else {
                None
            }
        },
        None => e.percentage is None && e.threshold_exceeded is None,
    }
    &&& match os_text(e.crash, show_os) {
        Some(t) => e.os_summary is Some && e.os_summary->0@ == t,
        None => e.os_summary is None,
    }
}

impl ReportDocument {
    /// Every entry carries the derived fields that the document's settings call for.
    pub open spec fn wf(&self) -> bool {
        forall|i: int|
            0 <= i < self.entries@.len() ==> entry_fits(
                #[trigger] self.entries@[i],
                self.threshold,
                self.show_oses_affected,
            )
    }

    /// The crash groups of the document, in order.
    pub open spec fn crashes(&self) -> Seq<Crash> {
        self.entries@.map_values(|e: CrashEntry| e.crash)
    }
}

/// Builds the rendering entry of a crash group.
pub fn entry_for(crash: Crash, threshold: Option<u64>, show_os: bool) -> (e: CrashEntry)
    ensures
        e.crash == crash,
        entry_fits(e, threshold, show_os),
{
    let count: u64 = match crash.count {
        Some(n) => n,
        None => 0,
    };
    let (percentage, threshold_exceeded) = match threshold {
        Some(t) => {
            let p = threshold_percentage(count, t);
            let x = if threshold_reached(count, t) { Some(t) } else { None };
            (Some(p), x)
        },
        None => (None, None),
    };
    let mut summary: Option<String> = None;
    if show_os {
        if let Some(oses) = &crash.operating_systems {
            if let Some(d) = crash.device_count {
                summary = Some(os_summary(oses, d));
            }
        }
    }
    CrashEntry { crash, threshold, percentage, threshold_exceeded, os_summary: summary }
}

/// What a template shows for an optional text value: its escaped form, or nothing.
pub open spec fn value_text(o: Option<String>) -> Seq<char> {
    match o {
        Some(s) => escaped(s@),
        None => Seq::empty(),
    }
}

/// What a template shows for an optional number.
pub open spec fn number_text(o: Option<u64>) -> Seq<char> {
    match o {
        Some(n) => decimal(n as nat),
        None => Seq::empty(),
    }
}

/// Whether a template condition on an optional text holds: present and not empty.
pub open spec fn truthy(o: Option<String>) -> bool {
    o is Some && o->0@.len() > 0
}

/// The marker shown above a crash group that reached a non-zero threshold.
#[verifier::opaque]
pub open spec fn banner_text(c: Crash, threshold: Option<u64>) -> Seq<char> {
    match threshold {
        Some(t) => if t != 0 && reaches_threshold(count_of(c), t as nat) {
            "\n!! THRESHOLD EXCEEDED !! \n"@
        } else {
            Seq::empty()
        },
        None => Seq::empty(),
    }
}

/// The count line of a crash group: its share of a non-zero threshold, or where it occurred.
#[verifier::opaque]
pub open spec fn count_line_text(c: Crash, threshold: Option<u64>) -> Seq<char> {
    if threshold is Some && threshold->0 != 0 {
        "\n"@ + escaped(percentage_text(count_of(c), threshold->0 as nat)) + " ("@ + number_text(c.count)
            + "/"@ + decimal(threshold->0 as nat) + ") of threshold reached. (crashes/threshold)"@
    } else {
        "\n"@ + number_text(c.count) + " times in "@ + value_text(c.app_version) + " ("@ + value_text(
            c.app_build,
        ) + ")"@
    }
}

/// The affected-systems line of a crash group, where its summary is not empty.
#[verifier::opaque]
pub open spec fn os_line_text(c: Crash, show_os: bool) -> Seq<char> {
    match os_text(c, show_os) {
        Some(t) => if t.len() > 0 {
            "\nAffected OSes: "@ + escaped(t) + " on "@ + number_text(c.device_count) + " overall affected devices"@
        } else {
            Seq::empty()
        },
        None => Seq::empty(),
    }
}

/// A labelled line for an optional text, shown only where the text is not empty.
#[verifier::opaque]
pub open spec fn labelled_text(label: Seq<char>, o: Option<String>) -> Seq<char> {
    if truthy(o) {
        label + value_text(o)
    } else {
        Seq::empty()
    }
}

/// The link to a crash group's page on the crash service.
#[verifier::opaque]
pub open spec fn link_text(c: Crash, org: Seq<char>, app: Seq<char>) -> Seq<char> {
    if truthy(c.error_group_id) {
        "\nMore on AppCenter: https://appcenter.ms/orgs/"@ + escaped(org) + "/apps/"@ + escaped(app)
            + "/crashes/errors/"@ + value_text(c.error_group_id) + "/overview."@
    } else {
        Seq::empty()
    }
}

/// The section of one crash group.
#[verifier::opaque]
pub open spec fn entry_text(
    c: Crash,
    threshold: Option<u64>,
    show_os: bool,
    org: Seq<char>,
    app: Seq<char>,
) -> Seq<char> {
    banner_text(c, threshold) + count_line_text(c, threshold) + os_line_text(c, show_os)
        + "\n\nFirst appeared on "@ + value_text(c.first_occurrence) + labelled_text(
        "\nFile:    "@,
        c.exception_file,
    ) + labelled_text("\nClass:   "@, c.exception_classname) + labelled_text(
        "\nMethod:  "@,
        c.exception_method,
    ) + link_text(c, org, app) + "\n\n-------------------------------\n"@
}

/// The sections of all crash groups, in order.
pub open spec fn entries_text(
    cs: Seq<Crash>,
    threshold: Option<u64>,
    show_os: bool,
    org: Seq<char>,
    app: Seq<char>,
) -> Seq<char>
    decreases cs.len(),
{
    if cs.len() == 0 {
        Seq::empty()
    } else {
        entries_text(cs.drop_last(), threshold, show_os, org, app) + entry_text(
            cs.last(),
            threshold,
            show_os,
            org,
            app,
        )
    }
}

/// The note on the arithmetic-mean cut, where a non-zero mean was used.
pub open spec fn mean_text(mean: Option<nat>) -> Seq<char> {
    match mean {
        Some(m) => if m != 0 {
            "\nThis Crash Report uses a threshold based on the arithmetic mean of all crashes ("@
                + decimal(m) + "). Crashes that occurred less than (<) "@ + decimal(m)
                + " times are excluded."@
        } else {
            Seq::empty()
        },
        None => Seq::empty(),
    }
}

/// The page that lists crash groups.
pub open spec fn crashes_page(
    org: Seq<char>,
    app: Seq<char>,
    version: Seq<char>,
    mean: Option<nat>,
    cs: Seq<Crash>,
    threshold: Option<u64>,
    show_os: bool,
) -> Seq<char> {
    "\nHello everyone!\n\nThis is the crash newsletter of v"@ + escaped(version)
        + "\n\nIf your team is assigned to take a look at a certain crash but decides to not to be responsible for handling the crash, please forward it \nto another team or the community yourself.\nPlease be proactive to raise awareness of crashes among the community - especially if your team can't address a crash at hand on its own.\n\n"@
        + mean_text(mean) + "\n"@ + entries_text(cs, threshold, show_os, org, app)
        + "\n\n\nHaven't found your section above? Please checkout the rest of the crashes in the diagnostics overview: https://appcenter.ms/orgs/"@
        + escaped(org) + "/apps/"@ + escaped(app) + "/crashes/errors?version="@ + escaped(version)
        + "&period=last30Days&status=&errorType=unhandlederror&sortCol=count&sortDir=desc.\n\nCheers,\nThe Mobile Releases Team\n\n\nThis report was created using `recrep` for "@
        + escaped(org) + "/"@ + escaped(app) + "/"@ + escaped(version) + "."@
}

/// The page for a version without crash groups.
pub open spec fn no_crashes_page(org: Seq<char>, app: Seq<char>, version: Seq<char>) -> Seq<char> {
    "\nHello everyone!\n\nThis is the crash newsletter of v"@ + escaped(version)
        + "\n\nLuckily this version does not have any crashes AppCenter knows about. Congratulations \u{1F389}!\n\nThis report was created using `recrep` for "@
        + escaped(org) + "/"@ + escaped(app) + "/"@ + escaped(version) + ".\n"@
}

/// Appends what a template shows for an optional text value.
fn push_value(s: &mut String, o: &Option<String>)
    ensures
        final(s)@ == old(s)@ + value_text(*o),
{
    match o {
        Some(t) => push_escaped(s, t.as_str()),
        None => {
            assert(s@ =~= old(s)@ + value_text(*o));
        },
    }
}

/// Appends what a template shows for an optional number.
fn push_number(s: &mut String, o: Option<u64>)
    ensures
        final(s)@ == old(s)@ + number_text(o),
{
    match o {
        Some(n) => push_decimal(s, n as u128),
        None => {
            assert(s@ =~= old(s)@ + number_text(o));
        },
    }
}

/// Appends a labelled line for an optional text, where the text is not empty.
fn push_labelled(s: &mut String, label: &str, o: &Option<String>)
    ensures
        final(s)@ == old(s)@ + labelled_text(label@, *o),
{
    reveal(labelled_text);
    let shown = match o {
        Some(t) => t.unicode_len() > 0,
        None => false,
    };
    if shown {
        push_str(s, label);
        push_value(s, o);
        assert(s@ =~= old(s)@ + labelled_text(label@, *o));
    } else {
        assert(s@ =~= old(s)@ + labelled_text(label@, *o));
    }
}

/// Appends the threshold marker of a crash group.
fn push_banner(s: &mut String, e: &CrashEntry, show_os: bool)
    requires
        entry_fits(*e, e.threshold, show_os),
    ensures
        final(s)@ == old(s)@ + banner_text(e.crash, e.threshold),
{
    if let Some(t) = e.threshold_exceeded {
        if t != 0 {
            push_str(s, "\n!! THRESHOLD EXCEEDED !! \n");
        }
    }
    proof {
        reveal(banner_text);
    }
    assert(s@ =~= old(s)@ + banner_text(e.crash, e.threshold));
}

/// Appends the count line of a crash group.
fn push_count_line(s: &mut String, e: &CrashEntry, show_os: bool)
    requires
        entry_fits(*e, e.threshold, show_os),
    ensures
        final(s)@ == old(s)@ + count_line_text(e.crash, e.threshold),
{
    let c = &e.crash;
    let counted = match e.threshold {
        Some(t) => t != 0,
        None => false,
    };
    if counted {
        let t: u64 = match e.threshold {
            Some(t) => t,
            None => 0,
        };
        push_str(s, "\n");
        match &e.percentage {
            Some(p) => push_escaped(s, p.as_str()),
            None => {},
        }
        push_str(s, " (");
        push_number(s, c.count);
        push_str(s, "/");
        push_decimal(s, t as u128);
        push_str(s, ") of threshold reached. (crashes/threshold)");
    } else {
        push_str(s, "\n");
        push_number(s, c.count);
        push_str(s, " times in ");
        push_value(s, &c.app_version);
        push_str(s, " (");
        push_value(s, &c.app_build);
        push_str(s, ")");
    }
    proof {
        reveal(count_line_text);
    }
    assert(s@ =~= old(s)@ + count_line_text(e.crash, e.threshold));
}

/// Appends the affected-systems line of a crash group.
fn push_os_line(s: &mut String, e: &CrashEntry, show_os: bool)
    requires
        entry_fits(*e, e.threshold, show_os),
    ensures
        final(s)@ == old(s)@ + os_line_text(e.crash, show_os),
{
    match &e.os_summary {
        Some(t) => {
            if t.unicode_len() > 0 {
                push_str(s, "\nAffected OSes: ");
                push_escaped(s, t.as_str());
                push_str(s, " on ");
                push_number(s, e.crash.device_count);
                push_str(s, " overall affected devices");
            }
        },
        None => {},
    }
    proof {
        reveal(os_line_text);
    }
    assert(s@ =~= old(s)@ + os_line_text(e.crash, show_os));
}

/// Appends the link to a crash group's page.
fn push_link(s: &mut String, c: &Crash, org: &str, app: &str)
    ensures
        final(s)@ == old(s)@ + link_text(*c, org@, app@),
{
    let linked = match &c.error_group_id {
        Some(id) => id.unicode_len() > 0,
        None => false,
    };
    if linked {
        push_str(s, "\nMore on AppCenter: https://appcenter.ms/orgs/");
        push_escaped(s, org);
        push_str(s, "/apps/");
        push_escaped(s, app);
        push_str(s, "/crashes/errors/");
        push_value(s, &c.error_group_id);
        push_str(s, "/overview.");
    }
    proof {
        reveal(link_text);
    }
    assert(s@ =~= old(s)@ + link_text(*c, org@, app@));
}

/// Appends the section of one crash group.
fn push_entry(s: &mut String, e: &CrashEntry, org: &str, app: &str, show_os: bool)
    requires
        entry_fits(*e, e.threshold, show_os),
    ensures
        final(s)@ == old(s)@ + entry_text(e.crash, e.threshold, show_os, org@, app@),
{
    let ghost s0 = s@;
    push_banner(s, e, show_os);
    let ghost s1 = s@;
    push_count_line(s, e, show_os);
    let ghost s2 = s@;
    push_os_line(s, e, show_os);
    let ghost s3 = s@;
    push_str(s, "\n\nFirst appeared on ");
    push_value(s, &e.crash.first_occurrence);
    let ghost s4 = s@;
    push_labelled(s, "\nFile:    ", &e.crash.exception_file);
    let ghost s5 = s@;
    push_labelled(s, "\nClass:   ", &e.crash.exception_classname);
    let ghost s6 = s@;
    push_labelled(s, "\nMethod:  ", &e.crash.exception_method);
    let ghost s7 = s@;
    push_link(s, &e.crash, org, app);
    let ghost s8 = s@;
    push_str(s, "\n\n-------------------------------\n");
    proof {
        reveal(entry_text);
        let c = e.crash;
        assert(s4 == s3 + "\n\nFirst appeared on "@ + value_text(c.first_occurrence));
        assert(s@ =~= s0 + banner_text(c, e.threshold) + count_line_text(c, e.threshold) + os_line_text(c, show_os)
            + "\n\nFirst appeared on "@ + value_text(c.first_occurrence) + labelled_text("\nFile:    "@, c.exception_file)
            + labelled_text("\nClass:   "@, c.exception_classname) + labelled_text("\nMethod:  "@, c.exception_method)
            + link_text(c, org@, app@) + "\n\n-------------------------------\n"@);
    }
}

/// A stored mean, as a number.
pub open spec fn mean_value(m: Option<u64>) -> Option<nat> {
    match m {
        Some(v) => Some(v as nat),
        None => None,
    }
}

/// Renders the page that lists the document's crash groups.
pub fn render_document(doc: &ReportDocument) -> (r: String)
    requires
        doc.wf(),
    ensures
        r@ == crashes_page(
            doc.organization@,
            doc.application@,
            doc.version@,
            mean_value(doc.arithmetic_mean),
            doc.crashes(),
            doc.threshold,
            doc.show_oses_affected,
        ),
{
    let org = doc.organization.as_str();
    let app = doc.application.as_str();
    let version = doc.version.as_str();
    let mut s = String::new();
    push_str(&mut s, "\nHello everyone!\n\nThis is the crash newsletter of v");
    push_escaped(&mut s, version);
    push_str(&mut s, "\n\nIf your team is assigned to take a look at a certain crash but decides to not to be responsible for handling the crash, please forward it \nto another team or the community yourself.\nPlease be proactive to raise awareness of crashes among the community - especially if your team can't address a crash at hand on its own.\n\n");
    let ghost s0 = s@;
    if let Some(m) = doc.arithmetic_mean {
        if m != 0 {
            push_str(&mut s, "\nThis Crash Report uses a threshold based on the arithmetic mean of all crashes (");
            push_decimal(&mut s, m as u128);
            push_str(&mut s, "). Crashes that occurred less than (<) ");
            push_decimal(&mut s, m as u128);
            push_str(&mut s, " times are excluded.");
        }
    }
    assert(s@ =~= s0 + mean_text(mean_value(doc.arithmetic_mean)));
    push_str(&mut s, "\n");
    let ghost s1 = s@;
    let ghost cs = doc.crashes();
    let mut i: usize = 0;
    while i < doc.entries.len()
        invariant
            i <= doc.entries@.len(),
            doc.wf(),
            cs == doc.crashes(),
            org@ == doc.organization@,
            app@ == doc.application@,
            s@ == s1 + entries_text(cs.take(i as int), doc.threshold, doc.show_oses_affected, org@, app@),
        decreases doc.entries@.len() - i,
    {
        let e = &doc.entries[i];
        assert(entry_fits(doc.entries@[i as int], doc.threshold, doc.show_oses_affected));
        push_entry(&mut s, e, org, app, doc.show_oses_affected);
        assert(cs.take(i + 1).drop_last() =~= cs.take(i as int));
        assert(cs[i as int] == e.crash);
        i = i + 1;
        assert(s@ =~= s1 + entries_text(cs.take(i as int), doc.threshold, doc.show_oses_affected, org@, app@));
    }
    assert(cs.take(cs.len() as int) =~= cs);
    push_str(&mut s, "\n\n\nHaven't found your section above? Please checkout the rest of the crashes in the diagnostics overview: https://appcenter.ms/orgs/");
    push_escaped(&mut s, org);
    push_str(&mut s, "/apps/");
    push_escaped(&mut s, app);
    push_str(&mut s, "/crashes/errors?version=");
    push_escaped(&mut s, version);
    push_str(&mut s, "&period=last30Days&status=&errorType=unhandlederror&sortCol=count&sortDir=desc.\n\nCheers,\nThe Mobile Releases Team\n\n\nThis report was created using `recrep` for ");
    push_escaped(&mut s, org);
    push_str(&mut s, "/");
    push_escaped(&mut s, app);
    push_str(&mut s, "/");
    push_escaped(&mut s, version);
    push_str(&mut s, ".");
    assert(s@ =~= crashes_page(
        doc.organization@,
        doc.application@,
        doc.version@,
        mean_value(doc.arithmetic_mean),
        doc.crashes(),
        doc.threshold,
        doc.show_oses_affected,
    ));
    s
}

/// Renders the page for a version without crash groups.
pub fn render_no_crashes(organization: &str, application: &str, version: &str) -> (r: String)
    ensures
        r@ == no_crashes_page(organization@, application@, version@),
{
    let mut s = String::new();
    push_str(&mut s, "\nHello everyone!\n\nThis is the crash newsletter of v");
    push_escaped(&mut s, version);
    push_str(&mut s, "\n\nLuckily this version does not have any crashes AppCenter knows about. Congratulations \u{1F389}!\n\nThis report was created using `recrep` for ");
    push_escaped(&mut s, organization);
    push_str(&mut s, "/");
    push_escaped(&mut s, application);
    push_str(&mut s, "/");
    push_escaped(&mut s, version);
    push_str(&mut s, ".\n");
    assert(s@ =~= no_crashes_page(organization@, application@, version@));
    s
}

} // verus!
