use vstd::prelude::*;

verus! {

/// A named cohort to which builds of an app are released.
#[derive(Debug)]
pub struct DistributionGroup {
    pub id: String,
    pub name: String,
}

/// One released version of an app.
#[derive(Debug)]
pub struct Version {
    pub short_version: String,
    /// Upload time as an ISO 8601 text, which sorts correctly by lexical order.
    pub uploaded_at: String,
    pub distribution_groups: Option<Vec<DistributionGroup>>,
}

/// How many of an error group's occurrences came from one operating system.
#[derive(Debug)]
pub struct OperatingSystemCount {
    pub name: String,
    pub count: u64,
}

impl OperatingSystemCount {
    /// A field-by-field copy.
    pub fn duplicate(&self) -> (r: OperatingSystemCount)
        ensures
            r == *self,
    {
        OperatingSystemCount { name: self.name.clone(), count: self.count }
    }
}

/// A copy of a list of per-system counts.
pub fn duplicate_counts(v: &Vec<OperatingSystemCount>) -> (r: Vec<OperatingSystemCount>)
    ensures
        r@ == v@,
{
    let mut r: Vec<OperatingSystemCount> = Vec::new();
    let mut i: usize = 0;
    while i < v.len()
        invariant
            i <= v@.len(),
            r@ == v@.take(i as int),
        decreases v@.len() - i,
    {
        r.push(v[i].duplicate());
        i = i + 1;
        assert(r@ =~= v@.take(i as int));
    }
    assert(v@.take(v@.len() as int) =~= v@);
    r
}

/// The per-system breakdown of one error group.
#[derive(Debug)]
pub struct ErrorGroup {
    pub operating_systems: Vec<OperatingSystemCount>,
    pub count: u64,
}

/// A group of similar crashes or errors, as the crash service classifies them.
#[derive(Debug)]
pub struct Crash {
    pub exception_method: Option<String>,
    pub app_version: Option<String>,
    pub app_build: Option<String>,
    pub first_occurrence: Option<String>,
    pub exception_file: Option<String>,
    pub exception_classname: Option<String>,
    pub error_group_id: Option<String>,
    pub device_count: Option<u64>,
    /// `true` for a crash, `false` for an error.
    pub exception_app_code: Option<bool>,
    pub count: Option<u64>,
    pub operating_systems: Option<Vec<OperatingSystemCount>>,
}

/// A copy of an optional text.
pub fn duplicate_text(o: &Option<String>) -> (r: Option<String>)
    ensures
        r == *o,
{
    match o {
        Some(t) => Some(t.clone()),
        None => None,
    }
}

impl Crash {
    /// A field-by-field copy.
    pub fn duplicate(&self) -> (r: Crash)
        ensures
            same_but_systems(*self, r),
            match self.operating_systems {
                Some(l) => r.operating_systems is Some && r.operating_systems->0@ == l@,
                None => r.operating_systems is None,
            },
    {
        Crash {
            exception_method: duplicate_text(&self.exception_method),
            app_version: duplicate_text(&self.app_version),
            app_build: duplicate_text(&self.app_build),
            first_occurrence: duplicate_text(&self.first_occurrence),
            exception_file: duplicate_text(&self.exception_file),
            exception_classname: duplicate_text(&self.exception_classname),
            error_group_id: duplicate_text(&self.error_group_id),
            device_count: self.device_count,
            exception_app_code: self.exception_app_code,
            count: self.count,
            operating_systems: match &self.operating_systems {
                Some(l) => Some(duplicate_counts(l)),
                None => None,
            },
        }
    }
}

/// The crash groups of one version, in the order the service gave them.
#[derive(Debug)]
pub struct CrashList {
    pub crashes: Vec<Crash>,
}

impl CrashList {
    /// A copy of every crash group, in order.
    pub fn duplicate(&self) -> (r: CrashList)
        ensures
            r.crashes@.len() == self.crashes@.len(),
            forall|i: int|
                0 <= i < self.crashes@.len() ==> same_but_systems(
                    #[trigger] self.crashes@[i],
                    r.crashes@[i],
                ) && match self.crashes@[i].operating_systems {
                    Some(l) => r.crashes@[i].operating_systems is Some && r.crashes@[i].operating_systems->0@ == l@,
                    None => r.crashes@[i].operating_systems is None,
                },
    {
        let mut crashes: Vec<Crash> = Vec::new();
        let mut i: usize = 0;
        while i < self.crashes.len()
            invariant
                i <= self.crashes@.len(),
                crashes@.len() == i,
                forall|k: int|
                    0 <= k < i ==> same_but_systems(#[trigger] self.crashes@[k], crashes@[k]) && match self.crashes@[k].operating_systems {
                        Some(l) => crashes@[k].operating_systems is Some && crashes@[k].operating_systems->0@ == l@,
                        None => crashes@[k].operating_systems is None,
                    },
            decreases self.crashes@.len() - i,
        {
            crashes.push(self.crashes[i].duplicate());
            i = i + 1;
        }
        CrashList { crashes }
    }
}

/// The per-system breakdowns found for error groups, keyed by error group id.
pub type GroupDetails = Vec<(String, Vec<OperatingSystemCount>)>;

/// The breakdown that `details` holds for the error group `id`: its first entry with that key.
pub open spec fn details_for(
    details: Seq<(String, Vec<OperatingSystemCount>)>,
    id: Seq<char>,
) -> Option<Seq<OperatingSystemCount>>
    decreases details.len(),
{
    if details.len() == 0 {
        None
    } else if details[0].0@ == id {
        Some(details[0].1@)
    } else {
        details_for(details.drop_first(), id)
    }
}

/// Whether `b` is `a` with at most its per-system breakdown changed.
pub open spec fn same_but_systems(a: Crash, b: Crash) -> bool {
    &&& a.exception_method == b.exception_method
    &&& a.app_version == b.app_version
    &&& a.app_build == b.app_build
    &&& a.first_occurrence == b.first_occurrence
    &&& a.exception_file == b.exception_file
    &&& a.exception_classname == b.exception_classname
    &&& a.error_group_id == b.error_group_id
    &&& a.device_count == b.device_count
    &&& a.exception_app_code == b.exception_app_code
    &&& a.count == b.count
}

/// What attaching `details` makes of the crash `a`, as `b`: the breakdown of its error group
/// where one was found, else `a` as it was.
pub open spec fn attached(details: Seq<(String, Vec<OperatingSystemCount>)>, a: Crash, b: Crash) -> bool {
    &&& same_but_systems(a, b)
    &&& match a.error_group_id {
        Some(id) => match details_for(details, id@) {
            Some(oses) => b.operating_systems is Some && b.operating_systems->0@ == oses,
            None => b.operating_systems == a.operating_systems,
        },
        None => b.operating_systems == a.operating_systems,
    }
}

/// Looks up the breakdown for the error group `id`.
pub fn find_details(details: &GroupDetails, id: &String) -> (r: Option<usize>)
    ensures
        match r {
            Some(k) => k < details@.len() && details_for(details@, id@) == Some(details@[k as int].1@),
            None => details_for(details@, id@) is None,
        },
{
    let mut i: usize = 0;
    assert(details@.skip(0) =~= details@);
    while i < details.len()
        invariant
            i <= details@.len(),
            details_for(details@, id@) == details_for(details@.skip(i as int), id@),
        decreases details@.len() - i,
    {
        if details[i].0 == *id {
            return Some(i);
        }
        assert(details@.skip(i as int).drop_first() =~= details@.skip(i + 1));
        i = i + 1;
    }
    None
}

/// The crashes of one version: what is fetched, transformed and rendered.
#[derive(Debug)]
pub struct Report {
    pub version: String,
    pub crash_list: CrashList,
}

impl Report {
    pub fn new(version: String, crash_list: CrashList) -> (r: Report)
        ensures
            r.version == version,
            r.crash_list == crash_list,
    {
        Report { version, crash_list }
    }

    /// Attaches to each crash group the per-system breakdown found for its error group id.
    pub fn assign_operating_system_details(&mut self, operating_systems: GroupDetails)
        ensures
            final(self).version == old(self).version,
            final(self).crash_list.crashes@.len() == old(self).crash_list.crashes@.len(),
            forall|i: int|
                0 <= i < old(self).crash_list.crashes@.len() ==> attached(
                    operating_systems@,
                    #[trigger] old(self).crash_list.crashes@[i],
                    final(self).crash_list.crashes@[i],
                ),
    {
        let ghost before = self.crash_list.crashes@;
        let mut done: Vec<Crash> = Vec::new();
        let mut rest: Vec<Crash> = Vec::new();
        std::mem::swap(&mut rest, &mut self.crash_list.crashes);
        let n = rest.len();
        let mut i: usize = 0;
        while i < n
            invariant
                n == before.len(),
                i <= n,
                rest@ == before.skip(i as int),
                done@.len() == i,
                forall|k: int| 0 <= k < i ==> attached(operating_systems@, #[trigger] before[k], done@[k]),
                self.version == old(self).version,
            decreases n - i,
        {
            let mut crash = rest.remove(0);
            let ghost c0 = crash;
            let mut found: Option<usize> = None;
            if let Some(group_id) = &crash.error_group_id {
                found = find_details(&operating_systems, group_id);
            }
            if let Some(k) = found {
                crash.operating_systems = Some(duplicate_counts(&operating_systems[k].1));
            }
            assert(attached(operating_systems@, c0, crash));
            done.push(crash);
            assert(before.skip(i as int).drop_first() =~= before.skip(i + 1));
            i = i + 1;
        }
        self.crash_list.crashes = done;
    }
}

} // verus!
