//! The parts that the service's web pages share, and the page that lists all repositories.

use crate::sql::CommitName;
use crate::sql::Job;
use crate::sql::NameState;
use crate::sql::Remote;
use crate::sql::Repo;
use crate::sql::Run;
use crate::sql::RunState;
use crate::sql::shown_name;
use crate::text::byte_prefix;
use crate::text::can_cut;
use crate::text::cuts_at;
use crate::text::decimal;
use crate::text::decimal_text;
use crate::text::first_bytes;
use crate::text::occurring_is_transitive;
use crate::text::occurs;
use crate::text::parts_occur;
use crate::text::parts_of_parts_occur;
use crate::text::same;
use crate::text::views;
use vstd::prelude::*;

verus! {

/// How many characters of a commit's hash are shown.
pub const SHORT_SHA_BYTES: usize = 9;

/// The first millisecond of the year 0, counted from 1970.
pub const FIRST_SHOWN_TIME: i64 = -62167219200000;

/// The last millisecond of the year 9999, counted from 1970.
pub const LAST_SHOWN_TIME: i64 = 253402300799999;

/// A unit of time with its number, or nothing where the number is zero.
pub open spec fn unit_text(n: nat, unit: Seq<char>) -> Seq<char> {
    if n == 0 {
        Seq::empty()
    } else {
        decimal(n) + unit
    }
}

/// The digits of a number of thousandths, without the zeros at their end.
pub open spec fn fraction_text(ms: nat) -> Seq<char> {
    if ms % 100 == 0 {
        decimal(ms / 100)
    } else if ms % 10 == 0 {
        decimal(ms / 100) + decimal(ms / 10 % 10)
    } else {
        decimal(ms / 100) + decimal(ms / 10 % 10) + decimal(ms % 10)
    }
}

/// A duration of less than a minute, to the millisecond.
pub open spec fn seconds_text(ms: nat) -> Seq<char> {
    if ms % 1000 == 0 {
        decimal(ms / 1000) + "s"@
    } else {
        decimal(ms / 1000) + "."@ + fraction_text(ms % 1000) + "s"@
    }
}

/// A duration of a number of milliseconds: the largest two of its hours, minutes and seconds that
/// are not zero, and where it is shorter than a minute its seconds with their fraction.
pub open spec fn human_duration(ms: nat) -> Seq<char> {
    let hours = ms / 3600000;
    let minutes = ms / 60000 % 60;
    let seconds = ms / 1000 % 60;
    if ms < 60000 {
        seconds_text(ms)
    } else if hours == 0 {
        unit_text(minutes, "m"@) + unit_text(seconds, "s"@)
    } else if minutes == 0 {
        unit_text(hours, "h"@) + unit_text(seconds, "s"@)
    } else {
        unit_text(hours, "h"@) + unit_text(minutes, "m"@)
    }
}

/// From a minute on, milliseconds do not show.
pub proof fn milliseconds_do_not_show(ms: nat)
    requires
        ms >= 60000,
    ensures
        human_duration(ms) == human_duration(ms / 1000 * 1000),
{
    let whole = ms / 1000 * 1000;
    assert(whole / 3600000 == ms / 3600000);
    assert(whole / 60000 == ms / 60000);
    assert(whole / 1000 == ms / 1000);
}

/// From an hour on, a number of whole minutes hides the seconds.
pub proof fn seconds_give_way_to_minutes(ms: nat, other: nat)
    requires
        ms / 60000 == other / 60000,
        ms >= 3600000,
        ms / 60000 % 60 != 0,
    ensures
        human_duration(ms) == human_duration(other),
{
    assert(other / 3600000 == ms / 3600000);
}

fn unit(n: u64, name: &str) -> (r: String)
    ensures
        r@ == unit_text(n as nat, name@),
{
    if n == 0 {
        String::new()
    } else {
        decimal_text(n).concat(name)
    }
}

fn fraction(ms: u64) -> (r: String)
    requires
        ms < 1000,
    ensures
        r@ == fraction_text(ms as nat),
{
    let tenths = decimal_text(ms / 100);
    let hundredths = decimal_text(ms / 10 % 10);
    let thousandths = decimal_text(ms % 10);
    if ms % 100 == 0 {
        tenths
    } else if ms % 10 == 0 {
        tenths.concat(hundredths.as_str())
    } else {
        tenths.concat(hundredths.as_str()).concat(thousandths.as_str())
    }
}

/// Renders a duration as the largest two units that are not zero.
///
/// - 60000ms: `1m`
/// - 60001ms: `1m`
/// - 61000ms: `1m1s`
/// - 1030ms: `1.03s`
pub fn duration_as_human_string(duration_ms: u64) -> (r: String)
    ensures
        r@ == human_duration(duration_ms as nat),
{
    let hours: u64 = duration_ms / 3600000;
    let minutes: u64 = duration_ms / 60000 % 60;
    let seconds: u64 = duration_ms / 1000 % 60;
    if duration_ms < 60000 {
        let mut res = decimal_text(duration_ms / 1000);
        let rest: u64 = duration_ms % 1000;
        if rest != 0 {
            res.append(".");
            let digits = fraction(rest);
            res.append(digits.as_str());
        }
        res.append("s");
        res
    } else if hours == 0 {
        let tail = unit(seconds, "s");
        unit(minutes, "m").concat(tail.as_str())
    } else if minutes == 0 {
        let tail = unit(seconds, "s");
        unit(hours, "h").concat(tail.as_str())
    } else {
        let tail = unit(minutes, "m");
        unit(hours, "h").concat(tail.as_str())
    }
}

/// Where a commit can be looked at on the service that it came from.
pub open spec fn source_url(remote: Remote, commit_sha: Seq<char>) -> Option<Seq<char>> {
    if remote.remote_api@ == "github"@ {
        Some(remote.remote_url@ + "/commit/"@ + commit_sha)
    } else {
        None
    }
}

/// The name of the service that a commit came from, and where the commit can be looked at there.
pub fn commit_url(remote: &Remote, commit_sha: &str) -> (r: (String, Option<String>))
    ensures
        r.0@ == remote.remote_api@,
        match r.1 {
            Some(url) => source_url(*remote, commit_sha@) == Some(url@),
            None => source_url(*remote, commit_sha@) is None,
        },
{
    if same(remote.remote_api.as_str(), "github") {
        let url = remote.remote_url.clone().concat("/commit/").concat(commit_sha);
        (remote.remote_api.clone(), Some(url))
    } else {
        (remote.remote_api.clone(), None)
    }
}

/// The path of the page with the details of a commit's job.
pub open spec fn job_path(remote: Remote, commit_sha: Seq<char>) -> Seq<char> {
    remote.remote_path@ + "/"@ + commit_sha
}

pub fn job_url(remote: &Remote, commit_sha: &str) -> (r: String)
    ensures
        r@ == job_path(*remote, commit_sha@),
{
    remote.remote_path.clone().concat("/").concat(commit_sha)
}

/// The run is still going on: it was started, and nothing says that it has ended since. A run that
/// was started again keeps the time at which it ended before.
pub open spec fn ongoing(run: Run) -> bool {
    match (run.start_time, run.complete_time) {
        (Some(start), Some(complete)) => complete < start && run.state == RunState::Started,
        (Some(_), None) => run.state != RunState::Invalid,
        (None, _) => false,
    }
}

/// The run can be timed at `now`: if it is going on, it did not start later than that.
pub open spec fn can_time(run: Run, now: u64) -> bool {
    ongoing(run) ==> run.start_time->0 <= now
}

/// How long a run took, or is taking at the time `now`.
pub open spec fn run_time(run: Run, now: u64) -> Seq<char> {
    if ongoing(run) {
        human_duration((now - run.start_time->0) as nat) + " (ongoing)"@
    } else {
        match (run.start_time, run.complete_time) {
            (None, _) => "not yet run"@,
            (Some(_), None) => "n/a"@,
            (Some(start), Some(complete)) => if complete < start {
                "invalid data"@
            } else {
                human_duration((complete - start) as nat)
            },
        }
    }
}

/// What is shown of a run that has ended does not change with time.
pub proof fn ended_run_time_is_fixed(run: Run, earlier: u64, later: u64)
    requires
        !ongoing(run),
    ensures
        run_time(run, earlier) == run_time(run, later),
{
}

/// Whether the run can be timed at `now`.
pub fn run_can_be_timed(run: &Run, now: u64) -> (r: bool)
    ensures
        r == can_time(*run, now),
{
    match (run.start_time, run.complete_time) {
        (Some(start), Some(complete)) => !(complete < start && run.state == RunState::Started)
            || start <= now,
        (Some(start), None) => run.state == RunState::Invalid || start <= now,
        (None, _) => true,
    }
}

/// Renders how long a run took, or is taking at the time `now`.
pub fn display_run_time_at(run: &Run, now: u64) -> (r: String)
    requires
        can_time(*run, now),
    ensures
        r@ == run_time(*run, now),
{
    if let Some(start_time) = run.start_time {
        if let Some(complete_time) = run.complete_time {
            if complete_time < start_time {
                if run.state == RunState::Started {
                    // This run was started again: the time at which it ended is that of before.
                    duration_as_human_string(now - start_time).concat(" (ongoing)")
                } else {
                    "invalid data".to_owned()
                }
            } else {
                duration_as_human_string(complete_time - start_time)
            }
        } else {
            if run.state != RunState::Invalid {
                duration_as_human_string(now - start_time).concat(" (ongoing)")
            } else {
                "n/a".to_owned()
            }
        }
    } else {
        "not yet run".to_owned()
    }
}

/// Renders how long a run took, or is taking at the time `now`, where `now` is not before its start.
pub fn run_time_text(run: &Run, now: u64) -> (r: Option<String>)
    ensures
        match r {
            Some(text) => can_time(*run, now) && text@ == run_time(*run, now),
            None => !can_time(*run, now),
        },
{
    if run_can_be_timed(run, now) {
        Some(display_run_time_at(run, now))
    } else {
        None
    }
}

/// Renders how long a run took, or is taking now, where the clock is not behind its start: what
/// [`run_time_text`] gives for the clock's time.
pub fn display_run_time(run: &Run) -> (r: Option<String>)
    ensures
        !ongoing(*run) ==> (r matches Some(text) && text@ == run_time(*run, 0)),
        match r {
            Some(text) => exists|now: u64|
                can_time(*run, now) && text@ == #[trigger] run_time(*run, now),
            None => ongoing(*run) && run.start_time->0 > 0,
        },
{
    let now: u64 = crate::now_ms();
    proof {
        if !ongoing(*run) {
            ended_run_time_is_fixed(*run, now, 0);
        }
    }
    run_time_text(run, now)
}

/// The text of a time as mails give it, such as `Tue, 1 Jul 2003 10:52:37 +0000`.
pub uninterp spec fn rfc2822_of_millis(ms: i64) -> Seq<char>;

/// The time can be shown: its year has four digits.
pub open spec fn shows_time(ms: u64) -> bool {
    FIRST_SHOWN_TIME <= ms as i64 <= LAST_SHOWN_TIME
}

/// `chrono::TimeZone::timestamp_millis_opt` of `chrono::Utc`, and `chrono::DateTime::to_rfc2822`
/// of what it gives. The text depends on the number of milliseconds alone. Both work on every
/// time of the years 0 to 9999; the second panics on a year that has more digits or is negative.
#[verifier::external_body]
fn rfc2822(ms: i64) -> (r: String)
    requires
        FIRST_SHOWN_TIME <= ms <= LAST_SHOWN_TIME,
    ensures
        r@ == rfc2822_of_millis(ms),
{
    chrono::TimeZone::timestamp_millis_opt(&chrono::Utc, ms).unwrap().to_rfc2822()
}

/// Whether the time can be shown.
pub fn time_can_be_shown(ms: u64) -> (r: bool)
    ensures
        r == shows_time(ms),
{
    FIRST_SHOWN_TIME <= ms as i64 && ms as i64 <= LAST_SHOWN_TIME
}

/// Renders a time, given in milliseconds since 1970.
pub fn time_text(ms: u64) -> (r: String)
    requires
        shows_time(ms),
    ensures
        r@ == rfc2822_of_millis(ms as i64),
{
    rfc2822(ms as i64)
}

/// A link.
pub open spec fn link_html(url: Seq<char>, label: Seq<char>) -> Seq<char> {
    "<a href=\""@ + url + "\">"@ + label + "</a>"@
}

pub fn link(url: &str, label: &str) -> (r: String)
    ensures
        r@ == link_html(url@, label@),
{
    "<a href=\"".to_owned().concat(url).concat("\">").concat(label).concat("</a>")
}

/// A link to the page of a repository.
pub open spec fn repo_link_html(name: Seq<char>) -> Seq<char> {
    link_html("/"@ + name, name)
}

pub fn repo_link(name: &str) -> (r: String)
    ensures
        r@ == repo_link_html(name@),
{
    let url = "/".to_owned().concat(name);
    link(url.as_str(), name)
}

/// What came of a run.
pub open spec fn result_html(state: RunState, build_result: Option<u8>) -> Seq<char> {
    match build_result {
        Some(result) => if result == 0 {
            "<span style='color:green;'>pass</span>"@
        } else {
            "<span style='color:red;'>fail</span>"@
        },
        None => match state {
            RunState::Pending => "unstarted"@,
            RunState::Started => "<span style='color:darkgoldenrod;'>in progress</span>"@,
            _ => "<span style='color:red;'>unreported</span>"@,
        },
    }
}

pub fn run_result(state: RunState, build_result: Option<u8>) -> (r: String)
    ensures
        r@ == result_html(state, build_result),
{
    match build_result {
        Some(result) => if result == 0 {
            "<span style='color:green;'>pass</span>".to_owned()
        } else {
            "<span style='color:red;'>fail</span>".to_owned()
        },
        None => match state {
            RunState::Pending => "unstarted".to_owned(),
            RunState::Started => {
                "<span style='color:darkgoldenrod;'>in progress</span>".to_owned()
            },
            _ => "<span style='color:red;'>unreported</span>".to_owned(),
        },
    }
}

/// The cells of a table's row.
pub open spec fn cells_html(cells: Seq<Seq<char>>) -> Seq<char>
    decreases cells.len(),
{
    if cells.len() == 0 {
        Seq::empty()
    } else {
        cells_html(cells.drop_last()) + "<td class='row-item'>"@ + cells.last() + "</td>"@
    }
}

pub fn cells(list: &Vec<String>) -> (r: String)
    ensures
        r@ == cells_html(views(list@)),
{
    let mut out = String::new();
    let mut i: usize = 0;
    assert(views(list@).take(0) =~= Seq::<Seq<char>>::empty());
    while i < list.len()
        invariant
            i <= list@.len(),
            out@ == cells_html(views(list@).take(i as int)),
        decreases list@.len() - i,
    {
        assert(views(list@).take(i + 1).drop_last() == views(list@).take(i as int));
        assert(views(list@).take(i + 1).last() == list@[i as int]@);
        out.append("<td class='row-item'>");
        out.append(list[i].as_str());
        out.append("</td>");
        i = i + 1;
    }
    assert(views(list@).take(list@.len() as int) == views(list@));
    out
}

/// The first row of a table.
pub open spec fn headings_html(headings: Seq<Seq<char>>) -> Seq<char>
    decreases headings.len(),
{
    if headings.len() == 0 {
        Seq::empty()
    } else {
        headings_html(headings.drop_last()) + "<th class='row-item'>"@ + headings.last()
            + "</th>"@
    }
}

pub fn heading_cells(list: &Vec<String>) -> (r: String)
    ensures
        r@ == headings_html(views(list@)),
{
    let mut out = String::new();
    let mut i: usize = 0;
    assert(views(list@).take(0) =~= Seq::<Seq<char>>::empty());
    while i < list.len()
        invariant
            i <= list@.len(),
            out@ == headings_html(views(list@).take(i as int)),
        decreases list@.len() - i,
    {
        assert(views(list@).take(i + 1).drop_last() == views(list@).take(i as int));
        assert(views(list@).take(i + 1).last() == list@[i as int]@);
        out.append("<th class='row-item'>");
        out.append(list[i].as_str());
        out.append("</th>");
        i = i + 1;
    }
    assert(views(list@).take(list@.len() as int) == views(list@));
    out
}

/// A table's opening and its first row.
pub open spec fn table_head_html(headings: Seq<Seq<char>>) -> Seq<char> {
    "<table class='build-table'>"@ + "<tr>\n"@ + headings_html(headings) + "</tr>\n"@
}

pub fn table_head(headings: &Vec<String>) -> (r: String)
    ensures
        r@ == table_head_html(views(headings@)),
{
    let row = heading_cells(headings);
    "<table class='build-table'>".to_owned().concat("<tr>\n").concat(row.as_str()).concat("</tr>\n")
}

/// Rows alternate between two looks.
pub open spec fn row_class(index: int) -> Seq<char> {
    if index % 2 == 0 {
        "even-row"@
    } else {
        "odd-row"@
    }
}

/// Row number `index` of a table.
pub open spec fn row_html(index: int, cells: Seq<Seq<char>>) -> Seq<char> {
    "<tr class=\""@ + row_class(index) + "\">"@ + cells_html(cells) + "</tr>"@ + "\n"@
}

pub fn row(index: usize, list: &Vec<String>) -> (r: String)
    ensures
        r@ == row_html(index as int, views(list@)),
{
    let class: &str = if index % 2 == 0 {
        "even-row"
    } else {
        "odd-row"
    };
    let body = cells(list);
    "<tr class=\"".to_owned().concat(class).concat("\">").concat(body.as_str()).concat(
        "</tr>",
    ).concat("\n")
}

/// The looks of the tables.
pub open spec fn style_html() -> Seq<char> {
    "<style>\n"@
        + ".build-table { font-family: monospace; border: 1px solid black; border-collapse: collapse; }\n"@
        + ".row-item { padding-left: 4px; padding-right: 4px; border-right: 1px solid black; }\n"@
        + ".odd-row { background: #eee; }\n"@ + ".even-row { background: #ddd; }\n"@
        + "</style>\n"@
}

pub fn style() -> (r: String)
    ensures
        r@ == style_html(),
{
    "<style>\n".to_owned().concat(
        ".build-table { font-family: monospace; border: 1px solid black; border-collapse: collapse; }\n",
    ).concat(
        ".row-item { padding-left: 4px; padding-right: 4px; border-right: 1px solid black; }\n",
    ).concat(".odd-row { background: #eee; }\n").concat(".even-row { background: #ddd; }\n").concat(
        "</style>\n",
    )
}

/// A run, with what its row on the page of all repositories shows of it.
pub struct RunEntry {
    pub job: Job,
    pub run: Run,
    pub commit_sha: String,
    pub nice_name: Option<CommitName>,
    pub remote: Remote,
}

/// A repository, with the latest of its runs.
pub struct RepoEntry {
    pub repo: Repo,
    pub latest: Option<RunEntry>,
}

/// A run that has not ended, with its repository.
pub struct ActiveEntry {
    pub repo: Repo,
    pub entry: RunEntry,
}

impl RunEntry {
    /// The run can be shown at the time `now`.
    pub open spec fn showable(&self, now: u64) -> bool {
        &&& cuts_at(self.commit_sha@, SHORT_SHA_BYTES as int)
        &&& shows_time(self.run.create_time)
        &&& can_time(self.run, now)
    }

    pub fn can_show(&self, now: u64) -> (r: bool)
        ensures
            r == self.showable(now),
    {
        can_cut(self.commit_sha.as_str(), SHORT_SHA_BYTES) && time_can_be_shown(
            self.run.create_time,
        ) && run_can_be_timed(&self.run, now)
    }
}

impl RepoEntry {
    pub open spec fn showable(&self, now: u64) -> bool {
        self.latest matches Some(entry) ==> entry.showable(now)
    }

    pub fn can_show(&self, now: u64) -> (r: bool)
        ensures
            r == self.showable(now),
    {
        match &self.latest {
            Some(entry) => entry.can_show(now),
            None => true,
        }
    }
}

/// The run of index `k` was created last, and first among those that were created then.
pub open spec fn is_latest(candidates: Seq<(Job, Run)>, k: int) -> bool {
    &&& 0 <= k < candidates.len()
    &&& forall|j: int|
        0 <= j < candidates.len() ==> (#[trigger] candidates[j]).1.create_time
            <= candidates[k].1.create_time
    &&& forall|j: int|
        0 <= j < k ==> (#[trigger] candidates[j]).1.create_time < candidates[k].1.create_time
}

/// Only one run is the latest, and no run was created after it.
pub proof fn one_run_is_the_latest(candidates: Seq<(Job, Run)>, k: int, other: int)
    requires
        is_latest(candidates, k),
        0 <= other < candidates.len(),
    ensures
        candidates[other].1.create_time <= candidates[k].1.create_time,
        candidates[other].1.create_time == candidates[k].1.create_time ==> k <= other,
        is_latest(candidates, other) ==> other == k,
{
}

/// Of the last run of each remote, in order, the index of the one that was created last; the first
/// of them where several were created at the same time.
pub fn most_recent(candidates: &Vec<(Job, Run)>) -> (r: Option<usize>)
    ensures
        match r {
            Some(k) => is_latest(candidates@, k as int),
            None => candidates@.len() == 0,
        },
{
    let mut best: Option<usize> = None;
    let mut i: usize = 0;
    while i < candidates.len()
        invariant
            i <= candidates@.len(),
            best is None <==> i == 0,
            best matches Some(k) ==> {
                &&& k < i
                &&& forall|j: int|
                    0 <= j < i ==> (#[trigger] candidates@[j]).1.create_time
                        <= candidates@[k as int].1.create_time
                &&& forall|j: int|
                    0 <= j < k ==> (#[trigger] candidates@[j]).1.create_time
                        < candidates@[k as int].1.create_time
            },
        decreases candidates@.len() - i,
    {
        let newer = match best {
            Some(k) => candidates[k].1.create_time < candidates[i].1.create_time,
            None => true,
        };
        if newer {
            best = Some(i);
        }
        i = i + 1;
    }
    best
}

/// A link to the page of a run's job, and the name of its commit.
pub open spec fn commit_html(entry: RunEntry) -> Seq<char> {
    let linked = link_html(
        job_path(entry.remote, entry.commit_sha@),
        byte_prefix(entry.commit_sha@, SHORT_SHA_BYTES as int),
    );
    let numbered = linked + " (job "@ + decimal(entry.job.id as nat) + ")"@;
    match entry.nice_name {
        Some(name) => numbered + " "@ + shown_name(name.name@, name.state),
        None => numbered,
    }
}

fn commit_cell(entry: &RunEntry) -> (r: String)
    requires
        cuts_at(entry.commit_sha@, SHORT_SHA_BYTES as int),
    ensures
        r@ == commit_html(*entry),
{
    let url = job_url(&entry.remote, entry.commit_sha.as_str());
    let short = first_bytes(entry.commit_sha.as_str(), SHORT_SHA_BYTES);
    let id = decimal_text(entry.job.id);
    let numbered = link(url.as_str(), short.as_str()).concat(" (job ").concat(id.as_str()).concat(
        ")",
    );
    match &entry.nice_name {
        Some(name) => {
            let shown = name.stringy();
            numbered.concat(" ").concat(shown.as_str())
        },
        None => numbered,
    }
}

/// The service that a run's commit came from, with a link to the commit where there is one.
pub open spec fn source_html(remote: Remote, commit_sha: Seq<char>) -> Seq<char> {
    match source_url(remote, commit_sha) {
        Some(url) => link_html(url, remote.remote_api@),
        None => remote.remote_api@,
    }
}

fn source_cell(remote: &Remote, commit_sha: &str) -> (r: String)
    ensures
        r@ == source_html(*remote, commit_sha@),
{
    match commit_url(remote, commit_sha) {
        (source, Some(url)) => link(url.as_str(), source.as_str()),
        (source, None) => source,
    }
}

/// The cells of a run's row on the page of all repositories.
pub open spec fn run_cells(repo: Repo, entry: RunEntry, now: u64) -> Seq<Seq<char>> {
    seq![
        repo_link_html(repo.name@),
        rfc2822_of_millis(entry.run.create_time as i64),
        commit_html(entry),
        source_html(entry.remote, entry.commit_sha@),
        run_time(entry.run, now),
        entry.run.state.word(),
        result_html(entry.run.state, entry.run.build_result),
    ]
}

fn run_cell_list(repo: &Repo, entry: &RunEntry, now: u64) -> (r: Vec<String>)
    requires
        entry.showable(now),
    ensures
        views(r@) == run_cells(*repo, *entry, now),
{
    let mut list: Vec<String> = Vec::new();
    list.push(repo_link(repo.name.as_str()));
    list.push(time_text(entry.run.create_time));
    list.push(commit_cell(entry));
    list.push(source_cell(&entry.remote, entry.commit_sha.as_str()));
    list.push(display_run_time_at(&entry.run, now));
    list.push(entry.run.state.lower_name());
    list.push(run_result(entry.run.state, entry.run.build_result));
    list
}

/// The headings of the page of all repositories.
pub open spec fn index_headings() -> Seq<Seq<char>> {
    seq![
        "repo"@,
        "last build"@,
        "commit/job"@,
        "remote"@,
        "duration"@,
        "status"@,
        "result"@,
    ]
}

fn index_heading_list() -> (r: Vec<String>)
    ensures
        views(r@) == index_headings(),
{
    let mut list: Vec<String> = Vec::new();
    list.push("repo".to_owned());
    list.push("last build".to_owned());
    list.push("commit/job".to_owned());
    list.push("remote".to_owned());
    list.push("duration".to_owned());
    list.push("status".to_owned());
    list.push("result".to_owned());
    list
}

/// The cells of a repository's row: those of its latest run, or its name and then nothing.
pub open spec fn repo_cells(entry: RepoEntry, now: u64) -> Seq<Seq<char>> {
    match entry.latest {
        Some(latest) => run_cells(entry.repo, latest, now),
        None => Seq::new(
            index_headings().len(),
            |i: int|
                if i == 0 {
                    repo_link_html(entry.repo.name@)
                } else {
                    Seq::empty()
                },
        ),
    }
}

fn repo_cell_list(entry: &RepoEntry, now: u64) -> (r: Vec<String>)
    requires
        entry.showable(now),
    ensures
        views(r@) == repo_cells(*entry, now),
{
    match &entry.latest {
        Some(latest) => run_cell_list(&entry.repo, latest, now),
        None => {
            let headings = index_heading_list();
            let mut list: Vec<String> = Vec::new();
            list.push(repo_link(entry.repo.name.as_str()));
            assert(views(headings@).len() == 7);
            while list.len() < headings.len()
                invariant
                    1 <= list@.len() <= headings@.len(),
                    list@[0]@ == repo_link_html(entry.repo.name@),
                    forall|j: int|
                        1 <= j < list@.len() ==> (#[trigger] list@[j])@ == Seq::<char>::empty(),
                decreases headings@.len() - list@.len(),
            {
                list.push(String::new());
            }
            list
        },
    }
}

/// The rows of the first `n` repositories.
pub open spec fn repo_rows_html(repos: Seq<RepoEntry>, n: nat, now: u64) -> Seq<char>
    decreases n,
{
    if n == 0 {
        Seq::empty()
    } else {
        repo_rows_html(repos, (n - 1) as nat, now) + row_html(
            n - 1,
            repo_cells(repos[n - 1], now),
        )
    }
}

fn repo_rows(repos: &Vec<RepoEntry>, now: u64) -> (r: String)
    requires
        forall|i: int| 0 <= i < repos@.len() ==> (#[trigger] repos@[i]).showable(now),
    ensures
        r@ == repo_rows_html(repos@, repos@.len(), now),
{
    let mut out = String::new();
    let mut i: usize = 0;
    while i < repos.len()
        invariant
            i <= repos@.len(),
            out@ == repo_rows_html(repos@, i as nat, now),
            forall|i: int| 0 <= i < repos@.len() ==> (#[trigger] repos@[i]).showable(now),
        decreases repos@.len() - i,
    {
        let list = repo_cell_list(&repos[i], now);
        let html = row(i, &list);
        out.append(html.as_str());
        i = i + 1;
    }
    out
}

/// The rows of the first `n` runs that have not ended.
pub open spec fn active_rows_html(active: Seq<ActiveEntry>, n: nat, now: u64) -> Seq<char>
    decreases n,
{
    if n == 0 {
        Seq::empty()
    } else {
        active_rows_html(active, (n - 1) as nat, now) + row_html(
            n - 1,
            run_cells(active[n - 1].repo, active[n - 1].entry, now),
        )
    }
}

fn active_rows(active: &Vec<ActiveEntry>, now: u64) -> (r: String)
    requires
        forall|i: int| 0 <= i < active@.len() ==> (#[trigger] active@[i]).entry.showable(now),
    ensures
        r@ == active_rows_html(active@, active@.len(), now),
{
    let mut out = String::new();
    let mut i: usize = 0;
    while i < active.len()
        invariant
            i <= active@.len(),
            out@ == active_rows_html(active@, i as nat, now),
            forall|i: int| 0 <= i < active@.len() ==> (#[trigger] active@[i]).entry.showable(now),
        decreases active@.len() - i,
    {
        let list = run_cell_list(&active[i].repo, &active[i].entry, now);
        let html = row(i, &list);
        out.append(html.as_str());
        i = i + 1;
    }
    out
}

/// How many repositories there are.
pub open spec fn repo_count_html(n: nat) -> Seq<char> {
    if n == 0 {
        "<p>no repos configured, so there are no builds</p>\n"@
    } else if n == 1 {
        "<p>1 repo configured</p>\n"@
    } else {
        "<p>"@ + decimal(n) + " repos configured</p>\n"@
    }
}

pub fn repo_count(n: usize) -> (r: String)
    ensures
        r@ == repo_count_html(n as nat),
{
    match n {
        0 => "<p>no repos configured, so there are no builds</p>\n".to_owned(),
        1 => "<p>1 repo configured</p>\n".to_owned(),
        other => {
            let n = decimal_text(other as u64);
            "<p>".to_owned().concat(n.as_str()).concat(" repos configured</p>\n")
        },
    }
}

/// The table of the runs that have not ended.
pub open spec fn active_html(active: Seq<ActiveEntry>, now: u64) -> Seq<char> {
    if active.len() == 0 {
        "<p>(none)</p>\n"@
    } else {
        table_head_html(index_headings()) + active_rows_html(active, active.len(), now)
            + "</table>\n"@
    }
}

/// The page of all repositories.
pub open spec fn index_html(
    repos: Seq<RepoEntry>,
    active: Seq<ActiveEntry>,
    now: u64,
) -> Seq<char> {
    "<html>\n"@ + style_html() + "<h1>builds and build accessories</h1>\n"@ + repo_count_html(
        repos.len(),
    ) + table_head_html(index_headings()) + repo_rows_html(repos, repos.len(), now) + "</table>"@
        + "<h4>active tasks</h4>\n"@ + active_html(active, now) + "</html>"@
}

/// The page of all repositories at the time `now`, where the repositories could be read.
pub fn build_repo_index(
    repos: Option<&Vec<RepoEntry>>,
    active: &Vec<ActiveEntry>,
    now: u64,
) -> (r: Result<String, String>)
    requires
        repos matches Some(list) ==> forall|i: int|
            0 <= i < list@.len() ==> (#[trigger] list@[i]).showable(now),
        forall|i: int| 0 <= i < active@.len() ==> (#[trigger] active@[i]).entry.showable(now),
    ensures
        match r {
            Ok(page) => repos is Some && page@ == index_html(repos->0@, active@, now),
            Err(e) => repos is None && e@ == "gonna feel that one tomorrow"@,
        },
{
    let repos: &Vec<RepoEntry> = match repos {
        Some(repos) => repos,
        None => {
            return Err("gonna feel that one tomorrow".to_owned());
        },
    };
    let headings = index_heading_list();
    let head = table_head(&headings);
    let looks = style();

    let mut response = "<html>\n".to_owned();
    response.append(looks.as_str());
    response.append("<h1>builds and build accessories</h1>\n");

    let count = repo_count(repos.len());
    response.append(count.as_str());
    response.append(head.as_str());
    let rows = repo_rows(repos, now);
    response.append(rows.as_str());
    response.append("</table>");
    response.append("<h4>active tasks</h4>\n");

    let section: String = if active.len() == 0 {
        "<p>(none)</p>\n".to_owned()
    } else {
        let rows = active_rows(active, now);
        head.clone().concat(rows.as_str()).concat("</table>\n")
    };
    response.append(section.as_str());
    response.append("</html>");
    Ok(response)
}

/// How a duration of hours, minutes, seconds and milliseconds is shown.
pub proof fn durations_show_their_largest_units(h: nat, m: nat, s: nat, rest: nat)
    requires
        m < 60,
        s < 60,
        rest < 1000,
    ensures
        ({
            let shown = human_duration(h * 3600000 + m * 60000 + s * 1000 + rest);
            &&& h > 0 && m > 0 ==> shown == decimal(h) + "h"@ + (decimal(m) + "m"@)
            &&& h > 0 && m == 0 && s > 0 ==> shown == decimal(h) + "h"@ + (decimal(s) + "s"@)
            &&& h > 0 && m == 0 && s == 0 ==> shown == decimal(h) + "h"@
            &&& h == 0 && m > 0 && s > 0 ==> shown == decimal(m) + "m"@ + (decimal(s) + "s"@)
            &&& h == 0 && m > 0 && s == 0 ==> shown == decimal(m) + "m"@
            &&& h == 0 && m == 0 && rest == 0 ==> shown == decimal(s) + "s"@
            &&& h == 0 && m == 0 && rest > 0 ==> shown == decimal(s) + "."@ + fraction_text(rest)
                + "s"@
        }),
{
    let ms = h * 3600000 + m * 60000 + s * 1000 + rest;
    assert(ms / 3600000 == h);
    assert(ms / 60000 == h * 60 + m);
    assert((h * 60 + m) % 60 == m);
    assert(ms / 1000 == h * 3600 + m * 60 + s);
    assert((h * 3600 + m * 60 + s) % 60 == s);
    assert(ms % 1000 == rest);
    let none = Seq::<char>::empty();
    assert(decimal(h) + "h"@ + none =~= decimal(h) + "h"@);
    assert(decimal(m) + "m"@ + none =~= decimal(m) + "m"@);
}

/// The digits of a fraction are those of its tenths, hundredths and thousandths, without zeros at
/// the end.
pub proof fn fractions_show_their_digits(tenths: nat, hundredths: nat, thousandths: nat)
    requires
        tenths < 10,
        hundredths < 10,
        thousandths < 10,
    ensures
        ({
            let shown = fraction_text(100 * tenths + 10 * hundredths + thousandths);
            &&& thousandths > 0 ==> shown == decimal(tenths) + decimal(hundredths) + decimal(
                thousandths,
            )
            &&& thousandths == 0 && hundredths > 0 ==> shown == decimal(tenths) + decimal(
                hundredths,
            )
            &&& thousandths == 0 && hundredths == 0 ==> shown == decimal(tenths)
        }),
{
    let ms = 100 * tenths + 10 * hundredths + thousandths;
    assert(ms / 100 == tenths);
    assert(ms / 10 == 10 * tenths + hundredths);
    assert((10 * tenths + hundredths) % 10 == hundredths);
    assert(ms % 10 == thousandths);
    assert(ms % 100 == 10 * hundredths + thousandths);
}

/// How long a run took is the time between its start and its end, whatever its state and whenever it
/// is shown; one without a start was not run yet, and one that is marked as started and has no end,
/// or one from before its start, is going on since its start.
pub proof fn run_times_are_measured(run: Run, now: u64)
    ensures
        run.start_time is None ==> run_time(run, now) == "not yet run"@,
        run.start_time matches Some(start) ==> (run.complete_time matches Some(complete) ==> start
            <= complete ==> run_time(run, now) == human_duration((complete - start) as nat)),
        run.start_time matches Some(start) ==> run.state == RunState::Started && start <= now && (
        run.complete_time is None || run.complete_time->0 < start) ==> run_time(run, now)
            == human_duration((now - start) as nat) + " (ongoing)"@,
        run.start_time matches Some(start) ==> (run.complete_time matches Some(complete) ==> complete
            < start && run.state != RunState::Started ==> run_time(run, now) == "invalid data"@),
        run.start_time is Some && run.complete_time is None && run.state == RunState::Invalid
            ==> run_time(run, now) == "n/a"@,
        run.start_time matches Some(start) ==> run.complete_time is None && run.state
            != RunState::Invalid && start <= now ==> run_time(run, now) == human_duration(
            (now - start) as nat,
        ) + " (ongoing)"@,
{
}

/// A run is shown as passed exactly if its result is success, and as failed exactly if it is any
/// other; one without a result is shown as unstarted while it waits, as in progress while it runs,
/// and else as unreported.
pub proof fn results_show_what_came_of_runs(state: RunState, build_result: Option<u8>)
    ensures
        result_html(state, build_result) == "<span style='color:green;'>pass</span>"@
            <==> build_result == Some(0u8),
        result_html(state, build_result) == "<span style='color:red;'>fail</span>"@ <==> (
        build_result matches Some(result) && result != 0),
        result_html(state, build_result) == "unstarted"@ <==> build_result is None && state
            == RunState::Pending,
        result_html(state, build_result)
            == "<span style='color:darkgoldenrod;'>in progress</span>"@ <==> build_result is None
            && state == RunState::Started,
        result_html(state, build_result) == "<span style='color:red;'>unreported</span>"@
            <==> build_result is None && state != RunState::Pending && state != RunState::Started,
{
    reveal_strlit("<span style='color:green;'>pass</span>");
    reveal_strlit("<span style='color:red;'>fail</span>");
    reveal_strlit("unstarted");
    reveal_strlit("<span style='color:darkgoldenrod;'>in progress</span>");
    reveal_strlit("<span style='color:red;'>unreported</span>");
    assert("<span style='color:green;'>pass</span>"@.len() == 38);
    assert("<span style='color:red;'>fail</span>"@.len() == 36);
    assert("unstarted"@.len() == 9);
    assert("<span style='color:darkgoldenrod;'>in progress</span>"@.len() == 53);
    assert("<span style='color:red;'>unreported</span>"@.len() == 42);
}

/// A row of the page of all repositories says under each heading what the heading says: the
/// repository, when its run was made, the commit and job, where the commit came from, how long the
/// run took, its state, and what came of it.
pub proof fn index_cells_stand_under_their_headings(
    repo: Repo,
    entry: RunEntry,
    now: u64,
    k: int,
)
    requires
        0 <= k < index_headings().len(),
    ensures
        run_cells(repo, entry, now).len() == index_headings().len(),
        index_headings()[k] == "repo"@ ==> run_cells(repo, entry, now)[k] == link_html(
            "/"@ + repo.name@,
            repo.name@,
        ),
        index_headings()[k] == "last build"@ ==> run_cells(repo, entry, now)[k]
            == rfc2822_of_millis(entry.run.create_time as i64),
        index_headings()[k] == "commit/job"@ ==> run_cells(repo, entry, now)[k] == commit_html(
            entry,
        ),
        index_headings()[k] == "remote"@ ==> run_cells(repo, entry, now)[k] == source_html(
            entry.remote,
            entry.commit_sha@,
        ),
        index_headings()[k] == "duration"@ ==> run_cells(repo, entry, now)[k] == run_time(
            entry.run,
            now,
        ),
        index_headings()[k] == "status"@ ==> run_cells(repo, entry, now)[k]
            == entry.run.state.word(),
        index_headings()[k] == "result"@ ==> run_cells(repo, entry, now)[k] == result_html(
            entry.run.state,
            entry.run.build_result,
        ),
        exists|j: int| 0 <= j < index_headings().len() && #[trigger] index_headings()[j] == "repo"@,
        exists|j: int|
            0 <= j < index_headings().len() && #[trigger] index_headings()[j] == "duration"@,
        exists|j: int|
            0 <= j < index_headings().len() && #[trigger] index_headings()[j] == "status"@,
        exists|j: int|
            0 <= j < index_headings().len() && #[trigger] index_headings()[j] == "result"@,
{
    reveal_strlit("repo");
    reveal_strlit("last build");
    reveal_strlit("commit/job");
    reveal_strlit("remote");
    reveal_strlit("duration");
    reveal_strlit("status");
    reveal_strlit("result");
    assert("repo"@.len() == 4 && "last build"@.len() == 10 && "commit/job"@.len() == 10);
    assert("last build"@[0] == 'l' && "commit/job"@[0] == 'c');
    assert("remote"@.len() == 6 && "status"@.len() == 6 && "result"@.len() == 6);
    assert("remote"@[0] == 'r' && "status"@[0] == 's' && "result"@[0] == 'r');
    assert("remote"@[2] == 'm' && "result"@[2] == 's');
    assert("duration"@.len() == 8);
    let names = index_headings();
    assert(names[0] == "repo"@ && names[4] == "duration"@);
    assert(names[5] == "status"@ && names[6] == "result"@);
}

/// A repository without a run shows its name and nothing else, and one with a run what its row shows
/// of that run.
pub proof fn repositories_show_their_latest_run(entry: RepoEntry, now: u64, k: int)
    requires
        0 <= k < index_headings().len(),
    ensures
        repo_cells(entry, now).len() == index_headings().len(),
        repo_cells(entry, now)[0] == link_html("/"@ + entry.repo.name@, entry.repo.name@),
        entry.latest is None && k > 0 ==> repo_cells(entry, now)[k] == Seq::<char>::empty(),
        entry.latest matches Some(latest) ==> repo_cells(entry, now) == run_cells(
            entry.repo,
            latest,
            now,
        ),
{
}

/// The link of a run's row leads to the page of its commit's job and shows the beginning of the
/// commit's hash, the job's number, and the commit's name where it has one.
pub proof fn rows_link_to_their_job(entry: RunEntry)
    ensures
        (link_html(
            entry.remote.remote_path@ + "/"@ + entry.commit_sha@,
            byte_prefix(entry.commit_sha@, 9),
        ) + " (job "@ + decimal(entry.job.id as nat) + ")"@).is_prefix_of(commit_html(entry)),
        entry.nice_name is None ==> commit_html(entry) == link_html(
            entry.remote.remote_path@ + "/"@ + entry.commit_sha@,
            byte_prefix(entry.commit_sha@, 9),
        ) + " (job "@ + decimal(entry.job.id as nat) + ")"@,
        entry.nice_name matches Some(name) ==> name.name@.is_suffix_of(commit_html(entry))
            || name.state == NameState::Stale && (name.name@ + " (stale)"@).is_suffix_of(
            commit_html(entry),
        ),
{
    let numbered = link_html(
        entry.remote.remote_path@ + "/"@ + entry.commit_sha@,
        byte_prefix(entry.commit_sha@, 9),
    ) + " (job "@ + decimal(entry.job.id as nat) + ")"@;
    let html = commit_html(entry);
    assert(numbered =~= html.take(numbered.len() as int));
    if let Some(name) = entry.nice_name {
        let shown = shown_name(name.name@, name.state);
        assert(shown =~= html.subrange(html.len() - shown.len(), html.len() as int));
    }
}

/// A link leads to its address and shows its label.
pub proof fn links_lead_and_show(url: Seq<char>, label: Seq<char>)
    ensures
        link_html(url, label) == "<a href=\""@ + url + "\">"@ + label + "</a>"@,
        ("<a href=\""@ + url).is_prefix_of(link_html(url, label)),
        (label + "</a>"@).is_suffix_of(link_html(url, label)),
{
    let html = link_html(url, label);
    let head = "<a href=\""@ + url;
    let tail = label + "</a>"@;
    assert(head =~= html.take(head.len() as int));
    assert(tail =~= html.subrange(html.len() - tail.len(), html.len() as int));
}

proof fn repo_rows_occur(repos: Seq<RepoEntry>, n: nat, i: int, now: u64)
    requires
        0 <= i < n <= repos.len(),
    ensures
        occurs(repo_rows_html(repos, n, now), row_html(i, repo_cells(repos[i], now))),
    decreases n,
{
    let part = row_html(i, repo_cells(repos[i], now));
    let rest = repo_rows_html(repos, (n - 1) as nat, now);
    let last = row_html(n - 1, repo_cells(repos[n - 1], now));
    let none = Seq::<char>::empty();
    if i == n - 1 {
        parts_occur(rest, part, none);
        assert(rest + part + none =~= rest + part);
    } else {
        repo_rows_occur(repos, (n - 1) as nat, i, now);
        parts_of_parts_occur(none, rest, last, part);
        assert(none + rest + last =~= rest + last);
    }
}

proof fn active_rows_occur(active: Seq<ActiveEntry>, n: nat, i: int, now: u64)
    requires
        0 <= i < n <= active.len(),
    ensures
        occurs(
            active_rows_html(active, n, now),
            row_html(i, run_cells(active[i].repo, active[i].entry, now)),
        ),
    decreases n,
{
    let part = row_html(i, run_cells(active[i].repo, active[i].entry, now));
    let rest = active_rows_html(active, (n - 1) as nat, now);
    let last = row_html(n - 1, run_cells(active[n - 1].repo, active[n - 1].entry, now));
    let none = Seq::<char>::empty();
    if i == n - 1 {
        parts_occur(rest, part, none);
        assert(rest + part + none =~= rest + part);
    } else {
        active_rows_occur(active, (n - 1) as nat, i, now);
        parts_of_parts_occur(none, rest, last, part);
        assert(none + rest + last =~= rest + last);
    }
}

proof fn six_parts_occur(
    a: Seq<char>,
    b: Seq<char>,
    c: Seq<char>,
    d: Seq<char>,
    e: Seq<char>,
    f: Seq<char>,
    g: Seq<char>,
    h: Seq<char>,
)
    ensures
        occurs(a + b + c + d + e + f + g + h, b),
        occurs(a + b + c + d + e + f + g + h, c),
        occurs(a + b + c + d + e + f + g + h, d),
        occurs(a + b + c + d + e + f + g + h, g),
{
    let whole = a + b + c + d + e + f + g + h;
    parts_occur(a, b, c + d + e + f + g + h);
    assert(whole =~= a + b + (c + d + e + f + g + h));
    parts_occur(a + b, c, d + e + f + g + h);
    assert(whole =~= a + b + c + (d + e + f + g + h));
    parts_occur(a + b + c, d, e + f + g + h);
    assert(whole =~= a + b + c + d + (e + f + g + h));
    parts_occur(a + b + c + d + e + f, g, h);
}

proof fn index_parts_occur(repos: Seq<RepoEntry>, active: Seq<ActiveEntry>, now: u64)
    ensures
        occurs(index_html(repos, active, now), repo_count_html(repos.len())),
        occurs(index_html(repos, active, now), table_head_html(index_headings())),
        occurs(index_html(repos, active, now), repo_rows_html(repos, repos.len(), now)),
        occurs(index_html(repos, active, now), active_html(active, now)),
{
    six_parts_occur(
        "<html>\n"@ + style_html() + "<h1>builds and build accessories</h1>\n"@,
        repo_count_html(repos.len()),
        table_head_html(index_headings()),
        repo_rows_html(repos, repos.len(), now),
        "</table>"@,
        "<h4>active tasks</h4>\n"@,
        active_html(active, now),
        "</html>"@,
    );
}

/// The page of all repositories has a row for each of them, says how many there are, and has a row
/// for each run that has not ended; where there is none it says so.
pub proof fn every_repository_has_a_row(
    repos: Seq<RepoEntry>,
    active: Seq<ActiveEntry>,
    now: u64,
    i: int,
)
    ensures
        0 <= i < repos.len() ==> occurs(
            index_html(repos, active, now),
            row_html(i, repo_cells(repos[i], now)),
        ),
        0 <= i < active.len() ==> occurs(
            index_html(repos, active, now),
            row_html(i, run_cells(active[i].repo, active[i].entry, now)),
        ),
        occurs(index_html(repos, active, now), repo_count_html(repos.len())),
        occurs(index_html(repos, active, now), table_head_html(index_headings())),
        active.len() == 0 ==> occurs(index_html(repos, active, now), "<p>(none)</p>\n"@),
{
    let page = index_html(repos, active, now);
    index_parts_occur(repos, active, now);
    if 0 <= i < repos.len() {
        repo_rows_occur(repos, repos.len(), i, now);
        occurring_is_transitive(
            page,
            repo_rows_html(repos, repos.len(), now),
            row_html(i, repo_cells(repos[i], now)),
        );
    }
    if 0 <= i < active.len() {
        active_rows_occur(active, active.len(), i, now);
        let rows = active_rows_html(active, active.len(), now);
        parts_occur(table_head_html(index_headings()), rows, "</table>\n"@);
        occurring_is_transitive(page, active_html(active, now), rows);
        occurring_is_transitive(
            page,
            rows,
            row_html(i, run_cells(active[i].repo, active[i].entry, now)),
        );
    }
}

/// The cells of a row stand in it in their order, each in a cell of its own, and rows alternate
/// between two looks.
pub proof fn rows_hold_their_cells(index: int, cells: Seq<Seq<char>>, k: int)
    requires
        0 <= k < cells.len(),
    ensures
        occurs(row_html(index, cells), "<td class='row-item'>"@ + cells[k] + "</td>"@),
        row_class(index) != row_class(index + 1),
        row_class(index) == row_class(index + 2),
{
    reveal_strlit("even-row");
    reveal_strlit("odd-row");
    assert("even-row"@.len() == 8 && "odd-row"@.len() == 7);
    cells_come_apart(cells, k);
    let part = "<td class='row-item'>"@ + cells[k] + "</td>"@;
    let (before, after) = choose|before: Seq<char>, after: Seq<char>|
        cells_html(cells) == #[trigger] (before + part + after);
    let opening = "<tr class=\""@ + row_class(index) + "\">"@;
    let closing = "</tr>"@ + "\n"@;
    assert(row_html(index, cells) =~= opening + before + part + (after + closing));
    parts_occur(opening + before, part, after + closing);
}

proof fn cells_come_apart(cells: Seq<Seq<char>>, k: int)
    requires
        0 <= k < cells.len(),
    ensures
        exists|before: Seq<char>, after: Seq<char>|
            cells_html(cells) == #[trigger] (before + ("<td class='row-item'>"@ + cells[k]
                + "</td>"@) + after),
    decreases cells.len(),
{
    let part = "<td class='row-item'>"@ + cells[k] + "</td>"@;
    let rest = cells_html(cells.drop_last());
    if k == cells.len() - 1 {
        assert(cells_html(cells) =~= rest + part + Seq::<char>::empty());
    } else {
        cells_come_apart(cells.drop_last(), k);
        assert(cells.drop_last()[k] == cells[k]);
        let (before, after) = choose|before: Seq<char>, after: Seq<char>|
            rest == #[trigger] (before + part + after);
        let last = "<td class='row-item'>"@ + cells.last() + "</td>"@;
        assert(cells_html(cells) =~= before + part + (after + last));
    }
}

/// A run that has ended, or was not started, can be timed at any time, and one that is going on
/// exactly from its start on.
pub proof fn runs_can_be_timed_from_their_start(run: Run, now: u64)
    ensures
        run.start_time is None ==> can_time(run, now),
        run.start_time matches Some(start) ==> (start <= now ==> can_time(run, now)),
        run.start_time matches Some(start) ==> (run.complete_time matches Some(complete) ==> start
            <= complete ==> can_time(run, now)),
        run.start_time matches Some(start) ==> run.complete_time is None && run.state
            == RunState::Started ==> (can_time(run, now) <==> start <= now),
{
}

/// A time can be shown exactly if it lies in the years 0 to 9999.
pub proof fn times_of_four_digit_years_are_shown(ms: u64)
    ensures
        shows_time(ms) <==> -62_167_219_200_000 <= ms as i64 <= 253_402_300_799_999,
        ms <= 253_402_300_799_999 ==> shows_time(ms),
{
}

} // verus!
