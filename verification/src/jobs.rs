//! The pages of a service that runs every job once: a job is its own run.

use crate::commit_page::ArtifactDetail;
use crate::commit_page::artifact_can_be_shown;
use crate::commit_page::artifact_fragment;
use crate::commit_page::artifact_showable;
use crate::commit_page::artifacts_html;
use crate::commit_page::status_element;
use crate::commit_page::status_html;
use crate::dbctx::Bound;
use crate::dbctx::DbCtx;
use crate::dbctx::Param;
use crate::dbctx::Statement;
use crate::metrics::single_rows;
use crate::metrics::single_rows_html;
use crate::repo_page::history_head;
use crate::repo_page::history_head_html;
use crate::repo_page::linked_job;
use crate::repo_page::linked_job_html;
use crate::repo_page::linked_sha;
use crate::repo_page::linked_sha_html;
use crate::rows::Cell;
use crate::rows::opt_text_at;
use crate::rows::read_opt_text;
use crate::rows::read_text;
use crate::rows::read_u64;
use crate::rows::read_u8;
use crate::rows::state_of;
use crate::rows::text_at;
use crate::rows::u64_at;
use crate::rows::u8_at;
use crate::sql::ArtifactRecord;
use crate::sql::METRICS_FOR_JOB;
use crate::sql::MetricRecord;
use crate::sql::Remote;
use crate::sql::Repo;
use crate::sql::Run;
use crate::sql::RunState;
use crate::text::beginnings_occur;
use crate::text::decimal;
use crate::text::decimal_text;
use crate::text::occurs;
use crate::text::parts_occur;
use crate::text::parts_of_parts_occur;
use crate::text::three_last_parts_occur;
use crate::text::views;
use crate::web::duration_as_human_string;
use crate::web::human_duration;
use crate::web::link;
use crate::web::link_html;
use crate::web::repo_count;
use crate::web::repo_count_html;
use crate::web::repo_link;
use crate::web::repo_link_html;
use crate::web::result_html;
use crate::web::rfc2822_of_millis;
use crate::web::row;
use crate::web::row_html;
use crate::web::run_result;
use crate::web::shows_time;
use crate::web::style;
use crate::web::style_html;
use crate::web::table_head;
use crate::web::table_head_html;
use crate::web::time_can_be_shown;
use crate::web::time_text;
use vstd::prelude::*;

verus! {

/// A job that is its own run.
pub struct SoleRun {
    pub id: u64,
    pub state: RunState,
    pub created_time: u64,
    pub start_time: Option<u64>,
    pub complete_time: Option<u64>,
    pub build_result: Option<u8>,
    pub final_text: Option<String>,
}

impl SoleRun {
    /// The job is still going on: it was started, and nothing says that it has ended since.
    pub open spec fn ongoing(&self) -> bool {
        match (self.start_time, self.complete_time) {
            (Some(start), Some(complete)) => complete < start && self.state == RunState::Started,
            (Some(_), None) => true,
            (None, _) => false,
        }
    }

    /// How long the job took, or is taking at the time `now`.
    pub open spec fn time(&self, now: u64) -> Seq<char> {
        if self.ongoing() {
            human_duration((now - self.start_time->0) as nat) + " (ongoing)"@
        } else {
            match (self.start_time, self.complete_time) {
                (Some(start), Some(complete)) => if complete < start {
                    "invalid data"@
                } else {
                    human_duration((complete - start) as nat)
                },
                _ => "not yet run"@,
            }
        }
    }

    /// The job's row can be shown at the time `now`.
    pub open spec fn showable(&self, now: u64) -> bool {
        &&& shows_time(self.created_time)
        &&& self.ongoing() ==> self.start_time->0 <= now
    }

    pub fn can_show(&self, now: u64) -> (r: bool)
        ensures
            r == self.showable(now),
    {
        time_can_be_shown(self.created_time) && match (self.start_time, self.complete_time) {
            (Some(start), Some(complete)) => !(complete < start && self.state
                == RunState::Started) || start <= now,
            (Some(start), None) => start <= now,
            (None, _) => true,
        }
    }

    /// Renders how long the job took, or is taking at the time `now`.
    pub fn display_time(&self, now: u64) -> (r: String)
        requires
            self.showable(now),
        ensures
            r@ == self.time(now),
    {
        if let Some(start_time) = self.start_time {
            if let Some(complete_time) = self.complete_time {
                if complete_time < start_time {
                    if self.state == RunState::Started {
                        duration_as_human_string(now - start_time).concat(" (ongoing)")
                    } else {
                        "invalid data".to_owned()
                    }
                } else {
                    duration_as_human_string(complete_time - start_time)
                }
            } else {
                duration_as_human_string(now - start_time).concat(" (ongoing)")
            }
        } else {
            "not yet run".to_owned()
        }
    }
}

/// The job of index `k` was created last, and first among those that were created then.
pub open spec fn is_latest_job(candidates: Seq<SoleRun>, k: int) -> bool {
    &&& 0 <= k < candidates.len()
    &&& forall|j: int|
        0 <= j < candidates.len() ==> (#[trigger] candidates[j]).created_time
            <= candidates[k].created_time
    &&& forall|j: int|
        0 <= j < k ==> (#[trigger] candidates[j]).created_time < candidates[k].created_time
}

/// Only one job is the latest, and no job was created after it.
pub proof fn one_job_is_the_latest(candidates: Seq<SoleRun>, k: int, other: int)
    requires
        is_latest_job(candidates, k),
        0 <= other < candidates.len(),
    ensures
        candidates[other].created_time <= candidates[k].created_time,
        candidates[other].created_time == candidates[k].created_time ==> k <= other,
        is_latest_job(candidates, other) ==> other == k,
{
}

/// Of the last job of each remote, in order, the index of the one that was created last; the first
/// of them where several were created at the same time.
pub fn most_recent_job(candidates: &Vec<SoleRun>) -> (r: Option<usize>)
    ensures
        match r {
            Some(k) => is_latest_job(candidates@, k as int),
            None => candidates@.len() == 0,
        },
{
    let mut best: Option<usize> = None;
    let mut i: usize = 0;
    while i < candidates.len()
        invariant
            i <= candidates@.len(),
            best is None <==> i == 0,
            best matches Some(k) ==> {
                &&& k < i
                &&& forall|j: int|
                    0 <= j < i ==> (#[trigger] candidates@[j]).created_time
                        <= candidates@[k as int].created_time
                &&& forall|j: int|
                    0 <= j < k ==> (#[trigger] candidates@[j]).created_time
                        < candidates@[k as int].created_time
            },
        decreases candidates@.len() - i,
    {
        let newer = match best {
            Some(k) => candidates[k].created_time < candidates[i].created_time,
            None => true,
        };
        if newer {
            best = Some(i);
        }
        i = i + 1;
    }
    best
}

/// A job, with what its row shows of it.
pub struct SoleEntry {
    pub job: SoleRun,
    pub commit_sha: String,
    pub remote: Remote,
}

/// A repository, with the latest of its jobs.
pub struct SoleRepo {
    pub repo: Repo,
    pub latest: Option<SoleEntry>,
}

impl SoleRepo {
    pub open spec fn showable(&self, now: u64) -> bool {
        self.latest matches Some(entry) ==> entry.job.showable(now)
    }

    pub fn can_show(&self, now: u64) -> (r: bool)
        ensures
            r == self.showable(now),
    {
        match &self.latest {
            Some(entry) => entry.job.can_show(now),
            None => true,
        }
    }
}

/// The cells of a job's row on its repository's page.
pub open spec fn job_cells(entry: SoleEntry, now: u64) -> Seq<Seq<char>> {
    seq![
        rfc2822_of_millis(entry.job.created_time as i64),
        linked_job_html(entry.remote, entry.commit_sha@, entry.job.id),
        linked_sha_html(entry.remote, entry.commit_sha@),
        entry.job.time(now),
        entry.job.state.word(),
        result_html(entry.job.state, entry.job.build_result),
    ]
}

/// The cells of a repository's row: its name, and those of its latest job or nothing.
pub open spec fn sole_cells(entry: SoleRepo, now: u64) -> Seq<Seq<char>> {
    match entry.latest {
        Some(latest) => seq![repo_link_html(entry.repo.name@)] + job_cells(latest, now),
        None => Seq::new(
            sole_headings().len(),
            |i: int|
                if i == 0 {
                    repo_link_html(entry.repo.name@)
                } else {
                    Seq::empty()
                },
        ),
    }
}

/// The headings of the page of all repositories.
pub open spec fn sole_headings() -> Seq<Seq<char>> {
    seq![
        "repo"@,
        "last build"@,
        "job"@,
        "build commit"@,
        "duration"@,
        "status"@,
        "result"@,
    ]
}

fn sole_heading_list() -> (r: Vec<String>)
    ensures
        views(r@) == sole_headings(),
{
    let mut list: Vec<String> = Vec::new();
    list.push("repo".to_owned());
    list.push("last build".to_owned());
    list.push("job".to_owned());
    list.push("build commit".to_owned());
    list.push("duration".to_owned());
    list.push("status".to_owned());
    list.push("result".to_owned());
    list
}

fn push_job_cells(list: &mut Vec<String>, entry: &SoleEntry, now: u64)
    requires
        entry.job.showable(now),
    ensures
        views(final(list)@) == views(old(list)@) + job_cells(*entry, now),
{
    list.push(time_text(entry.job.created_time));
    list.push(linked_job(&entry.remote, entry.commit_sha.as_str(), entry.job.id));
    list.push(linked_sha(&entry.remote, entry.commit_sha.as_str()));
    list.push(entry.job.display_time(now));
    list.push(entry.job.state.lower_name());
    list.push(run_result(entry.job.state, entry.job.build_result));
    assert(views(list@) =~= views(old(list)@) + job_cells(*entry, now));
}

fn sole_cell_list(entry: &SoleRepo, now: u64) -> (r: Vec<String>)
    requires
        entry.showable(now),
    ensures
        views(r@) == sole_cells(*entry, now),
{
    let mut list: Vec<String> = Vec::new();
    list.push(repo_link(entry.repo.name.as_str()));
    assert(views(list@) =~= seq![repo_link_html(entry.repo.name@)]);
    match &entry.latest {
        Some(latest) => {
            push_job_cells(&mut list, latest, now);
            list
        },
        None => {
            let headings = sole_heading_list();
            assert(views(headings@).len() == 7);
            while list.len() < headings.len()
                invariant
                    1 <= list@.len() <= headings@.len(),
                    list@[0]@ == repo_link_html(entry.repo.name@),
                    forall|j: int|
                        1 <= j < list@.len() ==> (#[trigger] list@[j])@ == Seq::<char>::empty(),
                decreases headings@.len() - list@.len(),
            {
                list.push(String::new());
            }
            list
        },
    }
}

/// The rows of the first `n` repositories.
pub open spec fn sole_rows_html(repos: Seq<SoleRepo>, n: nat, now: u64) -> Seq<char>
    decreases n,
{
    if n == 0 {
        Seq::empty()
    } else {
        sole_rows_html(repos, (n - 1) as nat, now) + row_html(
            n - 1,
            sole_cells(repos[n - 1], now),
        )
    }
}

/// The page of all repositories.
pub open spec fn ci_index_html(repos: Seq<SoleRepo>, now: u64) -> Seq<char> {
    "<html>\n"@ + style_html() + "<h1>builds and build accessories</h1>\n"@ + repo_count_html(
        repos.len(),
    ) + table_head_html(sole_headings()) + sole_rows_html(repos, repos.len(), now) + "</table>"@
        + "</html>"@
}

/// The page of all repositories at the time `now` with its status; where the repositories could not
/// be read, the answer to that.
pub fn handle_ci_index(repos: Option<&Vec<SoleRepo>>, now: u64) -> (r: (u16, String))
    requires
        repos matches Some(list) ==> forall|i: int|
            0 <= i < list@.len() ==> (#[trigger] list@[i]).showable(now),
    ensures
        match repos {
            Some(list) => r.0 == 200 && r.1@ == ci_index_html(list@, now),
            None => r.0 == 500 && r.1@ == "gonna feel that one tomorrow"@,
        },
{
    let repos: &Vec<SoleRepo> = match repos {
        Some(repos) => repos,
        None => {
            return (500, "gonna feel that one tomorrow".to_owned());
        },
    };
    let mut rows = String::new();
    let mut i: usize = 0;
    while i < repos.len()
        invariant
            i <= repos@.len(),
            rows@ == sole_rows_html(repos@, i as nat, now),
            forall|i: int| 0 <= i < repos@.len() ==> (#[trigger] repos@[i]).showable(now),
        decreases repos@.len() - i,
    {
        let list = sole_cell_list(&repos[i], now);
        let html = row(i, &list);
        rows.append(html.as_str());
        i = i + 1;
    }
    let looks = style();
    let headings = sole_heading_list();
    let head = table_head(&headings);
    let count = repo_count(repos.len());
    let mut response = "<html>\n".to_owned();
    response.append(looks.as_str());
    response.append("<h1>builds and build accessories</h1>\n");
    response.append(count.as_str());
    response.append(head.as_str());
    response.append(rows.as_str());
    response.append("</table>");
    response.append("</html>");
    (200, response)
}

/// The rows of the first `n` jobs.
pub open spec fn job_rows_html(entries: Seq<SoleEntry>, n: nat, now: u64) -> Seq<char>
    decreases n,
{
    if n == 0 {
        Seq::empty()
    } else {
        job_rows_html(entries, (n - 1) as nat, now) + row_html(
            n - 1,
            job_cells(entries[n - 1], now),
        )
    }
}

/// The page of a repository.
pub open spec fn job_history_html(
    repo_name: Seq<char>,
    entries: Seq<SoleEntry>,
    now: u64,
) -> Seq<char> {
    history_head_html(repo_name) + job_rows_html(entries, entries.len(), now) + "</html>"@
}

/// The page of a repository with the given jobs, at the time `now`.
pub fn repo_summary(repo_name: &str, entries: &Vec<SoleEntry>, now: u64) -> (r: String)
    requires
        forall|i: int| 0 <= i < entries@.len() ==> (#[trigger] entries@[i]).job.showable(now),
    ensures
        r@ == job_history_html(repo_name@, entries@, now),
{
    let mut rows = String::new();
    let mut i: usize = 0;
    while i < entries.len()
        invariant
            i <= entries@.len(),
            rows@ == job_rows_html(entries@, i as nat, now),
            forall|i: int| 0 <= i < entries@.len() ==> (#[trigger] entries@[i]).job.showable(now),
        decreases entries@.len() - i,
    {
        let mut list: Vec<String> = Vec::new();
        assert(views(list@) =~= Seq::<Seq<char>>::empty());
        push_job_cells(&mut list, &entries[i], now);
        assert(Seq::<Seq<char>>::empty() + job_cells(entries@[i as int], now) =~= job_cells(
            entries@[i as int],
            now,
        ));
        let html = row(i, &list);
        rows.append(html.as_str());
        i = i + 1;
    }
    history_head(repo_name).concat(rows.as_str()).concat("</html>")
}

/// What the page of a commit shows.
pub struct SolePage {
    pub owner: String,
    pub repo: String,
    pub sha: String,
    pub repo_name: String,
    pub job: SoleRun,
    pub artifacts: Vec<ArtifactRecord>,
    pub details: Vec<ArtifactDetail>,
    pub metrics: Vec<MetricRecord>,
}

/// The job as a run that was never started again, all of whose artifacts count.
pub open spec fn as_run(job: SoleRun) -> Run {
    Run {
        id: job.id,
        job_id: job.id,
        artifacts_path: None,
        state: job.state,
        host_id: None,
        create_time: job.created_time,
        start_time: Some(0),
        complete_time: job.complete_time,
        build_token: None,
        run_timeout: None,
        build_result: job.build_result,
        final_text: None,
    }
}

fn run_of(job: &SoleRun) -> (r: Run)
    ensures
        r == as_run(*job),
{
    Run {
        id: job.id,
        job_id: job.id,
        artifacts_path: None,
        state: job.state,
        host_id: None,
        create_time: job.created_time,
        start_time: Some(0),
        complete_time: job.complete_time,
        build_token: None,
        run_timeout: None,
        build_result: job.build_result,
        final_text: None,
    }
}

/// The table of what the job measured.
pub open spec fn measured_html(metrics: Seq<MetricRecord>) -> Seq<char> {
    "<div>"@ + "<h3>metrics</h3>"@ + "<table style='font-family: monospace;'>"@ + single_rows_html(
        metrics,
        metrics.len(),
    ) + "</table>"@ + "</div>"@
}

/// The page of a commit, up to its artifacts.
pub open spec fn sole_summary_html(page: SolePage) -> Seq<char> {
    let commit_link = link_html(
        "https://www.github.com/"@ + page.owner@ + "/"@ + page.repo@ + "/commit/"@ + page.sha@,
        page.sha@,
    );
    let opening = "<html>\n"@ + "  "@ + "<head><title>ci.butactuallyin.space - "@ + page.repo_name@
        + "</title></head>"@ + "\n"@ + "  <body>\n"@ + "    <pre>\n"@ + "repo: "@ + repo_link_html(
        page.repo_name@,
    ) + "\n"@ + "commit: "@ + commit_link + ", job: "@ + decimal(page.job.id as nat) + "\n"@
        + "status: "@ + status_html(page.job.state, page.job.build_result) + "\n"@;
    let described = match page.job.final_text {
        Some(text) => opening + "  description: "@ + text@ + "\n  "@,
        None => opening,
    };
    described + "deployed: false\n"@ + "    </pre>\n"@
}

/// The page of a commit, with its artifacts as given.
pub open spec fn sole_commit_html(page: SolePage, artifacts: Seq<char>) -> Seq<char> {
    let summary = sole_summary_html(page);
    let listed = if artifacts.len() > 0 {
        summary + "    <div>artifacts</div>\n"@ + artifacts
    } else {
        summary
    };
    let measured = if page.metrics@.len() > 0 {
        listed + measured_html(page.metrics@)
    } else {
        listed
    };
    measured + "  </body>\n"@ + "</html>"@
}

impl SolePage {
    /// The page can be shown at the time `now`.
    pub open spec fn showable(&self, now: u64) -> bool {
        &&& self.artifacts@.len() == self.details@.len()
        &&& forall|i: int|
            0 <= i < self.artifacts@.len() ==> artifact_showable(
                #[trigger] self.artifacts@[i],
                self.details@[i],
                as_run(self.job),
                now,
            )
    }

    /// Whether the page can be shown at the time `now`.
    pub fn can_show(&self, now: u64) -> (r: bool)
        ensures
            r == self.showable(now),
    {
        if self.artifacts.len() != self.details.len() {
            return false;
        }
        let run = run_of(&self.job);
        let mut i: usize = 0;
        while i < self.artifacts.len()
            invariant
                i <= self.artifacts@.len(),
                self.artifacts@.len() == self.details@.len(),
                run == as_run(self.job),
                forall|j: int|
                    0 <= j < i ==> artifact_showable(
                        #[trigger] self.artifacts@[j],
                        self.details@[j],
                        as_run(self.job),
                        now,
                    ),
            decreases self.artifacts@.len() - i,
        {
            if !artifact_can_be_shown(&self.artifacts[i], &self.details[i], &run, now) {
                return false;
            }
            i = i + 1;
        }
        true
    }

    fn summary(&self) -> (r: String)
        ensures
            r@ == sole_summary_html(*self),
    {
        let repo_html = repo_link(self.repo_name.as_str());
        let commit_url = "https://www.github.com/".to_owned().concat(self.owner.as_str()).concat(
            "/",
        ).concat(self.repo.as_str()).concat("/commit/").concat(self.sha.as_str());
        let commit_link = link(commit_url.as_str(), self.sha.as_str());
        let job_id = decimal_text(self.job.id);
        let mut html = "<html>\n".to_owned();
        html.append("  ");
        html.append("<head><title>ci.butactuallyin.space - ");
        html.append(self.repo_name.as_str());
        html.append("</title></head>");
        html.append("\n");
        html.append("  <body>\n");
        html.append("    <pre>\n");
        html.append("repo: ");
        html.append(repo_html.as_str());
        html.append("\n");
        html.append("commit: ");
        html.append(commit_link.as_str());
        html.append(", job: ");
        html.append(job_id.as_str());
        html.append("\n");
        html.append("status: ");
        html.append(status_element(self.job.state, self.job.build_result));
        html.append("\n");
        if let Some(text) = &self.job.final_text {
            html.append("  description: ");
            html.append(text.as_str());
            html.append("\n  ");
        }
        html.append("deployed: false\n");
        html.append("    </pre>\n");
        html
    }
}

/// The page of a commit at the time `now`.
pub fn commit_status(page: &SolePage, now: u64) -> (r: String)
    requires
        page.showable(now),
    ensures
        exists|artifacts: Seq<char>|
            {
                &&& #[trigger] artifacts_html(
                    page.artifacts@,
                    page.details@,
                    as_run(page.job),
                    now,
                    artifacts,
                )
                &&& r@ == sole_commit_html(*page, artifacts)
            },
{
    let run = run_of(&page.job);
    let artifacts = artifact_fragment(&page.artifacts, &page.details, &run, now);
    let mut html = page.summary();
    if artifacts.as_str().unicode_len() > 0 {
        html.append("    <div>artifacts</div>\n");
        html.append(artifacts.as_str());
    }
    if page.metrics.len() > 0 {
        let rows = single_rows(&page.metrics);
        let section = "<div>".to_owned().concat("<h3>metrics</h3>").concat(
            "<table style='font-family: monospace;'>",
        ).concat(rows.as_str()).concat("</table>").concat("</div>");
        html.append(section.as_str());
    }
    html.append("  </body>\n");
    html.append("</html>");
    html
}

/// A job that waits to be run.
#[derive(Debug, Clone)]
pub struct PendingJob {
    pub id: u64,
    pub artifacts: Option<String>,
    pub state: RunState,
    pub run_host: Option<String>,
    pub remote_id: u64,
    pub commit_id: u64,
    pub created_time: u64,
    pub source: Option<String>,
}

/// The row holds a job that waits.
pub open spec fn holds_pending_job(row: Seq<Cell>) -> bool {
    &&& u64_at(row, 0) is Some
    &&& opt_text_at(row, 1) is Some
    &&& u8_at(row, 2) matches Some(n) && n <= 4
    &&& opt_text_at(row, 3) is Some
    &&& u64_at(row, 4) is Some
    &&& u64_at(row, 5) is Some
    &&& u64_at(row, 6) is Some
    &&& opt_text_at(row, 7) is Some
}

/// The job that waits that a row holds.
pub open spec fn pending_job_in(row: Seq<Cell>) -> Option<PendingJob> {
    if holds_pending_job(row) {
        Some(
            PendingJob {
                id: u64_at(row, 0)->0,
                artifacts: opt_text_at(row, 1)->0,
                state: state_of(u8_at(row, 2)->0)->0,
                run_host: opt_text_at(row, 3)->0,
                remote_id: u64_at(row, 4)->0,
                commit_id: u64_at(row, 5)->0,
                created_time: u64_at(row, 6)->0,
                source: opt_text_at(row, 7)->0,
            },
        )
    } else {
        None
    }
}

/// An artifact of a job.
#[derive(Debug, Clone)]
pub struct JobArtifact {
    pub id: u64,
    pub job_id: u64,
    pub name: String,
    pub desc: String,
}

/// The artifact of a job that a row holds.
pub open spec fn job_artifact_in(row: Seq<Cell>) -> Option<JobArtifact> {
    if u64_at(row, 0) is Some && u64_at(row, 1) is Some && text_at(row, 2) is Some && text_at(
        row,
        3,
    ) is Some {
        Some(
            JobArtifact {
                id: u64_at(row, 0)->0,
                job_id: u64_at(row, 1)->0,
                name: text_at(row, 2)->0,
                desc: text_at(row, 3)->0,
            },
        )
    } else {
        None
    }
}

impl DbCtx {
    /// The job that waits that a row holds.
    pub fn row2pending_job(row: &[Cell]) -> (r: Option<PendingJob>)
        ensures
            r == pending_job_in(row@),
    {
        let id: u64 = read_u64(row, 0)?;
        let artifacts: Option<String> = read_opt_text(row, 1)?;
        let code: u8 = read_u8(row, 2)?;
        let state: RunState = match RunState::try_from(code) {
            Ok(state) => state,
            Err(_) => {
                return None;
            },
        };
        let run_host: Option<String> = read_opt_text(row, 3)?;
        let remote_id: u64 = read_u64(row, 4)?;
        let commit_id: u64 = read_u64(row, 5)?;
        let created_time: u64 = read_u64(row, 6)?;
        let source: Option<String> = read_opt_text(row, 7)?;
        Some(
            PendingJob {
                id,
                artifacts,
                state,
                run_host,
                remote_id,
                commit_id,
                created_time,
                source,
            },
        )
    }

    /// The jobs that wait, where every row holds one.
    pub fn get_pending_jobs(rows: &Vec<Vec<Cell>>) -> (r: Option<Vec<PendingJob>>)
        ensures
            match r {
                Some(jobs) => {
                    &&& jobs@.len() == rows@.len()
                    &&& forall|i: int|
                        0 <= i < rows@.len() ==> pending_job_in((#[trigger] rows@[i])@) == Some(
                            jobs@[i],
                        )
                },
                None => exists|i: int|
                    0 <= i < rows@.len() && pending_job_in((#[trigger] rows@[i])@) is None,
            },
    {
        let mut jobs: Vec<PendingJob> = Vec::new();
        let mut i: usize = 0;
        while i < rows.len()
            invariant
                i <= rows@.len(),
                jobs@.len() == i,
                forall|j: int|
                    0 <= j < i ==> pending_job_in((#[trigger] rows@[j])@) == Some(jobs@[j]),
            decreases rows@.len() - i,
        {
            match DbCtx::row2pending_job(rows[i].as_slice()) {
                Some(job) => {
                    jobs.push(job);
                },
                None => {
                    assert(pending_job_in(rows@[i as int]@) is None);
                    return None;
                },
            }
            i = i + 1;
        }
        Some(jobs)
    }

    /// The statement that looks for the job of a build token; what the row that it gives is worth,
    /// [`crate::rows::token_run`] says.
    pub fn job_for_token(&self, token: &str) -> (r: Statement)
        ensures
            r.asks(
                "select id, artifacts_path, started_time, job_timeout from jobs where build_token=?1"@,
                seq![Bound::Text(token@)],
            ),
    {
        Statement::new(
            "select id, artifacts_path, started_time, job_timeout from jobs where build_token=?1",
            vec![Param::Text(token.to_owned())],
        )
    }

    /// The artifact of a job that a row holds.
    pub fn row2job_artifact(row: &[Cell]) -> (r: Option<JobArtifact>)
        ensures
            r == job_artifact_in(row@),
    {
        let id: u64 = read_u64(row, 0)?;
        let job_id: u64 = read_u64(row, 1)?;
        let name: String = read_text(row, 2)?;
        let desc: String = read_text(row, 3)?;
        Some(JobArtifact { id, job_id, name, desc })
    }

    /// The artifacts of a job, where every row holds one.
    pub fn artifacts_for_job(rows: &Vec<Vec<Cell>>) -> (r: Option<Vec<JobArtifact>>)
        ensures
            match r {
                Some(artifacts) => {
                    &&& artifacts@.len() == rows@.len()
                    &&& forall|i: int|
                        0 <= i < rows@.len() ==> job_artifact_in((#[trigger] rows@[i])@) == Some(
                            artifacts@[i],
                        )
                },
                None => exists|i: int|
                    0 <= i < rows@.len() && job_artifact_in((#[trigger] rows@[i])@) is None,
            },
    {
        let mut artifacts: Vec<JobArtifact> = Vec::new();
        let mut i: usize = 0;
        while i < rows.len()
            invariant
                i <= rows@.len(),
                artifacts@.len() == i,
                forall|j: int|
                    0 <= j < i ==> job_artifact_in((#[trigger] rows@[j])@) == Some(artifacts@[j]),
            decreases rows@.len() - i,
        {
            match DbCtx::row2job_artifact(rows[i].as_slice()) {
                Some(artifact) => {
                    artifacts.push(artifact);
                },
                None => {
                    assert(job_artifact_in(rows@[i as int]@) is None);
                    return None;
                },
            }
            i = i + 1;
        }
        Some(artifacts)
    }

    /// The statement that looks for what a job measured.
    pub fn metrics_for_job(&self, job: u64) -> (r: Statement)
        ensures
            r.asks(METRICS_FOR_JOB@, seq![Bound::Unsigned(job)]),
    {
        Statement::new(METRICS_FOR_JOB, vec![Param::Unsigned(job)])
    }
}

/// How long a job took is the time between its start and its end, whatever its state and whenever it
/// is shown; one without a start was not run yet, and one without an end, or one that is marked as
/// started and whose end is from before its start, is going on since its start.
pub proof fn job_times_are_measured(job: SoleRun, now: u64)
    ensures
        job.start_time is None ==> job.time(now) == "not yet run"@,
        job.start_time matches Some(start) ==> (job.complete_time matches Some(complete) ==> start
            <= complete ==> job.time(now) == human_duration((complete - start) as nat)),
        job.start_time matches Some(start) ==> start <= now && (job.complete_time is None
            || job.complete_time->0 < start && job.state == RunState::Started) ==> job.time(now)
            == human_duration((now - start) as nat) + " (ongoing)"@,
        job.start_time matches Some(start) ==> (job.complete_time matches Some(complete) ==> complete
            < start && job.state != RunState::Started ==> job.time(now) == "invalid data"@),
{
}

/// A row of the page of all repositories says under each heading what the heading says.
pub proof fn sole_cells_stand_under_their_headings(
    entry: SoleRepo,
    latest: SoleEntry,
    now: u64,
    k: int,
)
    requires
        entry.latest == Some(latest),
        0 <= k < sole_headings().len(),
    ensures
        sole_cells(entry, now).len() == sole_headings().len(),
        sole_headings()[k] == "repo"@ ==> sole_cells(entry, now)[k] == link_html(
            "/"@ + entry.repo.name@,
            entry.repo.name@,
        ),
        sole_headings()[k] == "last build"@ ==> sole_cells(entry, now)[k] == rfc2822_of_millis(
            latest.job.created_time as i64,
        ),
        sole_headings()[k] == "job"@ ==> sole_cells(entry, now)[k] == link_html(
            latest.remote.remote_path@ + "/"@ + latest.commit_sha@,
            decimal(latest.job.id as nat),
        ),
        sole_headings()[k] == "build commit"@ ==> sole_cells(entry, now)[k] == linked_sha_html(
            latest.remote,
            latest.commit_sha@,
        ),
        sole_headings()[k] == "duration"@ ==> sole_cells(entry, now)[k] == latest.job.time(now),
        sole_headings()[k] == "status"@ ==> sole_cells(entry, now)[k] == latest.job.state.word(),
        sole_headings()[k] == "result"@ ==> sole_cells(entry, now)[k] == result_html(
            latest.job.state,
            latest.job.build_result,
        ),
        exists|j: int| 0 <= j < sole_headings().len() && #[trigger] sole_headings()[j] == "repo"@,
        exists|j: int|
            0 <= j < sole_headings().len() && #[trigger] sole_headings()[j] == "duration"@,
        exists|j: int|
            0 <= j < sole_headings().len() && #[trigger] sole_headings()[j] == "result"@,
{
    reveal_strlit("repo");
    reveal_strlit("last build");
    reveal_strlit("job");
    reveal_strlit("build commit");
    reveal_strlit("duration");
    reveal_strlit("status");
    reveal_strlit("result");
    assert("repo"@.len() == 4 && "last build"@.len() == 10 && "job"@.len() == 3);
    assert("build commit"@.len() == 12);
    assert("duration"@.len() == 8 && "status"@.len() == 6 && "result"@.len() == 6);
    assert("status"@[0] == 's' && "result"@[0] == 'r');
    let names = sole_headings();
    assert(names[0] == "repo"@ && names[4] == "duration"@ && names[6] == "result"@);
}

/// A repository without a job shows its name and nothing else.
pub proof fn unbuilt_repositories_show_their_name(entry: SoleRepo, now: u64, k: int)
    requires
        entry.latest is None,
        0 < k < sole_headings().len(),
    ensures
        sole_cells(entry, now).len() == sole_headings().len(),
        sole_cells(entry, now)[0] == link_html("/"@ + entry.repo.name@, entry.repo.name@),
        sole_cells(entry, now)[k] == Seq::<char>::empty(),
{
}

proof fn sole_rows_occur(repos: Seq<SoleRepo>, n: nat, i: int, now: u64)
    requires
        0 <= i < n <= repos.len(),
    ensures
        occurs(sole_rows_html(repos, n, now), row_html(i, sole_cells(repos[i], now))),
    decreases n,
{
    let part = row_html(i, sole_cells(repos[i], now));
    let rest = sole_rows_html(repos, (n - 1) as nat, now);
    let last = row_html(n - 1, sole_cells(repos[n - 1], now));
    if i == n - 1 {
        let none = Seq::<char>::empty();
        parts_occur(rest, part, none);
        assert(rest + part + none =~= rest + part);
    } else {
        sole_rows_occur(repos, (n - 1) as nat, i, now);
        beginnings_occur(rest, last, part);
    }
}

proof fn job_rows_occur(entries: Seq<SoleEntry>, n: nat, i: int, now: u64)
    requires
        0 <= i < n <= entries.len(),
    ensures
        occurs(job_rows_html(entries, n, now), row_html(i, job_cells(entries[i], now))),
    decreases n,
{
    let part = row_html(i, job_cells(entries[i], now));
    let rest = job_rows_html(entries, (n - 1) as nat, now);
    let last = row_html(n - 1, job_cells(entries[n - 1], now));
    if i == n - 1 {
        let none = Seq::<char>::empty();
        parts_occur(rest, part, none);
        assert(rest + part + none =~= rest + part);
    } else {
        job_rows_occur(entries, (n - 1) as nat, i, now);
        beginnings_occur(rest, last, part);
    }
}

/// The page of all repositories has a row for each of them and says how many there are, and that of
/// a repository has a row for each of its jobs.
pub proof fn every_job_has_a_row(
    repos: Seq<SoleRepo>,
    repo_name: Seq<char>,
    entries: Seq<SoleEntry>,
    now: u64,
    i: int,
)
    ensures
        0 <= i < repos.len() ==> occurs(
            ci_index_html(repos, now),
            row_html(i, sole_cells(repos[i], now)),
        ),
        occurs(ci_index_html(repos, now), repo_count_html(repos.len())),
        0 <= i < entries.len() ==> occurs(
            job_history_html(repo_name, entries, now),
            row_html(i, job_cells(entries[i], now)),
        ),
{
    let opening = "<html>\n"@ + style_html() + "<h1>builds and build accessories</h1>\n"@;
    let count = repo_count_html(repos.len());
    let head = table_head_html(sole_headings());
    let rows = sole_rows_html(repos, repos.len(), now);
    parts_occur(opening, count, head);
    beginnings_occur(opening + count + head, rows, count);
    beginnings_occur(opening + count + head + rows, "</table>"@, count);
    beginnings_occur(opening + count + head + rows + "</table>"@, "</html>"@, count);
    if 0 <= i < repos.len() {
        let part = row_html(i, sole_cells(repos[i], now));
        sole_rows_occur(repos, repos.len(), i, now);
        parts_of_parts_occur(opening + count + head, rows, "</table>"@, part);
        beginnings_occur(opening + count + head + rows + "</table>"@, "</html>"@, part);
    }
    if 0 <= i < entries.len() {
        job_rows_occur(entries, entries.len(), i, now);
        parts_of_parts_occur(
            history_head_html(repo_name),
            job_rows_html(entries, entries.len(), now),
            "</html>"@,
            row_html(i, job_cells(entries[i], now)),
        );
    }
}

/// On the page of a job that is its own run, every artifact counts, however old: none is hidden as
/// being from before the run was started again.
pub proof fn no_artifact_of_a_job_is_hidden(
    artifact: ArtifactRecord,
    job: SoleRun,
    now: u64,
)
    ensures
        crate::commit_page::current(artifact, as_run(job), now),
        as_run(job).state == job.state,
        as_run(job).build_result == job.build_result,
        as_run(job).complete_time == job.complete_time,
        crate::commit_page::wish_for(artifact, as_run(job), now)
            != crate::commit_page::ArtifactWish::Nothing,
{
}

/// The page of a commit says how its job stands.
pub proof fn job_pages_show_how_jobs_stand(page: SolePage)
    ensures
        occurs(
            sole_summary_html(page),
            "status: "@ + status_html(page.job.state, page.job.build_result) + "\n"@,
        ),
{
    let commit_link = link_html(
        "https://www.github.com/"@ + page.owner@ + "/"@ + page.repo@ + "/commit/"@ + page.sha@,
        page.sha@,
    );
    let before = "<html>\n"@ + "  "@ + "<head><title>ci.butactuallyin.space - "@ + page.repo_name@
        + "</title></head>"@ + "\n"@ + "  <body>\n"@ + "    <pre>\n"@ + "repo: "@ + repo_link_html(
        page.repo_name@,
    ) + "\n"@ + "commit: "@ + commit_link + ", job: "@ + decimal(page.job.id as nat) + "\n"@;
    let status = status_html(page.job.state, page.job.build_result);
    let line = "status: "@ + status + "\n"@;
    three_last_parts_occur(before, "status: "@, status, "\n"@);
    let opening = before + "status: "@ + status + "\n"@;
    let described = match page.job.final_text {
        Some(text) => opening + "  description: "@ + text@ + "\n  "@,
        None => opening,
    };
    if let Some(text) = page.job.final_text {
        beginnings_occur(opening, "  description: "@, line);
        beginnings_occur(opening + "  description: "@, text@, line);
        beginnings_occur(opening + "  description: "@ + text@, "\n  "@, line);
    }
    beginnings_occur(described, "deployed: false\n"@, line);
    beginnings_occur(described + "deployed: false\n"@, "    </pre>\n"@, line);
}

/// A job that waits is read with every value from its own column, and its state by its number.
pub proof fn waiting_jobs_are_read_by_column(row: Seq<Cell>)
    requires
        pending_job_in(row) is Some,
    ensures
        pending_job_in(row) matches Some(job) && {
            &&& row[0] matches Cell::Integer(id) && id == job.id
            &&& row[2] matches Cell::Integer(state) && state == job.state.number()
            &&& row[4] matches Cell::Integer(remote_id) && remote_id == job.remote_id
            &&& row[5] matches Cell::Integer(commit_id) && commit_id == job.commit_id
            &&& row[6] matches Cell::Integer(time) && time == job.created_time
            &&& match job.artifacts {
                Some(path) => row[1] == Cell::Text(path),
                None => row[1] is Null,
            }
            &&& match job.run_host {
                Some(host) => row[3] == Cell::Text(host),
                None => row[3] is Null,
            }
            &&& match job.source {
                Some(source) => row[7] == Cell::Text(source),
                None => row[7] is Null,
            }
        },
{
}

/// An artifact of a job is read with every value from its own column.
pub proof fn job_artifacts_are_read_by_column(row: Seq<Cell>)
    requires
        job_artifact_in(row) is Some,
    ensures
        job_artifact_in(row) matches Some(artifact) && {
            &&& row[0] matches Cell::Integer(id) && id == artifact.id
            &&& row[1] matches Cell::Integer(job_id) && job_id == artifact.job_id
            &&& row[2] == Cell::Text(artifact.name)
            &&& row[3] == Cell::Text(artifact.desc)
        },
{
}

} // verus!
