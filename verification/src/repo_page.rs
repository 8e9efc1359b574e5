//! The page that shows the latest builds of a repository.

use crate::dbctx::Bound;
use crate::dbctx::Param;
use crate::dbctx::Statement;
use crate::order::comes_before;
use crate::order::in_order;
use crate::order::order_is_unique;
use crate::order::ordered;
use crate::sql::Job;
use crate::sql::Remote;
use crate::sql::Run;
use crate::text::beginnings_occur;
use crate::text::decimal;
use crate::text::decimal_text;
use crate::text::occurs;
use crate::text::parts_occur;
use crate::text::parts_of_parts_occur;
use crate::text::three_last_parts_occur;
use crate::text::views;
use crate::web::can_time;
use crate::web::commit_url;
use crate::web::display_run_time_at;
use crate::web::job_path;
use crate::web::job_url;
use crate::web::link;
use crate::web::link_html;
use crate::web::result_html;
use crate::web::rfc2822_of_millis;
use crate::web::row;
use crate::web::row_html;
use crate::web::run_can_be_timed;
use crate::web::run_result;
use crate::web::run_time;
use crate::web::shows_time;
use crate::web::source_url;
use crate::web::style;
use crate::web::style_html;
use crate::web::table_head;
use crate::web::table_head_html;
use crate::web::time_can_be_shown;
use crate::web::time_text;
use vstd::prelude::*;

verus! {

/// How many builds the page shows, and how many jobs of each remote are considered for it.
pub const SHOWN_BUILDS: usize = 10;

/// The statement that looks for a repository by its name.
pub fn repo_query(name: &str) -> (r: Statement)
    ensures
        r.asks(
            "select id, repo_name, default_run_preference from repos where repo_name=?1;"@,
            seq![Bound::Text(name@)],
        ),
{
    Statement::new(
        "select id, repo_name, default_run_preference from repos where repo_name=?1;",
        vec![Param::Text(name.to_owned())],
    )
}

/// The page for a repository that is not known, which is answered with status 404.
pub fn no_such_repo() -> (r: (u16, String))
    ensures
        r.0 == 404,
        r.1@ == Seq::<char>::empty(),
{
    (404, String::new())
}

/// Jobs are ordered by the time at which they were created, the latest first.
pub open spec fn age_keys(jobs: Seq<Job>) -> Seq<i128> {
    Seq::new(jobs.len(), |i: int| (-(jobs[i].created_time as i64)) as i128)
}

/// All of the jobs.
pub open spec fn every_job(jobs: Seq<Job>) -> Seq<bool> {
    Seq::new(jobs.len(), |i: int| true)
}

/// The list holds the latest ten jobs, or all if there are fewer; of jobs that were created at the
/// same time the first come first.
pub open spec fn latest_jobs(list: Seq<usize>, jobs: Seq<Job>) -> bool {
    exists|all: Seq<usize>|
        {
            &&& #[trigger] in_order(all, age_keys(jobs), every_job(jobs))
            &&& list == (if all.len() <= SHOWN_BUILDS {
                all
            } else {
                all.take(SHOWN_BUILDS as int)
            })
        }
}

/// Later jobs come first.
pub proof fn latest_come_first(list: Seq<usize>, jobs: Seq<Job>, i: int, j: int)
    requires
        latest_jobs(list, jobs),
        forall|k: int| 0 <= k < jobs.len() ==> (#[trigger] jobs[k]).created_time <= i64::MAX,
        0 <= i < j < list.len(),
    ensures
        list[i] < jobs.len(),
        list[j] < jobs.len(),
        jobs[list[i] as int].created_time >= jobs[list[j] as int].created_time,
{
    let all = choose|all: Seq<usize>|
        {
            &&& #[trigger] in_order(all, age_keys(jobs), every_job(jobs))
            &&& list == (if all.len() <= SHOWN_BUILDS {
                all
            } else {
                all.take(SHOWN_BUILDS as int)
            })
        };
    assert(list[i] == all[i] && list[j] == all[j]);
    assert(comes_before(age_keys(jobs), all[i] as int, all[j] as int));
    let a = jobs[list[i] as int];
    let b = jobs[list[j] as int];
    assert(a.created_time as i64 == a.created_time);
    assert(b.created_time as i64 == b.created_time);
}

/// There is only one list of the latest jobs.
pub proof fn latest_are_unique(list: Seq<usize>, other: Seq<usize>, jobs: Seq<Job>)
    requires
        jobs.len() <= usize::MAX,
        latest_jobs(list, jobs),
        latest_jobs(other, jobs),
    ensures
        list == other,
{
    let a = choose|all: Seq<usize>|
        {
            &&& #[trigger] in_order(all, age_keys(jobs), every_job(jobs))
            &&& list == (if all.len() <= SHOWN_BUILDS {
                all
            } else {
                all.take(SHOWN_BUILDS as int)
            })
        };
    let b = choose|all: Seq<usize>|
        {
            &&& #[trigger] in_order(all, age_keys(jobs), every_job(jobs))
            &&& other == (if all.len() <= SHOWN_BUILDS {
                all
            } else {
                all.take(SHOWN_BUILDS as int)
            })
        };
    order_is_unique(a, b, age_keys(jobs), every_job(jobs));
}

/// The latest ten jobs.
pub fn recent_builds(jobs: &Vec<Job>) -> (r: Vec<usize>)
    requires
        forall|i: int|
            0 <= i < jobs@.len() ==> (#[trigger] jobs@[i]).created_time as i64 != i64::MIN,
    ensures
        latest_jobs(r@, jobs@),
{
    let mut keys: Vec<i128> = Vec::new();
    let mut chosen: Vec<bool> = Vec::new();
    let mut i: usize = 0;
    while i < jobs.len()
        invariant
            i <= jobs@.len(),
            keys@ =~= age_keys(jobs@).take(i as int),
            chosen@ =~= every_job(jobs@).take(i as int),
            forall|i: int|
                0 <= i < jobs@.len() ==> (#[trigger] jobs@[i]).created_time as i64 != i64::MIN,
        decreases jobs@.len() - i,
    {
        let created: i64 = jobs[i].created_time as i64;
        keys.push((0 - created) as i128);
        chosen.push(true);
        i = i + 1;
    }
    assert(keys@ =~= age_keys(jobs@));
    assert(chosen@ =~= every_job(jobs@));
    let mut list = ordered(&keys, &chosen);
    let ghost all = list@;
    if list.len() > SHOWN_BUILDS {
        list.truncate(SHOWN_BUILDS);
        assert(list@ =~= all.take(SHOWN_BUILDS as int));
    }
    assert(in_order(all, age_keys(jobs@), every_job(jobs@)));
    list
}

/// A build, with what its row shows of it.
pub struct BuildEntry {
    pub job: Job,
    pub run: Run,
    pub commit_sha: String,
    pub remote: Remote,
}

impl BuildEntry {
    /// The build can be shown at the time `now`.
    pub open spec fn showable(&self, now: u64) -> bool {
        &&& shows_time(self.run.create_time)
        &&& can_time(self.run, now)
    }

    pub fn can_show(&self, now: u64) -> (r: bool)
        ensures
            r == self.showable(now),
    {
        time_can_be_shown(self.run.create_time) && run_can_be_timed(&self.run, now)
    }
}

/// A commit's hash, with a link to the commit where there is one.
pub open spec fn linked_sha_html(remote: Remote, commit_sha: Seq<char>) -> Seq<char> {
    match source_url(remote, commit_sha) {
        Some(url) => link_html(url, commit_sha),
        None => commit_sha,
    }
}

pub fn linked_sha(remote: &Remote, commit_sha: &str) -> (r: String)
    ensures
        r@ == linked_sha_html(*remote, commit_sha@),
{
    match commit_url(remote, commit_sha) {
        (_, Some(url)) => link(url.as_str(), commit_sha),
        (_, None) => commit_sha.to_owned(),
    }
}

/// A job's number, with a link to its page.
pub open spec fn linked_job_html(remote: Remote, commit_sha: Seq<char>, job_id: u64) -> Seq<char> {
    link_html(job_path(remote, commit_sha), decimal(job_id as nat))
}

pub fn linked_job(remote: &Remote, commit_sha: &str, job_id: u64) -> (r: String)
    ensures
        r@ == linked_job_html(*remote, commit_sha@, job_id),
{
    let url = job_url(remote, commit_sha);
    let id = decimal_text(job_id);
    link(url.as_str(), id.as_str())
}

/// The cells of a build's row.
pub open spec fn build_cells(entry: BuildEntry, now: u64) -> Seq<Seq<char>> {
    seq![
        rfc2822_of_millis(entry.run.create_time as i64),
        linked_job_html(entry.remote, entry.commit_sha@, entry.job.id),
        linked_sha_html(entry.remote, entry.commit_sha@),
        run_time(entry.run, now),
        entry.run.state.word(),
        result_html(entry.run.state, entry.run.build_result),
    ]
}

fn build_cell_list(entry: &BuildEntry, now: u64) -> (r: Vec<String>)
    requires
        entry.showable(now),
    ensures
        views(r@) == build_cells(*entry, now),
{
    let mut list: Vec<String> = Vec::new();
    list.push(time_text(entry.run.create_time));
    list.push(linked_job(&entry.remote, entry.commit_sha.as_str(), entry.job.id));
    list.push(linked_sha(&entry.remote, entry.commit_sha.as_str()));
    list.push(display_run_time_at(&entry.run, now));
    list.push(entry.run.state.lower_name());
    list.push(run_result(entry.run.state, entry.run.build_result));
    list
}

/// The headings of the page.
pub open spec fn build_headings() -> Seq<Seq<char>> {
    seq!["last build"@, "job"@, "build commit"@, "duration"@, "status"@, "result"@]
}

pub fn build_heading_list() -> (r: Vec<String>)
    ensures
        views(r@) == build_headings(),
{
    let mut list: Vec<String> = Vec::new();
    list.push("last build".to_owned());
    list.push("job".to_owned());
    list.push("build commit".to_owned());
    list.push("duration".to_owned());
    list.push("status".to_owned());
    list.push("result".to_owned());
    list
}

/// The rows of the first `n` builds.
pub open spec fn build_rows_html(entries: Seq<BuildEntry>, n: nat, now: u64) -> Seq<char>
    decreases n,
{
    if n == 0 {
        Seq::empty()
    } else {
        build_rows_html(entries, (n - 1) as nat, now) + row_html(
            n - 1,
            build_cells(entries[n - 1], now),
        )
    }
}

/// The opening of the page.
pub open spec fn history_head_html(repo_name: Seq<char>) -> Seq<char> {
    "<html>\n"@ + "<title> ci.butactuallyin.space - "@ + repo_name + " </title>\n"@ + style_html()
        + "<h1>"@ + repo_name + " build history</h1>\n"@
        + "<a href=/>full repos index</a><p> </p>\n"@ + table_head_html(build_headings())
}

pub fn history_head(repo_name: &str) -> (r: String)
    ensures
        r@ == history_head_html(repo_name@),
{
    let looks = style();
    let headings = build_heading_list();
    let head = table_head(&headings);
    let mut response = "<html>\n".to_owned();
    response.append("<title> ci.butactuallyin.space - ");
    response.append(repo_name);
    response.append(" </title>\n");
    response.append(looks.as_str());
    response.append("<h1>");
    response.append(repo_name);
    response.append(" build history</h1>\n");
    response.append("<a href=/>full repos index</a><p> </p>\n");
    response.append(head.as_str());
    response
}

/// The page of a repository.
pub open spec fn history_html(
    repo_name: Seq<char>,
    entries: Seq<BuildEntry>,
    now: u64,
) -> Seq<char> {
    history_head_html(repo_name) + build_rows_html(entries, entries.len(), now) + "</html>"@
}

/// The page of a repository with the given builds, at the time `now`.
pub fn handle_repo_summary(repo_name: &str, entries: &Vec<BuildEntry>, now: u64) -> (r: String)
    requires
        forall|i: int| 0 <= i < entries@.len() ==> (#[trigger] entries@[i]).showable(now),
    ensures
        r@ == history_html(repo_name@, entries@, now),
{
    let mut rows = String::new();
    let mut i: usize = 0;
    while i < entries.len()
        invariant
            i <= entries@.len(),
            rows@ == build_rows_html(entries@, i as nat, now),
            forall|i: int| 0 <= i < entries@.len() ==> (#[trigger] entries@[i]).showable(now),
        decreases entries@.len() - i,
    {
        let list = build_cell_list(&entries[i], now);
        let html = row(i, &list);
        rows.append(html.as_str());
        i = i + 1;
    }
    history_head(repo_name).concat(rows.as_str()).concat("</html>")
}

/// The page shows ten builds, or all where there are fewer, and none twice; a job that it does not
/// show was made no later than any that it shows.
pub proof fn the_latest_ten_are_shown(list: Seq<usize>, jobs: Seq<Job>, k: int)
    requires
        jobs.len() <= usize::MAX,
        latest_jobs(list, jobs),
        forall|i: int| 0 <= i < jobs.len() ==> (#[trigger] jobs[i]).created_time <= i64::MAX,
    ensures
        list.len() <= 10,
        list.no_duplicates(),
        0 <= k < jobs.len() && !crate::order::listed(list, k) ==> list.len() == 10 && forall|
            i: int,
        |
            0 <= i < list.len() ==> (#[trigger] list[i]) < jobs.len() && jobs[k].created_time
                <= jobs[list[i] as int].created_time,
{
    let all = choose|all: Seq<usize>|
        {
            &&& #[trigger] in_order(all, age_keys(jobs), every_job(jobs))
            &&& list == (if all.len() <= SHOWN_BUILDS {
                all
            } else {
                all.take(SHOWN_BUILDS as int)
            })
        };
    assert forall|i: int, j: int| 0 <= i < j < list.len() implies list[i] != list[j] by {
        assert(comes_before(age_keys(jobs), all[i] as int, all[j] as int));
    }
    if 0 <= k < jobs.len() && !crate::order::listed(list, k) {
        assert(every_job(jobs)[k]);
        assert(crate::order::listed(all, k));
        let at = choose|at: int| 0 <= at < all.len() && (#[trigger] all[at]) == k;
        if at < list.len() {
            assert(list[at] == k);
        }
        assert forall|i: int| 0 <= i < list.len() implies (#[trigger] list[i]) < jobs.len()
            && jobs[k].created_time <= jobs[list[i] as int].created_time by {
            assert(list[i] == all[i]);
            assert(comes_before(age_keys(jobs), all[i] as int, all[at] as int));
            let shown = jobs[list[i] as int];
            assert(shown.created_time as i64 == shown.created_time);
            assert(jobs[k].created_time as i64 == jobs[k].created_time);
        }
    }
}

/// A row of the page says under each heading what the heading says.
pub proof fn build_cells_stand_under_their_headings(entry: BuildEntry, now: u64, k: int)
    requires
        0 <= k < build_headings().len(),
    ensures
        build_cells(entry, now).len() == build_headings().len(),
        build_headings()[k] == "last build"@ ==> build_cells(entry, now)[k] == rfc2822_of_millis(
            entry.run.create_time as i64,
        ),
        build_headings()[k] == "job"@ ==> build_cells(entry, now)[k] == link_html(
            entry.remote.remote_path@ + "/"@ + entry.commit_sha@,
            decimal(entry.job.id as nat),
        ),
        build_headings()[k] == "build commit"@ ==> build_cells(entry, now)[k] == (if
        entry.remote.remote_api@ == "github"@ {
            link_html(
                entry.remote.remote_url@ + "/commit/"@ + entry.commit_sha@,
                entry.commit_sha@,
            )
        } else {
            entry.commit_sha@
        }),
        build_headings()[k] == "duration"@ ==> build_cells(entry, now)[k] == run_time(
            entry.run,
            now,
        ),
        build_headings()[k] == "status"@ ==> build_cells(entry, now)[k] == entry.run.state.word(),
        build_headings()[k] == "result"@ ==> build_cells(entry, now)[k] == result_html(
            entry.run.state,
            entry.run.build_result,
        ),
        exists|j: int| 0 <= j < build_headings().len() && #[trigger] build_headings()[j] == "job"@,
        exists|j: int|
            0 <= j < build_headings().len() && #[trigger] build_headings()[j] == "duration"@,
        exists|j: int|
            0 <= j < build_headings().len() && #[trigger] build_headings()[j] == "result"@,
{
    reveal_strlit("last build");
    reveal_strlit("job");
    reveal_strlit("build commit");
    reveal_strlit("duration");
    reveal_strlit("status");
    reveal_strlit("result");
    assert("last build"@.len() == 10 && "job"@.len() == 3 && "build commit"@.len() == 12);
    assert("duration"@.len() == 8 && "status"@.len() == 6 && "result"@.len() == 6);
    assert("status"@[0] == 's' && "result"@[0] == 'r');
    let names = build_headings();
    assert(names[1] == "job"@ && names[3] == "duration"@ && names[5] == "result"@);
}

proof fn build_rows_occur(entries: Seq<BuildEntry>, n: nat, i: int, now: u64)
    requires
        0 <= i < n <= entries.len(),
    ensures
        occurs(build_rows_html(entries, n, now), row_html(i, build_cells(entries[i], now))),
    decreases n,
{
    let part = row_html(i, build_cells(entries[i], now));
    let rest = build_rows_html(entries, (n - 1) as nat, now);
    let last = row_html(n - 1, build_cells(entries[n - 1], now));
    if i == n - 1 {
        let none = Seq::<char>::empty();
        parts_occur(rest, part, none);
        assert(rest + part + none =~= rest + part);
    } else {
        build_rows_occur(entries, (n - 1) as nat, i, now);
        beginnings_occur(rest, last, part);
    }
}

/// The page of a repository names it and has a row for each of its builds.
pub proof fn every_build_has_a_row(
    repo_name: Seq<char>,
    entries: Seq<BuildEntry>,
    now: u64,
    i: int,
)
    ensures
        0 <= i < entries.len() ==> occurs(
            history_html(repo_name, entries, now),
            row_html(i, build_cells(entries[i], now)),
        ),
        occurs(history_html(repo_name, entries, now), history_head_html(repo_name)),
        occurs(history_head_html(repo_name), "<h1>"@ + repo_name + " build history</h1>\n"@),
{
    let head = history_head_html(repo_name);
    let rows = build_rows_html(entries, entries.len(), now);
    if 0 <= i < entries.len() {
        build_rows_occur(entries, entries.len(), i, now);
        parts_of_parts_occur(head, rows, "</html>"@, row_html(i, build_cells(entries[i], now)));
    }
    let none = Seq::<char>::empty();
    parts_occur(none, head, rows + "</html>"@);
    assert(none + head + (rows + "</html>"@) =~= history_html(repo_name, entries, now));
    let opening = "<html>\n"@ + "<title> ci.butactuallyin.space - "@ + repo_name + " </title>\n"@
        + style_html();
    let title = "<h1>"@ + repo_name + " build history</h1>\n"@;
    three_last_parts_occur(opening, "<h1>"@, repo_name, " build history</h1>\n"@);
    let named = opening + "<h1>"@ + repo_name + " build history</h1>\n"@;
    beginnings_occur(named, "<a href=/>full repos index</a><p> </p>\n"@, title);
    beginnings_occur(
        named + "<a href=/>full repos index</a><p> </p>\n"@,
        table_head_html(build_headings()),
        title,
    );
}

} // verus!
