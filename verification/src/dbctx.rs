//! The statements that the service makes; [`crate::rows`] says what the rows that come back hold.

use crate::hosts::RECORD_HOST;
use crate::hosts::host_values;
use crate::protocol::HostInfo;
use crate::sql::RunState;
use crate::sql;
use crate::tables::makes_job;
use crate::tables::makes_run;
use crate::text::occurs;
use crate::text::occurs_at;
use crate::text::same;
use vstd::prelude::*;

verus! {

/// How long a build token lasts where its run sets no timeout.
pub const TOKEN_EXPIRY_MS: u64 = 1000 * 60 * 30;

/// Jobs older than this get no new runs for hosts that have not run them.
pub const RERUN_WINDOW_MS: u64 = 24 * 3600 * 1000;

/// A value bound to a statement.
pub enum Param {
    Null,
    Unsigned(u64),
    Text(String),
}

/// What a bound value stands for.
pub enum Bound {
    Null,
    Unsigned(u64),
    Text(Seq<char>),
}

impl View for Param {
    type V = Bound;

    open spec fn view(&self) -> Bound {
        match self {
            Param::Null => Bound::Null,
            Param::Unsigned(n) => Bound::Unsigned(*n),
            Param::Text(s) => Bound::Text(s@),
        }
    }
}

/// A statement with the values for its placeholders, in order.
pub struct Statement {
    pub sql: String,
    pub params: Vec<Param>,
}

impl Statement {
    /// The statement has the text `sql` and the bound values `params`.
    pub open spec fn asks(&self, sql: Seq<char>, params: Seq<Bound>) -> bool {
        &&& self.sql@ == sql
        &&& Seq::new(self.params@.len(), |i: int| self.params@[i]@) =~= params
    }

    pub fn new(sql: &str, params: Vec<Param>) -> (r: Statement)
        ensures
            r.sql@ == sql@,
            r.params == params,
    {
        Statement { sql: sql.to_owned(), params }
    }
}

fn number(n: u64) -> (r: Param)
    ensures
        r@ == Bound::Unsigned(n),
{
    Param::Unsigned(n)
}

fn text(s: &str) -> (r: Param)
    ensures
        r@ == Bound::Text(s@),
{
    Param::Text(s.to_owned())
}

/// A number that may be absent, as a bound value.
pub open spec fn bound_number(n: Option<u32>) -> Bound {
    match n {
        Some(n) => Bound::Unsigned(n as u64),
        None => Bound::Null,
    }
}

fn optional_number(n: Option<u32>) -> (r: Param)
    ensures
        r@ == bound_number(n),
{
    match n {
        Some(n) => Param::Unsigned(n as u64),
        None => Param::Null,
    }
}

/// A text that may be absent, as a bound value.
pub open spec fn bound_text(s: Option<&str>) -> Bound {
    match s {
        Some(s) => Bound::Text(s@),
        None => Bound::Null,
    }
}

fn optional_text(s: Option<&str>) -> (r: Param)
    ensures
        r@ == bound_text(s),
{
    match s {
        Some(s) => Param::Text(s.to_owned()),
        None => Param::Null,
    }
}

/// Where a remote is found.
pub struct RemoteLocation {
    pub remote_path: String,
    pub remote_api: String,
    pub remote_url: String,
    pub remote_git_url: String,
}

/// The kinds of remote that can be registered.
pub open spec fn supported_remote(kind: Seq<char>) -> bool {
    kind == "github"@ || kind == "github-email"@
}

/// The api under which a remote of the given kind is registered.
pub open spec fn remote_api_of(kind: Seq<char>) -> Seq<char> {
    if kind == "github"@ {
        kind
    } else {
        "email"@
    }
}

/// Where a person looks at a remote.
pub open spec fn remote_url_of(remote: Seq<char>) -> Seq<char> {
    "https://www.github.com/"@ + remote
}

/// Where git fetches a remote of the given kind from.
pub open spec fn remote_git_url_of(remote: Seq<char>, kind: Seq<char>) -> Seq<char> {
    if kind == "github"@ {
        "https://www.github.com/"@ + remote + ".git"@
    } else {
        "http://www.github.com/"@ + remote + ".git"@
    }
}

/// Where a remote of the given kind is found, where the kind is supported.
pub fn locate_remote(remote: &str, remote_kind: &str) -> (r: Option<RemoteLocation>)
    ensures
        match r {
            Some(l) => {
                &&& supported_remote(remote_kind@)
                &&& l.remote_path@ == remote@
                &&& l.remote_api@ == remote_api_of(remote_kind@)
                &&& l.remote_url@ == remote_url_of(remote@)
                &&& l.remote_git_url@ == remote_git_url_of(remote@, remote_kind@)
            },
            None => !supported_remote(remote_kind@),
        },
{
    proof {
        reveal_strlit("github");
        reveal_strlit("github-email");
    }
    let remote_url = "https://www.github.com/".to_owned().concat(remote);
    if same(remote_kind, "github") {
        Some(
            RemoteLocation {
                remote_path: remote.to_owned(),
                remote_api: remote_kind.to_owned(),
                remote_url,
                remote_git_url: "https://www.github.com/".to_owned().concat(remote).concat(".git"),
            },
        )
    } else if same(remote_kind, "github-email") {
        Some(
            RemoteLocation {
                remote_path: remote.to_owned(),
                remote_api: "email".to_owned(),
                remote_url,
                remote_git_url: "http://www.github.com/".to_owned().concat(remote).concat(".git"),
            },
        )
    } else {
        None
    }
}

/// The statement asks for the jobs that a host has not run and that are not too old for it.
pub open spec fn asks_for_jobs(statement: Statement, host_id: u64, now: u64) -> bool {
    statement.asks(
        sql::JOBS_NEEDING_HOST_RUN@,
        seq![Bound::Unsigned((now - RERUN_WINDOW_MS) as u64), Bound::Unsigned(host_id)],
    )
}

/// The jobs that are looked up for a host are those for all hosts of the last day that have no run on
/// that host.
pub proof fn hosts_run_the_jobs_of_a_day(statement: Statement, host_id: u64, now: u64)
    requires
        now >= 24 * 3600 * 1000,
        asks_for_jobs(statement, host_id, now),
    ensures
        statement.params@.len() == 2,
        statement.params@[0]@ == Bound::Unsigned((now - 24 * 3600 * 1000) as u64),
        statement.params@[1]@ == Bound::Unsigned(host_id),
        occurs(statement.sql@, "jobs.run_preferences=\"all\""@),
        occurs(statement.sql@, "jobs.created_time > ?1"@),
        occurs(statement.sql@, "not exists (select 1 from runs r2"@),
        occurs(statement.sql@, "r2.job_id = jobs.id and r2.host_id = ?2"@),
{
    let bounds = Seq::new(statement.params@.len(), |i: int| statement.params@[i]@);
    assert(bounds.len() == 2);
    assert(bounds[0] == statement.params@[0]@ && bounds[1] == statement.params@[1]@);
    reveal_strlit(
        "\
    select jobs.id, jobs.source, jobs.created_time, jobs.remote_id, jobs.commit_id, jobs.run_preferences from jobs \
    where jobs.run_preferences=\"all\" and jobs.created_time > ?1 \
    and not exists \
        (select 1 from runs r2 where r2.job_id = jobs.id and r2.host_id = ?2);",
    );
    reveal_strlit("jobs.run_preferences=\"all\"");
    reveal_strlit("jobs.created_time > ?1");
    reveal_strlit("not exists (select 1 from runs r2");
    reveal_strlit("r2.job_id = jobs.id and r2.host_id = ?2");
    let text = sql::JOBS_NEEDING_HOST_RUN@;
    assert(text.subrange(117, 143) =~= "jobs.run_preferences=\"all\""@);
    assert(occurs_at(text, "jobs.run_preferences=\"all\""@, 117));
    assert(text.subrange(148, 170) =~= "jobs.created_time > ?1"@);
    assert(occurs_at(text, "jobs.created_time > ?1"@, 148));
    assert(text.subrange(175, 208) =~= "not exists (select 1 from runs r2"@);
    assert(occurs_at(text, "not exists (select 1 from runs r2"@, 175));
    assert(text.subrange(215, 254) =~= "r2.job_id = jobs.id and r2.host_id = ?2"@);
    assert(occurs_at(text, "r2.job_id = jobs.id and r2.host_id = ?2"@, 215));
}

/// The service's configuration directory, and the statements that the service makes.
pub struct DbCtx {
    pub config_path: String,
}

impl DbCtx {
    pub fn new(config_path: String) -> (r: Self)
        ensures
            r.config_path == config_path,
    {
        DbCtx { config_path }
    }

    /// The statements that make the tables, in order.
    pub fn create_tables(&self) -> (r: Vec<String>)
        ensures
            crate::text::views(r@) =~= seq![
                sql::CREATE_ARTIFACTS_TABLE@,
                sql::CREATE_JOBS_TABLE@,
                sql::CREATE_METRICS_TABLE@,
                sql::CREATE_COMMITS_TABLE@,
                sql::CREATE_COMMIT_NAMES_TABLE@,
                sql::CREATE_COMMIT_NAMES_INDEX@,
                sql::CREATE_REPOS_TABLE@,
                sql::CREATE_REPO_NAME_INDEX@,
                sql::CREATE_REMOTES_TABLE@,
                sql::CREATE_REMOTES_INDEX@,
                sql::CREATE_RUNS_TABLE@,
                sql::CREATE_HOSTS_TABLE@,
            ],
    {
        vec![
            sql::CREATE_ARTIFACTS_TABLE.to_owned(),
            sql::CREATE_JOBS_TABLE.to_owned(),
            sql::CREATE_METRICS_TABLE.to_owned(),
            sql::CREATE_COMMITS_TABLE.to_owned(),
            sql::CREATE_COMMIT_NAMES_TABLE.to_owned(),
            sql::CREATE_COMMIT_NAMES_INDEX.to_owned(),
            sql::CREATE_REPOS_TABLE.to_owned(),
            sql::CREATE_REPO_NAME_INDEX.to_owned(),
            sql::CREATE_REMOTES_TABLE.to_owned(),
            sql::CREATE_REMOTES_INDEX.to_owned(),
            sql::CREATE_RUNS_TABLE.to_owned(),
            sql::CREATE_HOSTS_TABLE.to_owned(),
        ]
    }

    /// Records a metric of a run, in place of an earlier one of the same name.
    pub fn insert_metric(&self, run_id: u64, name: &str, value: &str) -> (r: Statement)
        ensures
            r.asks(
                "insert into metrics (run_id, name, value) values (?1, ?2, ?3) on conflict (run_id, name) do update set value=excluded.value"@,
                seq![
                    Bound::Unsigned(run_id),
                    Bound::Text(name@),
                    Bound::Text(value@),
                ],
            ),
    {
        Statement::new(
            "insert into metrics (run_id, name, value) values (?1, ?2, ?3) on conflict (run_id, name) do update set value=excluded.value",
            vec![
                number(run_id),
                text(name),
                text(value),
            ],
        )
    }

    pub fn new_commit(&self, sha: &str) -> (r: Statement)
        ensures
            r.asks(
                "insert into commits (sha) values (?1)"@,
                seq![
                    Bound::Text(sha@),
                ],
            ),
    {
        Statement::new(
            "insert into commits (sha) values (?1)",
            vec![
                text(sha),
            ],
        )
    }

    pub fn new_repo(&self, name: &str) -> (r: Statement)
        ensures
            r.asks(
                "insert into repos (repo_name) values (?1)"@,
                seq![
                    Bound::Text(name@),
                ],
            ),
    {
        Statement::new(
            "insert into repos (repo_name) values (?1)",
            vec![
                text(name),
            ],
        )
    }

    pub fn finalize_artifact(&self, artifact_id: u64, now: u64) -> (r: Statement)
        ensures
            r.asks(
                "update artifacts set completed_time=?1 where id=?2"@,
                seq![
                    Bound::Unsigned(now),
                    Bound::Unsigned(artifact_id),
                ],
            ),
    {
        Statement::new(
            "update artifacts set completed_time=?1 where id=?2",
            vec![
                number(now),
                number(artifact_id),
            ],
        )
    }

    pub fn reserve_artifact(&self, run_id: u64, name: &str, desc: &str, created_time: u64) -> (r: Statement)
        ensures
            r.asks(
                "insert into artifacts (run_id, name, desc, created_time) values (?1, ?2, ?3, ?4)"@,
                seq![
                    Bound::Unsigned(run_id),
                    Bound::Text(name@),
                    Bound::Text(desc@),
                    Bound::Unsigned(created_time),
                ],
            ),
    {
        Statement::new(
            "insert into artifacts (run_id, name, desc, created_time) values (?1, ?2, ?3, ?4)",
            vec![
                number(run_id),
                text(name),
                text(desc),
                number(created_time),
            ],
        )
    }

    pub fn lookup_artifact(&self, run_id: u64, artifact_id: u64) -> (r: Statement)
        ensures
            r.asks(
                sql::ARTIFACT_BY_ID@,
                seq![
                    Bound::Unsigned(artifact_id),
                    Bound::Unsigned(run_id),
                ],
            ),
    {
        Statement::new(
            sql::ARTIFACT_BY_ID,
            vec![
                number(artifact_id),
                number(run_id),
            ],
        )
    }

    pub fn commit_sha(&self, commit_id: u64) -> (r: Statement)
        ensures
            r.asks(
                "select sha from commits where id=?1"@,
                seq![
                    Bound::Unsigned(commit_id),
                ],
            ),
    {
        Statement::new(
            "select sha from commits where id=?1",
            vec![
                number(commit_id),
            ],
        )
    }

    pub fn job_for_commit(&self, sha: &str) -> (r: Statement)
        ensures
            r.asks(
                "select id from commits where sha=?1"@,
                seq![
                    Bound::Text(sha@),
                ],
            ),
    {
        Statement::new(
            "select id from commits where sha=?1",
            vec![
                text(sha),
            ],
        )
    }

    /// Finds the run of a build token; see [`crate::rows::token_run`] for what its row stands for.
    pub fn run_for_token(&self, token: &str) -> (r: Statement)
        ensures
            r.asks(
                "select id, artifacts_path, started_time, run_timeout from runs where build_token=?1"@,
                seq![
                    Bound::Text(token@),
                ],
            ),
    {
        Statement::new(
            "select id, artifacts_path, started_time, run_timeout from runs where build_token=?1",
            vec![
                text(token),
            ],
        )
    }

    pub fn job_by_id(&self, id: u64) -> (r: Statement)
        ensures
            r.asks(
                sql::JOB_BY_ID@,
                seq![
                    Bound::Unsigned(id),
                ],
            ),
    {
        Statement::new(
            sql::JOB_BY_ID,
            vec![
                number(id),
            ],
        )
    }

    pub fn remote_by_path_and_api(&self, api: &str, path: &str) -> (r: Statement)
        ensures
            r.asks(
                "select id, repo_id, remote_path, remote_api, remote_url, remote_git_url, notifier_config_path from remotes where remote_api=?1 and remote_path=?2"@,
                seq![
                    Bound::Text(api@),
                    Bound::Text(path@),
                ],
            ),
    {
        Statement::new(
            "select id, repo_id, remote_path, remote_api, remote_url, remote_git_url, notifier_config_path from remotes where remote_api=?1 and remote_path=?2",
            vec![
                text(api),
                text(path),
            ],
        )
    }

    pub fn remote_by_id(&self, id: u64) -> (r: Statement)
        ensures
            r.asks(
                "select id, repo_id, remote_path, remote_api, remote_url, remote_git_url, notifier_config_path from remotes where id=?1"@,
                seq![
                    Bound::Unsigned(id),
                ],
            ),
    {
        Statement::new(
            "select id, repo_id, remote_path, remote_api, remote_url, remote_git_url, notifier_config_path from remotes where id=?1",
            vec![
                number(id),
            ],
        )
    }

    pub fn repo_id_by_remote(&self, remote_id: u64) -> (r: Statement)
        ensures
            r.asks(
                "select repo_id from remotes where id=?1"@,
                seq![
                    Bound::Unsigned(remote_id),
                ],
            ),
    {
        Statement::new(
            "select repo_id from remotes where id=?1",
            vec![
                number(remote_id),
            ],
        )
    }

    pub fn repo_id_by_name(&self, repo_name: &str) -> (r: Statement)
        ensures
            r.asks(
                "select id from repos where repo_name=?1"@,
                seq![
                    Bound::Text(repo_name@),
                ],
            ),
    {
        Statement::new(
            "select id from repos where repo_name=?1",
            vec![
                text(repo_name),
            ],
        )
    }

    /// Gives a commit a fresh name.
    pub fn update_commit_name(&self, commit_id: u64, name: &str) -> (r: Statement)
        ensures
            r.asks(
                "insert into commit_names (commit_id, name, name_state) values (?1, ?2, 0);"@,
                seq![
                    Bound::Unsigned(commit_id),
                    Bound::Text(name@),
                ],
            ),
    {
        Statement::new(
            "insert into commit_names (commit_id, name, name_state) values (?1, ?2, 0);",
            vec![
                number(commit_id),
                text(name),
            ],
        )
    }

    /// Finds the names of a commit; see [`crate::rows::best_name`] for which of them is the nice one.
    pub fn nice_name_for_commit(&self, commit_id: u64) -> (r: Statement)
        ensures
            r.asks(
                sql::NAMES_FOR_COMMIT@,
                seq![
                    Bound::Unsigned(commit_id),
                ],
            ),
    {
        Statement::new(
            sql::NAMES_FOR_COMMIT,
            vec![
                number(commit_id),
            ],
        )
    }

    /// Records a job for a commit that was recorded just before.
    pub fn new_job(&self, remote_id: u64, commit_id: u64, created_time: u64, pusher: Option<&str>, repo_default_run_pref: Option<&str>) -> (r: Statement)
        ensures
            makes_job(
                r,
                remote_id,
                commit_id,
                created_time,
                bound_text(pusher),
                bound_text(repo_default_run_pref),
            ),
    {
        Statement::new(
            "insert into jobs (remote_id, commit_id, created_time, source, run_preferences) values (?1, ?2, ?3, ?4, ?5);",
            vec![
                number(remote_id),
                number(commit_id),
                number(created_time),
                optional_text(pusher),
                optional_text(repo_default_run_pref),
            ],
        )
    }

    /// Records a pending run of a job; see [`crate::rows::pending_run`] for the run that it makes.
    pub fn new_run(&self, job_id: u64, created_time: u64, host_preference: Option<u32>) -> (r: Statement)
        ensures
            makes_run(r, job_id, created_time, bound_number(host_preference)),
    {
        Statement::new(
            "insert into runs (job_id, state, created_time, host_preference) values (?1, ?2, ?3, ?4);",
            vec![
                number(job_id),
                number(RunState::Pending.code() as u64),
                number(created_time),
                optional_number(host_preference),
            ],
        )
    }

    pub fn reap_task(&self, task_id: u64) -> (r: Statement)
        ensures
            r.asks(
                "update runs set final_status=\"lost signal\", state=4 where id=?1;"@,
                seq![
                    Bound::Unsigned(task_id),
                ],
            ),
    {
        Statement::new(
            "update runs set final_status=\"lost signal\", state=4 where id=?1;",
            vec![
                number(task_id),
            ],
        )
    }

    pub fn metrics_for_run(&self, run: u64) -> (r: Statement)
        ensures
            r.asks(
                sql::METRICS_FOR_RUN@,
                seq![
                    Bound::Unsigned(run),
                ],
            ),
    {
        Statement::new(
            sql::METRICS_FOR_RUN,
            vec![
                number(run),
            ],
        )
    }

    pub fn repo_by_id(&self, id: u64) -> (r: Statement)
        ensures
            r.asks(
                "select id, repo_name, default_run_preference from repos where id=?1"@,
                seq![
                    Bound::Unsigned(id),
                ],
            ),
    {
        Statement::new(
            "select id, repo_name, default_run_preference from repos where id=?1",
            vec![
                number(id),
            ],
        )
    }

    pub fn get_repos(&self) -> (r: Statement)
        ensures
            r.asks(
                sql::ALL_REPOS@,
                Seq::empty(),
            ),
    {
        Statement::new(sql::ALL_REPOS, Vec::new())
    }

    /// The newest job of a remote, if it has any.
    pub fn last_job_from_remote(&self, id: u64) -> (r: Statement)
        ensures
            r.asks(
                sql::LAST_JOBS_FROM_REMOTE@,
                seq![
                    Bound::Unsigned(id),
                    Bound::Unsigned(1),
                ],
            ),
    {
        Statement::new(
            sql::LAST_JOBS_FROM_REMOTE,
            vec![
                number(id),
                number(1),
            ],
        )
    }

    pub fn job_by_commit_id(&self, commit_id: u64) -> (r: Statement)
        ensures
            r.asks(
                sql::JOB_BY_COMMIT_ID@,
                seq![
                    Bound::Unsigned(commit_id),
                ],
            ),
    {
        Statement::new(
            sql::JOB_BY_COMMIT_ID,
            vec![
                number(commit_id),
            ],
        )
    }

    pub fn recent_jobs_from_remote(&self, id: u64, limit: u64) -> (r: Statement)
        ensures
            r.asks(
                sql::LAST_JOBS_FROM_REMOTE@,
                seq![
                    Bound::Unsigned(id),
                    Bound::Unsigned(limit),
                ],
            ),
    {
        Statement::new(
            sql::LAST_JOBS_FROM_REMOTE,
            vec![
                number(id),
                number(limit),
            ],
        )
    }

    pub fn get_active_runs(&self) -> (r: Statement)
        ensures
            r.asks(
                sql::ACTIVE_RUNS@,
                Seq::empty(),
            ),
    {
        Statement::new(sql::ACTIVE_RUNS, Vec::new())
    }

    pub fn get_pending_runs(&self, host_id: Option<u32>) -> (r: Statement)
        ensures
            r.asks(
                sql::PENDING_RUNS@,
                seq![
                    bound_number(host_id),
                ],
            ),
    {
        Statement::new(
            sql::PENDING_RUNS,
            vec![
                optional_number(host_id),
            ],
        )
    }

    pub fn remotes_by_repo(&self, repo_id: u64) -> (r: Statement)
        ensures
            r.asks(
                sql::REMOTES_FOR_REPO@,
                seq![
                    Bound::Unsigned(repo_id),
                ],
            ),
    {
        Statement::new(
            sql::REMOTES_FOR_REPO,
            vec![
                number(repo_id),
            ],
        )
    }

    pub fn host_model_info(&self, host_id: u64) -> (r: Statement)
        ensures
            r.asks(
                "select hostname, cpu_vendor_id, cpu_family, cpu_model, cpu_max_freq_khz from hosts where id=?1;"@,
                seq![
                    Bound::Unsigned(host_id),
                ],
            ),
    {
        Statement::new(
            "select hostname, cpu_vendor_id, cpu_family, cpu_model, cpu_max_freq_khz from hosts where id=?1;",
            vec![
                number(host_id),
            ],
        )
    }

    pub fn runs_for_job_one_per_host(&self, job_id: u64) -> (r: Statement)
        ensures
            r.asks(
                sql::RUNS_FOR_JOB@,
                seq![
                    Bound::Unsigned(job_id),
                ],
            ),
    {
        Statement::new(
            sql::RUNS_FOR_JOB,
            vec![
                number(job_id),
            ],
        )
    }

    pub fn last_run_for_job(&self, job_id: u64) -> (r: Statement)
        ensures
            r.asks(
                sql::LAST_RUN_FOR_JOB@,
                seq![
                    Bound::Unsigned(job_id),
                ],
            ),
    {
        Statement::new(
            sql::LAST_RUN_FOR_JOB,
            vec![
                number(job_id),
            ],
        )
    }

    /// try to find a host close to `host_info`, but maybe not an exact match.
    ///
    /// specifically, we'll ignore microcode and family/os - enough that measurements ought to be
    /// comparable but maybe not perfectly so.
    pub fn find_id_like_host(&self, host_info: &HostInfo) -> (r: Statement)
        ensures
            r.asks(
                "select id from hosts where hostname=?1 and cpu_vendor_id=?2 and cpu_model_name=?3 and cpu_family=?4 and cpu_model=?5 and cpu_max_freq_khz=?6 and cpu_cores=?7 and mem_total=?8 and arch=?9;"@,
                seq![
                    Bound::Text(host_info.hostname@),
                    Bound::Text(host_info.cpu_info.vendor_id@),
                    Bound::Text(host_info.cpu_info.model_name@),
                    Bound::Text(host_info.cpu_info.family@),
                    Bound::Text(host_info.cpu_info.model@),
                    Bound::Unsigned(host_info.cpu_info.max_freq),
                    Bound::Unsigned(host_info.cpu_info.cores as u64),
                    Bound::Text(host_info.memory_info.total@),
                    Bound::Text(host_info.env_info.arch@),
                ],
            ),
    {
        Statement::new(
            "select id from hosts where hostname=?1 and cpu_vendor_id=?2 and cpu_model_name=?3 and cpu_family=?4 and cpu_model=?5 and cpu_max_freq_khz=?6 and cpu_cores=?7 and mem_total=?8 and arch=?9;",
            vec![
                text(host_info.hostname.as_str()),
                text(host_info.cpu_info.vendor_id.as_str()),
                text(host_info.cpu_info.model_name.as_str()),
                text(host_info.cpu_info.family.as_str()),
                text(host_info.cpu_info.model.as_str()),
                number(host_info.cpu_info.max_freq),
                number(host_info.cpu_info.cores as u64),
                text(host_info.memory_info.total.as_str()),
                text(host_info.env_info.arch.as_str()),
            ],
        )
    }

    /// Records the host described by `host_info`, unless it is recorded already: see
    /// [`crate::hosts::recorded`].
    pub fn record_host(&self, host_info: &HostInfo) -> (r: Statement)
        ensures
            r.asks(
                RECORD_HOST@,
                host_values(*host_info),
            ),
    {
        Statement::new(
            RECORD_HOST,
            vec![
                text(host_info.hostname.as_str()),
                text(host_info.cpu_info.vendor_id.as_str()),
                text(host_info.cpu_info.model_name.as_str()),
                text(host_info.cpu_info.family.as_str()),
                text(host_info.cpu_info.model.as_str()),
                text(host_info.cpu_info.microcode.as_str()),
                number(host_info.cpu_info.max_freq),
                number(host_info.cpu_info.cores as u64),
                text(host_info.memory_info.total.as_str()),
                text(host_info.env_info.arch.as_str()),
                text(host_info.env_info.family.as_str()),
                text(host_info.env_info.os.as_str()),
            ],
        )
    }

    /// Finds the id of the host described by `host_info`, which [`DbCtx::record_host`] has recorded:
    /// see [`crate::hosts::is_id_of`].
    pub fn id_for_host(&self, host_info: &HostInfo) -> (r: Statement)
        ensures
            r.asks(
                "select id from hosts where hostname=?1 and cpu_vendor_id=?2 and cpu_model_name=?3 and cpu_family=?4 and cpu_model=?5 and cpu_microcode=?6 and cpu_max_freq_khz=?7 and cpu_cores=?8 and mem_total=?9 and arch=?10 and family=?11 and os=?12;"@,
                host_values(*host_info),
            ),
    {
        Statement::new(
            "select id from hosts where hostname=?1 and cpu_vendor_id=?2 and cpu_model_name=?3 and cpu_family=?4 and cpu_model=?5 and cpu_microcode=?6 and cpu_max_freq_khz=?7 and cpu_cores=?8 and mem_total=?9 and arch=?10 and family=?11 and os=?12;",
            vec![
                text(host_info.hostname.as_str()),
                text(host_info.cpu_info.vendor_id.as_str()),
                text(host_info.cpu_info.model_name.as_str()),
                text(host_info.cpu_info.family.as_str()),
                text(host_info.cpu_info.model.as_str()),
                text(host_info.cpu_info.microcode.as_str()),
                number(host_info.cpu_info.max_freq),
                number(host_info.cpu_info.cores as u64),
                text(host_info.memory_info.total.as_str()),
                text(host_info.env_info.arch.as_str()),
                text(host_info.env_info.family.as_str()),
                text(host_info.env_info.os.as_str()),
            ],
        )
    }

    /// Registers a remote of a repo, where its kind is supported.
    pub fn new_remote(
        &self,
        repo_id: u64,
        remote: &str,
        remote_kind: &str,
        config_path: &str,
    ) -> (r: Option<Statement>)
        ensures
            match r {
                Some(st) => supported_remote(remote_kind@) && st.asks(
                    "insert into remotes (repo_id, remote_path, remote_api, remote_url, remote_git_url, notifier_config_path) values (?1, ?2, ?3, ?4, ?5, ?6);"@,
                    seq![
                        Bound::Unsigned(repo_id),
                        Bound::Text(remote@),
                        Bound::Text(remote_api_of(remote_kind@)),
                        Bound::Text(remote_url_of(remote@)),
                        Bound::Text(remote_git_url_of(remote@, remote_kind@)),
                        Bound::Text(config_path@),
                    ],
                ),
                None => !supported_remote(remote_kind@),
            },
    {
        match locate_remote(remote, remote_kind) {
            Some(l) => {
                let st = Statement::new(
                    "insert into remotes (repo_id, remote_path, remote_api, remote_url, remote_git_url, notifier_config_path) values (?1, ?2, ?3, ?4, ?5, ?6);",
                    vec![
                        number(repo_id),
                        text(l.remote_path.as_str()),
                        text(l.remote_api.as_str()),
                        text(l.remote_url.as_str()),
                        text(l.remote_git_url.as_str()),
                        text(config_path),
                    ],
                );
                Some(st)
            },
            None => None,
        }
    }

    /// The last artifacts of a run that hold the output of a command.
    pub fn artifacts_for_run(&self, run: u64, limit: Option<u64>) -> (r: Statement)
        ensures
            r.asks(
                sql::LAST_ARTIFACTS_FOR_RUN@,
                seq![
                    Bound::Unsigned(run),
                    Bound::Unsigned(
                        match limit {
                            Some(limit) => limit,
                            None => 65535,
                        },
                    ),
                ],
            ),
    {
        let limit: u64 = match limit {
            Some(limit) => limit,
            None => 65535,
        };
        Statement::new(sql::LAST_ARTIFACTS_FOR_RUN, vec![number(run), number(limit)])
    }

    /// for jobs that this host has not run, we'll arbitrarily say that we won't generate new
    /// runs for jobs more than a day old.
    ///
    /// we don't want to rebuild the entire history every time we see a new host by default; if
    /// you really want to rebuild all of history on a new host, use `ci_ctl` to prepare the
    /// runs.
    pub fn jobs_needing_task_runs_for_host(&self, host_id: u64, now: u64) -> (r: Statement)
        requires
            now >= RERUN_WINDOW_MS,
        ensures
            asks_for_jobs(r, host_id, now),
    {
        let cutoff: u64 = now - RERUN_WINDOW_MS;
        Statement::new(sql::JOBS_NEEDING_HOST_RUN, vec![number(cutoff), number(host_id)])
    }
}

/// Git fetches a remote from where people look at it, with `.git` at the end; a remote of GitHub over
/// https, and one that is told by mail over http.
pub proof fn remotes_are_fetched_from_where_they_are(remote: Seq<char>, kind: Seq<char>)
    ensures
        kind == "github"@ ==> remote_git_url_of(remote, kind) == remote_url_of(remote) + ".git"@,
        kind != "github"@ ==> remote_git_url_of(remote, kind) == "http"@ + remote_url_of(
            remote,
        ).skip(5) + ".git"@,
        "https://www.github.com/"@.is_prefix_of(remote_url_of(remote)),
        remote.is_suffix_of(remote_url_of(remote)),
        supported_remote(kind) <==> kind == "github"@ || kind == "github-email"@,
        supported_remote(kind) ==> (remote_api_of(kind) == "github"@ <==> kind == "github"@),
        supported_remote(kind) ==> (remote_api_of(kind) == "email"@ <==> kind == "github-email"@),
{
    reveal_strlit("https://www.github.com/");
    reveal_strlit("http://www.github.com/");
    reveal_strlit("http");
    reveal_strlit("github");
    reveal_strlit("github-email");
    reveal_strlit("email");
    assert("github"@.len() == 6 && "github-email"@.len() == 12 && "email"@.len() == 5);
    let https = "https://www.github.com/"@;
    let url = remote_url_of(remote);
    assert("http://www.github.com/"@ =~= "http"@ + https.skip(5));
    assert(url.skip(5) =~= https.skip(5) + remote);
    assert("http"@ + url.skip(5) =~= "http://www.github.com/"@ + remote);
    assert(https =~= url.take(https.len() as int));
    assert(remote =~= url.subrange(url.len() - remote.len(), url.len() as int));
}

} // verus!
