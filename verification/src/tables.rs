//! What the statements mean for the tables: which columns the bound values go to, and what is read
//! back of a row that was put into a table.
//!
//! A row is seen here as the values under the names of its columns.

use crate::dbctx::Bound;
use crate::dbctx::Statement;
use crate::rows::Cell;
use crate::rows::artifact_in;
use crate::rows::host_model_in;
use crate::rows::job_in;
use crate::rows::numbers_in;
use crate::rows::pending_run_in;
use crate::rows::remote_in;
use crate::rows::run_in;
use crate::rows::token_run_in;
use crate::rows::u64_at;
use crate::rows::validity_at;
use crate::sql::JOB_BY_COMMIT_ID;
use crate::sql::JOB_BY_ID;
use crate::sql::LAST_JOBS_FROM_REMOTE;
use crate::sql::PENDING_RUNS;
use crate::sql::RunState;
use crate::text::decimal;
use crate::text::join;
use crate::text::occurs;
use crate::text::occurs_at;
use vstd::prelude::*;

verus! {

/// The value in a row that a bound value becomes.
pub open spec fn keeps(cell: Cell, value: Bound) -> bool {
    match value {
        Bound::Null => cell is Null,
        Bound::Unsigned(n) => cell matches Cell::Integer(k) && k == n,
        Bound::Text(s) => cell matches Cell::Text(t) && t@ == s,
    }
}

/// The row holds the statement's values under the given columns, in order.
pub open spec fn puts(
    statement: Statement,
    columns: Seq<Seq<char>>,
    row: Map<Seq<char>, Cell>,
) -> bool {
    &&& statement.params@.len() == columns.len()
    &&& forall|i: int|
        0 <= i < columns.len() ==> keeps(row[#[trigger] columns[i]], statement.params@[i]@)
}

/// The cells are those of the row under the given columns, in order.
pub open spec fn shows(
    row: Map<Seq<char>, Cell>,
    columns: Seq<Seq<char>>,
    cells: Seq<Cell>,
) -> bool {
    &&& cells.len() == columns.len()
    &&& forall|i: int| 0 <= i < columns.len() ==> cells[i] == row[#[trigger] columns[i]]
}

/// The text of a statement that puts a row into a table, up to its values.
pub open spec fn insert_head(table: Seq<char>, columns: Seq<Seq<char>>) -> Seq<char> {
    "insert into "@ + table + " ("@ + join(columns, ", "@) + ") values ("@
}

/// The text of a statement that reads rows of a table, up to its conditions.
pub open spec fn select_head(table: Seq<char>, columns: Seq<Seq<char>>) -> Seq<char> {
    "select "@ + join(columns, ", "@) + " from "@ + table
}

/// The columns that are filled when a job is made.
pub open spec fn new_job_columns() -> Seq<Seq<char>> {
    seq!["remote_id"@, "commit_id"@, "created_time"@, "source"@, "run_preferences"@]
}

/// The columns that are read of a job.
pub open spec fn job_columns() -> Seq<Seq<char>> {
    seq!["id"@, "source"@, "created_time"@, "remote_id"@, "commit_id"@, "run_preferences"@]
}

/// The statement makes a job.
pub open spec fn makes_job(
    statement: Statement,
    remote_id: u64,
    commit_id: u64,
    created_time: u64,
    source: Bound,
    preference: Bound,
) -> bool {
    statement.asks(
        "insert into jobs (remote_id, commit_id, created_time, source, run_preferences) values (?1, ?2, ?3, ?4, ?5);"@,
        seq![
            Bound::Unsigned(remote_id),
            Bound::Unsigned(commit_id),
            Bound::Unsigned(created_time),
            source,
            preference,
        ],
    )
}

/// The statement makes a run that waits to be run.
pub open spec fn makes_run(
    statement: Statement,
    job_id: u64,
    created_time: u64,
    host_preference: Bound,
) -> bool {
    statement.asks(
        "insert into runs (job_id, state, created_time, host_preference) values (?1, ?2, ?3, ?4);"@,
        seq![
            Bound::Unsigned(job_id),
            Bound::Unsigned(RunState::Pending.number() as u64),
            Bound::Unsigned(created_time),
            host_preference,
        ],
    )
}

/// A job that was made is read back with the remote, the commit, the time, the source and the
/// preference it was made with.
pub proof fn jobs_are_read_back(
    statement: Statement,
    remote_id: u64,
    commit_id: u64,
    created_time: u64,
    source: Bound,
    preference: Bound,
    row: Map<Seq<char>, Cell>,
    cells: Seq<Cell>,
)
    requires
        makes_job(statement, remote_id, commit_id, created_time, source, preference),
        source !is Unsigned,
        preference !is Unsigned,
        puts(statement, new_job_columns(), row),
        shows(row, job_columns(), cells),
        u64_at(cells, 0) is Some,
    ensures
        insert_head("jobs"@, new_job_columns()).is_prefix_of(statement.sql@),
        job_in(cells) matches Some(job) && {
            &&& job.remote_id == remote_id
            &&& job.commit_id == commit_id
            &&& job.created_time == created_time
            &&& match source {
                Bound::Text(text) => job.source matches Some(kept) && kept@ == text,
                _ => job.source is None,
            }
            &&& match preference {
                Bound::Text(text) => job.run_preferences matches Some(kept) && kept@ == text,
                _ => job.run_preferences is None,
            }
        },
{
    job_texts_name_their_columns();
    let put = new_job_columns();
    let read = job_columns();
    let bounds = Seq::new(statement.params@.len(), |i: int| statement.params@[i]@);
    assert(bounds[0] == Bound::Unsigned(remote_id) && bounds[1] == Bound::Unsigned(commit_id));
    assert(bounds[2] == Bound::Unsigned(created_time));
    assert(bounds[3] == source && bounds[4] == preference);
    assert(keeps(row[put[0]], bounds[0]) && keeps(row[put[1]], bounds[1]));
    assert(keeps(row[put[2]], bounds[2]) && keeps(row[put[3]], bounds[3]));
    assert(keeps(row[put[4]], bounds[4]));
    assert(cells[1] == row[read[1]] && cells[2] == row[read[2]] && cells[3] == row[read[3]]);
    assert(cells[4] == row[read[4]] && cells[5] == row[read[5]]);
}

/// The statements that make and read jobs name the columns that they fill and read, in order.
pub proof fn job_texts_name_their_columns()
    ensures
        insert_head("jobs"@, new_job_columns()).is_prefix_of(
            "insert into jobs (remote_id, commit_id, created_time, source, run_preferences) values (?1, ?2, ?3, ?4, ?5);"@,
        ),
        select_head("jobs"@, job_columns()).is_prefix_of(JOB_BY_ID@),
        select_head("jobs"@, job_columns()).is_prefix_of(JOB_BY_COMMIT_ID@),
        select_head("jobs"@, job_columns()).is_prefix_of(LAST_JOBS_FROM_REMOTE@),
{
    reveal_strlit("insert into ");
    reveal_strlit("select ");
    reveal_strlit("jobs");
    reveal_strlit(" (");
    reveal_strlit(") values (");
    reveal_strlit(" from ");
    reveal_strlit(", ");
    reveal_strlit("id");
    reveal_strlit("remote_id");
    reveal_strlit("commit_id");
    reveal_strlit("created_time");
    reveal_strlit("source");
    reveal_strlit("run_preferences");
    reveal_strlit(
        "insert into jobs (remote_id, commit_id, created_time, source, run_preferences) values (?1, ?2, ?3, ?4, ?5);",
    );
    reveal_strlit(
        "select id, source, created_time, remote_id, commit_id, run_preferences from jobs where id=?1",
    );
    reveal_strlit(
        "select id, source, created_time, remote_id, commit_id, run_preferences from jobs where commit_id=?1;",
    );
    reveal_strlit(
        "select id, source, created_time, remote_id, commit_id, run_preferences from jobs where remote_id=?1 order by created_time desc limit ?2;",
    );
    joined_five(new_job_columns());
    joined_six(job_columns());
    let put = insert_head("jobs"@, new_job_columns());
    let text =
        "insert into jobs (remote_id, commit_id, created_time, source, run_preferences) values (?1, ?2, ?3, ?4, ?5);"@;
    assert(put =~= text.take(put.len() as int));
    let read = select_head("jobs"@, job_columns());
    assert(read =~= JOB_BY_ID@.take(read.len() as int));
    assert(read =~= JOB_BY_COMMIT_ID@.take(read.len() as int));
    assert(read =~= LAST_JOBS_FROM_REMOTE@.take(read.len() as int));
}

proof fn joined_one_more(list: Seq<Seq<char>>, sep: Seq<char>)
    requires
        list.len() > 1,
    ensures
        join(list, sep) == join(list.take(list.len() - 1), sep) + sep + list[list.len() - 1],
{
    assert(list.drop_last() =~= list.take(list.len() - 1));
}

proof fn joined_four(list: Seq<Seq<char>>)
    requires
        list.len() == 4,
    ensures
        join(list, ", "@) == list[0] + ", "@ + list[1] + ", "@ + list[2] + ", "@ + list[3],
{
    joined_one_more(list, ", "@);
    joined_one_more(list.take(3), ", "@);
    joined_one_more(list.take(2), ", "@);
    assert(list.take(3).take(2) =~= list.take(2));
    assert(list.take(2).take(1) =~= list.take(1));
}

proof fn joined_five(list: Seq<Seq<char>>)
    requires
        list.len() == 5,
    ensures
        join(list, ", "@) == list[0] + ", "@ + list[1] + ", "@ + list[2] + ", "@ + list[3] + ", "@
            + list[4],
{
    joined_one_more(list, ", "@);
    joined_four(list.take(4));
}

proof fn joined_six(list: Seq<Seq<char>>)
    requires
        list.len() == 6,
    ensures
        join(list, ", "@) == list[0] + ", "@ + list[1] + ", "@ + list[2] + ", "@ + list[3] + ", "@
            + list[4] + ", "@ + list[5],
{
    joined_one_more(list, ", "@);
    joined_five(list.take(5));
}

/// How a statement names the value that goes with a column, where that is value number `k`.
pub open spec fn placeholder(column: Seq<char>, k: nat) -> Seq<char> {
    " "@ + column + "=?"@ + decimal(k)
}

/// The statement binds the value to the column: it sets the column to it, or asks for the rows that
/// have it there.
pub open spec fn binds(statement: Statement, column: Seq<char>, value: Bound) -> bool {
    exists|k: nat|
        {
            &&& 1 <= k <= statement.params@.len()
            &&& occurs(statement.sql@, #[trigger] placeholder(column, k))
            &&& statement.params@[k - 1]@ == value
        }
}

/// A value whose column is named at place `i` of the text is bound to it.
pub proof fn named_values_are_bound(
    statement: Statement,
    column: Seq<char>,
    k: nat,
    digit: Seq<char>,
    i: int,
    value: Bound,
)
    requires
        1 <= k <= statement.params@.len(),
        k < 10,
        digit == seq![crate::text::digit(k as int)],
        occurs_at(statement.sql@, " "@ + column + "=?"@ + digit, i),
        statement.params@[k - 1]@ == value,
    ensures
        binds(statement, column, value),
{
    reveal_with_fuel(decimal, 2);
    assert(decimal(k) =~= digit);
    assert(occurs(statement.sql@, placeholder(column, k)));
}

/// The columns that are filled when a metric is recorded.
pub open spec fn metric_columns() -> Seq<Seq<char>> {
    seq!["run_id"@, "name"@, "value"@]
}

/// The statement that records a metric names the columns that it fills, in order.
pub proof fn metric_texts_name_their_columns()
    ensures
        insert_head("metrics"@, metric_columns()).is_prefix_of(
            "insert into metrics (run_id, name, value) values (?1, ?2, ?3) on conflict (run_id, name) do update set value=excluded.value"@,
        ),
{
    reveal_strlit("insert into ");
    reveal_strlit("metrics");
    reveal_strlit(" (");
    reveal_strlit(") values (");
    reveal_strlit(", ");
    reveal_strlit("run_id");
    reveal_strlit("name");
    reveal_strlit("value");
    reveal_strlit(
        "insert into metrics (run_id, name, value) values (?1, ?2, ?3) on conflict (run_id, name) do update set value=excluded.value",
    );
    joined_three(metric_columns());
    let put = insert_head("metrics"@, metric_columns());
    let text =
        "insert into metrics (run_id, name, value) values (?1, ?2, ?3) on conflict (run_id, name) do update set value=excluded.value"@;
    assert(put =~= text.take(put.len() as int));
}

proof fn joined_three(list: Seq<Seq<char>>)
    requires
        list.len() == 3,
    ensures
        join(list, ", "@) == list[0] + ", "@ + list[1] + ", "@ + list[2],
{
    joined_one_more(list, ", "@);
    joined_one_more(list.take(2), ", "@);
    assert(list.take(2).take(1) =~= list.take(1));
}

/// The columns that are filled when a run is made.
pub open spec fn new_run_columns() -> Seq<Seq<char>> {
    seq!["job_id"@, "state"@, "created_time"@, "host_preference"@]
}

/// The columns that are read of a run that waits.
pub open spec fn pending_run_columns() -> Seq<Seq<char>> {
    seq!["id"@, "job_id"@, "created_time"@, "host_preference"@]
}

/// A run that was made is one of the runs that wait, which are looked up by their state, and is read
/// back as a run of the job and of the time that it was made with; the host that it is for is kept.
pub proof fn runs_are_read_back(
    statement: Statement,
    job_id: u64,
    created_time: u64,
    host_preference: Bound,
    row: Map<Seq<char>, Cell>,
    cells: Seq<Cell>,
)
    requires
        makes_run(statement, job_id, created_time, host_preference),
        puts(statement, new_run_columns(), row),
        shows(row, pending_run_columns(), cells),
        u64_at(cells, 0) is Some,
    ensures
        insert_head("runs"@, new_run_columns()).is_prefix_of(statement.sql@),
        (select_head("runs"@, pending_run_columns()) + " where state=0 and "@).is_prefix_of(
            PENDING_RUNS@,
        ),
        keeps(row["state"@], Bound::Unsigned(0)),
        keeps(row["host_preference"@], host_preference),
        pending_run_in(cells) matches Some(run) && run.job_id == job_id && run.create_time
            == created_time,
{
    run_texts_name_their_columns();
    let put = new_run_columns();
    let read = pending_run_columns();
    let bounds = Seq::new(statement.params@.len(), |i: int| statement.params@[i]@);
    assert(bounds[0] == Bound::Unsigned(job_id) && bounds[1] == Bound::Unsigned(0));
    assert(bounds[2] == Bound::Unsigned(created_time) && bounds[3] == host_preference);
    assert(keeps(row[put[0]], bounds[0]) && keeps(row[put[1]], bounds[1]));
    assert(keeps(row[put[2]], bounds[2]) && keeps(row[put[3]], bounds[3]));
    assert(cells[1] == row[read[1]] && cells[2] == row[read[2]]);
}

/// The statements that make runs and read those that wait name the columns that they fill and read,
/// in order.
pub proof fn run_texts_name_their_columns()
    ensures
        insert_head("runs"@, new_run_columns()).is_prefix_of(
            "insert into runs (job_id, state, created_time, host_preference) values (?1, ?2, ?3, ?4);"@,
        ),
        (select_head("runs"@, pending_run_columns()) + " where state=0 and "@).is_prefix_of(
            PENDING_RUNS@,
        ),
{
    reveal_strlit("insert into ");
    reveal_strlit("select ");
    reveal_strlit("runs");
    reveal_strlit(" (");
    reveal_strlit(") values (");
    reveal_strlit(" from ");
    reveal_strlit(", ");
    reveal_strlit("id");
    reveal_strlit("job_id");
    reveal_strlit("state");
    reveal_strlit("created_time");
    reveal_strlit("host_preference");
    reveal_strlit(" where state=0 and ");
    reveal_strlit(
        "insert into runs (job_id, state, created_time, host_preference) values (?1, ?2, ?3, ?4);",
    );
    reveal_strlit(
        "select id, job_id, created_time, host_preference from runs where state=0 and (host_preference=?1 or host_preference is null) order by created_time desc;",
    );
    joined_four(new_run_columns());
    joined_four(pending_run_columns());
    let put = insert_head("runs"@, new_run_columns());
    let text =
        "insert into runs (job_id, state, created_time, host_preference) values (?1, ?2, ?3, ?4);"@;
    assert(put =~= text.take(put.len() as int));
    let read = select_head("runs"@, pending_run_columns()) + " where state=0 and "@;
    assert(read =~= PENDING_RUNS@.take(read.len() as int));
}

/// The columns that are read of a run.
pub open spec fn run_columns() -> Seq<Seq<char>> {
    seq![
        "id"@,
        "job_id"@,
        "artifacts_path"@,
        "state"@,
        "host_id"@,
        "build_token"@,
        "created_time"@,
        "started_time"@,
        "complete_time"@,
        "run_timeout"@,
        "build_result"@,
        "final_status"@,
    ]
}

/// A number that may be absent, as a row holds it.
pub open spec fn holds_number(cell: Cell, value: Option<u64>) -> bool {
    match value {
        Some(n) => cell matches Cell::Integer(k) && k == n,
        None => cell is Null,
    }
}

/// A text that may be absent, as a row holds it.
pub open spec fn holds_text(cell: Cell, value: Option<String>) -> bool {
    match value {
        Some(text) => cell == Cell::Text(text),
        None => cell is Null,
    }
}

/// A run is read with every value from the column of its name: when it was made, started and
/// completed, its state by its number, and what came of it.
pub proof fn runs_are_read_by_column(row: Map<Seq<char>, Cell>, cells: Seq<Cell>)
    requires
        shows(row, run_columns(), cells),
        run_in(cells) is Some,
    ensures
        run_in(cells) matches Some(run) && {
            &&& holds_number(row["id"@], Some(run.id))
            &&& holds_number(row["job_id"@], Some(run.job_id))
            &&& holds_text(row["artifacts_path"@], run.artifacts_path)
            &&& holds_number(row["state"@], Some(run.state.number() as u64))
            &&& holds_number(row["host_id"@], run.host_id)
            &&& holds_text(row["build_token"@], run.build_token)
            &&& holds_number(row["created_time"@], Some(run.create_time))
            &&& holds_number(row["started_time"@], run.start_time)
            &&& holds_number(row["complete_time"@], run.complete_time)
            &&& holds_number(row["run_timeout"@], run.run_timeout)
            &&& match run.build_result {
                Some(result) => holds_number(row["build_result"@], Some(result as u64)),
                None => row["build_result"@] is Null,
            }
            &&& holds_text(row["final_status"@], run.final_text)
        },
{
    let columns = run_columns();
    assert(cells[0] == row[columns[0]] && cells[1] == row[columns[1]]);
    assert(cells[2] == row[columns[2]] && cells[3] == row[columns[3]]);
    assert(cells[4] == row[columns[4]] && cells[5] == row[columns[5]]);
    assert(cells[6] == row[columns[6]] && cells[7] == row[columns[7]]);
    assert(cells[8] == row[columns[8]] && cells[9] == row[columns[9]]);
    assert(cells[10] == row[columns[10]] && cells[11] == row[columns[11]]);
}

/// A remote that was registered is read back with the repository and the path that it was registered
/// with, the api of its kind, the addresses at which people and git find it, and its configuration.
pub proof fn remotes_are_read_by_column(row: Map<Seq<char>, Cell>, cells: Seq<Cell>)
    requires
        shows(row, remote_columns(), cells),
        remote_in(cells) is Some,
    ensures
        remote_in(cells) matches Some(remote) && {
            &&& holds_number(row["id"@], Some(remote.id))
            &&& holds_number(row["repo_id"@], Some(remote.repo_id))
            &&& holds_text(row["remote_path"@], Some(remote.remote_path))
            &&& holds_text(row["remote_api"@], Some(remote.remote_api))
            &&& holds_text(row["remote_url"@], Some(remote.remote_url))
            &&& holds_text(row["remote_git_url"@], Some(remote.remote_git_url))
            &&& holds_text(row["notifier_config_path"@], Some(remote.notifier_config_path))
        },
{
    let columns = remote_columns();
    assert(cells[0] == row[columns[0]] && cells[1] == row[columns[1]]);
    assert(cells[2] == row[columns[2]] && cells[3] == row[columns[3]]);
    assert(cells[4] == row[columns[4]] && cells[5] == row[columns[5]]);
    assert(cells[6] == row[columns[6]]);
}

/// The columns that are read of a remote.
pub open spec fn remote_columns() -> Seq<Seq<char>> {
    seq![
        "id"@,
        "repo_id"@,
        "remote_path"@,
        "remote_api"@,
        "remote_url"@,
        "remote_git_url"@,
        "notifier_config_path"@,
    ]
}

/// The columns that are read of an artifact.
pub open spec fn artifact_columns() -> Seq<Seq<char>> {
    seq!["id"@, "run_id"@, "name"@, "desc"@, "created_time"@, "completed_time"@]
}

/// An artifact is read with every value from the column of its name.
pub proof fn artifacts_are_read_by_column(row: Map<Seq<char>, Cell>, cells: Seq<Cell>)
    requires
        shows(row, artifact_columns(), cells),
        artifact_in(cells) is Some,
    ensures
        artifact_in(cells) matches Some(artifact) && {
            &&& holds_number(row["id"@], Some(artifact.id))
            &&& holds_number(row["run_id"@], Some(artifact.run_id))
            &&& holds_text(row["name"@], Some(artifact.name))
            &&& holds_text(row["desc"@], Some(artifact.desc))
            &&& holds_number(row["created_time"@], Some(artifact.created_time))
            &&& holds_number(row["completed_time"@], artifact.completed_time)
        },
{
    let columns = artifact_columns();
    assert(cells[0] == row[columns[0]] && cells[1] == row[columns[1]]);
    assert(cells[2] == row[columns[2]] && cells[3] == row[columns[3]]);
    assert(cells[4] == row[columns[4]] && cells[5] == row[columns[5]]);
}

/// The lookup of a pushed repository's remote gives the remote's own id first, and that of its
/// repository second.
pub proof fn remotes_are_looked_up_by_address(row: Map<Seq<char>, Cell>, cells: Seq<Cell>)
    requires
        shows(row, seq!["id"@, "repo_id"@], cells),
        numbers_in(cells) is Some,
    ensures
        (select_head("remotes"@, seq!["id"@, "repo_id"@]) + " where remote_git_url=?1;"@)
            == "select id, repo_id from remotes where remote_git_url=?1;"@,
        numbers_in(cells) matches Some((remote_id, repo_id)) && holds_number(
            row["id"@],
            Some(remote_id),
        ) && holds_number(row["repo_id"@], Some(repo_id)),
{
    reveal_strlit("select ");
    reveal_strlit("remotes");
    reveal_strlit(" from ");
    reveal_strlit(", ");
    reveal_strlit("id");
    reveal_strlit("repo_id");
    reveal_strlit(" where remote_git_url=?1;");
    reveal_strlit("select id, repo_id from remotes where remote_git_url=?1;");
    let columns = seq!["id"@, "repo_id"@];
    joined_one_more(columns, ", "@);
    assert(columns.take(1)[0] == "id"@);
    assert(cells[0] == row[columns[0]] && cells[1] == row[columns[1]]);
    assert(select_head("remotes"@, columns) + " where remote_git_url=?1;"@
        =~= "select id, repo_id from remotes where remote_git_url=?1;"@);
}

/// The run that a build token stands for is read with its id, the directory for its artifacts, and
/// what the token is worth by when the run was started and how long it may take.
pub proof fn token_runs_are_read_by_column(
    row: Map<Seq<char>, Cell>,
    cells: Seq<Cell>,
    now: u64,
    started: Option<u64>,
    timeout: Option<u64>,
)
    requires
        shows(row, seq!["id"@, "artifacts_path"@, "started_time"@, "run_timeout"@], cells),
        holds_number(row["started_time"@], started),
        holds_number(row["run_timeout"@], timeout),
        token_run_in(cells, now) is Some,
    ensures
        (select_head("runs"@, seq!["id"@, "artifacts_path"@, "started_time"@, "run_timeout"@])
            + " where build_token=?1"@)
            == "select id, artifacts_path, started_time, run_timeout from runs where build_token=?1"@,
        token_run_in(cells, now) matches Some((id, path, validity)) && {
            &&& holds_number(row["id"@], Some(id))
            &&& holds_text(row["artifacts_path"@], path)
            &&& validity == validity_at(started, timeout, now)
        },
{
    reveal_strlit("select ");
    reveal_strlit("runs");
    reveal_strlit(" from ");
    reveal_strlit(", ");
    reveal_strlit("id");
    reveal_strlit("artifacts_path");
    reveal_strlit("started_time");
    reveal_strlit("run_timeout");
    reveal_strlit(" where build_token=?1");
    reveal_strlit(
        "select id, artifacts_path, started_time, run_timeout from runs where build_token=?1",
    );
    let columns = seq!["id"@, "artifacts_path"@, "started_time"@, "run_timeout"@];
    joined_four(columns);
    assert(cells[0] == row[columns[0]] && cells[1] == row[columns[1]]);
    assert(cells[2] == row[columns[2]] && cells[3] == row[columns[3]]);
    assert(select_head("runs"@, columns) + " where build_token=?1"@
        =~= "select id, artifacts_path, started_time, run_timeout from runs where build_token=?1"@);
}

/// The host of a run is read with its name, the vendor, family and model of its cpu and the highest
/// frequency, each from its own column.
pub proof fn hosts_are_read_by_column(row: Map<Seq<char>, Cell>, cells: Seq<Cell>)
    requires
        shows(
            row,
            seq!["hostname"@, "cpu_vendor_id"@, "cpu_family"@, "cpu_model"@, "cpu_max_freq_khz"@],
            cells,
        ),
        host_model_in(cells) is Some,
    ensures
        (select_head(
            "hosts"@,
            seq!["hostname"@, "cpu_vendor_id"@, "cpu_family"@, "cpu_model"@, "cpu_max_freq_khz"@],
        ) + " where id=?1;"@)
            == "select hostname, cpu_vendor_id, cpu_family, cpu_model, cpu_max_freq_khz from hosts where id=?1;"@,
        host_model_in(cells) matches Some((hostname, vendor, family, model, max_freq)) && {
            &&& holds_text(row["hostname"@], Some(hostname))
            &&& holds_text(row["cpu_vendor_id"@], Some(vendor))
            &&& holds_text(row["cpu_family"@], Some(family))
            &&& holds_text(row["cpu_model"@], Some(model))
            &&& holds_number(row["cpu_max_freq_khz"@], Some(max_freq))
        },
{
    reveal_strlit("select ");
    reveal_strlit("hosts");
    reveal_strlit(" from ");
    reveal_strlit(", ");
    reveal_strlit("hostname");
    reveal_strlit("cpu_vendor_id");
    reveal_strlit("cpu_family");
    reveal_strlit("cpu_model");
    reveal_strlit("cpu_max_freq_khz");
    reveal_strlit(" where id=?1;");
    reveal_strlit(
        "select hostname, cpu_vendor_id, cpu_family, cpu_model, cpu_max_freq_khz from hosts where id=?1;",
    );
    let columns = seq![
        "hostname"@,
        "cpu_vendor_id"@,
        "cpu_family"@,
        "cpu_model"@,
        "cpu_max_freq_khz"@,
    ];
    joined_five(columns);
    assert(cells[0] == row[columns[0]] && cells[1] == row[columns[1]]);
    assert(cells[2] == row[columns[2]] && cells[3] == row[columns[3]]);
    assert(cells[4] == row[columns[4]]);
    assert(select_head("hosts"@, columns) + " where id=?1;"@
        =~= "select hostname, cpu_vendor_id, cpu_family, cpu_model, cpu_max_freq_khz from hosts where id=?1;"@);
}

} // verus!
