use build_o_tron::dbctx::{locate_remote, DbCtx, Param, Statement, RERUN_WINDOW_MS, TOKEN_EXPIRY_MS};
use build_o_tron::protocol::{CpuInfo, EnvInfo, HostInfo, MemoryInfo};
use build_o_tron::rows::{
    best_name, commit_name_row, host_model, pending_run, token_run, token_validity, Cell,
};
use build_o_tron::sql::{
    CommitName, JobResult, NameState, RunState, TokenValidity, CREATE_COMMITS_TABLE,
    SELECT_ALL_RUNS_WITH_JOB_INFO,
};
use rusqlite::types::{Value, ValueRef};
use rusqlite::Connection;

fn value(param: &Param) -> Value {
    match param {
        Param::Null => Value::Null,
        Param::Unsigned(n) => Value::Integer(*n as i64),
        Param::Text(s) => Value::Text(s.clone()),
    }
}

fn run(conn: &Connection, statement: &Statement) -> Vec<Vec<Cell>> {
    let mut query = conn.prepare(&statement.sql).unwrap();
    let columns = query.column_count();
    let values: Vec<Value> = statement.params.iter().map(value).collect();
    let mut rows = query.query(rusqlite::params_from_iter(values)).unwrap();
    let mut out = Vec::new();
    while let Some(row) = rows.next().unwrap() {
        let mut cells = Vec::new();
        for i in 0..columns {
            cells.push(match row.get_ref(i).unwrap() {
                ValueRef::Null => Cell::Null,
                ValueRef::Integer(n) => Cell::Integer(n),
                ValueRef::Text(s) => Cell::Text(String::from_utf8(s.to_vec()).unwrap()),
                _ => Cell::Other,
            });
        }
        out.push(cells);
    }
    out
}

fn insert(conn: &Connection, statement: &Statement) -> u64 {
    run(conn, statement);
    conn.last_insert_rowid() as u64
}

fn number(rows: &Vec<Vec<Cell>>) -> u64 {
    match rows[0][0] {
        Cell::Integer(n) => n as u64,
        _ => panic!("no number"),
    }
}

fn database() -> (DbCtx, Connection) {
    let ctx = DbCtx::new("/etc/ci".to_owned());
    let conn = Connection::open_in_memory().unwrap();
    for sql in ctx.create_tables() {
        conn.execute(&sql, ()).unwrap();
    }
    (ctx, conn)
}

fn host() -> HostInfo {
    HostInfo {
        hostname: "box".to_owned(),
        cpu_info: CpuInfo {
            model_name: "some cpu".to_owned(),
            microcode: "0x1".to_owned(),
            cores: 4,
            vendor_id: "GenuineIntel".to_owned(),
            family: "6".to_owned(),
            model: "85".to_owned(),
            max_freq: 3700000,
        },
        memory_info: MemoryInfo { total: "1 kB".to_owned(), available: "1 kB".to_owned() },
        env_info: EnvInfo {
            arch: "x86_64".to_owned(),
            family: "unix".to_owned(),
            os: "linux".to_owned(),
        },
    }
}

#[test]
fn what_is_recorded_of_a_push_is_read_back() {
    let (ctx, conn) = database();
    let repo = insert(&conn, &ctx.new_repo("yaxpeax"));
    let remote = insert(
        &conn,
        &ctx.new_remote(repo, "ixi/yaxpeax", "github", "gh.json").unwrap(),
    );
    let commit = insert(&conn, &ctx.new_commit("0123456789abcdef"));
    let job = insert(&conn, &ctx.new_job(remote, commit, 1000, Some("me@x"), None));
    let run_id = insert(&conn, &ctx.new_run(job, 2000, None));

    let rows = run(&conn, &ctx.job_by_id(job));
    let found = DbCtx::row2job(&rows[0]).unwrap();
    assert_eq!((found.id, found.remote_id, found.commit_id), (job, remote, commit));
    assert_eq!(found.created_time, 1000);
    assert_eq!(found.source, Some("me@x".to_owned()));
    assert_eq!(found.run_preferences, None);

    let rows = run(&conn, &ctx.last_run_for_job(job));
    let found = DbCtx::row2run(&rows[0]).unwrap();
    assert_eq!((found.id, found.job_id, found.create_time), (run_id, job, 2000));
    assert_eq!(found.state, RunState::Pending);
    assert_eq!(found.start_time, None);
    let pending = found.into_pending_run();
    assert_eq!((pending.id, pending.job_id, pending.create_time), (run_id, job, 2000));

    let rows = run(&conn, &ctx.get_pending_runs(None));
    let found = DbCtx::row2pending_run(&rows[0]).unwrap();
    let made = pending_run(run_id, job, 2000);
    assert_eq!((found.id, found.job_id, found.create_time), (made.id, made.job_id, made.create_time));
    assert_eq!(run(&conn, &ctx.get_active_runs()).len(), 1);

    let rows = run(&conn, &ctx.remote_by_id(remote));
    let found = DbCtx::row2remote(&rows[0]).unwrap();
    assert_eq!(found.remote_path, "ixi/yaxpeax");
    assert_eq!(found.remote_api, "github");
    assert_eq!(found.remote_url, "https://www.github.com/ixi/yaxpeax");
    assert_eq!(found.remote_git_url, "https://www.github.com/ixi/yaxpeax.git");
    assert_eq!(found.notifier_config_path, "gh.json");
    let rows = run(&conn, &ctx.remote_by_path_and_api("github", "ixi/yaxpeax"));
    assert_eq!(DbCtx::row2remote(&rows[0]).unwrap().id, remote);
    assert_eq!(run(&conn, &ctx.remotes_by_repo(repo)).len(), 1);

    let rows = run(&conn, &ctx.repo_by_id(repo));
    assert_eq!(DbCtx::row2repo(&rows[0]).unwrap().name, "yaxpeax");
    let rows = run(&conn, &ctx.get_repos());
    assert_eq!(DbCtx::row2repo(&rows[0]).unwrap().default_run_preference, None);
    assert_eq!(number(&run(&conn, &ctx.repo_id_by_remote(remote))), repo);
    assert_eq!(number(&run(&conn, &ctx.repo_id_by_name("yaxpeax"))), repo);
    assert_eq!(number(&run(&conn, &ctx.job_for_commit("0123456789abcdef"))), commit);

    match &run(&conn, &ctx.commit_sha(commit))[0][0] {
        Cell::Text(sha) => assert_eq!(sha, "0123456789abcdef"),
        _ => panic!("no text"),
    }
    let rows = run(&conn, &ctx.job_by_commit_id(commit));
    assert_eq!(DbCtx::row2job(&rows[0]).unwrap().id, job);
    let rows = run(&conn, &ctx.last_job_from_remote(remote));
    assert_eq!(DbCtx::row2job(&rows[0]).unwrap().id, job);
    assert_eq!(run(&conn, &ctx.recent_jobs_from_remote(remote, 10)).len(), 1);
    assert_eq!(run(&conn, &ctx.runs_for_job_one_per_host(job)).len(), 1);
}

#[test]
fn runs_are_listed_with_their_jobs_oldest_first() {
    let (ctx, conn) = database();
    let job = insert(&conn, &ctx.new_job(1, 9, 1000, None, None));
    let later = insert(&conn, &ctx.new_run(job, 3000, None));
    let earlier = insert(&conn, &ctx.new_run(job, 2000, None));
    let rows = run(&conn, &Statement::new(SELECT_ALL_RUNS_WITH_JOB_INFO, Vec::new()));
    assert_eq!(rows.len(), 2);
    for (row, run_id) in rows.iter().zip([earlier, later]) {
        assert!(matches!(row[0], Cell::Integer(n) if n as u64 == job));
        assert!(matches!(row[1], Cell::Integer(n) if n as u64 == run_id));
        assert!(matches!(row[4], Cell::Integer(9)));
    }
}

#[test]
fn a_run_that_was_reaped_is_not_active() {
    let (ctx, conn) = database();
    let run_id = insert(&conn, &ctx.new_run(5, 2000, Some(3)));
    run(&conn, &ctx.reap_task(run_id));
    assert_eq!(run(&conn, &ctx.get_active_runs()).len(), 0);
    let rows = run(&conn, &ctx.last_run_for_job(5));
    assert_eq!(DbCtx::row2run(&rows[0]).unwrap().state, RunState::Invalid);
}

#[test]
fn artifacts_and_metrics_are_read_back() {
    let (ctx, conn) = database();
    let artifact = insert(&conn, &ctx.reserve_artifact(7, "log (stdout)", "a log", 100));
    let rows = run(&conn, &ctx.lookup_artifact(7, artifact));
    let found = DbCtx::row2artifact(&rows[0]).unwrap();
    assert_eq!((found.name.as_str(), found.desc.as_str()), ("log (stdout)", "a log"));
    assert_eq!((found.created_time, found.completed_time), (100, None));
    run(&conn, &ctx.finalize_artifact(artifact, 200));
    let rows = run(&conn, &ctx.artifacts_for_run(7, None));
    assert_eq!(DbCtx::row2artifact(&rows[0]).unwrap().completed_time, Some(200));
    assert_eq!(run(&conn, &ctx.artifacts_for_run(7, Some(0))).len(), 0);
    assert_eq!(run(&conn, &ctx.lookup_artifact(8, artifact)).len(), 0);

    run(&conn, &ctx.insert_metric(7, "size", "10"));
    run(&conn, &ctx.insert_metric(7, "size", "20"));
    let rows = run(&conn, &ctx.metrics_for_run(7));
    assert_eq!(rows.len(), 1);
    let found = DbCtx::row2metric(&rows[0]).unwrap();
    assert_eq!((found.run_id, found.name.as_str(), found.value.as_str()), (7, "size", "20"));
    assert_eq!(run(&conn, &ctx.metrics_for_job(1)).len(), 0);
}

#[test]
fn hosts_are_recorded_once() {
    let (ctx, conn) = database();
    run(&conn, &ctx.record_host(&host()));
    run(&conn, &ctx.record_host(&host()));
    let id = number(&run(&conn, &ctx.id_for_host(&host())));
    assert_eq!(number(&run(&conn, &ctx.find_id_like_host(&host()))), id);
    let rows = run(&conn, &ctx.host_model_info(id));
    let (name, vendor, family, model, freq) = host_model(&rows[0]).unwrap();
    assert_eq!((name.as_str(), vendor.as_str()), ("box", "GenuineIntel"));
    assert_eq!((family.as_str(), model.as_str(), freq), ("6", "85", 3700000));
    let count = Statement::new("select count(*) from hosts", Vec::new());
    assert_eq!(number(&run(&conn, &count)), 1);
    run(&conn, &ctx.record_host(&host()));
    assert_eq!(number(&run(&conn, &count)), 1);
    assert_eq!(number(&run(&conn, &ctx.id_for_host(&host()))), id);
}

#[test]
fn hosts_that_differ_have_their_own_ids() {
    let changes: [fn(&mut HostInfo); 12] = [
        |host| host.hostname = "other".to_owned(),
        |host| host.cpu_info.vendor_id = "other".to_owned(),
        |host| host.cpu_info.model_name = "other".to_owned(),
        |host| host.cpu_info.family = "other".to_owned(),
        |host| host.cpu_info.model = "other".to_owned(),
        |host| host.cpu_info.microcode = "other".to_owned(),
        |host| host.cpu_info.max_freq = 3700001,
        |host| host.cpu_info.cores = 5,
        |host| host.memory_info.total = "other".to_owned(),
        |host| host.env_info.arch = "other".to_owned(),
        |host| host.env_info.family = "other".to_owned(),
        |host| host.env_info.os = "other".to_owned(),
    ];
    let (ctx, conn) = database();
    run(&conn, &ctx.record_host(&host()));
    let id = number(&run(&conn, &ctx.id_for_host(&host())));
    let mut ids = vec![id];
    for change in changes.iter() {
        let mut other = host();
        change(&mut other);
        run(&conn, &ctx.record_host(&other));
        let rows = run(&conn, &ctx.id_for_host(&other));
        assert_eq!(rows.len(), 1);
        assert!(!ids.contains(&number(&rows)));
        ids.push(number(&rows));
    }
    assert_eq!(number(&run(&conn, &ctx.id_for_host(&host()))), id);
}

#[test]
fn available_memory_does_not_make_another_host() {
    let (ctx, conn) = database();
    run(&conn, &ctx.record_host(&host()));
    let id = number(&run(&conn, &ctx.id_for_host(&host())));
    let mut busy = host();
    busy.memory_info.available = "0 kB".to_owned();
    run(&conn, &ctx.record_host(&busy));
    assert_eq!(number(&run(&conn, &ctx.id_for_host(&busy))), id);
}

#[test]
fn jobs_of_the_last_day_can_be_run_on_another_host() {
    let (ctx, conn) = database();
    let now = 10 * RERUN_WINDOW_MS;
    let old = insert(&conn, &ctx.new_job(1, 1, now - RERUN_WINDOW_MS - 1, None, Some("all")));
    let new = insert(&conn, &ctx.new_job(1, 2, now - 5, None, Some("all")));
    let found: Vec<u64> = run(&conn, &ctx.jobs_needing_task_runs_for_host(3, now))
        .iter()
        .map(|row| DbCtx::row2job(row).unwrap().id)
        .collect();
    assert!(found.contains(&new));
    assert!(!found.contains(&old));
}

#[test]
fn commit_names_are_read_back() {
    let (ctx, conn) = database();
    run(&conn, &ctx.update_commit_name(9, "main"));
    let rows = run(&conn, &ctx.nice_name_for_commit(9));
    let names: Vec<(String, u8)> = rows.iter().map(|row| commit_name_row(row).unwrap()).collect();
    assert_eq!(names.len(), 1);
    assert_eq!(names[0].0, "main");
}

#[test]
fn the_first_fresh_name_is_shown() {
    let names = vec![("a".to_owned(), 1u8), ("b".to_owned(), 0), ("c".to_owned(), 0)];
    let best = best_name(&names).unwrap().unwrap();
    assert_eq!((best.name.as_str(), best.state), ("b", NameState::Fresh));
    assert!(!best.stale());
    let names = vec![("a".to_owned(), 1u8), ("b".to_owned(), 2)];
    let best = best_name(&names).unwrap().unwrap();
    assert_eq!((best.name.as_str(), best.state), ("b", NameState::ShortSha));
    assert!(best_name(&vec![]).unwrap().is_none());
    assert!(best_name(&vec![("a".to_owned(), 3u8)]).is_none());
    assert!(best_name(&vec![("a".to_owned(), 0u8), ("b".to_owned(), 9)]).is_some());
}

#[test]
fn stale_names_say_so() {
    let name = CommitName { name: "main".to_owned(), state: NameState::Stale };
    assert!(name.stale());
    assert_eq!(name.stringy(), "main (stale)");
    let name = CommitName { name: "main".to_owned(), state: NameState::Fresh };
    assert_eq!(name.stringy(), "main");
}

#[test]
fn states_have_their_numbers() {
    let states = [
        RunState::Pending,
        RunState::Started,
        RunState::Finished,
        RunState::Error,
        RunState::Invalid,
    ];
    for (n, state) in states.iter().enumerate() {
        assert_eq!(state.code(), n as u8);
        assert_eq!(RunState::try_from(n as u8), Ok(*state));
    }
    assert_eq!(RunState::try_from(5), Err("invalid job state: 5".to_owned()));
    assert_eq!(NameState::try_from(0), Ok(NameState::Fresh));
    assert_eq!(NameState::try_from(1), Ok(NameState::Stale));
    assert_eq!(NameState::try_from(2), Ok(NameState::ShortSha));
    assert!(NameState::try_from(3).is_err());
    assert_eq!(NameState::ShortSha.code(), 2);
    assert_eq!(JobResult::Pass.code(), 0);
    assert_eq!(JobResult::Fail.code(), 1);
    assert_eq!(RunState::Finished.lower_name(), "finished");
}

#[test]
fn tokens_expire() {
    assert_eq!(token_validity(None, None, 5), TokenValidity::Invalid);
    assert_eq!(token_validity(Some(10), Some(5), 15), TokenValidity::Valid);
    assert_eq!(token_validity(Some(10), Some(5), 16), TokenValidity::Expired);
    assert_eq!(token_validity(Some(0), None, TOKEN_EXPIRY_MS), TokenValidity::Valid);
    assert_eq!(token_validity(Some(0), None, TOKEN_EXPIRY_MS + 1), TokenValidity::Expired);
    assert_eq!(token_validity(Some(u64::MAX), Some(u64::MAX), u64::MAX), TokenValidity::Valid);
}

#[test]
fn a_token_finds_its_run() {
    let (ctx, conn) = database();
    let run_id = insert(&conn, &ctx.new_run(5, 2000, None));
    let started = Statement::new(
        "update runs set started_time=3000, build_token='t', artifacts_path='/a' where id=?1",
        vec![Param::Unsigned(run_id)],
    );
    run(&conn, &started);
    let rows = run(&conn, &ctx.run_for_token("t"));
    let found = token_run(&rows[0], 3500).unwrap();
    assert_eq!(found, (run_id, Some("/a".to_owned()), TokenValidity::Valid));
    let found = token_run(&rows[0], 3001 + TOKEN_EXPIRY_MS).unwrap();
    assert_eq!(found.2, TokenValidity::Expired);
    assert_eq!(run(&conn, &ctx.run_for_token("u")).len(), 0);
}

#[test]
fn rows_that_hold_something_else_are_not_read() {
    let text = || Cell::Text("x".to_owned());
    assert!(DbCtx::row2metric(&[Cell::Integer(1), Cell::Integer(2), text(), text()]).is_some());
    assert!(DbCtx::row2metric(&[Cell::Integer(-1), Cell::Integer(2), text(), text()]).is_none());
    assert!(DbCtx::row2metric(&[Cell::Integer(1), Cell::Null, text(), text()]).is_none());
    assert!(DbCtx::row2metric(&[Cell::Integer(1), Cell::Integer(2), text(), Cell::Other]).is_none());
    assert!(DbCtx::row2metric(&[Cell::Integer(1), Cell::Integer(2), text()]).is_none());
    let mut run_row = vec![Cell::Integer(1), Cell::Integer(2), Cell::Null, Cell::Integer(5)];
    for _ in 0..8 {
        run_row.push(Cell::Integer(0));
    }
    run_row[5] = Cell::Null;
    run_row[11] = Cell::Null;
    assert!(DbCtx::row2run(&run_row).is_none());
    run_row[3] = Cell::Integer(4);
    assert_eq!(DbCtx::row2run(&run_row).unwrap().state, RunState::Invalid);
    run_row[10] = Cell::Integer(256);
    assert!(DbCtx::row2run(&run_row).is_none());
}

#[test]
fn remotes_are_located() {
    let gh = locate_remote("a/b", "github").unwrap();
    assert_eq!(gh.remote_api, "github");
    assert_eq!(gh.remote_git_url, "https://www.github.com/a/b.git");
    let mail = locate_remote("a/b", "github-email").unwrap();
    assert_eq!(mail.remote_api, "email");
    assert_eq!(mail.remote_url, "https://www.github.com/a/b");
    assert_eq!(mail.remote_git_url, "http://www.github.com/a/b.git");
    assert!(locate_remote("a/b", "email").is_none());
    assert!(CREATE_COMMITS_TABLE.contains("commits"));
}
