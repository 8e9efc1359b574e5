use build_o_tron::ctl::{
    config_file, config_kind, config_path, db_path, job_line, list_jobs, remote_made,
    repo_made, repo_not_made, repo_remote, rerun_job,
};
use build_o_tron::dbctx::{DbCtx, Param};
use build_o_tron::driver::{
    activate_run, artifact_status, authorized, complete_run, completion_next, completion_notices,
    handle_artifact, handle_next_job, old_task_reaper, queue_status, reserve_artifacts_dir,
    task_outcome, token_for_job, ActivateError, ArtifactGate, ClientAction, ClientJob, ClientReply,
    CompletionStep, ConnectionError, FindAction, FindEvent, MadeDir, Queued, RunnerClient,
    Submitted,
};
use build_o_tron::frontend::{
    fd_read_next, refusal, vfs_answer, vfs_kind, vfs_open, FdStep, InMemVfsHandle, VfsAnswer,
    VfsKind, VfsRequest,
};
use build_o_tron::jobs::PendingJob;
use build_o_tron::notifier::{Notice, NotifierConfig, NotifierKind, RemoteNotifier};
use build_o_tron::protocol::{ClientProto, TaskInfo};
use build_o_tron::rows::Cell;
use build_o_tron::sql::{Job, PendingRun, Run, RunState, TokenValidity};

fn client(accepted: Option<Vec<&str>>) -> RunnerClient {
    let accepted = accepted.map(|list| list.iter().map(|s| s.to_string()).collect());
    RunnerClient::new(accepted, 3, &[0; 32])
}

fn job(source: Option<&str>) -> Job {
    Job {
        id: 1,
        remote_id: 1,
        commit_id: 1,
        created_time: 0,
        source: source.map(|s| s.to_owned()),
        run_preferences: None,
    }
}

fn run(id: u64, state: RunState, start_time: Option<u64>) -> Run {
    Run {
        id,
        job_id: 1,
        artifacts_path: None,
        state,
        host_id: None,
        create_time: 0,
        start_time,
        complete_time: None,
        build_token: None,
        run_timeout: None,
        build_result: None,
        final_text: None,
    }
}

fn numbers(params: &Vec<Param>) -> Vec<u64> {
    params
        .iter()
        .filter_map(|param| match param {
            Param::Unsigned(n) => Some(*n),
            _ => None,
        })
        .collect()
}

#[test]
fn artifacts_have_a_directory() {
    let path = Some("/root/ixi_ci_server/artifacts/7".to_owned());
    assert_eq!(reserve_artifacts_dir(7, MadeDir::Made), path);
    assert_eq!(reserve_artifacts_dir(7, MadeDir::AlreadyThere), path);
    assert_eq!(reserve_artifacts_dir(7, MadeDir::Failed), None);
}

#[test]
fn tokens_are_written_in_base_64() {
    assert_eq!(token_for_job(&[0; 32]), "AAAAAAAAAAAAAAAAAAAAAAAAAAAAAAAAAAAAAAAAAAA=");
    let mut data = [0xffu8; 32];
    assert_eq!(token_for_job(&data), "//////////////////////////////////////////8=");
    data[0] = 0xfb;
    data[1] = 0xe0;
    data[2] = 0x19;
    assert!(token_for_job(&data).starts_with("++AZ"));
}

#[test]
fn runners_take_jobs_of_those_they_accept() {
    assert!(client(None).will_accept(&job(None)));
    assert!(client(None).will_accept(&job(Some("me"))));
    let picky = client(Some(vec!["you", "me"]));
    assert!(picky.will_accept(&job(Some("me"))));
    assert!(!picky.will_accept(&job(Some("them"))));
    assert!(!picky.will_accept(&job(None)));
    assert!(!client(Some(vec![])).will_accept(&job(Some("me"))));
}

#[test]
fn tasks_are_found_for_runners() {
    let picky = client(Some(vec!["me"]));
    let jobs = || vec![job(None), job(Some("me")), job(Some("me"))];
    let none = || vec![job(None)];
    assert_eq!(picky.find_client_task(FindEvent::Pending(jobs())), FindAction::Give(1));
    assert_eq!(picky.find_client_task(FindEvent::Pending(none())), FindAction::AskAlternates);
    assert_eq!(picky.find_client_task(FindEvent::Alternates(jobs())), FindAction::MakeRun(1));
    assert_eq!(picky.find_client_task(FindEvent::Alternates(none())), FindAction::Wait(100));
    assert_eq!(picky.find_client_task(FindEvent::Waited), FindAction::Test);
    let tested = |alive: bool, elapsed_secs: u64| {
        picky.find_client_task(FindEvent::Tested { alive, elapsed_secs })
    };
    assert_eq!(tested(true, 300), FindAction::AskPending);
    assert_eq!(tested(true, 301), FindAction::DeadlineElapsed);
    assert_eq!(tested(false, 0), FindAction::LostConnection);
    assert_eq!(tested(false, 0).text(), Some("lost client connection"));
    assert_eq!(tested(true, 301).text(), Some("5min new task deadline elapsed"));
    assert_eq!(tested(true, 0).text(), None);
}

#[test]
fn runners_answer_pings() {
    let reply = |message: ClientProto| RunnerClient::test_connection(ClientReply::Message(message));
    assert!(reply(ClientProto::Pong).is_ok());
    assert!(matches!(
        reply(ClientProto::Ping),
        Err(ConnectionError::Unexpected(ClientProto::Ping))
    ));
    assert!(matches!(
        RunnerClient::test_connection(ClientReply::HungUp),
        Err(ConnectionError::HungUp)
    ));
    assert!(matches!(
        RunnerClient::test_connection(ClientReply::Failed("x".to_owned())),
        Err(ConnectionError::Failed(e)) if e == "x"
    ));
}

#[test]
fn runs_are_started_when_runners_take_them() {
    let client = client(None);
    match client.task_message("url", "abc") {
        ClientProto::NewTask(task) => {
            assert_eq!((task.commit.as_str(), task.remote_url.as_str()), ("abc", "url"));
            assert_eq!(task.build_token, client.build_token);
        },
        _ => panic!("another message"),
    }
    let acked = RunnerClient::submit(ClientReply::Message(ClientProto::Started));
    let pending = PendingRun { id: 9, job_id: 1, create_time: 0 };
    let statement = activate_run(&client, acked, &pending, "/a/9", 77).ok().unwrap();
    assert_eq!(
        statement.sql,
        "update runs set started_time=?1, host_id=?2, state=1, artifacts_path=?3, build_token=?4 where id=?5"
    );
    assert_eq!(numbers(&statement.params), vec![77, 3, 9]);
    let error = |submitted: Submitted| activate_run(&client, submitted, &pending, "", 0).err().unwrap();
    let rejected = RunnerClient::submit(ClientReply::Message(ClientProto::Ping));
    assert!(matches!(error(rejected), ActivateError::NotSubmitted(e) if e == "client rejected job"));
    assert!(matches!(error(RunnerClient::submit(ClientReply::HungUp)), ActivateError::HungUp));
    let failed = RunnerClient::submit(ClientReply::Failed("x".to_owned()));
    assert!(matches!(error(failed), ActivateError::NotSubmitted(e) if e == "x"));
}

#[test]
fn tasks_end_well_or_badly() {
    let finished = |status: &str| task_outcome(TaskInfo::finished(status.to_owned()));
    let pass = finished("pass");
    assert_eq!((pass.result.clone(), pass.state), (Ok("success".to_owned()), RunState::Finished));
    let statement = complete_run(&pass, 9, 77);
    assert_eq!(
        statement.sql,
        "update runs set complete_time=?1, state=?2, build_result=?3, final_status=?4 where id=?5"
    );
    assert_eq!(numbers(&statement.params), vec![77, 2, 0, 9]);
    let bad = finished("bad_ref");
    assert_eq!((bad.result.clone(), bad.state), (Err("bad_ref".to_owned()), RunState::Error));
    assert_eq!(numbers(&complete_run(&bad, 9, 77).params), vec![77, 3, 1, 9]);
    let interrupted = |description: Option<&str>| {
        task_outcome(TaskInfo::interrupted(
            "failed".to_owned(),
            description.map(|s| s.to_owned()),
        ))
        .result
    };
    assert_eq!(interrupted(Some("boom")), Err("boom".to_owned()));
    assert_eq!(interrupted(None), Err("failed".to_owned()));
}

#[test]
fn messages_of_runners_are_handled() {
    let ctx = DbCtx::new("/".to_owned());
    let task = ClientJob {
        remote_git_url: "url".to_owned(),
        sha: "abc".to_owned(),
        task: PendingRun { id: 9, job_id: 1, create_time: 0 },
    };
    assert!(matches!(task.run(&ctx, None), ClientAction::End));
    assert!(matches!(task.run(&ctx, Some(ClientProto::Ping)), ClientAction::Nothing));
    match task.run(&ctx, Some(ClientProto::ArtifactCreate)) {
        ClientAction::Send(text) => assert_eq!(text, r#"{"object_id":"10","status":"ok"}"#),
        _ => panic!("nothing sent"),
    }
    match task.run(&ctx, Some(ClientProto::metric("size".to_owned(), "10".to_owned()))) {
        ClientAction::Run(statement) => assert_eq!(numbers(&statement.params), vec![9]),
        _ => panic!("nothing run"),
    }
    let status = ClientProto::task_status(TaskInfo::finished("pass".to_owned()));
    match task.run(&ctx, Some(status)) {
        ClientAction::Complete(outcome) => assert_eq!(outcome.state, RunState::Finished),
        _ => panic!("not complete"),
    }
}

#[test]
fn artifacts_need_a_valid_token() {
    let found = |validity: TokenValidity| Some((4u64, Some("/a".to_owned()), validity));
    match handle_artifact(Some("t"), found(TokenValidity::Valid), Some("n"), Some("d")) {
        ArtifactGate::Reserve { run, dir, name, desc } => {
            assert_eq!((run, dir.as_str(), name.as_str(), desc.as_str()), (4, "/a", "n", "d"));
        },
        ArtifactGate::Refused => panic!("refused"),
    }
    let refused = |gate: ArtifactGate| matches!(gate, ArtifactGate::Refused);
    let valid = || found(TokenValidity::Valid);
    assert!(refused(handle_artifact(None, valid(), Some("n"), Some("d"))));
    assert!(refused(handle_artifact(Some("t"), None, Some("n"), Some("d"))));
    assert!(refused(handle_artifact(Some("t"), found(TokenValidity::Expired), Some("n"), Some("d"))));
    assert!(refused(handle_artifact(Some("t"), found(TokenValidity::Invalid), Some("n"), Some("d"))));
    assert!(refused(handle_artifact(
        Some("t"),
        Some((4, None, TokenValidity::Valid)),
        Some("n"),
        Some("d")
    )));
    assert!(refused(handle_artifact(Some("t"), valid(), None, Some("d"))));
    assert!(refused(handle_artifact(Some("t"), valid(), Some("n"), None)));
    assert_eq!((artifact_status(true), artifact_status(false)), (200, 500));
}

#[test]
fn runners_must_know_the_secret() {
    assert!(authorized(Some("s"), Some("s")));
    assert!(!authorized(Some("s"), Some("t")));
    assert!(!authorized(None, Some("s")));
    assert!(!authorized(Some("s"), None));
    assert!(matches!(handle_next_job(None), Err(421)));
    assert!(matches!(handle_next_job(Some(ClientProto::Ping)), Err(421)));
    assert_eq!(queue_status(Queued::Queued), Some(200));
    assert_eq!(queue_status(Queued::Full), Some(418));
    assert_eq!(queue_status(Queued::Closed), None);
}

#[test]
fn stale_runs_are_reaped() {
    let now = 100_000;
    let runs = vec![
        run(1, RunState::Started, None),
        run(2, RunState::Started, Some(39_999)),
        run(3, RunState::Started, Some(40_000)),
        run(4, RunState::Pending, Some(0)),
        run(5, RunState::Started, Some(0)),
        run(6, RunState::Pending, None),
    ];
    assert_eq!(old_task_reaper(&runs, &vec![], now), vec![1, 2, 5]);
    assert_eq!(old_task_reaper(&runs, &vec![5, 1, 9], now), vec![2]);
}

#[test]
fn waiting_jobs_are_read() {
    let row = |state: i64| {
        vec![
            Cell::Integer(1),
            Cell::Null,
            Cell::Integer(state),
            Cell::Text("box".to_owned()),
            Cell::Integer(2),
            Cell::Integer(3),
            Cell::Integer(4),
            Cell::Null,
        ]
    };
    let jobs: Vec<PendingJob> = DbCtx::get_pending_jobs(&vec![row(0), row(1)]).unwrap();
    assert_eq!((jobs[0].id, jobs[0].state), (1, RunState::Pending));
    assert_eq!((jobs[1].commit_id, jobs[1].created_time), (3, 4));
    assert_eq!(jobs[1].run_host, Some("box".to_owned()));
    assert!(DbCtx::get_pending_jobs(&vec![row(0), row(5)]).is_none());
    let artifact = |cells: usize| {
        let mut row = vec![
            Cell::Integer(1),
            Cell::Integer(2),
            Cell::Text("n".to_owned()),
            Cell::Text("d".to_owned()),
        ];
        row.truncate(cells);
        row
    };
    let artifacts = DbCtx::artifacts_for_job(&vec![artifact(4), artifact(4)]).unwrap();
    assert_eq!(artifacts.len(), 2);
    assert_eq!((artifacts[1].id, artifacts[1].job_id), (1, 2));
    assert_eq!((artifacts[1].name.as_str(), artifacts[1].desc.as_str()), ("n", "d"));
    assert!(DbCtx::artifacts_for_job(&vec![artifact(4), artifact(3)]).is_none());
    let ctx = DbCtx::new("/".to_owned());
    assert_eq!(
        ctx.job_for_token("t").sql,
        "select id, artifacts_path, started_time, job_timeout from jobs where build_token=?1"
    );
}

#[test]
fn the_database_is_looked_after() {
    assert_eq!(db_path(None), "./state.db");
    assert_eq!(db_path(Some("x".to_owned())), "x");
    assert_eq!(config_path(None), "./config");
    assert_eq!(job_line(7, 1, 1234), "[+] 0007 |        1 | 1234");
    assert_eq!(job_line(12345, 123456789, 0), "[+] 12345 | 123456789 | 0");
    assert_eq!(
        list_jobs().sql,
        "select id, artifacts_path, state, commit_id, created_time from jobs;"
    );
    let (statement, said) = rerun_job(5);
    assert_eq!(statement.sql, "update jobs set state=0 where id=?1");
    assert_eq!(said, "[+] job 5 set to pending");
    assert_eq!(repo_made("zvm", 3), "[+] new repo created: 'zvm' id 3");
    assert_eq!(
        remote_made("zvm", "github", "ixi/zvm"),
        "[+] new remote created: repo 'zvm', github remote at ixi/zvm"
    );
    assert_eq!(
        repo_not_made("zvm", "UNIQUE constraint failed: x"),
        "[!] repo 'zvm' already exists"
    );
    assert_eq!(repo_not_made("zvm", "disk"), "[!] failed to create repo entry: disk");
    assert_eq!(build_o_tron::ctl::no_such_repo("zvm"), "[-] repo 'zvm' does not exist");
    assert_eq!(config_file("./config", "a.json"), "./config/a.json");
    assert_eq!(config_kind("github"), Some(NotifierKind::GitHub));
    assert_eq!(config_kind("email"), Some(NotifierKind::Email));
    assert_eq!(config_kind("cgit"), None);
}

#[test]
fn repositories_come_with_a_whole_remote_or_none() {
    let some = |s: &str| Some(s.to_owned());
    let remote = repo_remote(some("ixi/zvm"), some("github"), some("a.json")).unwrap().unwrap();
    assert_eq!((remote.remote.as_str(), remote.config.as_str()), ("ixi/zvm", "a.json"));
    assert!(repo_remote(None, None, None).unwrap().is_none());
    assert_eq!(
        repo_remote(some("ixi/zvm"), some("email"), some("a.json")).err().unwrap(),
        "unknown remote kind: ixi/zvm"
    );
    assert_eq!(
        repo_remote(some("ixi/zvm"), None, some("a.json")).err().unwrap(),
        "when specifying a remote, `remote`, `remote_kind`, and `config_path` must either all be provided together or not at all"
    );
}

#[test]
fn the_database_is_read_only() {
    let handle = InMemVfsHandle { bytes: b"0123456789".to_vec() };
    assert_eq!(handle.size(), 10);
    let mut buf = vec![0u8; 4];
    assert!(handle.can_read(4, 6));
    handle.read_exact_at(&mut buf, 6);
    assert_eq!(buf, b"6789");
    assert!(!handle.can_read(4, 7));
    assert!(!handle.can_read(1, u64::MAX));
    for request in [
        VfsRequest::WriteAllAt,
        VfsRequest::SetLen,
        VfsRequest::SetChunkSize,
        VfsRequest::Delete,
    ] {
        assert_eq!(vfs_answer(request), VfsAnswer::Refused);
    }
    assert_eq!(vfs_answer(VfsRequest::Sync), VfsAnswer::Done);
    assert_eq!(vfs_answer(VfsRequest::Lock), VfsAnswer::Yes);
    assert_eq!(vfs_answer(VfsRequest::Reserved), VfsAnswer::No);
    assert_eq!(vfs_answer(VfsRequest::Exists), VfsAnswer::No);
    assert_eq!(refusal(), "no can do");
    assert_eq!(vfs_open(true), Ok(()));
    assert_eq!(vfs_open(false), Err("no"));
    assert_eq!(vfs_kind(Some("a&vfs=fd")), VfsKind::Fd);
    assert_eq!(vfs_kind(Some("vfs=fd&a")), VfsKind::InMem);
    assert_eq!(vfs_kind(None), VfsKind::InMem);
}

#[test]
fn files_are_read_until_the_buffer_is_full() {
    assert_eq!(fd_read_next(10, 0, 5, 4), FdStep::Read { offset: 9, from: 4 });
    assert_eq!(fd_read_next(10, 4, 9, 1), FdStep::Read { offset: 10, from: 5 });
    assert_eq!(fd_read_next(10, 5, 10, 5), FdStep::Done);
    assert_eq!(fd_read_next(10, 4, 9, 0), FdStep::Stopped);
    assert_eq!(fd_read_next(10, 4, 9, -2), FdStep::Failed(-2));
}

#[test]
fn short_reads_fill_the_buffer_as_one_would() {
    let file: Vec<u8> = (0..40).collect();
    let mut buf = [0u8; 16];
    let mut offset: u64 = 7;
    let mut filled = 0;
    loop {
        let n = (buf.len() - filled).min(5);
        let place = offset as usize;
        buf[filled..filled + n].copy_from_slice(&file[place..place + n]);
        match fd_read_next(16, filled, offset, n as i64) {
            FdStep::Read { offset: next, from } => {
                offset = next;
                filled = from;
            },
            FdStep::Done => break,
            _ => panic!("not read"),
        }
    }
    assert_eq!(buf[..], file[7..23]);
}

fn notifiers() -> Vec<RemoteNotifier> {
    let mail = NotifierConfig::Email {
        username: "u".to_owned(),
        password: "p".to_owned(),
        mailserver: "m".to_owned(),
        from: "f".to_owned(),
        to: "t".to_owned(),
    };
    let github = NotifierConfig::GitHub {
        token: "token".to_owned(),
        webhook_token: "hook".to_owned(),
    };
    vec![
        RemoteNotifier { remote_path: "ixi/first".to_owned(), notifier: mail },
        RemoteNotifier { remote_path: "ixi/second".to_owned(), notifier: github },
    ]
}

#[test]
fn every_notifier_gets_a_notice() {
    let outcome = task_outcome(TaskInfo::Finished { status: "broken".to_owned() });
    let notices = completion_notices(&notifiers(), "abc", &outcome);
    assert_eq!(notices.len(), 2);
    match &notices[0] {
        Notice::Mail(mail) => assert_eq!(mail.subject, "failure: job for ixi/first"),
        Notice::Post(_) => panic!("post"),
    }
    match &notices[1] {
        Notice::Post(request) => {
            assert_eq!(request.url, "https://api.github.com/repos/ixi/second/statuses/abc");
            assert!(request.body.as_ref().unwrap().contains(
                r#""description":"broken","state":"failure""#
            ));
        },
        Notice::Mail(_) => panic!("mail"),
    }
    let passed = task_outcome(TaskInfo::Finished { status: "pass".to_owned() });
    match &completion_notices(&notifiers(), "abc", &passed)[0] {
        Notice::Mail(mail) => assert_eq!(mail.subject, "success: job for ixi/first"),
        Notice::Post(_) => panic!("post"),
    }
    assert!(completion_notices(&Vec::new(), "abc", &passed).is_empty());
}

#[test]
fn a_notice_that_fails_keeps_no_other_back() {
    let mut sent = Vec::new();
    assert_eq!(completion_next(2, &sent), CompletionStep::Tell(0));
    sent.push(Err("no".to_owned()));
    assert_eq!(completion_next(2, &sent), CompletionStep::Tell(1));
    sent.push(Ok(()));
    assert_eq!(completion_next(2, &sent), CompletionStep::Record);
    assert_eq!(completion_next(0, &Vec::new()), CompletionStep::Record);
}
