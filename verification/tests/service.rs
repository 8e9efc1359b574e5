use build_o_tron::dbctx::{locate_remote, DbCtx, Param};
use build_o_tron::driver::task_outcome;
use build_o_tron::github::GithubApi;
use build_o_tron::io::ArtifactDescriptor;
use build_o_tron::json::parse;
use build_o_tron::notifier::{Notice, NotifierConfig, NotifierKind, RemoteNotifier};
use build_o_tron::protocol::{RequestedJob, TaskInfo};
use build_o_tron::rows::{
    commit_row, host_model, pending_run, single_number, single_opt_text, single_text, two_numbers,
    Cell,
};
use build_o_tron::runner::{GoodfilePlace, JobAction, JobEvent};
use build_o_tron::sql::{Remote, RunState};
use build_o_tron::web::job_url;
use build_o_tron::webhook::{parse_push_event, PushAnswer, PushStep, PushWork};

fn registered(path: &str, kind: &str) -> Remote {
    let location = locate_remote(path, kind).unwrap();
    Remote {
        id: 1,
        repo_id: 2,
        remote_path: location.remote_path,
        remote_api: location.remote_api,
        remote_url: location.remote_url,
        remote_git_url: location.remote_git_url,
        notifier_config_path: "notify.json".to_owned(),
    }
}

fn reported(place: GoodfilePlace, built: Option<Result<(), String>>) -> TaskInfo {
    let mut job = RequestedJob {
        commit: "c".to_owned(),
        remote_url: "u".to_owned(),
        build_token: "t".to_owned(),
    }
    .into_running();
    assert!(matches!(job.run(JobEvent::StartReported), JobAction::Fetch));
    assert!(matches!(job.run(JobEvent::Fetched(Ok(()))), JobAction::LookForGoodfile));
    let mut action = job.run(JobEvent::LookedUp(place));
    if let Some(built) = built {
        action = job.run(JobEvent::Built(built));
    }
    match action {
        JobAction::ReportStatus(info) => info,
        _ => panic!("nothing was reported"),
    }
}

#[test]
fn only_what_was_built_is_a_success() {
    let outcome = task_outcome(reported(GoodfilePlace::Found, Some(Ok(()))));
    assert_eq!(outcome.result, Ok("success".to_owned()));
    assert_eq!(outcome.state, RunState::Finished);
    let outcome = task_outcome(reported(GoodfilePlace::Missing, Some(Err("no cargo".to_owned()))));
    assert_eq!(outcome.result, Err("no cargo".to_owned()));
    assert_eq!(outcome.state, RunState::Error);
    let outcome = task_outcome(reported(GoodfilePlace::Inaccessible, None));
    assert_eq!(outcome.result, Err("inaccessible goodfile".to_owned()));
    assert_eq!(outcome.state, RunState::Error);
}

#[test]
fn a_push_is_looked_for_where_its_remote_was_registered() {
    let body = parse(
        br#"{"after": "abc", "repository": {"full_name": "me/it"}, "head_commit": {},
             "pusher": {"email": "me@example.com"}}"#,
    )
    .unwrap();
    let (mut work, _) = PushWork::new(parse_push_event(&body).unwrap()).unwrap();
    let ctx = DbCtx::new("config".to_owned());
    match work.next(&ctx, PushAnswer::Commit(None), 5) {
        PushStep::Run(statement) => match &statement.params[0] {
            Param::Text(url) => {
                assert_eq!(*url, registered("me/it", "github").remote_git_url);
                assert_ne!(*url, registered("me/it", "github-email").remote_git_url);
            },
            _ => panic!("a text is bound"),
        },
        _ => panic!("the remote is looked for"),
    }
}

#[test]
fn every_registered_remote_is_told() {
    let ctx = DbCtx::new("config".to_owned());
    let remotes = vec![registered("me/it", "github"), registered("me/it", "github-email")];
    let sources = ctx.notifiers_by_repo(&remotes);
    assert_eq!(sources.len(), 2);
    assert_eq!(sources[0].kind, NotifierKind::GitHub);
    assert_eq!(sources[1].kind, NotifierKind::Email);
    assert_eq!(sources[1].file, "config/notify.json");
}

#[test]
fn notices_link_to_the_page_of_the_job() {
    let remote = registered("me/it", "github");
    let notifier = RemoteNotifier {
        remote_path: remote.remote_path.clone(),
        notifier: NotifierConfig::GitHub { token: "t".to_owned(), webhook_token: "w".to_owned() },
    };
    let page = format!("https://ci.butactuallyin.space/{}", job_url(&remote, "abc"));
    match notifier.tell_pending_job("abc") {
        Notice::Post(request) => assert!(request.body.unwrap().contains(&page)),
        Notice::Mail(_) => panic!("a notice is posted"),
    }
}

#[test]
fn a_hook_that_was_made_is_found() {
    let api = GithubApi { token: "t", webhook_token: "w" };
    let hook = api.create_ci_webhook("me/it").body.unwrap();
    let list = format!("[{}]", hook);
    assert!(matches!(GithubApi::webhook_listed(200, list.as_bytes()), Ok(true)));
    assert!(matches!(GithubApi::webhook_listed(200, b"[]"), Ok(false)));
}

#[test]
fn artifacts_do_not_share_files() {
    assert_eq!(ArtifactDescriptor::new(1, 11).path, "artifacts/1/11");
    assert_eq!(ArtifactDescriptor::new(11, 1).path, "artifacts/11/1");
}

#[test]
fn rows_are_read_together() {
    let metric = |cells: usize| {
        let mut row = vec![
            Cell::Integer(1),
            Cell::Integer(2),
            Cell::Text("size".to_owned()),
            Cell::Text("9".to_owned()),
        ];
        row.truncate(cells);
        row
    };
    let metrics = DbCtx::rows2metrics(&vec![metric(4), metric(4)]).unwrap();
    assert_eq!(metrics.len(), 2);
    assert_eq!((metrics[1].run_id, metrics[1].name.as_str()), (2, "size"));
    assert!(DbCtx::rows2metrics(&vec![metric(4), metric(3)]).is_none());
    let run = |n: i64| vec![Cell::Integer(n), Cell::Integer(2), Cell::Integer(3)];
    let runs = DbCtx::rows2pending_runs(&vec![run(7), run(8)]).unwrap();
    assert_eq!((runs[0].id, runs[1].id, runs[1].job_id, runs[1].create_time), (7, 8, 2, 3));
    assert!(DbCtx::rows2pending_runs(&vec![run(-1)]).is_none());
    let repo = vec![Cell::Integer(1), Cell::Text("it".to_owned()), Cell::Null];
    assert_eq!(DbCtx::rows2repos(&vec![repo]).unwrap()[0].default_run_preference, None);
    assert!(DbCtx::rows2jobs(&Vec::new()).unwrap().is_empty());
    assert!(DbCtx::rows2remotes(&vec![Vec::new()]).is_none());
    assert!(DbCtx::rows2artifacts(&vec![Vec::new()]).is_none());
    assert!(DbCtx::rows2runs(&vec![Vec::new()]).is_none());
}

#[test]
fn short_rows_are_read() {
    let row = vec![Cell::Integer(4), Cell::Text("abc".to_owned())];
    assert_eq!(single_number(&row), Some(4));
    assert_eq!(single_text(&row), None);
    assert_eq!(single_text(&row[1..]), Some("abc".to_owned()));
    assert_eq!(single_opt_text(&[Cell::Null]), Some(None));
    assert_eq!(single_opt_text(&[Cell::Other]), None);
    assert_eq!(two_numbers(&row), None);
    assert_eq!(two_numbers(&[Cell::Integer(1), Cell::Integer(2)]), Some((1, 2)));
    assert_eq!(commit_row(&row), Some((4, "abc".to_owned())));
    assert_eq!(commit_row(&row[1..]), None);
    assert!(host_model(&row).is_none());
    assert_eq!(pending_run(1, 2, 3).create_time, 3);
}
