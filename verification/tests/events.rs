use build_o_tron::dbctx::{DbCtx, Param};
use build_o_tron::github::{is_accepted, our_hook_listed, GithubApi, HookFault, HookListError};
use build_o_tron::json::{member, parse, Json};
use build_o_tron::notifier::{
    notice_posted, pending_notices, Notice, NotifierConfig, NotifierKind, PostError, PostReply,
    RemoteNotifier,
};
use build_o_tron::server::{
    bind_server, fallback_get, handle_get_artifact, stream_next, ArtifactReply, BindError, Binding,
    StreamAction, StreamEvent, ARTIFACT_POLL_MS,
};
use build_o_tron::sql::{ArtifactRecord, Remote};
use build_o_tron::webhook::{
    check_signature, handle_github_event, handle_repo_event, parse_push_event, EventPlan,
    GithubEvent, GithubHookError, GithubPsk, PushAnswer, PushStep, PushWork, RepoEvent,
};

const PUSH: &str = r#"{"after":"abc","repository":{"full_name":"ixi/zvm"},
    "head_commit":{"id":"abc"},"pusher":{"name":"ixi","email":"me@x"}}"#;

fn json(text: &str) -> Json {
    parse(text.as_bytes()).ok().unwrap()
}

fn psk(key: &str) -> GithubPsk {
    GithubPsk { key: key.to_owned(), gh_user: "ixi".to_owned() }
}

fn sign(key: &str, body: &[u8]) -> String {
    let mut mac = <hmac::Hmac<sha2::Sha256> as hmac::Mac>::new_from_slice(key.as_bytes()).unwrap();
    hmac::Mac::update(&mut mac, body);
    format!("sha256={}", hex::encode(hmac::Mac::finalize(mac).into_bytes()))
}

fn push_error(text: &str) -> GithubHookError {
    match parse_push_event(&json(text)) {
        Ok(_) => panic!("parsed"),
        Err(e) => e,
    }
}

fn missing(text: &str) -> &'static str {
    match push_error(text) {
        GithubHookError::MissingElement { path } => path,
        _ => panic!("not missing"),
    }
}

fn bad_type(text: &str) -> (&'static str, &'static str) {
    match push_error(text) {
        GithubHookError::BadType { path, expected } => (path, expected),
        _ => panic!("no bad type"),
    }
}

#[test]
fn json_is_read() {
    let doc = json(r#" {"a": [1, 2.5, true, null], "b": "x", "b": "y"} "#);
    let members = match &doc {
        Json::Object(members) => members,
        _ => panic!("no object"),
    };
    assert!(matches!(member(members, "b"), Some(Json::Text(s)) if s == "y"));
    assert!(member(members, "c").is_none());
    match member(members, "a") {
        Some(Json::Array(items)) => {
            assert!(matches!(&items[0], Json::Number(n) if n == "1"));
            assert!(matches!(&items[1], Json::Number(n) if n == "2.5"));
            assert!(matches!(items[2], Json::Bool(true)));
            assert!(matches!(items[3], Json::Null));
            assert_eq!(items.len(), 4);
        },
        _ => panic!("no array"),
    }
    assert!(parse(b"{").is_err());
    assert!(parse(&[0xff]).is_err());
}

#[test]
fn of_members_under_one_name_the_last_counts() {
    let members = vec![
        ("a".to_owned(), Json::Bool(false)),
        ("b".to_owned(), Json::Null),
        ("a".to_owned(), Json::Bool(true)),
    ];
    assert!(matches!(member(&members, "a"), Some(Json::Bool(true))));
}

#[test]
fn pushes_are_parsed() {
    let body = json(PUSH);
    match parse_push_event(&body) {
        Ok(GithubEvent::Push { tip, repo_name, head_commit, pusher }) => {
            assert_eq!((tip.as_str(), repo_name.as_str()), ("abc", "ixi/zvm"));
            assert!(matches!(member(head_commit, "id"), Some(Json::Text(s)) if s == "abc"));
            assert!(member(pusher, "email").is_some());
        },
        _ => panic!("no push"),
    }
}

#[test]
fn what_is_wrong_with_a_push_is_told() {
    assert!(matches!(push_error("[]"), GithubHookError::BodyNotObject));
    assert_eq!(missing("{}"), "after");
    assert_eq!(bad_type(r#"{"after":1}"#), ("after", "str"));
    assert_eq!(missing(r#"{"after":"a"}"#), "repository");
    assert_eq!(bad_type(r#"{"after":"a","repository":1}"#), ("repository", "obj"));
    assert_eq!(missing(r#"{"after":"a","repository":{}}"#), "repository/full_name");
    assert_eq!(
        bad_type(r#"{"after":"a","repository":{"full_name":null}}"#),
        ("repository/full_name", "str")
    );
    let repo = r#""after":"a","repository":{"full_name":"b"}"#;
    assert_eq!(missing(&format!("{{{}}}", repo)), "head_commit");
    assert_eq!(bad_type(&format!("{{{},\"head_commit\":[]}}", repo)), ("head_commit", "obj"));
    assert_eq!(missing(&format!("{{{},\"head_commit\":{{}}}}", repo)), "pusher");
    assert_eq!(
        bad_type(&format!("{{{},\"head_commit\":{{}},\"pusher\":\"x\"}}", repo)),
        ("pusher", "obj")
    );
}

#[test]
fn events_are_answered_by_their_kind() {
    let body = json(PUSH);
    assert!(matches!(handle_github_event("push", &body), EventPlan::Push(_)));
    let bad = json("{}");
    assert!(matches!(handle_github_event("push", &bad), EventPlan::BadPush(_)));
    assert!(matches!(handle_github_event("status", &bad), EventPlan::Answer("ok")));
    assert!(matches!(handle_github_event("star", &bad), EventPlan::Answer("")));
}

#[test]
fn signatures_are_checked() {
    let body = b"what do ya want for nothing?";
    let good = "sha256=5bdcc146bf60754e6a042426089575c75a003f089d2739839dec58b964ec3843";
    let upper = "SHA256=5BDCC146BF60754E6A042426089575C75A003F089D2739839DEC58B964EC3843";
    let psks = vec![psk("other"), psk("Jefe")];
    assert_eq!(check_signature(&psks, body, good), Some(true));
    assert_eq!(check_signature(&psks, body, upper), Some(true));
    assert_eq!(check_signature(&psks, b"what", good), Some(false));
    assert_eq!(check_signature(&vec![psk("other")], body, good), Some(false));
    assert_eq!(check_signature(&vec![], body, "x"), Some(false));
    assert_eq!(check_signature(&psks, body, "sha256"), None);
    assert_eq!(check_signature(&psks, body, "sha256=5"), None);
    assert_eq!(check_signature(&psks, body, "sha256=zz"), None);
    assert_eq!(check_signature(&psks, body, "sha256="), Some(false));
}

#[test]
fn only_signed_events_are_accepted() {
    let psks = vec![psk("k")];
    let body = PUSH.as_bytes();
    let signature = sign("k", body);
    match handle_repo_event(&psks, body, Some(&signature), Some("push")) {
        RepoEvent::Accepted { kind, payload } => {
            assert_eq!(kind, "push");
            assert!(parse_push_event(&payload).is_ok());
        },
        _ => panic!("not accepted"),
    }
    let refused = |psks: &Vec<GithubPsk>, body: &[u8], sig: Option<&str>, kind: Option<&str>| {
        matches!(handle_repo_event(psks, body, sig, kind), RepoEvent::Refused)
    };
    assert!(refused(&psks, b"not json", Some(&sign("k", b"not json")), Some("push")));
    assert!(refused(&psks, body, None, Some("push")));
    assert!(refused(&psks, body, Some(&sign("l", body)), Some("push")));
    assert!(refused(&vec![], body, Some(&signature), Some("push")));
    assert!(refused(&psks, body, Some(&signature), None));
    assert!(refused(&psks, b"not json", Some("x"), None));
    assert!(matches!(
        handle_repo_event(&psks, body, Some("sha256=q"), Some("push")),
        RepoEvent::Unreadable
    ));
}

fn push_work(body: &Json) -> PushWork {
    let event = parse_push_event(body).ok().unwrap();
    let (work, statement) = PushWork::new(event).unwrap();
    assert_eq!(statement.sql, "select id from commits where sha=?1;");
    assert!(matches!(&statement.params[0], Param::Text(s) if s == "abc"));
    work
}

#[test]
fn a_known_commit_is_not_built_again() {
    let ctx = DbCtx::new("/".to_owned());
    let body = json(PUSH);
    let mut work = push_work(&body);
    assert!(matches!(work.next(&ctx, PushAnswer::Commit(Some(3)), 1), PushStep::Answer(200)));
    assert!(matches!(work.next(&ctx, PushAnswer::RunMade, 1), PushStep::Unexpected));
    assert!(PushWork::new(GithubEvent::Other {}).is_none());
}

#[test]
fn a_push_to_an_unknown_remote_is_not_found() {
    let ctx = DbCtx::new("/".to_owned());
    let body = json(PUSH);
    let mut work = push_work(&body);
    match work.next(&ctx, PushAnswer::Commit(None), 1) {
        PushStep::Run(statement) => {
            assert_eq!(statement.sql, "select id, repo_id from remotes where remote_git_url=?1;");
            assert!(matches!(
                &statement.params[0],
                Param::Text(s) if s == "https://www.github.com/ixi/zvm.git"
            ));
        },
        _ => panic!("nothing to run"),
    }
    assert!(matches!(work.next(&ctx, PushAnswer::JobMade(1), 1), PushStep::Unexpected));
    assert!(matches!(work.next(&ctx, PushAnswer::Remote(None), 1), PushStep::Answer(404)));
}

#[test]
fn a_new_commit_gets_a_job_and_a_run() {
    let ctx = DbCtx::new("/".to_owned());
    let body = json(PUSH);
    let mut work = push_work(&body);
    let answers = vec![
        (PushAnswer::Commit(None), "select id, repo_id from remotes where remote_git_url=?1;"),
        (PushAnswer::Remote(Some((4, 5))), "select default_run_preference from repos where id=?1;"),
        (PushAnswer::Preference(Some("all".to_owned())), "insert into commits (sha) values (?1)"),
        (
            PushAnswer::CommitMade(6),
            "insert into jobs (remote_id, commit_id, created_time, source, run_preferences) values (?1, ?2, ?3, ?4, ?5);",
        ),
        (
            PushAnswer::JobMade(7),
            "insert into runs (job_id, state, created_time, host_preference) values (?1, ?2, ?3, ?4);",
        ),
    ];
    for (answer, sql) in answers {
        match work.next(&ctx, answer, 9) {
            PushStep::Run(statement) => assert_eq!(statement.sql, sql),
            _ => panic!("nothing to run"),
        }
    }
    assert!(matches!(
        work.next(&ctx, PushAnswer::RunMade, 9),
        PushStep::Notify { repo_id: 5, job_id: 7 }
    ));
}

#[test]
fn a_pusher_without_a_mail_address_gets_no_job() {
    let ctx = DbCtx::new("/".to_owned());
    let body = json(&PUSH.replace("email", "mail"));
    let mut work = push_work(&body);
    work.next(&ctx, PushAnswer::Commit(None), 1);
    work.next(&ctx, PushAnswer::Remote(Some((4, 5))), 1);
    assert!(matches!(work.next(&ctx, PushAnswer::Preference(None), 1), PushStep::NoEmail));
}

#[test]
fn statuses_are_posted_to_github() {
    let api = GithubApi { token: "t", webhook_token: "w" };
    let request = api.post_status("ixi/zvm", "abc", "pending", "queued \"x\"", "https://ci");
    assert_eq!(request.url, "https://api.github.com/repos/ixi/zvm/statuses/abc");
    assert_eq!(
        request.body.unwrap(),
        r#"{"context":"actuallyinspace runner","description":"queued \"x\"","state":"pending","target_url":"https://ci"}"#
    );
    let header = |name: &str, value: &str| (name.to_owned(), value.to_owned());
    assert_eq!(
        request.headers,
        vec![
            header("content-type", "application/json"),
            header("user-agent", "iximeow"),
            header("authorization", "Bearer t"),
            header("accept", "application/vnd.github+json"),
        ]
    );
    assert!(is_accepted(200) && is_accepted(201) && !is_accepted(204));
}

#[test]
fn hooks_are_created_and_found() {
    let api = GithubApi { token: "t", webhook_token: "w" };
    let request = api.create_ci_webhook("ixi/zvm");
    assert_eq!(request.url, "https://api.github.com/repos/ixi/zvm/hooks");
    assert_eq!(
        request.body.unwrap(),
        r#"{"active":true,"config":{"content_type":"json","insecure_ssl":"0","secret":"w","url":"https://ci.butactuallyin.space/ixi/zvm"},"events":["push"],"name":"web"}"#
    );
    let request = api.has_ci_webhook("ixi/zvm");
    assert_eq!(request.url, "https://api.github.com/repos/ixi/zvm/hooks");
    assert!(request.body.is_none());
    assert_eq!(request.headers.len(), 3);
    let ours = r#"{"config":{"url":"https://ci.butactuallyin.space/ixi/zvm"}}"#;
    let other = r#"{"config":{"url":"https://elsewhere"}}"#;
    let listed = |body: String| GithubApi::webhook_listed(200, body.as_bytes());
    assert!(matches!(listed(format!("[{},{},1]", other, ours)), Ok(true)));
    assert!(matches!(listed(format!("[{}]", other)), Ok(false)));
    assert!(matches!(listed("[]".to_owned()), Ok(false)));
    assert!(matches!(listed("x".to_owned()), Err(HookListError::NotJson(_))));
    assert!(matches!(
        listed(format!("[1,{}]", ours)),
        Err(HookListError::Fault(HookFault::NotObject))
    ));
    assert!(matches!(GithubApi::webhook_listed(404, b"[]"), Err(HookListError::NotOk(404))));
}

#[test]
fn what_is_wrong_with_hooks_is_told() {
    let fault = |text: &str| our_hook_listed(&json(text)).unwrap_err();
    assert_eq!(fault("{}"), HookFault::NotArray);
    assert_eq!(fault("[{}]"), HookFault::NoConfig);
    assert_eq!(fault(r#"[{"config":1}]"#), HookFault::ConfigNotObject);
    assert_eq!(fault(r#"[{"config":{}}]"#), HookFault::NoUrl);
    assert_eq!(fault(r#"[{"config":{"url":1}}]"#), HookFault::UrlNotText);
    assert_eq!(HookFault::NotArray.text(), "response json was not an array");
    assert_eq!(HookFault::NotObject.text(), "response array did not contain objects");
    assert_eq!(HookFault::NoConfig.text(), "hook objects do not have config");
    assert_eq!(
        HookFault::ConfigNotObject.text(),
        "hook objects have config but it is not an object"
    );
    assert_eq!(HookFault::NoUrl.text(), "config object does not have url");
    assert_eq!(HookFault::UrlNotText.text(), "config url has url but it not a string");
}

fn github() -> NotifierConfig {
    NotifierConfig::GitHub { token: "t".to_owned(), webhook_token: "w".to_owned() }
}

fn email() -> NotifierConfig {
    NotifierConfig::Email {
        username: "u".to_owned(),
        password: "p".to_owned(),
        mailserver: "m".to_owned(),
        from: "f".to_owned(),
        to: "t".to_owned(),
    }
}

#[test]
fn configurations_are_of_one_kind() {
    assert!(NotifierConfig::github_from_file("x", github()).is_ok());
    assert!(NotifierConfig::email_from_file("x", email()).is_ok());
    assert_eq!(
        NotifierConfig::github_from_file("x", email()).err().unwrap(),
        "config at x doesn't look like a github config (but was otherwise valid?)"
    );
    assert_eq!(
        NotifierConfig::email_from_file("x", github()).err().unwrap(),
        "config at x doesn't look like an email config (but was otherwise valid?)"
    );
}

#[test]
fn github_is_told_of_jobs() {
    let notifier = RemoteNotifier { remote_path: "ixi/zvm".to_owned(), notifier: github() };
    let told = |notice: Notice| match notice {
        Notice::Post(request) => request.body.unwrap(),
        Notice::Mail(_) => panic!("mail"),
    };
    assert_eq!(
        told(notifier.tell_pending_job("abc")),
        r#"{"context":"actuallyinspace runner","description":"build is queued","state":"pending","target_url":"https://ci.butactuallyin.space/ixi/zvm/abc"}"#
    );
    assert!(told(notifier.tell_complete_job("abc", Ok("yes".to_owned()))).contains(
        r#""description":"yes","state":"success""#
    ));
    assert!(told(notifier.tell_complete_job("abc", Err("no".to_owned()))).contains(
        r#""description":"no","state":"failure""#
    ));
    assert_eq!(notice_posted(PostReply::Answered(201)), Ok(()));
    assert_eq!(notice_posted(PostReply::Answered(404)), Err(PostError::BadResponse(404)));
    assert_eq!(notice_posted(PostReply::NotSent), Err(PostError::NotSent));
}

#[test]
fn mails_tell_of_jobs() {
    let notifier = RemoteNotifier { remote_path: "ixi/zvm".to_owned(), notifier: email() };
    match notifier.tell_complete_job("abc", Ok("yes".to_owned())) {
        Notice::Mail(mail) => {
            assert_eq!(mail.subject, "success: job for ixi/zvm");
            assert_eq!(mail.body, mail.subject);
            assert_eq!((mail.from.as_str(), mail.to.as_str()), ("f", "t"));
            assert_eq!((mail.username.as_str(), mail.mailserver.as_str()), ("u", "m"));
        },
        Notice::Post(_) => panic!("post"),
    }
}

#[test]
fn every_notifier_is_told_of_a_pending_job() {
    let notifiers = vec![
        RemoteNotifier { remote_path: "ixi/first".to_owned(), notifier: email() },
        RemoteNotifier { remote_path: "ixi/second".to_owned(), notifier: github() },
    ];
    let notices = pending_notices(&notifiers, "abc");
    assert_eq!(notices.len(), 2);
    match &notices[0] {
        Notice::Mail(mail) => assert_eq!(mail.subject, "pending: job for ixi/first"),
        Notice::Post(_) => panic!("post"),
    }
    match &notices[1] {
        Notice::Post(request) => {
            assert_eq!(request.url, "https://api.github.com/repos/ixi/second/statuses/abc");
        },
        Notice::Mail(_) => panic!("mail"),
    }
}

#[test]
fn remotes_of_known_apis_have_notifiers() {
    let remote = |api: &str, file: &str| Remote {
        id: 1,
        repo_id: 1,
        remote_path: format!("path of {}", api),
        remote_api: api.to_owned(),
        remote_url: String::new(),
        remote_git_url: String::new(),
        notifier_config_path: file.to_owned(),
    };
    let ctx = DbCtx::new("/etc/ci".to_owned());
    let remotes = vec![remote("github", "a.json"), remote("cgit", "b"), remote("email", "/c.json")];
    let list = ctx.notifiers_by_repo(&remotes);
    assert_eq!(list.len(), 2);
    assert_eq!((list[0].kind, list[0].file.as_str()), (NotifierKind::GitHub, "/etc/ci/a.json"));
    assert_eq!((list[1].kind, list[1].file.as_str()), (NotifierKind::Email, "/c.json"));
    assert_eq!(list[1].remote_path, "path of email");
}

#[test]
fn servers_listen_as_configured() {
    let plain = |conf: &str| match bind_server(&json(conf)) {
        Ok(Binding::Plain { address }) => address,
        _ => panic!("not plain"),
    };
    assert_eq!(plain(r#""1.2.3.4:80""#), "1.2.3.4:80");
    assert_eq!(plain(r#"{"address":"a"}"#), "a");
    match bind_server(&json(r#"{"address":"a","cert_path":"c","key_path":"k"}"#)) {
        Ok(Binding::Tls { address, cert_path, key_path }) => {
            assert_eq!((address.as_str(), cert_path.as_str(), key_path.as_str()), ("a", "c", "k"));
        },
        _ => panic!("no tls"),
    }
    let error = |conf: &str| bind_server(&json(conf)).err().unwrap();
    assert_eq!(error("{}"), BindError::NoAddress);
    assert_eq!(error(r#"{"address":1}"#), BindError::InvalidAddress);
    assert_eq!(error(r#"{"address":"a","cert_path":"c"}"#), BindError::HalfTls);
    assert_eq!(error(r#"{"address":"a","key_path":"c"}"#), BindError::HalfTls);
    assert_eq!(error(r#"{"address":"a","cert_path":1,"key_path":"c"}"#), BindError::HalfTls);
    assert_eq!(error("1"), BindError::InvalidConfig);
    assert_eq!(BindError::NoAddress.text(), "no local address");
    assert_eq!(fallback_get(), (200, "get resp"));
}

#[test]
fn artifacts_are_handed_out_while_they_are_written() {
    let artifact = |created_time: u64, completed_time: Option<u64>| ArtifactRecord {
        id: 9,
        run_id: 8,
        name: String::new(),
        desc: String::new(),
        created_time,
        completed_time,
    };
    assert!(matches!(
        handle_get_artifact("/jobs", None),
        ArtifactReply::NotFound("no such artifact")
    ));
    assert!(matches!(
        handle_get_artifact("/jobs", Some(&artifact(5, Some(5)))),
        ArtifactReply::Done("all done")
    ));
    assert!(matches!(
        handle_get_artifact("/jobs", Some(&artifact(5, Some(4)))),
        ArtifactReply::Stream(path) if path == "/jobs/8/9"
    ));
    assert!(matches!(
        handle_get_artifact("/jobs/", Some(&artifact(5, None))),
        ArtifactReply::Stream(path) if path == "/jobs/8/9"
    ));
    assert_eq!(stream_next(StreamEvent::LookedUp(None)), StreamAction::Forward);
    assert_eq!(stream_next(StreamEvent::LookedUp(Some(1))), StreamAction::Close);
    assert_eq!(stream_next(StreamEvent::Sent), StreamAction::LookUpAfter(ARTIFACT_POLL_MS));
    assert_eq!(stream_next(StreamEvent::SendFailed), StreamAction::Forward);
}
