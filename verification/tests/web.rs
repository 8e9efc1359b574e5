use build_o_tron::commit_page::{
    artifact_wish, commit_query, debug_info, diff_times, handle_commit_status, no_such_commit,
    remote_query, repo_name_query, status_description, status_element, ArtifactDetail,
    ArtifactWish, CommitPage,
};
use build_o_tron::dbctx::Param;
use build_o_tron::frontend::handle_req;
use build_o_tron::jobs::{
    commit_status, handle_ci_index, most_recent_job, repo_summary, SoleEntry, SolePage, SoleRepo,
    SoleRun,
};
use build_o_tron::metrics::{summarize_job_metrics, HostDesc, HostMetrics};
use build_o_tron::order::ordered;
use build_o_tron::repo_page::{
    handle_repo_summary, no_such_repo, recent_builds, repo_query, BuildEntry,
};
use build_o_tron::sql::{
    ArtifactRecord, CommitName, Job, MetricRecord, NameState, Remote, Repo, Run, RunState,
};
use build_o_tron::web::{
    build_repo_index, commit_url, display_run_time, display_run_time_at, duration_as_human_string,
    job_url, most_recent, run_can_be_timed, run_result, run_time_text, time_can_be_shown,
    time_text, ActiveEntry, RepoEntry, RunEntry,
};

const SHA: &str = "0123456789abcdef";
const NOW: u64 = 1_000_000_100_000;

fn remote(api: &str) -> Remote {
    Remote {
        id: 1,
        repo_id: 2,
        remote_path: "ixi/zvm".to_owned(),
        remote_api: api.to_owned(),
        remote_url: "https://www.github.com/ixi/zvm".to_owned(),
        remote_git_url: "https://www.github.com/ixi/zvm.git".to_owned(),
        notifier_config_path: "zvm.json".to_owned(),
    }
}

fn job(id: u64, created_time: u64) -> Job {
    Job { id, remote_id: 1, commit_id: 3, created_time, source: None, run_preferences: None }
}

fn run(state: RunState, start: Option<u64>, complete: Option<u64>, result: Option<u8>) -> Run {
    Run {
        id: 11,
        job_id: 5,
        artifacts_path: None,
        state,
        host_id: None,
        create_time: 1_000_000_000_000,
        start_time: start,
        complete_time: complete,
        build_token: None,
        run_timeout: None,
        build_result: result,
        final_text: None,
    }
}

fn repo(name: &str) -> Repo {
    Repo { id: 2, name: name.to_owned(), default_run_preference: None }
}

fn entry(run: Run, api: &str, nice_name: Option<CommitName>) -> RunEntry {
    RunEntry { job: job(5, 1), run, commit_sha: SHA.to_owned(), nice_name, remote: remote(api) }
}

fn artifact(id: u64, created_time: u64, completed_time: Option<u64>) -> ArtifactRecord {
    ArtifactRecord {
        id,
        run_id: 11,
        name: format!("step {}", id),
        desc: String::new(),
        created_time,
        completed_time,
    }
}

fn metric(name: &str, value: &str) -> MetricRecord {
    MetricRecord { id: 1, run_id: 11, name: name.to_owned(), value: value.to_owned() }
}

#[test]
fn durations_show_their_two_largest_units() {
    assert_eq!(duration_as_human_string(60000), "1m");
    assert_eq!(duration_as_human_string(60001), "1m");
    assert_eq!(duration_as_human_string(61000), "1m1s");
    assert_eq!(duration_as_human_string(1030), "1.03s");
}

#[test]
fn short_durations_show_their_milliseconds() {
    assert_eq!(duration_as_human_string(0), "0s");
    assert_eq!(duration_as_human_string(1), "0.001s");
    assert_eq!(duration_as_human_string(500), "0.5s");
    assert_eq!(duration_as_human_string(59999), "59.999s");
    assert_eq!(duration_as_human_string(2000), "2s");
}

#[test]
fn long_durations_show_no_third_unit() {
    assert_eq!(duration_as_human_string(3_600_000), "1h");
    assert_eq!(duration_as_human_string(3_605_000), "1h5s");
    assert_eq!(duration_as_human_string(3_660_000), "1h1m");
    assert_eq!(duration_as_human_string(3_661_999), "1h1m");
    assert_eq!(duration_as_human_string(3_719_999), "1h1m");
    assert_eq!(duration_as_human_string(360_000_000), "100h");
}

#[test]
fn run_times_tell_how_a_run_stands() {
    let time = |run: Run| display_run_time_at(&run, 10_000);
    assert_eq!(time(run(RunState::Pending, None, None, None)), "not yet run");
    assert_eq!(time(run(RunState::Started, Some(7_000), None, None)), "3s (ongoing)");
    assert_eq!(time(run(RunState::Started, Some(7_000), Some(5_000), None)), "3s (ongoing)");
    assert_eq!(time(run(RunState::Finished, Some(7_000), Some(5_000), None)), "invalid data");
    assert_eq!(time(run(RunState::Finished, Some(7_000), Some(8_500), None)), "1.5s");
    assert_eq!(time(run(RunState::Invalid, Some(7_000), None, None)), "n/a");
}

#[test]
fn run_times_need_a_clock_past_the_start() {
    let ongoing = run(RunState::Started, Some(7_000), None, None);
    assert!(!run_can_be_timed(&ongoing, 6_999));
    assert!(run_can_be_timed(&ongoing, 7_000));
    assert!(run_can_be_timed(&run(RunState::Finished, Some(7_000), Some(7_000), None), 0));
    assert_eq!(
        display_run_time(&run(RunState::Finished, Some(1_000), Some(3_000), None)),
        Some("2s".to_owned())
    );
    let future = run(RunState::Started, Some(u64::MAX), None, None);
    assert_eq!(display_run_time(&future), None);
    assert_eq!(run_time_text(&ongoing, 6_999), None);
    assert_eq!(run_time_text(&ongoing, 8_500), Some("1.5s (ongoing)".to_owned()));
    assert!(display_run_time(&ongoing).unwrap().ends_with(" (ongoing)"));
}

#[test]
fn times_are_shown_as_in_mails() {
    assert_eq!(time_text(0), "Thu, 1 Jan 1970 00:00:00 +0000");
    assert_eq!(time_text(1_000_000_000_000), "Sun, 9 Sep 2001 01:46:40 +0000");
    assert_eq!(time_text(253_402_300_799_999), "Fri, 31 Dec 9999 23:59:59 +0000");
    assert!(!time_can_be_shown(253_402_300_800_000));
    let year_zero = -62_167_219_200_000i64 as u64;
    assert!(time_can_be_shown(year_zero));
    assert_eq!(time_text(year_zero), "Sat, 1 Jan 0000 00:00:00 +0000");
    assert!(!time_can_be_shown(year_zero - 1));
}

#[test]
fn commits_have_urls_on_github_only() {
    let (source, url) = commit_url(&remote("github"), SHA);
    assert_eq!(source, "github");
    assert_eq!(url.unwrap(), "https://www.github.com/ixi/zvm/commit/0123456789abcdef");
    assert_eq!(commit_url(&remote("email"), SHA), ("email".to_owned(), None));
    assert_eq!(commit_url(&remote("other"), SHA), ("other".to_owned(), None));
    assert_eq!(job_url(&remote("email"), SHA), "ixi/zvm/0123456789abcdef");
}

#[test]
fn results_tell_how_a_run_ended() {
    assert!(run_result(RunState::Finished, Some(0)).contains("pass"));
    assert!(run_result(RunState::Finished, Some(7)).contains("fail"));
    assert_eq!(run_result(RunState::Pending, None), "unstarted");
    assert!(run_result(RunState::Started, None).contains("in progress"));
    assert!(run_result(RunState::Error, None).contains("unreported"));
}

#[test]
fn the_latest_run_is_picked_and_the_first_of_equals() {
    let at = |time: u64| {
        let mut r = run(RunState::Pending, None, None, None);
        r.create_time = time;
        (job(1, 0), r)
    };
    assert_eq!(most_recent(&vec![]), None);
    assert_eq!(most_recent(&vec![at(3), at(5), at(5), at(4)]), Some(1));
    assert_eq!(most_recent(&vec![at(0)]), Some(0));
}

#[test]
fn the_index_lists_repositories_and_active_runs() {
    let name = CommitName { name: "main".to_owned(), state: NameState::Stale };
    let done = run(RunState::Finished, Some(1_000), Some(3_000), Some(0));
    let repos = vec![
        RepoEntry { repo: repo("zvm"), latest: Some(entry(done, "github", Some(name))) },
        RepoEntry { repo: repo("new"), latest: None },
    ];
    let going = run(RunState::Started, Some(NOW - 61_000), None, None);
    let active = vec![ActiveEntry { repo: repo("zvm"), entry: entry(going, "email", None) }];
    assert!(repos.iter().all(|r| r.can_show(NOW)));
    assert!(active.iter().all(|a| a.entry.can_show(NOW)));
    let page = build_repo_index(Some(&repos), &active, NOW).unwrap();
    let head = "<th class='row-item'>repo</th><th class='row-item'>last build</th>\
        <th class='row-item'>commit/job</th><th class='row-item'>remote</th>\
        <th class='row-item'>duration</th><th class='row-item'>status</th>\
        <th class='row-item'>result</th></tr>\n";
    let expected = String::from("<html>\n<style>\n")
        + ".build-table { font-family: monospace; border: 1px solid black; border-collapse: collapse; }\n"
        + ".row-item { padding-left: 4px; padding-right: 4px; border-right: 1px solid black; }\n"
        + ".odd-row { background: #eee; }\n.even-row { background: #ddd; }\n</style>\n"
        + "<h1>builds and build accessories</h1>\n<p>2 repos configured</p>\n"
        + "<table class='build-table'><tr>\n"
        + head
        + "<tr class=\"even-row\"><td class='row-item'><a href=\"/zvm\">zvm</a></td>"
        + "<td class='row-item'>Sun, 9 Sep 2001 01:46:40 +0000</td>"
        + "<td class='row-item'><a href=\"ixi/zvm/0123456789abcdef\">012345678</a> (job 5) main (stale)</td>"
        + "<td class='row-item'><a href=\"https://www.github.com/ixi/zvm/commit/0123456789abcdef\">github</a></td>"
        + "<td class='row-item'>2s</td><td class='row-item'>finished</td>"
        + "<td class='row-item'><span style='color:green;'>pass</span></td></tr>\n"
        + "<tr class=\"odd-row\"><td class='row-item'><a href=\"/new\">new</a></td>"
        + &"<td class='row-item'></td>".repeat(6)
        + "</tr>\n</table><h4>active tasks</h4>\n<table class='build-table'><tr>\n"
        + head
        + "<tr class=\"even-row\"><td class='row-item'><a href=\"/zvm\">zvm</a></td>"
        + "<td class='row-item'>Sun, 9 Sep 2001 01:46:40 +0000</td>"
        + "<td class='row-item'><a href=\"ixi/zvm/0123456789abcdef\">012345678</a> (job 5)</td>"
        + "<td class='row-item'>email</td><td class='row-item'>1m1s (ongoing)</td>"
        + "<td class='row-item'>started</td>"
        + "<td class='row-item'><span style='color:darkgoldenrod;'>in progress</span></td></tr>\n"
        + "</table>\n</html>";
    assert_eq!(page, expected);
    assert_eq!(handle_req("/", Some(&repos), &active, NOW), Ok(page));
    assert_eq!(handle_req("/x", Some(&repos), &active, NOW), Ok("a".to_owned()));
}

#[test]
fn an_empty_index_says_so() {
    let page = build_repo_index(Some(&vec![]), &vec![], NOW).unwrap();
    assert!(page.contains("<p>no repos configured, so there are no builds</p>\n"));
    assert!(page.ends_with("</table><h4>active tasks</h4>\n<p>(none)</p>\n</html>"));
    let one = vec![RepoEntry { repo: repo("x"), latest: None }];
    assert!(build_repo_index(Some(&one), &vec![], NOW).unwrap().contains("<p>1 repo configured</p>\n"));
    assert_eq!(
        build_repo_index(None, &vec![], NOW),
        Err("gonna feel that one tomorrow".to_owned())
    );
}

#[test]
fn entries_that_cannot_be_shown_are_told_apart() {
    let done = || run(RunState::Finished, Some(1_000), Some(3_000), Some(0));
    let mut short = entry(done(), "github", None);
    short.commit_sha = "0123".to_owned();
    assert!(!short.can_show(NOW));
    let mut late = entry(done(), "github", None);
    late.run.create_time = 253_402_300_800_000;
    assert!(!late.can_show(NOW));
    let future = entry(run(RunState::Started, Some(NOW + 1), None, None), "github", None);
    assert!(!future.can_show(NOW));
}

#[test]
fn records_are_put_in_order() {
    assert_eq!(ordered(&vec![3, 1, 2, 1], &vec![true; 4]), vec![1, 3, 2, 0]);
    assert_eq!(ordered(&vec![3, 1, 2, 1], &vec![true, true, false, false]), vec![1, 0]);
    assert_eq!(ordered(&vec![], &vec![]), Vec::<usize>::new());
}

#[test]
fn the_latest_ten_builds_are_shown() {
    let jobs: Vec<Job> = (0..12).map(|i| job(i, 100 + (i % 6))).collect();
    let list = recent_builds(&jobs);
    assert_eq!(list, vec![5, 11, 4, 10, 3, 9, 2, 8, 1, 7]);
    let few = vec![job(1, 5), job(2, 9)];
    assert_eq!(recent_builds(&few), vec![1, 0]);
}

#[test]
fn the_repo_page_shows_builds() {
    let entries = vec![BuildEntry {
        job: job(5, 1),
        run: run(RunState::Error, None, None, None),
        commit_sha: SHA.to_owned(),
        remote: remote("github"),
    }];
    assert!(entries[0].can_show(NOW));
    let page = handle_repo_summary("zvm", &entries, NOW);
    assert!(page.starts_with("<html>\n<title> ci.butactuallyin.space - zvm </title>\n<style>\n"));
    assert!(page.contains("<h1>zvm build history</h1>\n<a href=/>full repos index</a><p> </p>\n"));
    assert!(page.ends_with(
        "<th class='row-item'>result</th></tr>\n<tr class=\"even-row\">\
         <td class='row-item'>Sun, 9 Sep 2001 01:46:40 +0000</td>\
         <td class='row-item'><a href=\"ixi/zvm/0123456789abcdef\">5</a></td>\
         <td class='row-item'><a href=\"https://www.github.com/ixi/zvm/commit/0123456789abcdef\">0123456789abcdef</a></td>\
         <td class='row-item'>not yet run</td><td class='row-item'>error</td>\
         <td class='row-item'><span style='color:red;'>unreported</span></td></tr>\n</html>"
    ));
    assert_eq!(no_such_repo(), (404, String::new()));
    assert_eq!(
        repo_query("zvm").sql,
        "select id, repo_name, default_run_preference from repos where repo_name=?1;"
    );
}

#[test]
fn commits_are_looked_up_by_enough_of_their_hash() {
    assert!(commit_query("012345").is_none());
    let statement = commit_query("0123456").unwrap();
    assert_eq!(statement.sql, "select id, sha from commits where sha like ?1;");
    assert!(matches!(&statement.params[0], Param::Text(s) if s == "0123456%"));
    assert!(matches!(&remote_query("a", "b").params[0], Param::Text(s) if s == "a/b"));
    assert!(matches!(repo_name_query(4).params[0], Param::Unsigned(4)));
    assert_eq!(no_such_commit(), (404, "<html><body>no such commit</body></html>".to_owned()));
}

#[test]
fn states_are_described() {
    assert!(status_element(RunState::Pending, None).contains("pending"));
    assert!(status_element(RunState::Finished, Some(0)).contains("pass"));
    assert!(status_element(RunState::Finished, Some(1)).contains("failed"));
    assert!(status_element(RunState::Finished, None).contains("unreported"));
    assert!(status_element(RunState::Error, None).contains("error"));
    assert!(status_element(RunState::Invalid, None).contains("(server error)"));
    assert_eq!(status_description(RunState::Started, None), "⌛in progress");
    assert_eq!(status_description(RunState::Finished, Some(0)), "✅ passed");
    assert_eq!(status_description(RunState::Finished, Some(2)), "❌ failed");
    assert_eq!(status_description(RunState::Finished, None), "❔ missing status");
    assert_eq!(status_description(RunState::Error, None), "🧯 error, uncompleted");
    assert!(debug_info(RunState::Finished, Some(1)));
    assert!(!debug_info(RunState::Finished, Some(2)));
    assert!(debug_info(RunState::Error, None));
    assert!(!debug_info(RunState::Started, Some(1)));
}

#[test]
fn artifacts_are_old_or_recent() {
    assert_eq!(diff_times(100, Some(40), 0), 60);
    assert_eq!(diff_times(100, Some(140), 0), 0);
    assert_eq!(diff_times(100, None, 70), 30);
    let passed = run(RunState::Finished, Some(100_000), Some(300_000), Some(0));
    let failed = run(RunState::Finished, Some(100_000), Some(300_000), Some(1));
    let wish = |a: ArtifactRecord, r: &Run| artifact_wish(&a, r, NOW);
    assert_eq!(wish(artifact(1, 99_999, Some(299_000)), &passed), ArtifactWish::Nothing);
    assert_eq!(wish(artifact(1, 100_000, Some(239_999)), &passed), ArtifactWish::Size);
    assert_eq!(wish(artifact(1, 100_000, Some(240_000)), &passed), ArtifactWish::SizeIfKnown);
    assert_eq!(wish(artifact(1, 100_000, Some(240_000)), &failed), ArtifactWish::Content);
}

#[test]
fn the_commit_page_shows_artifacts_in_order() {
    let mut failed = run(RunState::Finished, Some(100_000), Some(300_000), Some(1));
    failed.final_text = Some("oh no".to_owned());
    let page = CommitPage {
        owner: "ixi".to_owned(),
        repo: "zvm".to_owned(),
        sha: SHA.to_owned(),
        repo_name: "zvm".to_owned(),
        run: failed,
        artifacts: vec![
            artifact(1, 250_000, Some(290_000)),
            artifact(2, 120_000, Some(130_500)),
            artifact(3, 50_000, Some(60_000)),
            artifact(4, 110_000, Some(111_000)),
        ],
        details: vec![
            ArtifactDetail::Content("output".to_owned()),
            ArtifactDetail::Size(4097),
            ArtifactDetail::Nothing,
            ArtifactDetail::Size(1023),
        ],
        metrics: Some("<table/>".to_owned()),
    };
    assert!(page.can_show(NOW));
    let html = handle_commit_status(&page, NOW);
    let inline = "<pre style='display:inline;'>";
    let step = |time: &str, id: u64| {
        format!("<div>{}{}</pre> step: {}step {}</pre></div>\n", inline, time, inline, id)
    };
    let expected = String::from("<html>\n  <head><title>ci.butactuallyin.space - zvm</title>\n")
        + "<meta property=\"og:type\" content=\"website\">\n"
        + "<meta property=\"og:site_name\" content=\"ci.butactuallyin.space\">\n"
        + "<meta property=\"og:url\" content=\"/ixi/zvm/0123456789abcdef\">\n"
        + "<meta property=\"og:title\" contents=\"ixi/zvm commit 012345678\">"
        + "<meta name=\"description\" content=\"commit 012345678 of ixi/zvm, ❌ failed after 3m20s\"\n>"
        + "<meta property=\"og:description\" content=\"commit 012345678 of ixi/zvm, ❌ failed after 3m20s\"\n>"
        + "</head>\n\n  <body>\n    <pre>\nrepo: <a href=\"/zvm\">zvm</a>\n"
        + "commit: <a href=\"https://www.github.com/ixi/zvm/commit/0123456789abcdef\">0123456789abcdef</a>, run: 11\n"
        + "status: <span style='color:red;'>failed</span> in 3m20s\n  description: oh no\n  "
        + "deployed: false\n    </pre>\n    <div>artifacts</div>\n"
        + &step("Thu, 1 Jan 1970 00:01:50 +0000", 4)
        + "<pre>  0kb in 1s </pre>\n"
        + &step("Thu, 1 Jan 1970 00:02:00 +0000", 2)
        + "<pre>  4kb in 10.5s </pre>\n"
        + &step("Thu, 1 Jan 1970 00:04:10 +0000", 1)
        + "<pre>output</pre>\n<table/>  </body>\n</html>";
    assert_eq!(html, expected);
}

#[test]
fn a_commit_page_needs_its_details() {
    let mut page = CommitPage {
        owner: "ixi".to_owned(),
        repo: "zvm".to_owned(),
        sha: SHA.to_owned(),
        repo_name: "zvm".to_owned(),
        run: run(RunState::Finished, Some(100_000), Some(300_000), Some(0)),
        artifacts: vec![artifact(1, 250_000, Some(290_000))],
        details: vec![ArtifactDetail::Content("output".to_owned())],
        metrics: None,
    };
    assert!(!page.can_show(NOW));
    page.details = vec![ArtifactDetail::NoSize("gone".to_owned())];
    assert!(page.can_show(NOW));
    assert!(handle_commit_status(&page, NOW).contains("<pre>  [gone]kb in 40s </pre>\n"));
    page.artifacts[0].completed_time = Some(240_001);
    page.artifacts[0].created_time = 240_002;
    assert!(!page.can_show(NOW));
    page.artifacts.clear();
    assert!(!page.can_show(NOW));
    page.details.clear();
    assert!(!handle_commit_status(&page, NOW).contains("artifacts"));
}

#[test]
fn metrics_of_one_run_are_listed() {
    let host = || HostMetrics { metrics: vec![], host: HostDesc::unknown(), ghz: "0.000".to_owned() };
    let shown = vec![metric("size", "10"), metric("time", "3")];
    assert_eq!(
        summarize_job_metrics(&shown, &vec![host()]).unwrap(),
        "<div>\n<h3>metrics</h3>\n<table style='font-family: monospace;'>\n\
         <tr><th>name</th><th>value</th></tr><tr><td>size</td><td>10</td></tr>\
         <tr><td>time</td><td>3</td></tr></table>\n</div>\n"
    );
    assert_eq!(summarize_job_metrics(&vec![], &vec![host()]), None);
    assert_eq!(summarize_job_metrics(&shown, &vec![]), None);
}

#[test]
fn metrics_of_several_runs_have_a_row_each() {
    let parts = |vendor: &str, family: &str, model: &str| {
        HostDesc::from_parts(
            "box".to_owned(),
            vendor.to_owned(),
            family.to_owned(),
            model.to_owned(),
            3700000,
        )
    };
    let runs = vec![
        HostMetrics {
            metrics: vec![metric("size", "10"), metric("size", "11")],
            host: parts("GenuineIntel", "6", "85"),
            ghz: "3.700".to_owned(),
        },
        HostMetrics {
            metrics: vec![metric("time", "3"), metric("size", "12")],
            host: HostDesc::unknown(),
            ghz: "0.000".to_owned(),
        },
    ];
    assert_eq!(
        summarize_job_metrics(&vec![], &runs).unwrap(),
        "<div>\n<h3>metrics</h3>\n<table style='font-family: monospace;'>\n<tr><th>name</th>\
         <th>box</br>x86_64 Skylake @ 3.700GHz</th><th>unknown</br>unknown unknown:0:0 @ 0.000GHz</th></tr>\n\
         <tr><td>size</td><td>11</td><td>12</td></tr>\n<tr><td>time</td><td></td><td>3</td></tr>\n\
         </table>\n</div>\n"
    );
    assert_eq!(parts("Arm Limited", "8", "0xd03").cpu_desc, "aarch64 A53");
    assert_eq!(parts("AuthenticAMD", "23", "113").cpu_desc, "x86_64 Matisse");
    assert_eq!(parts("AuthenticAMD", "23", "1").cpu_desc, "unknown AuthenticAMD:23:1");
}

fn sole(state: RunState, start: Option<u64>, complete: Option<u64>, result: Option<u8>) -> SoleRun {
    SoleRun {
        id: 8,
        state,
        created_time: 1_000_000_000_000,
        start_time: start,
        complete_time: complete,
        build_result: result,
        final_text: None,
    }
}

#[test]
fn jobs_that_are_their_own_runs_are_timed() {
    assert_eq!(sole(RunState::Pending, None, None, None).display_time(10_000), "not yet run");
    assert_eq!(sole(RunState::Invalid, Some(9_000), None, None).display_time(10_000), "1s (ongoing)");
    assert_eq!(sole(RunState::Error, Some(9_000), Some(8_000), None).display_time(10_000), "invalid data");
    assert_eq!(sole(RunState::Finished, Some(9_000), Some(9_250), None).display_time(10_000), "0.25s");
    assert!(!sole(RunState::Started, Some(9_000), None, None).can_show(8_999));
}

#[test]
fn the_index_of_jobs_lists_repositories() {
    let jobs = vec![sole(RunState::Pending, None, None, None)];
    assert_eq!(most_recent_job(&jobs), Some(0));
    assert_eq!(most_recent_job(&vec![]), None);
    let repos = vec![
        SoleRepo {
            repo: repo("zvm"),
            latest: Some(SoleEntry {
                job: sole(RunState::Finished, Some(1_000), Some(2_000), Some(1)),
                commit_sha: SHA.to_owned(),
                remote: remote("email"),
            }),
        },
        SoleRepo { repo: repo("new"), latest: None },
    ];
    assert!(repos.iter().all(|r| r.can_show(NOW)));
    let (status, page) = handle_ci_index(Some(&repos), NOW);
    assert_eq!(status, 200);
    assert!(page.contains(
        "<th class='row-item'>job</th><th class='row-item'>build commit</th>\
         <th class='row-item'>duration</th>"
    ));
    assert!(page.ends_with(&(String::from(
        "<tr class=\"even-row\"><td class='row-item'><a href=\"/zvm\">zvm</a></td>\
         <td class='row-item'>Sun, 9 Sep 2001 01:46:40 +0000</td>\
         <td class='row-item'><a href=\"ixi/zvm/0123456789abcdef\">8</a></td>\
         <td class='row-item'>0123456789abcdef</td><td class='row-item'>1s</td>\
         <td class='row-item'>finished</td>\
         <td class='row-item'><span style='color:red;'>fail</span></td></tr>\n\
         <tr class=\"odd-row\"><td class='row-item'><a href=\"/new\">new</a></td>"
    ) + &"<td class='row-item'></td>".repeat(6)
        + "</tr>\n</table></html>")));
    assert_eq!(
        handle_ci_index(None, NOW),
        (500, "gonna feel that one tomorrow".to_owned())
    );
}

#[test]
fn the_pages_of_jobs_are_shown() {
    let entries = vec![SoleEntry {
        job: sole(RunState::Pending, None, None, None),
        commit_sha: SHA.to_owned(),
        remote: remote("github"),
    }];
    let page = repo_summary("zvm", &entries, NOW);
    assert!(page.contains("<h1>zvm build history</h1>\n"));
    assert!(page.ends_with(
        "<td class='row-item'>not yet run</td><td class='row-item'>pending</td>\
         <td class='row-item'>unstarted</td></tr>\n</html>"
    ));
    let page = SolePage {
        owner: "ixi".to_owned(),
        repo: "zvm".to_owned(),
        sha: SHA.to_owned(),
        repo_name: "zvm".to_owned(),
        job: sole(RunState::Finished, Some(100_000), Some(300_000), Some(0)),
        artifacts: vec![artifact(1, 5_000, Some(290_000))],
        details: vec![ArtifactDetail::Size(2048)],
        metrics: vec![metric("size", "10")],
    };
    assert!(page.can_show(NOW));
    assert_eq!(
        commit_status(&page, NOW),
        "<html>\n  <head><title>ci.butactuallyin.space - zvm</title></head>\n  <body>\n    <pre>\n\
         repo: <a href=\"/zvm\">zvm</a>\n\
         commit: <a href=\"https://www.github.com/ixi/zvm/commit/0123456789abcdef\">0123456789abcdef</a>, job: 8\n\
         status: <span style='color:green;'>pass</span>\ndeployed: false\n    </pre>\n    <div>artifacts</div>\n\
         <div><pre style='display:inline;'>Thu, 1 Jan 1970 00:00:05 +0000</pre> step: \
         <pre style='display:inline;'>step 1</pre></div>\n<pre>  2kb in 4m45s </pre>\n\
         <div><h3>metrics</h3><table style='font-family: monospace;'><tr><th>name</th><th>value</th></tr>\
         <tr><td>size</td><td>10</td></tr></table></div>  </body>\n</html>"
    );
}
