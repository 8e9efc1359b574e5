//! The page that shows what came of a commit.

use crate::dbctx::Bound;
use crate::dbctx::Param;
use crate::dbctx::Statement;
use crate::order::in_order;
use crate::order::order_is_unique;
use crate::order::ordered;
use crate::sql::ArtifactRecord;
use crate::sql::Remote;
use crate::sql::Run;
use crate::sql::RunState;
use crate::text::beginnings_occur;
use crate::text::byte_prefix;
use crate::text::can_cut;
use crate::text::cuts_at;
use crate::text::decimal;
use crate::text::decimal_text;
use crate::text::first_bytes;
use crate::text::five_last_parts_occur;
use crate::text::occurs;
use crate::text::parts_occur;
use crate::text::parts_of_parts_occur;
use crate::text::three_last_parts_occur;
use crate::web::SHORT_SHA_BYTES;
use crate::web::can_time;
use crate::web::display_run_time_at;
use crate::web::duration_as_human_string;
use crate::web::human_duration;
use crate::web::job_path;
use crate::web::link;
use crate::web::link_html;
use crate::web::repo_link;
use crate::web::repo_link_html;
use crate::web::rfc2822_of_millis;
use crate::web::run_can_be_timed;
use crate::web::run_time;
use crate::web::shows_time;
use crate::web::time_can_be_shown;
use crate::web::time_text;
use vstd::prelude::*;

verus! {

/// How many bytes of a hash are needed to look for a commit.
pub const LOOKUP_SHA_BYTES: usize = 7;

/// An artifact is recent if it was completed at most this many milliseconds before its run.
pub const RECENT_MS: u64 = 60_000;

/// A commit is looked for by the beginning of its hash, where that is long enough.
pub open spec fn looks_for_commit(sha: Seq<char>, lookup: Option<Statement>) -> bool {
    match lookup {
        Some(statement) => {
            &&& vstd::utf8::encode_utf8(sha).len() >= LOOKUP_SHA_BYTES
            &&& statement.asks(
                "select id, sha from commits where sha like ?1;"@,
                seq![Bound::Text(sha + "%"@)],
            )
        },
        None => vstd::utf8::encode_utf8(sha).len() < LOOKUP_SHA_BYTES,
    }
}

/// A commit is looked for exactly if at least seven bytes of its hash are given, and what is looked
/// for is what begins with them.
pub proof fn commits_are_found_by_their_beginning(sha: Seq<char>, lookup: Option<Statement>)
    requires
        looks_for_commit(sha, lookup),
    ensures
        lookup is Some <==> vstd::utf8::encode_utf8(sha).len() >= 7,
        lookup matches Some(statement) ==> statement.params@.len() == 1 && (statement.params@[0]@
            matches Bound::Text(pattern) && sha.is_prefix_of(pattern) && pattern.len() == sha.len()
            + 1 && pattern.last() == '%'),
{
    reveal_strlit("%");
    if let Some(statement) = lookup {
        let bounds = Seq::new(statement.params@.len(), |i: int| statement.params@[i]@);
        assert(bounds.len() == 1 && bounds[0] == statement.params@[0]@);
        let pattern = sha + "%"@;
        assert(sha =~= pattern.take(sha.len() as int));
    }
}

/// The statement that looks for a commit by the beginning of its hash, where that is long enough.
pub fn commit_query(sha: &str) -> (r: Option<Statement>)
    ensures
        looks_for_commit(sha@, r),
{
    if sha.as_bytes().len() >= LOOKUP_SHA_BYTES {
        let pattern = sha.to_owned().concat("%");
        Some(
            Statement::new(
                "select id, sha from commits where sha like ?1;",
                vec![Param::Text(pattern)],
            ),
        )
    } else {
        None
    }
}

/// The statement looks for the remote of a repository of the given owner.
pub open spec fn looks_for_remote(statement: Statement, owner: Seq<char>, repo: Seq<char>) -> bool {
    statement.asks(
        "select id, repo_id from remotes where remote_path=?1;"@,
        seq![Bound::Text(owner + "/"@ + repo)],
    )
}

/// The page that a remote's commits are linked to is one for which that remote is looked up: its path
/// is that of the remote, and what comes after it is the hash.
pub proof fn linked_pages_find_their_remote(
    statement: Statement,
    remote: Remote,
    owner: Seq<char>,
    repo: Seq<char>,
    sha: Seq<char>,
)
    requires
        looks_for_remote(statement, owner, repo),
        job_path(remote, sha) == owner + "/"@ + repo + "/"@ + sha,
    ensures
        statement.params@.len() == 1,
        statement.params@[0]@ == Bound::Text(remote.remote_path@),
{
    let bounds = Seq::new(statement.params@.len(), |i: int| statement.params@[i]@);
    assert(bounds.len() == 1 && bounds[0] == statement.params@[0]@);
    let path = owner + "/"@ + repo;
    let whole = job_path(remote, sha);
    assert(whole.len() == remote.remote_path@.len() + "/"@.len() + sha.len());
    assert(path =~= whole.take(path.len() as int));
    assert(remote.remote_path@ =~= whole.take(remote.remote_path@.len() as int));
}

/// The statement that looks for the remote with a path, and its repository.
pub fn remote_query(owner: &str, repo: &str) -> (r: Statement)
    ensures
        looks_for_remote(r, owner@, repo@),
{
    let path = owner.to_owned().concat("/").concat(repo);
    Statement::new(
        "select id, repo_id from remotes where remote_path=?1;",
        vec![Param::Text(path)],
    )
}

/// The statement that looks for the name of a repository.
pub fn repo_name_query(repo_id: u64) -> (r: Statement)
    ensures
        r.asks("select repo_name from repos where id=?1;"@, seq![Bound::Unsigned(repo_id)]),
{
    Statement::new("select repo_name from repos where id=?1;", vec![Param::Unsigned(repo_id)])
}

/// The page for a commit that is not known, which is answered with status 404.
pub fn no_such_commit() -> (r: (u16, String))
    ensures
        r.0 == 404,
        r.1@ == "<html><body>no such commit</body></html>"@,
{
    (404, "<html><body>no such commit</body></html>".to_owned())
}

/// How the page shows a run's state.
pub open spec fn status_html(state: RunState, build_result: Option<u8>) -> Seq<char> {
    match state {
        RunState::Pending => "<span style='color:#660;'>pending</span>"@,
        RunState::Started => "<span style='color:#660;'>pending</span>"@,
        RunState::Finished => match build_result {
            Some(result) => if result == 0 {
                "<span style='color:green;'>pass</span>"@
            } else {
                "<span style='color:red;'>failed</span>"@
            },
            None => "<span style='color:red;'>unreported</span>"@,
        },
        RunState::Error => "<span style='color:red;'>error</span>"@,
        RunState::Invalid => "<span style='color:red;'>(server error)</span>"@,
    }
}

pub fn status_element(state: RunState, build_result: Option<u8>) -> (r: &'static str)
    ensures
        r@ == status_html(state, build_result),
{
    match state {
        RunState::Pending => "<span style='color:#660;'>pending</span>",
        RunState::Started => "<span style='color:#660;'>pending</span>",
        RunState::Finished => match build_result {
            Some(result) => if result == 0 {
                "<span style='color:green;'>pass</span>"
            } else {
                "<span style='color:red;'>failed</span>"
            },
            None => "<span style='color:red;'>unreported</span>",
        },
        RunState::Error => "<span style='color:red;'>error</span>",
        RunState::Invalid => "<span style='color:red;'>(server error)</span>",
    }
}

/// A run's state in words.
pub open spec fn status_words(state: RunState, build_result: Option<u8>) -> Seq<char> {
    match state {
        RunState::Pending => "⌛in progress"@,
        RunState::Started => "⌛in progress"@,
        RunState::Finished => match build_result {
            Some(result) => if result == 0 {
                "✅ passed"@
            } else {
                "❌ failed"@
            },
            None => "❔ missing status"@,
        },
        RunState::Error => "🧯 error, uncompleted"@,
        RunState::Invalid => "dude even i don't know"@,
    }
}

pub fn status_description(state: RunState, build_result: Option<u8>) -> (r: &'static str)
    ensures
        r@ == status_words(state, build_result),
{
    match state {
        RunState::Pending => "⌛in progress",
        RunState::Started => "⌛in progress",
        RunState::Finished => match build_result {
            Some(result) => if result == 0 {
                "✅ passed"
            } else {
                "❌ failed"
            },
            None => "❔ missing status",
        },
        RunState::Error => "🧯 error, uncompleted",
        RunState::Invalid => "dude even i don't know",
    }
}

/// The page shows what the run's recent artifacts hold: the run failed, or ended with an error.
pub open spec fn shows_contents(state: RunState, build_result: Option<u8>) -> bool {
    state == RunState::Finished && build_result == Some(1u8) || state == RunState::Error
}

pub fn debug_info(state: RunState, build_result: Option<u8>) -> (r: bool)
    ensures
        r == shows_contents(state, build_result),
{
    let failed = match build_result {
        Some(result) => result == 1,
        None => false,
    };
    state == RunState::Finished && failed || state == RunState::Error
}

/// A time that may be absent stands for `now` then.
pub open spec fn time_or(time: Option<u64>, now: u64) -> u64 {
    match time {
        Some(time) => time,
        None => now,
    }
}

fn time_or_now(time: Option<u64>, now: u64) -> (r: u64)
    ensures
        r == time_or(time, now),
{
    match time {
        Some(time) => time,
        None => now,
    }
}

/// How many milliseconds before its run an artifact was completed; none if it was later.
pub open spec fn head_start(run_completed: u64, artifact_completed: Option<u64>, now: u64) -> int {
    let completed = time_or(artifact_completed, now);
    if run_completed > completed {
        run_completed - completed
    } else {
        0
    }
}

/// How many milliseconds before its run an artifact was completed.
pub fn diff_times(run_completed: u64, artifact_completed: Option<u64>, now: u64) -> (r: u64)
    ensures
        r == head_start(run_completed, artifact_completed, now),
{
    let completed: u64 = time_or_now(artifact_completed, now);
    if run_completed > completed {
        run_completed - completed
    } else {
        0
    }
}

/// The artifact was completed near the end of its run.
pub open spec fn recent(artifact: ArtifactRecord, run: Run, now: u64) -> bool {
    head_start(time_or(run.complete_time, now), artifact.completed_time, now) <= RECENT_MS
}

/// The artifact belongs to what the run made since it was last started.
pub open spec fn current(artifact: ArtifactRecord, run: Run, now: u64) -> bool {
    artifact.created_time >= time_or(run.start_time, now)
}

/// What the page shows of an artifact.
pub enum ArtifactDetail {
    /// Nothing: it is from before the run was started again.
    Nothing,
    /// How many bytes it has.
    Size(u64),
    /// Why it is not known how many bytes it has.
    NoSize(String),
    /// What it holds.
    Content(String),
}

/// What has to be found out about an artifact to show it.
#[derive(Debug, Clone, Copy, PartialEq, Eq, Structural)]
pub enum ArtifactWish {
    Nothing,
    Size,
    SizeIfKnown,
    Content,
}

/// What has to be found out about an artifact to show it: of an old one its size; of a recent one
/// what it holds, where the run went wrong, and else its size.
pub open spec fn wish_for(artifact: ArtifactRecord, run: Run, now: u64) -> ArtifactWish {
    if !current(artifact, run, now) {
        ArtifactWish::Nothing
    } else if !recent(artifact, run, now) {
        ArtifactWish::Size
    } else if shows_contents(run.state, run.build_result) {
        ArtifactWish::Content
    } else {
        ArtifactWish::SizeIfKnown
    }
}

/// What has to be found out about an artifact to show it.
pub fn artifact_wish(artifact: &ArtifactRecord, run: &Run, now: u64) -> (r: ArtifactWish)
    ensures
        r == wish_for(*artifact, *run, now),
{
    let complete_time: u64 = time_or_now(run.complete_time, now);
    if artifact.created_time < time_or_now(run.start_time, now) {
        ArtifactWish::Nothing
    } else if diff_times(complete_time, artifact.completed_time, now) > RECENT_MS {
        ArtifactWish::Size
    } else if debug_info(run.state, run.build_result) {
        ArtifactWish::Content
    } else {
        ArtifactWish::SizeIfKnown
    }
}

/// The detail is what was wished for.
pub open spec fn grants(detail: ArtifactDetail, wish: ArtifactWish) -> bool {
    match wish {
        ArtifactWish::Nothing => true,
        ArtifactWish::Size => detail is Size,
        ArtifactWish::SizeIfKnown => detail is Size || detail is NoSize,
        ArtifactWish::Content => detail is Content,
    }
}

/// The artifact can be shown: its time has a text, and where its duration is shown it was completed
/// after it was created.
pub open spec fn artifact_showable(
    artifact: ArtifactRecord,
    detail: ArtifactDetail,
    run: Run,
    now: u64,
) -> bool {
    let wish = wish_for(artifact, run, now);
    wish != ArtifactWish::Nothing ==> {
        &&& grants(detail, wish)
        &&& shows_time(artifact.created_time)
        &&& wish != ArtifactWish::Content ==> artifact.created_time <= time_or(
            artifact.completed_time,
            now,
        )
    }
}

/// Whether the artifact can be shown.
pub fn artifact_can_be_shown(
    artifact: &ArtifactRecord,
    detail: &ArtifactDetail,
    run: &Run,
    now: u64,
) -> (r: bool)
    ensures
        r == artifact_showable(*artifact, *detail, *run, now),
{
    let timed = time_can_be_shown(artifact.created_time);
    let done = artifact.created_time <= time_or_now(artifact.completed_time, now);
    match artifact_wish(artifact, run, now) {
        ArtifactWish::Nothing => true,
        ArtifactWish::Size => matches!(detail, ArtifactDetail::Size(_)) && timed && done,
        ArtifactWish::SizeIfKnown => matches!(
            detail,
            ArtifactDetail::Size(_) | ArtifactDetail::NoSize(_)
        ) && timed && done,
        ArtifactWish::Content => matches!(detail, ArtifactDetail::Content(_)) && timed,
    }
}

/// The size of an artifact and how long it took.
pub open spec fn size_html(size: Seq<char>, artifact: ArtifactRecord, now: u64) -> Seq<char> {
    "<pre>  "@ + size + "kb in "@ + human_duration(
        (time_or(artifact.completed_time, now) - artifact.created_time) as nat,
    ) + " </pre>\n"@
}

fn size_line(size: &str, artifact: &ArtifactRecord, now: u64) -> (r: String)
    requires
        artifact.created_time <= time_or(artifact.completed_time, now),
    ensures
        r@ == size_html(size@, *artifact, now),
{
    let duration = duration_as_human_string(
        time_or_now(artifact.completed_time, now) - artifact.created_time,
    );
    "<pre>  ".to_owned().concat(size).concat("kb in ").concat(duration.as_str()).concat(
        " </pre>\n",
    )
}

/// What the page says of an artifact after its name.
pub open spec fn detail_html(
    artifact: ArtifactRecord,
    detail: ArtifactDetail,
    now: u64,
) -> Seq<char> {
    match detail {
        ArtifactDetail::Nothing => Seq::empty(),
        ArtifactDetail::Size(bytes) => size_html(decimal((bytes / 1024) as nat), artifact, now),
        ArtifactDetail::NoSize(error) => size_html("["@ + error@ + "]"@, artifact, now),
        ArtifactDetail::Content(content) => "<pre>"@ + content@ + "</pre>\n"@,
    }
}

/// An artifact on the page.
pub open spec fn artifact_html(
    artifact: ArtifactRecord,
    detail: ArtifactDetail,
    now: u64,
) -> Seq<char> {
    "<div><pre style='display:inline;'>"@ + rfc2822_of_millis(artifact.created_time as i64)
        + "</pre> step: <pre style='display:inline;'>"@ + artifact.name@ + "</pre></div>\n"@
        + detail_html(artifact, detail, now)
}

fn artifact_element(
    artifact: &ArtifactRecord,
    detail: &ArtifactDetail,
    run: &Run,
    now: u64,
) -> (r: String)
    requires
        wish_for(*artifact, *run, now) != ArtifactWish::Nothing,
        artifact_showable(*artifact, *detail, *run, now),
    ensures
        r@ == artifact_html(*artifact, *detail, now),
{
    let time = time_text(artifact.created_time);
    let tail: String = match detail {
        ArtifactDetail::Nothing => String::new(),
        ArtifactDetail::Size(bytes) => {
            let size = decimal_text(*bytes / 1024);
            size_line(size.as_str(), artifact, now)
        },
        ArtifactDetail::NoSize(error) => {
            let size = "[".to_owned().concat(error.as_str()).concat("]");
            size_line(size.as_str(), artifact, now)
        },
        ArtifactDetail::Content(content) => {
            "<pre>".to_owned().concat(content.as_str()).concat("</pre>\n")
        },
    };
    "<div><pre style='display:inline;'>".to_owned().concat(time.as_str()).concat(
        "</pre> step: <pre style='display:inline;'>",
    ).concat(artifact.name.as_str()).concat("</pre></div>\n").concat(tail.as_str())
}

/// The first `n` artifacts of a list on the page.
pub open spec fn artifact_list_html(
    artifacts: Seq<ArtifactRecord>,
    details: Seq<ArtifactDetail>,
    list: Seq<usize>,
    n: nat,
    now: u64,
) -> Seq<char>
    decreases n,
{
    if n == 0 {
        Seq::empty()
    } else {
        let k = list[n - 1] as int;
        artifact_list_html(artifacts, details, list, (n - 1) as nat, now) + artifact_html(
            artifacts[k],
            details[k],
            now,
        )
    }
}

/// When the artifacts were created.
pub open spec fn creation_keys(artifacts: Seq<ArtifactRecord>) -> Seq<i128> {
    Seq::new(artifacts.len(), |i: int| artifacts[i].created_time as i128)
}

/// Which artifacts are shown as old.
pub open spec fn old_ones(artifacts: Seq<ArtifactRecord>, run: Run, now: u64) -> Seq<bool> {
    Seq::new(
        artifacts.len(),
        |i: int| current(artifacts[i], run, now) && !recent(artifacts[i], run, now),
    )
}

/// Which artifacts are shown as recent.
pub open spec fn recent_ones(artifacts: Seq<ArtifactRecord>, run: Run, now: u64) -> Seq<bool> {
    Seq::new(
        artifacts.len(),
        |i: int| current(artifacts[i], run, now) && recent(artifacts[i], run, now),
    )
}

/// The artifacts on the page: first the old ones, then the recent ones, each in the order in which
/// they were created.
pub open spec fn artifacts_html(
    artifacts: Seq<ArtifactRecord>,
    details: Seq<ArtifactDetail>,
    run: Run,
    now: u64,
    html: Seq<char>,
) -> bool {
    exists|old: Seq<usize>, new: Seq<usize>|
        {
            &&& #[trigger] in_order(old, creation_keys(artifacts), old_ones(artifacts, run, now))
            &&& #[trigger] in_order(new, creation_keys(artifacts), recent_ones(artifacts, run, now))
            &&& html == artifact_list_html(artifacts, details, old, old.len(), now)
                + artifact_list_html(artifacts, details, new, new.len(), now)
        }
}

/// There is only one way in which artifacts are shown.
pub proof fn artifacts_show_one_way(
    artifacts: Seq<ArtifactRecord>,
    details: Seq<ArtifactDetail>,
    run: Run,
    now: u64,
    html: Seq<char>,
    other: Seq<char>,
)
    requires
        artifacts.len() <= usize::MAX,
        artifacts_html(artifacts, details, run, now, html),
        artifacts_html(artifacts, details, run, now, other),
    ensures
        html == other,
{
    let keys = creation_keys(artifacts);
    let olds = old_ones(artifacts, run, now);
    let news = recent_ones(artifacts, run, now);
    let (old_a, new_a) = choose|old: Seq<usize>, new: Seq<usize>|
        {
            &&& #[trigger] in_order(old, keys, olds)
            &&& #[trigger] in_order(new, keys, news)
            &&& html == artifact_list_html(artifacts, details, old, old.len(), now)
                + artifact_list_html(artifacts, details, new, new.len(), now)
        };
    let (old_b, new_b) = choose|old: Seq<usize>, new: Seq<usize>|
        {
            &&& #[trigger] in_order(old, keys, olds)
            &&& #[trigger] in_order(new, keys, news)
            &&& other == artifact_list_html(artifacts, details, old, old.len(), now)
                + artifact_list_html(artifacts, details, new, new.len(), now)
        };
    order_is_unique(old_a, old_b, keys, olds);
    order_is_unique(new_a, new_b, keys, news);
}

fn artifact_list(
    artifacts: &Vec<ArtifactRecord>,
    details: &Vec<ArtifactDetail>,
    list: &Vec<usize>,
    run: &Run,
    now: u64,
) -> (r: String)
    requires
        artifacts@.len() == details@.len(),
        forall|i: int|
            0 <= i < list@.len() ==> {
                &&& (#[trigger] list@[i]) < artifacts@.len()
                &&& current(artifacts@[list@[i] as int], *run, now)
            },
        forall|i: int|
            0 <= i < artifacts@.len() ==> artifact_showable(
                #[trigger] artifacts@[i],
                details@[i],
                *run,
                now,
            ),
    ensures
        r@ == artifact_list_html(artifacts@, details@, list@, list@.len(), now),
{
    let mut out = String::new();
    let mut i: usize = 0;
    while i < list.len()
        invariant
            i <= list@.len(),
            artifacts@.len() == details@.len(),
            forall|i: int|
                0 <= i < list@.len() ==> {
                    &&& (#[trigger] list@[i]) < artifacts@.len()
                    &&& current(artifacts@[list@[i] as int], *run, now)
                },
            forall|i: int|
                0 <= i < artifacts@.len() ==> artifact_showable(
                    #[trigger] artifacts@[i],
                    details@[i],
                    *run,
                    now,
                ),
            out@ == artifact_list_html(artifacts@, details@, list@, i as nat, now),
        decreases list@.len() - i,
    {
        let k: usize = list[i];
        let html = artifact_element(&artifacts[k], &details[k], run, now);
        out.append(html.as_str());
        i = i + 1;
    }
    out
}

/// The artifacts on the page.
pub fn artifact_fragment(
    artifacts: &Vec<ArtifactRecord>,
    details: &Vec<ArtifactDetail>,
    run: &Run,
    now: u64,
) -> (r: String)
    requires
        artifacts@.len() == details@.len(),
        forall|i: int|
            0 <= i < artifacts@.len() ==> artifact_showable(
                #[trigger] artifacts@[i],
                details@[i],
                *run,
                now,
            ),
    ensures
        artifacts_html(artifacts@, details@, *run, now, r@),
{
    let mut keys: Vec<i128> = Vec::new();
    let mut old: Vec<bool> = Vec::new();
    let mut new: Vec<bool> = Vec::new();
    let mut i: usize = 0;
    while i < artifacts.len()
        invariant
            i <= artifacts@.len(),
            keys@ =~= creation_keys(artifacts@).take(i as int),
            old@ =~= old_ones(artifacts@, *run, now).take(i as int),
            new@ =~= recent_ones(artifacts@, *run, now).take(i as int),
        decreases artifacts@.len() - i,
    {
        let wish = artifact_wish(&artifacts[i], run, now);
        keys.push(artifacts[i].created_time as i128);
        old.push(wish == ArtifactWish::Size);
        new.push(wish == ArtifactWish::SizeIfKnown || wish == ArtifactWish::Content);
        i = i + 1;
    }
    assert(keys@ =~= creation_keys(artifacts@));
    assert(old@ =~= old_ones(artifacts@, *run, now));
    assert(new@ =~= recent_ones(artifacts@, *run, now));
    let old_list = ordered(&keys, &old);
    let new_list = ordered(&keys, &new);
    proof {
        assert forall|i: int| 0 <= i < old_list@.len() implies {
            &&& (#[trigger] old_list@[i]) < artifacts@.len()
            &&& current(artifacts@[old_list@[i] as int], *run, now)
        } by {
            assert(crate::order::listed(old_list@, old_list@[i] as int));
            assert(old@[old_list@[i] as int]);
        }
        assert forall|i: int| 0 <= i < new_list@.len() implies {
            &&& (#[trigger] new_list@[i]) < artifacts@.len()
            &&& current(artifacts@[new_list@[i] as int], *run, now)
        } by {
            assert(crate::order::listed(new_list@, new_list@[i] as int));
            assert(new@[new_list@[i] as int]);
        }
    }
    let new_html = artifact_list(artifacts, details, &new_list, run, now);
    let html = artifact_list(artifacts, details, &old_list, run, now).concat(new_html.as_str());
    assert(in_order(old_list@, creation_keys(artifacts@), old_ones(artifacts@, *run, now)));
    assert(in_order(new_list@, creation_keys(artifacts@), recent_ones(artifacts@, *run, now)));
    html
}

/// What the page of a commit shows.
pub struct CommitPage {
    pub owner: String,
    pub repo: String,
    pub sha: String,
    pub repo_name: String,
    pub run: Run,
    pub artifacts: Vec<ArtifactRecord>,
    pub details: Vec<ArtifactDetail>,
    pub metrics: Option<String>,
}

/// What the page of a commit says for those who link to it.
pub open spec fn description_text(page: CommitPage, now: u64) -> Seq<char> {
    "commit "@ + byte_prefix(page.sha@, SHORT_SHA_BYTES as int) + " of "@ + page.owner@ + "/"@
        + page.repo@ + ", "@ + status_words(page.run.state, page.run.build_result) + " after "@
        + run_time(page.run, now)
}

/// The head of the page of a commit.
pub open spec fn head_html(page: CommitPage, now: u64) -> Seq<char> {
    "<head>"@ + "<title>ci.butactuallyin.space - "@ + page.repo_name@ + "</title>"@ + "\n"@
        + "<meta property=\"og:type\" content=\"website\">\n"@
        + "<meta property=\"og:site_name\" content=\"ci.butactuallyin.space\">\n"@
        + "<meta property=\"og:url\" content=\"/"@ + page.owner@ + "/"@ + page.repo@ + "/"@
        + page.sha@ + "\">\n"@ + "<meta property=\"og:title\" contents=\""@ + page.owner@ + "/"@
        + page.repo@ + " commit "@ + byte_prefix(page.sha@, SHORT_SHA_BYTES as int) + "\">"@
        + "<meta name=\"description\" content=\""@ + description_text(page, now) + "\"\n>"@
        + "<meta property=\"og:description\" content=\""@ + description_text(page, now)
        + "\"\n>"@ + "</head>\n"@
}

/// A link to the commit itself.
pub open spec fn remote_commit_html(page: CommitPage) -> Seq<char> {
    link_html(
        "https://www.github.com/"@ + page.owner@ + "/"@ + page.repo@ + "/commit/"@ + page.sha@,
        page.sha@,
    )
}

/// The page of a commit, up to its artifacts.
pub open spec fn summary_html(page: CommitPage, now: u64) -> Seq<char> {
    let opening = "<html>\n"@ + "  "@ + head_html(page, now) + "\n"@ + "  <body>\n"@
        + "    <pre>\n"@ + "repo: "@ + repo_link_html(page.repo_name@) + "\n"@ + "commit: "@
        + remote_commit_html(page) + ", run: "@ + decimal(page.run.id as nat) + "\n"@ + "status: "@
        + status_html(page.run.state, page.run.build_result) + " in "@ + run_time(page.run, now)
        + "\n"@;
    let described = match page.run.final_text {
        Some(text) => opening + "  description: "@ + text@ + "\n  "@,
        None => opening,
    };
    described + "deployed: false\n"@ + "    </pre>\n"@
}

/// The page of a commit, with its artifacts as given.
pub open spec fn commit_html(page: CommitPage, artifacts: Seq<char>, now: u64) -> Seq<char> {
    let summary = summary_html(page, now);
    let listed = if artifacts.len() > 0 {
        summary + "    <div>artifacts</div>\n"@ + artifacts
    } else {
        summary
    };
    let measured = match page.metrics {
        Some(metrics) => listed + metrics@,
        None => listed,
    };
    measured + "  </body>\n"@ + "</html>"@
}

impl CommitPage {
    /// The page can be shown at the time `now`.
    pub open spec fn showable(&self, now: u64) -> bool {
        &&& cuts_at(self.sha@, SHORT_SHA_BYTES as int)
        &&& can_time(self.run, now)
        &&& self.artifacts@.len() == self.details@.len()
        &&& forall|i: int|
            0 <= i < self.artifacts@.len() ==> artifact_showable(
                #[trigger] self.artifacts@[i],
                self.details@[i],
                self.run,
                now,
            )
    }

    /// Whether the page can be shown at the time `now`.
    pub fn can_show(&self, now: u64) -> (r: bool)
        ensures
            r == self.showable(now),
    {
        if !can_cut(self.sha.as_str(), SHORT_SHA_BYTES) || !run_can_be_timed(&self.run, now)
            || self.artifacts.len() != self.details.len() {
            return false;
        }
        let mut i: usize = 0;
        while i < self.artifacts.len()
            invariant
                i <= self.artifacts@.len(),
                self.artifacts@.len() == self.details@.len(),
                forall|j: int|
                    0 <= j < i ==> artifact_showable(
                        #[trigger] self.artifacts@[j],
                        self.details@[j],
                        self.run,
                        now,
                    ),
            decreases self.artifacts@.len() - i,
        {
            if !artifact_can_be_shown(&self.artifacts[i], &self.details[i], &self.run, now) {
                return false;
            }
            i = i + 1;
        }
        true
    }

    fn description(&self, now: u64) -> (r: String)
        requires
            self.showable(now),
        ensures
            r@ == description_text(*self, now),
    {
        let short_sha = first_bytes(self.sha.as_str(), SHORT_SHA_BYTES);
        let time = display_run_time_at(&self.run, now);
        "commit ".to_owned().concat(short_sha.as_str()).concat(" of ").concat(
            self.owner.as_str(),
        ).concat("/").concat(self.repo.as_str()).concat(", ").concat(
            status_description(self.run.state, self.run.build_result),
        ).concat(" after ").concat(time.as_str())
    }

    fn head(&self, now: u64) -> (r: String)
        requires
            self.showable(now),
        ensures
            r@ == head_html(*self, now),
    {
        let short_sha = first_bytes(self.sha.as_str(), SHORT_SHA_BYTES);
        let description = self.description(now);
        let mut head = "<head>".to_owned();
        head.append("<title>ci.butactuallyin.space - ");
        head.append(self.repo_name.as_str());
        head.append("</title>");
        head.append("\n");
        head.append("<meta property=\"og:type\" content=\"website\">\n");
        head.append("<meta property=\"og:site_name\" content=\"ci.butactuallyin.space\">\n");
        head.append("<meta property=\"og:url\" content=\"/");
        head.append(self.owner.as_str());
        head.append("/");
        head.append(self.repo.as_str());
        head.append("/");
        head.append(self.sha.as_str());
        head.append("\">\n");
        head.append("<meta property=\"og:title\" contents=\"");
        head.append(self.owner.as_str());
        head.append("/");
        head.append(self.repo.as_str());
        head.append(" commit ");
        head.append(short_sha.as_str());
        head.append("\">");
        head.append("<meta name=\"description\" content=\"");
        head.append(description.as_str());
        head.append("\"\n>");
        head.append("<meta property=\"og:description\" content=\"");
        head.append(description.as_str());
        head.append("\"\n>");
        head.append("</head>\n");
        head
    }

    fn summary(&self, now: u64) -> (r: String)
        requires
            self.showable(now),
        ensures
            r@ == summary_html(*self, now),
    {
        let head = self.head(now);
        let repo_html = repo_link(self.repo_name.as_str());
        let commit_url = "https://www.github.com/".to_owned().concat(self.owner.as_str()).concat(
            "/",
        ).concat(self.repo.as_str()).concat("/commit/").concat(self.sha.as_str());
        let commit_link = link(commit_url.as_str(), self.sha.as_str());
        let run_id = decimal_text(self.run.id);
        let time = display_run_time_at(&self.run, now);

        let mut html = "<html>\n".to_owned();
        html.append("  ");
        html.append(head.as_str());
        html.append("\n");
        html.append("  <body>\n");
        html.append("    <pre>\n");
        html.append("repo: ");
        html.append(repo_html.as_str());
        html.append("\n");
        html.append("commit: ");
        html.append(commit_link.as_str());
        html.append(", run: ");
        html.append(run_id.as_str());
        html.append("\n");
        html.append("status: ");
        html.append(status_element(self.run.state, self.run.build_result));
        html.append(" in ");
        html.append(time.as_str());
        html.append("\n");
        if let Some(text) = &self.run.final_text {
            html.append("  description: ");
            html.append(text.as_str());
            html.append("\n  ");
        }
        html.append("deployed: false\n");
        html.append("    </pre>\n");
        html
    }
}

/// The page of a commit at the time `now`.
pub fn handle_commit_status(page: &CommitPage, now: u64) -> (r: String)
    requires
        page.showable(now),
    ensures
        exists|artifacts: Seq<char>|
            {
                &&& #[trigger] artifacts_html(
                    page.artifacts@,
                    page.details@,
                    page.run,
                    now,
                    artifacts,
                )
                &&& r@ == commit_html(*page, artifacts, now)
            },
{
    let artifacts = artifact_fragment(&page.artifacts, &page.details, &page.run, now);
    let mut html = page.summary(now);
    if artifacts.as_str().unicode_len() > 0 {
        html.append("    <div>artifacts</div>\n");
        html.append(artifacts.as_str());
    }
    if let Some(metrics) = &page.metrics {
        html.append(metrics.as_str());
    }
    html.append("  </body>\n");
    html.append("</html>");
    html
}

proof fn statuses_differ()
    ensures
        "<span style='color:#660;'>pending</span>"@.len() == 40,
        "<span style='color:green;'>pass</span>"@.len() == 38,
        "<span style='color:red;'>failed</span>"@.len() == 38,
        "<span style='color:red;'>failed</span>"@[19] == 'r',
        "<span style='color:green;'>pass</span>"@[19] == 'g',
        "<span style='color:red;'>unreported</span>"@.len() == 42,
        "<span style='color:red;'>error</span>"@.len() == 37,
        "<span style='color:red;'>(server error)</span>"@.len() == 46,
{
    reveal_strlit("<span style='color:#660;'>pending</span>");
    reveal_strlit("<span style='color:green;'>pass</span>");
    reveal_strlit("<span style='color:red;'>failed</span>");
    reveal_strlit("<span style='color:red;'>unreported</span>");
    reveal_strlit("<span style='color:red;'>error</span>");
    reveal_strlit("<span style='color:red;'>(server error)</span>");
}

/// The page shows a run as passed exactly if it has finished and reported success, as failed exactly
/// if it has finished and reported anything else, as pending exactly if it has not ended, and every
/// other as what it is.
pub proof fn statuses_show_how_runs_stand(state: RunState, build_result: Option<u8>)
    ensures
        status_html(state, build_result) == "<span style='color:green;'>pass</span>"@ <==> state
            == RunState::Finished && build_result == Some(0u8),
        status_html(state, build_result) == "<span style='color:red;'>failed</span>"@ <==> state
            == RunState::Finished && (build_result matches Some(result) && result != 0),
        status_html(state, build_result) == "<span style='color:red;'>unreported</span>"@
            <==> state == RunState::Finished && build_result is None,
        status_html(state, build_result) == "<span style='color:#660;'>pending</span>"@ <==> state
            == RunState::Pending || state == RunState::Started,
        status_html(state, build_result) == "<span style='color:red;'>error</span>"@ <==> state
            == RunState::Error,
        status_html(state, build_result) == "<span style='color:red;'>(server error)</span>"@
            <==> state == RunState::Invalid,
{
    statuses_differ();
}

/// The words for a run and the status that the page shows of it agree: one run is in progress,
/// passed, failed and so on in words exactly if the page shows it so.
pub proof fn words_and_statuses_agree(
    state: RunState,
    build_result: Option<u8>,
    other_state: RunState,
    other_result: Option<u8>,
)
    ensures
        status_words(state, build_result) == status_words(other_state, other_result)
            <==> status_html(state, build_result) == status_html(other_state, other_result),
        status_words(state, build_result) == "⌛in progress"@ <==> state == RunState::Pending
            || state == RunState::Started,
        status_words(state, build_result) == "✅ passed"@ <==> state == RunState::Finished
            && build_result == Some(0u8),
        status_words(state, build_result) == "❌ failed"@ <==> state == RunState::Finished && (
        build_result matches Some(result) && result != 0),
{
    statuses_differ();
    reveal_strlit("⌛in progress");
    reveal_strlit("✅ passed");
    reveal_strlit("❌ failed");
    reveal_strlit("❔ missing status");
    reveal_strlit("🧯 error, uncompleted");
    reveal_strlit("dude even i don't know");
    assert("⌛in progress"@.len() == 12);
    assert("✅ passed"@.len() == 8);
    assert("❌ failed"@.len() == 8);
    assert("✅ passed"@[2] == 'p' && "❌ failed"@[2] == 'f');
    assert("❔ missing status"@.len() == 16);
    assert("🧯 error, uncompleted"@.len() == 20);
    assert("dude even i don't know"@.len() == 22);
}

/// What a run's recent artifacts hold is shown only of a run that has ended, and of none that
/// passed; and it is shown of every run whose page shows an error.
pub proof fn contents_show_what_went_wrong(state: RunState, build_result: Option<u8>)
    ensures
        shows_contents(state, build_result) ==> status_html(state, build_result)
            == "<span style='color:red;'>failed</span>"@ || status_html(state, build_result)
            == "<span style='color:red;'>error</span>"@,
        status_html(state, build_result) == "<span style='color:red;'>error</span>"@
            ==> shows_contents(state, build_result),
        state == RunState::Finished && build_result == Some(1u8) ==> shows_contents(
            state,
            build_result,
        ),
{
    statuses_differ();
}

/// The page of a commit says how its run stands and how long it took, links to the repository and to
/// the commit itself, and says what the run said at its end and what it measured.
pub proof fn pages_show_how_runs_stand(page: CommitPage, artifacts: Seq<char>, now: u64)
    ensures
        occurs(
            commit_html(page, artifacts, now),
            "status: "@ + status_html(page.run.state, page.run.build_result) + " in "@ + run_time(
                page.run,
                now,
            ) + "\n"@,
        ),
        occurs(
            commit_html(page, artifacts, now),
            "repo: "@ + link_html("/"@ + page.repo_name@, page.repo_name@) + "\n"@,
        ),
        occurs(
            commit_html(page, artifacts, now),
            "commit: "@ + link_html(
                "https://www.github.com/"@ + page.owner@ + "/"@ + page.repo@ + "/commit/"@
                    + page.sha@,
                page.sha@,
            ) + ", run: "@ + decimal(page.run.id as nat) + "\n"@,
        ),
        page.run.final_text matches Some(text) ==> occurs(
            commit_html(page, artifacts, now),
            "  description: "@ + text@ + "\n  "@,
        ),
        artifacts.len() > 0 ==> occurs(commit_html(page, artifacts, now), artifacts),
        page.metrics matches Some(metrics) ==> occurs(
            commit_html(page, artifacts, now),
            metrics@,
        ),
{
    let x1 = "<html>\n"@ + "  "@ + head_html(page, now) + "\n"@ + "  <body>\n"@ + "    <pre>\n"@;
    let repo = repo_link_html(page.repo_name@);
    let x2 = x1 + "repo: "@ + repo + "\n"@;
    three_last_parts_occur(x1, "repo: "@, repo, "\n"@);
    let x3 = x2 + "commit: "@ + remote_commit_html(page) + ", run: "@ + decimal(
        page.run.id as nat,
    ) + "\n"@;
    five_last_parts_occur(
        x2,
        "commit: "@,
        remote_commit_html(page),
        ", run: "@,
        decimal(page.run.id as nat),
        "\n"@,
    );
    let status = status_html(page.run.state, page.run.build_result);
    let time = run_time(page.run, now);
    let opening = x3 + "status: "@ + status + " in "@ + time + "\n"@;
    five_last_parts_occur(x3, "status: "@, status, " in "@, time, "\n"@);
    let repo_line = "repo: "@ + repo + "\n"@;
    let commit_line = "commit: "@ + remote_commit_html(page) + ", run: "@ + decimal(
        page.run.id as nat,
    ) + "\n"@;
    let status_line = "status: "@ + status + " in "@ + time + "\n"@;
    grown_by_five(x2, "commit: "@, remote_commit_html(page), ", run: "@, decimal(
        page.run.id as nat,
    ), "\n"@, repo_line);
    grown_by_five(x3, "status: "@, status, " in "@, time, "\n"@, repo_line);
    grown_by_five(x3, "status: "@, status, " in "@, time, "\n"@, commit_line);
    let described = match page.run.final_text {
        Some(text) => opening + "  description: "@ + text@ + "\n  "@,
        None => opening,
    };
    if let Some(text) = page.run.final_text {
        three_last_parts_occur(opening, "  description: "@, text@, "\n  "@);
        let line = "  description: "@ + text@ + "\n  "@;
        summary_is_shown(page, artifacts, now, described, line);
        grown_by_three(opening, "  description: "@, text@, "\n  "@, repo_line);
        grown_by_three(opening, "  description: "@, text@, "\n  "@, commit_line);
        grown_by_three(opening, "  description: "@, text@, "\n  "@, status_line);
    }
    summary_is_shown(page, artifacts, now, described, repo_line);
    summary_is_shown(page, artifacts, now, described, commit_line);
    summary_is_shown(page, artifacts, now, described, status_line);
    rest_is_shown(page, artifacts, now);
}

proof fn grown_by_five(
    x: Seq<char>,
    a: Seq<char>,
    b: Seq<char>,
    c: Seq<char>,
    d: Seq<char>,
    e: Seq<char>,
    part: Seq<char>,
)
    requires
        occurs(x, part),
    ensures
        occurs(x + a + b + c + d + e, part),
{
    beginnings_occur(x, a, part);
    beginnings_occur(x + a, b, part);
    beginnings_occur(x + a + b, c, part);
    beginnings_occur(x + a + b + c, d, part);
    beginnings_occur(x + a + b + c + d, e, part);
}

proof fn grown_by_three(
    x: Seq<char>,
    a: Seq<char>,
    b: Seq<char>,
    c: Seq<char>,
    part: Seq<char>,
)
    requires
        occurs(x, part),
    ensures
        occurs(x + a + b + c, part),
{
    beginnings_occur(x, a, part);
    beginnings_occur(x + a, b, part);
    beginnings_occur(x + a + b, c, part);
}

proof fn summary_is_shown(
    page: CommitPage,
    artifacts: Seq<char>,
    now: u64,
    described: Seq<char>,
    part: Seq<char>,
)
    requires
        occurs(described, part),
        summary_html(page, now) == described + "deployed: false\n"@ + "    </pre>\n"@,
    ensures
        occurs(commit_html(page, artifacts, now), part),
{
    beginnings_occur(described, "deployed: false\n"@, part);
    beginnings_occur(described + "deployed: false\n"@, "    </pre>\n"@, part);
    let summary = summary_html(page, now);
    let listed = if artifacts.len() > 0 {
        summary + "    <div>artifacts</div>\n"@ + artifacts
    } else {
        summary
    };
    if artifacts.len() > 0 {
        beginnings_occur(summary, "    <div>artifacts</div>\n"@, part);
        beginnings_occur(summary + "    <div>artifacts</div>\n"@, artifacts, part);
    }
    let measured = match page.metrics {
        Some(metrics) => listed + metrics@,
        None => listed,
    };
    if let Some(metrics) = page.metrics {
        beginnings_occur(listed, metrics@, part);
    }
    beginnings_occur(measured, "  </body>\n"@, part);
    beginnings_occur(measured + "  </body>\n"@, "</html>"@, part);
}

proof fn rest_is_shown(page: CommitPage, artifacts: Seq<char>, now: u64)
    ensures
        artifacts.len() > 0 ==> occurs(commit_html(page, artifacts, now), artifacts),
        page.metrics matches Some(metrics) ==> occurs(
            commit_html(page, artifacts, now),
            metrics@,
        ),
{
    let none = Seq::<char>::empty();
    let summary = summary_html(page, now);
    let listed = if artifacts.len() > 0 {
        summary + "    <div>artifacts</div>\n"@ + artifacts
    } else {
        summary
    };
    let measured = match page.metrics {
        Some(metrics) => listed + metrics@,
        None => listed,
    };
    if artifacts.len() > 0 {
        parts_occur(summary + "    <div>artifacts</div>\n"@, artifacts, none);
        assert(listed + none =~= listed);
        if let Some(metrics) = page.metrics {
            beginnings_occur(listed, metrics@, artifacts);
        }
        beginnings_occur(measured, "  </body>\n"@, artifacts);
        beginnings_occur(measured + "  </body>\n"@, "</html>"@, artifacts);
    }
    if let Some(metrics) = page.metrics {
        parts_occur(listed, metrics@, none);
        assert(listed + metrics@ + none =~= measured);
        beginnings_occur(measured, "  </body>\n"@, metrics@);
        beginnings_occur(measured + "  </body>\n"@, "</html>"@, metrics@);
    }
}

/// What is shown of an artifact: nothing if it was made before the run was last started; else its
/// size if it was completed more than a minute before the run; and else what it holds if the run went
/// wrong, and its size if it did not. What is not completed, or not started, counts as being so now.
pub proof fn artifacts_are_shown_by_their_age(artifact: ArtifactRecord, run: Run, now: u64)
    ensures
        ({
            let started = match run.start_time {
                Some(time) => time,
                None => now,
            };
            let ended = match run.complete_time {
                Some(time) => time,
                None => now,
            };
            let completed = match artifact.completed_time {
                Some(time) => time,
                None => now,
            };
            let wrong = run.state == RunState::Error || run.state == RunState::Finished
                && run.build_result == Some(1u8);
            let wish = wish_for(artifact, run, now);
            &&& wish == ArtifactWish::Nothing <==> artifact.created_time < started
            &&& wish == ArtifactWish::Size <==> artifact.created_time >= started && ended
                > completed + 60_000
            &&& wish == ArtifactWish::Content <==> artifact.created_time >= started && ended
                <= completed + 60_000 && wrong
            &&& wish == ArtifactWish::SizeIfKnown <==> artifact.created_time >= started && ended
                <= completed + 60_000 && !wrong
        }),
{
}

proof fn listed_artifacts_occur(
    artifacts: Seq<ArtifactRecord>,
    details: Seq<ArtifactDetail>,
    list: Seq<usize>,
    n: nat,
    i: int,
    now: u64,
)
    requires
        0 <= i < n <= list.len(),
    ensures
        occurs(
            artifact_list_html(artifacts, details, list, n, now),
            artifact_html(artifacts[list[i] as int], details[list[i] as int], now),
        ),
    decreases n,
{
    let part = artifact_html(artifacts[list[i] as int], details[list[i] as int], now);
    let rest = artifact_list_html(artifacts, details, list, (n - 1) as nat, now);
    let k = list[n - 1] as int;
    let last = artifact_html(artifacts[k], details[k], now);
    if i == n - 1 {
        let none = Seq::<char>::empty();
        parts_occur(rest, part, none);
        assert(rest + part + none =~= rest + part);
    } else {
        listed_artifacts_occur(artifacts, details, list, (n - 1) as nat, i, now);
        beginnings_occur(rest, last, part);
    }
}

/// Every artifact that the run made since it was last started is shown, and where there is none
/// nothing is.
pub proof fn artifacts_of_the_run_are_shown(
    artifacts: Seq<ArtifactRecord>,
    details: Seq<ArtifactDetail>,
    run: Run,
    now: u64,
    html: Seq<char>,
    k: int,
)
    requires
        artifacts_html(artifacts, details, run, now, html),
    ensures
        0 <= k < artifacts.len() && artifacts[k].created_time >= (match run.start_time {
            Some(time) => time,
            None => now,
        }) ==> occurs(html, artifact_html(artifacts[k], details[k], now)),
        (forall|i: int|
            0 <= i < artifacts.len() ==> !current(#[trigger] artifacts[i], run, now))
            ==> html.len() == 0,
{
    let keys = creation_keys(artifacts);
    let olds = old_ones(artifacts, run, now);
    let news = recent_ones(artifacts, run, now);
    let (old, new) = choose|old: Seq<usize>, new: Seq<usize>|
        {
            &&& #[trigger] in_order(old, keys, olds)
            &&& #[trigger] in_order(new, keys, news)
            &&& html == artifact_list_html(artifacts, details, old, old.len(), now)
                + artifact_list_html(artifacts, details, new, new.len(), now)
        };
    let first = artifact_list_html(artifacts, details, old, old.len(), now);
    let second = artifact_list_html(artifacts, details, new, new.len(), now);
    if 0 <= k < artifacts.len() && current(artifacts[k], run, now) {
        let part = artifact_html(artifacts[k], details[k], now);
        if recent(artifacts[k], run, now) {
            assert(news[k]);
            let i = choose|i: int| 0 <= i < new.len() && (#[trigger] new[i]) == k;
            listed_artifacts_occur(artifacts, details, new, new.len(), i, now);
            let none = Seq::<char>::empty();
            parts_of_parts_occur(first, second, none, part);
            assert(first + second + none =~= html);
        } else {
            assert(olds[k]);
            let i = choose|i: int| 0 <= i < old.len() && (#[trigger] old[i]) == k;
            listed_artifacts_occur(artifacts, details, old, old.len(), i, now);
            beginnings_occur(first, second, part);
        }
    }
    if forall|i: int| 0 <= i < artifacts.len() ==> !current(#[trigger] artifacts[i], run, now) {
        if old.len() > 0 {
            let i = old[0] as int;
            assert(crate::order::listed(old, i));
            assert(olds[i]);
            assert(current(artifacts[i], run, now));
        }
        if new.len() > 0 {
            let i = new[0] as int;
            assert(crate::order::listed(new, i));
            assert(news[i]);
            assert(current(artifacts[i], run, now));
        }
    }
}

/// An artifact is shown with the time at which it was made, its name, and its size in units of 1024
/// bytes and how long it took, or what it holds.
pub proof fn artifacts_say_what_they_are(
    artifact: ArtifactRecord,
    detail: ArtifactDetail,
    now: u64,
)
    ensures
        occurs(artifact_html(artifact, detail, now), artifact.name@),
        occurs(
            artifact_html(artifact, detail, now),
            rfc2822_of_millis(artifact.created_time as i64),
        ),
        detail matches ArtifactDetail::Size(bytes) ==> detail_html(artifact, detail, now)
            == "<pre>  "@ + decimal((bytes / 1024) as nat) + "kb in "@ + human_duration(
            ((match artifact.completed_time {
                Some(time) => time,
                None => now,
            }) - artifact.created_time) as nat,
        ) + " </pre>\n"@,
        detail matches ArtifactDetail::Content(content) ==> occurs(
            detail_html(artifact, detail, now),
            content@,
        ),
        detail_html(artifact, detail, now).is_suffix_of(artifact_html(artifact, detail, now)),
{
    let time = rfc2822_of_millis(artifact.created_time as i64);
    let a = "<div><pre style='display:inline;'>"@;
    let b = "</pre> step: <pre style='display:inline;'>"@;
    let c = "</pre></div>\n"@;
    let tail = detail_html(artifact, detail, now);
    let html = artifact_html(artifact, detail, now);
    parts_occur(a, time, b);
    beginnings_occur(a + time + b, artifact.name@, time);
    beginnings_occur(a + time + b + artifact.name@, c, time);
    beginnings_occur(a + time + b + artifact.name@ + c, tail, time);
    parts_occur(a + time + b, artifact.name@, c);
    beginnings_occur(a + time + b + artifact.name@ + c, tail, artifact.name@);
    assert(tail =~= html.subrange(html.len() - tail.len(), html.len() as int));
    if let ArtifactDetail::Content(content) = detail {
        parts_occur("<pre>"@, content@, "</pre>\n"@);
    }
}

/// What the page of a commit says for those who link to it: the beginning of the hash, the path of
/// the repository, how the run stands in words, and how long it took.
pub proof fn links_show_how_runs_stand(page: CommitPage, now: u64)
    ensures
        occurs(
            head_html(page, now),
            "<meta property=\"og:description\" content=\""@ + ("commit "@ + byte_prefix(page.sha@, 9)
                + " of "@ + page.owner@ + "/"@ + page.repo@ + ", "@ + status_words(
                page.run.state,
                page.run.build_result,
            ) + " after "@ + run_time(page.run, now)) + "\"\n>"@,
        ),
{
    let opening = "<head>"@ + "<title>ci.butactuallyin.space - "@ + page.repo_name@ + "</title>"@
        + "\n"@ + "<meta property=\"og:type\" content=\"website\">\n"@
        + "<meta property=\"og:site_name\" content=\"ci.butactuallyin.space\">\n"@
        + "<meta property=\"og:url\" content=\"/"@ + page.owner@ + "/"@ + page.repo@ + "/"@
        + page.sha@ + "\">\n"@ + "<meta property=\"og:title\" contents=\""@ + page.owner@ + "/"@
        + page.repo@ + " commit "@ + byte_prefix(page.sha@, SHORT_SHA_BYTES as int) + "\">"@
        + "<meta name=\"description\" content=\""@ + description_text(page, now) + "\"\n>"@;
    let mark = "<meta property=\"og:description\" content=\""@;
    let text = description_text(page, now);
    three_last_parts_occur(opening, mark, text, "\"\n>"@);
    beginnings_occur(opening + mark + text + "\"\n>"@, "</head>\n"@, mark + text + "\"\n>"@);
}

/// Artifacts are listed in the order in which they were made.
pub proof fn artifacts_are_listed_by_time(
    artifacts: Seq<ArtifactRecord>,
    chosen: Seq<bool>,
    list: Seq<usize>,
    i: int,
    j: int,
)
    requires
        in_order(list, creation_keys(artifacts), chosen),
        0 <= i < j < list.len(),
    ensures
        list[i] < artifacts.len(),
        list[j] < artifacts.len(),
        artifacts[list[i] as int].created_time <= artifacts[list[j] as int].created_time,
{
    assert(crate::order::comes_before(
        creation_keys(artifacts),
        list[i] as int,
        list[j] as int,
    ));
}

} // verus!
