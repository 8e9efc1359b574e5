//! The program that hands jobs to runners and records what comes of them.

use crate::commit_page::status_html;
use crate::dbctx::Bound;
use crate::dbctx::DbCtx;
use crate::dbctx::Param;
use crate::dbctx::Statement;
use crate::dbctx::TOKEN_EXPIRY_MS;
use crate::json::JsonTree;
use crate::json::json_written;
use crate::json::listed_trees;
use crate::json::object_value;
use crate::json::text_value;
use crate::json::write_value;
use crate::notifier::Notice;
use crate::notifier::RemoteNotifier;
use crate::notifier::tell_all_complete;
use crate::paths::path_joined;
use crate::paths::path_under;
use crate::protocol::ClientProto;
use crate::protocol::HostInfo;
use crate::protocol::RequestedJob;
use crate::protocol::TaskInfo;
use crate::rows::validity_at;
use crate::runner::JobAction;
use crate::runner::JobEvent;
use crate::runner::JobStage;
use crate::runner::ends_with_word;
use crate::runner::job_moves;
use crate::runner::only_built_jobs_pass;
use crate::sql::Job;
use crate::sql::JobResult;
use crate::sql::PendingRun;
use crate::sql::Run;
use crate::sql::RunState;
use crate::sql::TokenValidity;
use crate::tables::binds;
use crate::tables::insert_head;
use crate::tables::metric_columns;
use crate::tables::metric_texts_name_their_columns;
use crate::tables::named_values_are_bound;
use crate::text::decimal;
use crate::text::decimal_is_injective;
use crate::text::decimal_reads_back;
use crate::text::decimal_text;
use crate::text::is_digit;
use crate::text::occurs;
use crate::text::occurs_at;
use crate::text::same;
use crate::web::result_html;
use vstd::prelude::*;

verus! {

/// A run that was started this many milliseconds ago and that no client has in hand is stale.
pub const STALE_MS: u64 = 60_000;

/// How long to wait before looking for a task for a client again.
pub const FIND_POLL_MS: u64 = 100;

/// For how many seconds a task is looked for, for one client.
pub const FIND_DEADLINE_SECS: u64 = 300;

/// The directory for the artifacts of a run.
pub open spec fn artifacts_dir(run: u64) -> Seq<char> {
    path_under("/root/ixi_ci_server/artifacts/"@, decimal(run as nat))
}

/// What came of making a directory.
#[derive(Debug, Clone, Copy, PartialEq, Eq, Structural)]
pub enum MadeDir {
    Made,
    AlreadyThere,
    Failed,
}

/// The directory that has to be made for the artifacts of a run.
pub fn artifacts_path(run: u64) -> (r: String)
    ensures
        r@ == artifacts_dir(run),
{
    let id = decimal_text(run);
    path_joined("/root/ixi_ci_server/artifacts/", id.as_str())
}

/// The directory for the artifacts of a run, where it could be made or is there.
pub open spec fn reserves_dir(run: u64, made: MadeDir, dir: Option<String>) -> bool {
    match dir {
        Some(path) => made != MadeDir::Failed && path@ == artifacts_dir(run),
        None => made == MadeDir::Failed,
    }
}

/// A run has a directory for its artifacts exactly if it was made or is there already, and no two
/// runs have the same.
pub proof fn runs_have_their_own_directories(
    run: u64,
    other: u64,
    made: MadeDir,
    dir: Option<String>,
    other_dir: Option<String>,
)
    requires
        reserves_dir(run, made, dir),
        reserves_dir(other, made, other_dir),
    ensures
        dir is Some <==> made == MadeDir::Made || made == MadeDir::AlreadyThere,
        dir matches Some(path) ==> "/root/ixi_ci_server/artifacts/"@.is_prefix_of(path@),
        dir is Some && other_dir is Some && dir->0@ == other_dir->0@ ==> run == other,
{
    reveal_strlit("/root/ixi_ci_server/artifacts/");
    let base = "/root/ixi_ci_server/artifacts/"@;
    assert(base.last() == '/');
    number_paths_are_below(run);
    number_paths_are_below(other);
    if dir is Some {
        assert(base =~= dir->0@.take(base.len() as int));
        if other_dir is Some && dir->0@ == other_dir->0@ {
            assert(decimal(run as nat) =~= dir->0@.skip(base.len() as int));
            assert(decimal(other as nat) =~= other_dir->0@.skip(base.len() as int));
            decimal_is_injective(run as nat, other as nat);
        }
    }
}

proof fn number_paths_are_below(run: u64)
    ensures
        artifacts_dir(run) == "/root/ixi_ci_server/artifacts/"@ + decimal(run as nat),
{
    reveal_strlit("/root/ixi_ci_server/artifacts/");
    assert("/root/ixi_ci_server/artifacts/"@.last() == '/');
    decimal_reads_back(run as nat);
    let digits = decimal(run as nat);
    if digits.len() > 0 && digits[0] == '/' {
        assert(is_digit(digits[0]));
    }
}

/// The directory for the artifacts of a run, by what came of making it: it may be there already.
pub fn reserve_artifacts_dir(run: u64, made: MadeDir) -> (r: Option<String>)
    ensures
        reserves_dir(run, made, r),
{
    match made {
        MadeDir::Made => Some(artifacts_path(run)),
        MadeDir::AlreadyThere => Some(artifacts_path(run)),
        MadeDir::Failed => None,
    }
}

/// A digit of base 64.
pub open spec fn base64_digit(d: int) -> char {
    if d < 26 {
        (65 + d) as char
    } else if d < 52 {
        (71 + d) as char
    } else if d < 62 {
        (d - 4) as char
    } else if d == 62 {
        '+'
    } else {
        '/'
    }
}

/// Bytes in base 64: four digits for every three of them, and `=` in place of the digits that two or
/// one at the end do not need.
pub open spec fn base64_text(data: Seq<u8>) -> Seq<char>
    decreases data.len(),
{
    if data.len() == 0 {
        Seq::empty()
    } else if data.len() == 1 {
        seq![base64_digit(data[0] as int / 4), base64_digit(data[0] % 4 * 16), '=', '=']
    } else if data.len() == 2 {
        seq![
            base64_digit(data[0] as int / 4),
            base64_digit(data[0] % 4 * 16 + data[1] / 16),
            base64_digit(data[1] % 16 * 4),
            '=',
        ]
    } else {
        seq![
            base64_digit(data[0] as int / 4),
            base64_digit(data[0] % 4 * 16 + data[1] / 16),
            base64_digit(data[1] % 16 * 4 + data[2] / 64),
            base64_digit(data[2] as int % 64),
        ] + base64_text(data.skip(3))
    }
}

proof fn digits_differ(a: int, b: int)
    requires
        0 <= a < 64,
        0 <= b < 64,
        base64_digit(a) == base64_digit(b),
    ensures
        a == b,
{
}

/// Different data gives different text.
pub proof fn base64_is_injective(a: Seq<u8>, b: Seq<u8>)
    requires
        a.len() == b.len(),
        base64_text(a) == base64_text(b),
    ensures
        a == b,
    decreases a.len(),
{
    let ta = base64_text(a);
    let tb = base64_text(b);
    if a.len() > 0 {
        assert(ta[0] == base64_digit(a[0] as int / 4) && tb[0] == base64_digit(b[0] as int / 4));
        digits_differ(a[0] as int / 4, b[0] as int / 4);
        if a.len() == 1 {
            assert(ta[1] == base64_digit(a[0] % 4 * 16) && tb[1] == base64_digit(b[0] % 4 * 16));
            digits_differ(a[0] % 4 * 16, b[0] % 4 * 16);
        } else {
            assert(ta[1] == base64_digit(a[0] % 4 * 16 + a[1] / 16) && tb[1] == base64_digit(
                b[0] % 4 * 16 + b[1] / 16,
            ));
            digits_differ(a[0] % 4 * 16 + a[1] / 16, b[0] % 4 * 16 + b[1] / 16);
            if a.len() == 2 {
                assert(ta[2] == base64_digit(a[1] % 16 * 4) && tb[2] == base64_digit(
                    b[1] % 16 * 4,
                ));
                digits_differ(a[1] % 16 * 4, b[1] % 16 * 4);
            } else {
                assert(ta[2] == base64_digit(a[1] % 16 * 4 + a[2] / 64) && tb[2] == base64_digit(
                    b[1] % 16 * 4 + b[2] / 64,
                ));
                digits_differ(a[1] % 16 * 4 + a[2] / 64, b[1] % 16 * 4 + b[2] / 64);
                assert(ta[3] == base64_digit(a[2] as int % 64) && tb[3] == base64_digit(
                    b[2] as int % 64,
                ));
                digits_differ(a[2] as int % 64, b[2] as int % 64);
                let ra = base64_text(a.skip(3));
                let rb = base64_text(b.skip(3));
                assert(ra =~= ta.skip(4));
                assert(rb =~= tb.skip(4));
                base64_is_injective(a.skip(3), b.skip(3));
                assert forall|i: int| 0 <= i < a.len() implies a[i] == b[i] by {
                    if i >= 3 {
                        assert(a.skip(3)[i - 3] == b.skip(3)[i - 3]);
                    }
                }
            }
        }
    }
    assert(a =~= b);
}

/// `base64::encode`. It gives the bytes in base 64, with the digits of the standard alphabet and
/// with padding.
#[verifier::external_body]
fn base64_encode(data: &[u8; 32]) -> (r: String)
    ensures
        r@ == base64_text(data@),
{
    base64::encode(data)
}

/// The token of a job, of 32 random bytes.
pub fn token_for_job(data: &[u8; 32]) -> (r: String)
    ensures
        r@ == base64_text(data@),
{
    base64_encode(data)
}

/// Jobs whose tokens are made of different bytes have different tokens.
pub proof fn tokens_differ(a: Seq<u8>, b: Seq<u8>)
    requires
        a.len() == 32,
        b.len() == 32,
        a != b,
    ensures
        base64_text(a) != base64_text(b),
{
    if base64_text(a) == base64_text(b) {
        base64_is_injective(a, b);
    }
}

/// A runner that asked for a task.
pub struct RunnerClient {
    pub host_id: u32,
    pub build_token: String,
    pub accepted_sources: Option<Vec<String>>,
}

/// The list holds the text.
pub open spec fn lists_text(list: Seq<String>, text: Seq<char>) -> bool {
    exists|i: int| 0 <= i < list.len() && (#[trigger] list[i])@ == text
}

/// A runner takes every job unless it said whose it takes; then it takes theirs only, and none of
/// which it is not known whose it is.
pub open spec fn accepts(client: RunnerClient, job: Job) -> bool {
    match (job.source, client.accepted_sources) {
        (_, None) => true,
        (None, Some(_)) => false,
        (Some(source), Some(accepted)) => lists_text(accepted@, source@),
    }
}

/// The first of the jobs that a runner takes.
pub open spec fn first_accepted(client: RunnerClient, jobs: Seq<Job>, k: int) -> bool {
    &&& 0 <= k < jobs.len()
    &&& accepts(client, jobs[k])
    &&& forall|j: int| 0 <= j < k ==> !accepts(client, #[trigger] jobs[j])
}

/// None of the jobs is one that a runner takes.
pub open spec fn none_accepted(client: RunnerClient, jobs: Seq<Job>) -> bool {
    forall|j: int| 0 <= j < jobs.len() ==> !accepts(client, #[trigger] jobs[j])
}

/// What came of looking for a task for a runner.
pub enum FindEvent {
    /// These are the jobs of the runs that wait, in order.
    Pending(Vec<Job>),
    /// These are the jobs that were not run on the runner's host yet, in order.
    Alternates(Vec<Job>),
    /// The wait is over.
    Waited,
    /// Whether the runner still answers, and how many seconds the search has taken.
    Tested { alive: bool, elapsed_secs: u64 },
}

/// What is done next to find a task for a runner.
#[derive(Debug, Clone, Copy, PartialEq, Eq, Structural)]
pub enum FindAction {
    /// The run that waits of this number is given to the runner.
    Give(usize),
    /// The jobs that were not run on the runner's host yet are looked up.
    AskAlternates,
    /// A run of the job of this number is made, and given to the runner.
    MakeRun(usize),
    Wait(u64),
    /// The runner is asked whether it is still there.
    Test,
    /// The runs that wait are looked up.
    AskPending,
    LostConnection,
    DeadlineElapsed,
}

impl FindAction {
    /// What is said of a search that has failed.
    pub open spec fn words(self) -> Option<Seq<char>> {
        match self {
            FindAction::LostConnection => Some("lost client connection"@),
            FindAction::DeadlineElapsed => Some("5min new task deadline elapsed"@),
            _ => None,
        }
    }

    pub fn text(self) -> (r: Option<&'static str>)
        ensures
            match r {
                Some(text) => self.words() == Some(text@),
                None => self.words() is None,
            },
    {
        match self {
            FindAction::LostConnection => Some("lost client connection"),
            FindAction::DeadlineElapsed => Some("5min new task deadline elapsed"),
            _ => None,
        }
    }
}

/// A runner's task is the first run that waits and that it takes; or else a new run of the first job
/// that was not run on its host yet and that it takes; or else the search is made again after a
/// while, as long as the runner is there and its time is not up.
pub open spec fn finds(client: RunnerClient, event: FindEvent, action: FindAction) -> bool {
    match event {
        FindEvent::Pending(jobs) => match action {
            FindAction::Give(k) => first_accepted(client, jobs@, k as int),
            FindAction::AskAlternates => none_accepted(client, jobs@),
            _ => false,
        },
        FindEvent::Alternates(jobs) => match action {
            FindAction::MakeRun(k) => first_accepted(client, jobs@, k as int),
            FindAction::Wait(ms) => ms == FIND_POLL_MS && none_accepted(client, jobs@),
            _ => false,
        },
        FindEvent::Waited => action == FindAction::Test,
        FindEvent::Tested { alive, elapsed_secs } => action == (if !alive {
            FindAction::LostConnection
        } else if elapsed_secs > FIND_DEADLINE_SECS {
            FindAction::DeadlineElapsed
        } else {
            FindAction::AskPending
        }),
    }
}

/// No runner is given a job that it does not take.
pub proof fn given_jobs_are_accepted(client: RunnerClient, event: FindEvent, action: FindAction)
    requires
        finds(client, event, action),
    ensures
        match (event, action) {
            (FindEvent::Pending(jobs), FindAction::Give(k)) => k < jobs@.len() && accepts(
                client,
                jobs@[k as int],
            ),
            (FindEvent::Alternates(jobs), FindAction::MakeRun(k)) => k < jobs@.len() && accepts(
                client,
                jobs@[k as int],
            ),
            (_, FindAction::Give(_)) => false,
            (_, FindAction::MakeRun(_)) => false,
            _ => true,
        },
{
}

/// What a runner answered to a message.
pub enum ClientReply {
    Message(ClientProto),
    HungUp,
    Failed(String),
}

/// Why a runner is not there.
pub enum ConnectionError {
    Unexpected(ClientProto),
    HungUp,
    Failed(String),
}

/// What came of giving a run to a runner.
pub enum Submitted {
    Acked,
    HungUp,
    Rejected,
    Failed(String),
}

impl RunnerClient {
    pub fn new(
        accepted_sources: Option<Vec<String>>,
        host_id: u32,
        token_data: &[u8; 32],
    ) -> (r: Self)
        ensures
            r.accepted_sources == accepted_sources,
            r.host_id == host_id,
            r.build_token@ == base64_text(token_data@),
    {
        RunnerClient { host_id, build_token: token_for_job(token_data), accepted_sources }
    }

    /// Whether the runner takes the job, by what it has said so far.
    pub fn will_accept(&self, job: &Job) -> (r: bool)
        ensures
            r == accepts(*self, *job),
    {
        let accepted: &Vec<String> = match &self.accepted_sources {
            Some(accepted) => accepted,
            None => {
                return true;
            },
        };
        let source: &String = match &job.source {
            Some(source) => source,
            None => {
                return false;
            },
        };
        let mut i: usize = 0;
        while i < accepted.len()
            invariant
                i <= accepted@.len(),
                self.accepted_sources == Some(*accepted),
                job.source == Some(*source),
                forall|j: int| 0 <= j < i ==> (#[trigger] accepted@[j])@ != source@,
            decreases accepted@.len() - i,
        {
            if same(accepted[i].as_str(), source.as_str()) {
                assert(lists_text(accepted@, source@));
                return true;
            }
            i = i + 1;
        }
        false
    }

    /// The number of the first job that the runner takes.
    pub fn pick(&self, jobs: &Vec<Job>) -> (r: Option<usize>)
        ensures
            match r {
                Some(k) => first_accepted(*self, jobs@, k as int),
                None => none_accepted(*self, jobs@),
            },
    {
        let mut i: usize = 0;
        while i < jobs.len()
            invariant
                i <= jobs@.len(),
                forall|j: int| 0 <= j < i ==> !accepts(*self, #[trigger] jobs@[j]),
            decreases jobs@.len() - i,
        {
            if self.will_accept(&jobs[i]) {
                return Some(i);
            }
            i = i + 1;
        }
        None
    }

    /// What is done next to find a task for the runner.
    pub fn find_client_task(&self, event: FindEvent) -> (r: FindAction)
        ensures
            finds(*self, event, r),
    {
        match event {
            FindEvent::Pending(jobs) => match self.pick(&jobs) {
                Some(k) => FindAction::Give(k),
                None => FindAction::AskAlternates,
            },
            FindEvent::Alternates(jobs) => match self.pick(&jobs) {
                Some(k) => FindAction::MakeRun(k),
                None => FindAction::Wait(FIND_POLL_MS),
            },
            FindEvent::Waited => FindAction::Test,
            FindEvent::Tested { alive, elapsed_secs } => {
                if !alive {
                    FindAction::LostConnection
                } else if elapsed_secs > FIND_DEADLINE_SECS {
                    FindAction::DeadlineElapsed
                } else {
                    FindAction::AskPending
                }
            },
        }
    }

    /// Whether the runner is there, by what it answered to a ping.
    pub fn test_connection(reply: ClientReply) -> (r: Result<(), ConnectionError>)
        ensures
            r == connection_of(reply),
    {
        match reply {
            ClientReply::Message(ClientProto::Pong) => Ok(()),
            ClientReply::Message(other) => Err(ConnectionError::Unexpected(other)),
            ClientReply::HungUp => Err(ConnectionError::HungUp),
            ClientReply::Failed(e) => Err(ConnectionError::Failed(e)),
        }
    }

    /// The message that gives a run of a commit to the runner.
    pub fn task_message(&self, remote_git_url: &str, sha: &str) -> (r: ClientProto)
        ensures
            gives_task(r, *self, remote_git_url@, sha@),
    {
        ClientProto::new_task(
            RequestedJob {
                commit: sha.to_owned(),
                remote_url: remote_git_url.to_owned(),
                build_token: self.build_token.clone(),
            },
        )
    }

    /// What came of giving a run to the runner, by what it answered.
    pub fn submit(reply: ClientReply) -> (r: Submitted)
        ensures
            r == submission(reply),
    {
        match reply {
            ClientReply::Message(ClientProto::Started) => Submitted::Acked,
            ClientReply::Message(_) => Submitted::Rejected,
            ClientReply::HungUp => Submitted::HungUp,
            ClientReply::Failed(e) => Submitted::Failed(e),
        }
    }
}

/// What a runner's answer to a ping says of it.
pub open spec fn connection_of(reply: ClientReply) -> Result<(), ConnectionError> {
    match reply {
        ClientReply::Message(ClientProto::Pong) => Ok(()),
        ClientReply::Message(other) => Err(ConnectionError::Unexpected(other)),
        ClientReply::HungUp => Err(ConnectionError::HungUp),
        ClientReply::Failed(e) => Err(ConnectionError::Failed(e)),
    }
}

/// What a runner's answer to a task says of it.
pub open spec fn submission(reply: ClientReply) -> Submitted {
    match reply {
        ClientReply::Message(ClientProto::Started) => Submitted::Acked,
        ClientReply::Message(_) => Submitted::Rejected,
        ClientReply::HungUp => Submitted::HungUp,
        ClientReply::Failed(e) => Submitted::Failed(e),
    }
}

/// The message gives a commit to build to the runner, under the runner's token.
pub open spec fn gives_task(
    message: ClientProto,
    client: RunnerClient,
    remote_git_url: Seq<char>,
    sha: Seq<char>,
) -> bool {
    message matches ClientProto::NewTask(task) && task.commit@ == sha && task.remote_url@
        == remote_git_url && task.build_token == client.build_token
}

/// A runner is there exactly if it answers a ping with a pong, and a run was started exactly if the
/// runner answers that it was; what else came is kept.
pub proof fn runners_must_answer(reply: ClientReply)
    ensures
        connection_of(reply) is Ok <==> (reply matches ClientReply::Message(ClientProto::Pong)),
        submission(reply) is Acked <==> (reply matches ClientReply::Message(ClientProto::Started)),
        connection_of(reply) matches Err(ConnectionError::Unexpected(message)) ==> reply
            == ClientReply::Message(message),
        connection_of(reply) matches Err(ConnectionError::Failed(e)) ==> reply
            == ClientReply::Failed(e),
        connection_of(reply) matches Err(ConnectionError::HungUp) ==> reply is HungUp,
        submission(reply) is HungUp <==> reply is HungUp,
        submission(reply) matches Submitted::Failed(e) ==> reply == ClientReply::Failed(e),
        submission(reply) is Rejected <==> reply is Message && submission(reply) !is Acked,
{
}

/// Why a run was not started.
pub enum ActivateError {
    HungUp,
    /// The runner did not take it, for the reason given.
    NotSubmitted(String),
}

/// The statement records that a run was started on the runner's host at the time `now`.
pub open spec fn starts_run(
    statement: Statement,
    client: RunnerClient,
    run_id: u64,
    artifacts: Seq<char>,
    now: u64,
) -> bool {
    statement.asks(
        "update runs set started_time=?1, host_id=?2, state=1, artifacts_path=?3, build_token=?4 where id=?5"@,
        seq![
            Bound::Unsigned(now),
            Bound::Unsigned(client.host_id as u64),
            Bound::Text(artifacts),
            Bound::Text(client.build_token@),
            Bound::Unsigned(run_id),
        ],
    )
}

/// The error says why a run that was not taken was not started.
pub open spec fn not_started(submitted: Submitted, error: ActivateError) -> bool {
    match submitted {
        Submitted::Acked => false,
        Submitted::HungUp => error is HungUp,
        Submitted::Rejected => error matches ActivateError::NotSubmitted(reason) && reason@
            == "client rejected job"@,
        Submitted::Failed(e) => error matches ActivateError::NotSubmitted(reason) && reason == e,
    }
}

/// A run that was given to a runner is recorded as started, at the time and on the host at which it
/// was, under the very token that the runner was given, and with the directory for its artifacts;
/// and no other run is.
pub proof fn started_runs_are_recorded(
    statement: Statement,
    message: ClientProto,
    client: RunnerClient,
    remote_git_url: Seq<char>,
    sha: Seq<char>,
    run_id: u64,
    artifacts: Seq<char>,
    now: u64,
)
    requires
        gives_task(message, client, remote_git_url, sha),
        starts_run(statement, client, run_id, artifacts, now),
    ensures
        message matches ClientProto::NewTask(task) && task.commit@ == sha && task.remote_url@
            == remote_git_url && binds(statement, "build_token"@, Bound::Text(task.build_token@)),
        binds(statement, "started_time"@, Bound::Unsigned(now)),
        binds(statement, "host_id"@, Bound::Unsigned(client.host_id as u64)),
        binds(statement, "artifacts_path"@, Bound::Text(artifacts)),
        binds(statement, "id"@, Bound::Unsigned(run_id)),
        occurs(statement.sql@, " state=1,"@),
        RunState::Started.number() == 1,
{
    reveal_strlit(
        "update runs set started_time=?1, host_id=?2, state=1, artifacts_path=?3, build_token=?4 where id=?5",
    );
    reveal_strlit(" ");
    reveal_strlit("=?");
    reveal_strlit("1");
    reveal_strlit("2");
    reveal_strlit("3");
    reveal_strlit("4");
    reveal_strlit("5");
    reveal_strlit("started_time");
    reveal_strlit("host_id");
    reveal_strlit("artifacts_path");
    reveal_strlit("build_token");
    reveal_strlit("id");
    reveal_strlit(" state=1,");
    let bounds = Seq::new(statement.params@.len(), |i: int| statement.params@[i]@);
    assert(bounds[0] == Bound::Unsigned(now));
    assert(bounds[1] == Bound::Unsigned(client.host_id as u64));
    assert(bounds[2] == Bound::Text(artifacts));
    assert(bounds[3] == Bound::Text(client.build_token@));
    assert(bounds[4] == Bound::Unsigned(run_id));
    assert("1"@ =~= seq!['1'] && "2"@ =~= seq!['2'] && "3"@ =~= seq!['3']);
    assert("4"@ =~= seq!['4'] && "5"@ =~= seq!['5']);
    assert(statement.sql@.subrange(15, 31) =~= " "@ + "started_time"@ + "=?"@ + "1"@);
    assert(occurs_at(statement.sql@, " "@ + "started_time"@ + "=?"@ + "1"@, 15));
    named_values_are_bound(statement, "started_time"@, 1, "1"@, 15, bounds[0]);
    assert(statement.sql@.subrange(32, 43) =~= " "@ + "host_id"@ + "=?"@ + "2"@);
    assert(occurs_at(statement.sql@, " "@ + "host_id"@ + "=?"@ + "2"@, 32));
    named_values_are_bound(statement, "host_id"@, 2, "2"@, 32, bounds[1]);
    assert(statement.sql@.subrange(44, 53) =~= " state=1,"@);
    assert(occurs_at(statement.sql@, " state=1,"@, 44));
    assert(statement.sql@.subrange(53, 71) =~= " "@ + "artifacts_path"@ + "=?"@ + "3"@);
    assert(occurs_at(statement.sql@, " "@ + "artifacts_path"@ + "=?"@ + "3"@, 53));
    named_values_are_bound(statement, "artifacts_path"@, 3, "3"@, 53, bounds[2]);
    assert(statement.sql@.subrange(72, 87) =~= " "@ + "build_token"@ + "=?"@ + "4"@);
    assert(occurs_at(statement.sql@, " "@ + "build_token"@ + "=?"@ + "4"@, 72));
    named_values_are_bound(statement, "build_token"@, 4, "4"@, 72, bounds[3]);
    assert(statement.sql@.subrange(93, 99) =~= " "@ + "id"@ + "=?"@ + "5"@);
    assert(occurs_at(statement.sql@, " "@ + "id"@ + "=?"@ + "5"@, 93));
    named_values_are_bound(statement, "id"@, 5, "5"@, 93, bounds[4]);
}

/// A run is recorded as started only where the runner took it, and why it did not is what the
/// runner's answer was.
pub proof fn refusals_are_told_apart(reply: ClientReply, error: ActivateError)
    requires
        not_started(submission(reply), error),
    ensures
        !(reply matches ClientReply::Message(ClientProto::Started)),
        error is HungUp <==> reply is HungUp,
        error matches ActivateError::NotSubmitted(reason) ==> match reply {
            ClientReply::Failed(e) => reason == e,
            ClientReply::Message(_) => reason@ == "client rejected job"@,
            ClientReply::HungUp => false,
        },
{
}

/// The statement that records that a run was started at the time `now`, by what came of giving it to
/// a runner.
pub fn activate_run(
    client: &RunnerClient,
    submitted: Submitted,
    run: &PendingRun,
    artifacts: &str,
    now: u64,
) -> (r: Result<Statement, ActivateError>)
    ensures
        match submitted {
            Submitted::Acked => r matches Ok(statement) && starts_run(
                statement,
                *client,
                run.id,
                artifacts@,
                now,
            ),
            _ => r matches Err(error) && not_started(submitted, error),
        },
{
    match submitted {
        Submitted::Acked => Ok(
            Statement::new(
                "update runs set started_time=?1, host_id=?2, state=1, artifacts_path=?3, build_token=?4 where id=?5",
                vec![
                    Param::Unsigned(now),
                    Param::Unsigned(client.host_id as u64),
                    Param::Text(artifacts.to_owned()),
                    Param::Text(client.build_token.clone()),
                    Param::Unsigned(run.id),
                ],
            ),
        ),
        Submitted::HungUp => Err(ActivateError::HungUp),
        Submitted::Rejected => Err(ActivateError::NotSubmitted("client rejected job".to_owned())),
        Submitted::Failed(e) => Err(ActivateError::NotSubmitted(e)),
    }
}

/// How a task ended: what the notifiers are told, and the state of its run.
pub struct TaskOutcome {
    pub result: Result<String, String>,
    pub state: RunState,
}

/// A task that finished with the word `pass` is a success, and every other an error with the word or
/// the description that came with it.
pub open spec fn outcome_of(info: TaskInfo, outcome: TaskOutcome) -> bool {
    match info {
        TaskInfo::Finished { status } => if status@ == "pass"@ {
            &&& outcome.result matches Ok(word) && word@ == "success"@
            &&& outcome.state == RunState::Finished
        } else {
            &&& outcome.result matches Err(word) && word@ == status@
            &&& outcome.state == RunState::Error
        },
        TaskInfo::Interrupted { status, description } => {
            &&& outcome.result matches Err(word) && word@ == (match description {
                Some(desc) => desc@,
                None => status@,
            })
            &&& outcome.state == RunState::Error
        },
    }
}

/// How a task ended, by what its runner reported.
pub fn task_outcome(info: TaskInfo) -> (r: TaskOutcome)
    ensures
        outcome_of(info, r),
{
    match info {
        TaskInfo::Finished { status } => {
            if same(status.as_str(), "pass") {
                TaskOutcome { result: Ok("success".to_owned()), state: RunState::Finished }
            } else {
                TaskOutcome { result: Err(status), state: RunState::Error }
            }
        },
        TaskInfo::Interrupted { status, description } => {
            let desc: String = match description {
                Some(desc) => desc,
                None => status,
            };
            TaskOutcome { result: Err(desc), state: RunState::Error }
        },
    }
}

/// A run is recorded as finished, and its notifiers told of success, exactly if its runner reported
/// that it passed.
pub proof fn passes_are_recorded_as_such(info: TaskInfo, outcome: TaskOutcome)
    requires
        outcome_of(info, outcome),
    ensures
        ends_with_word(info, "pass"@) <==> outcome.result is Ok,
        ends_with_word(info, "pass"@) <==> outcome.state == RunState::Finished,
        outcome.result is Err <==> outcome.state == RunState::Error,
{
}

/// A run counts as a success exactly if its runner ran the goodfile to its end without an error.
pub proof fn success_means_built(
    before: JobStage,
    event: JobEvent,
    after: JobStage,
    action: JobAction,
    outcome: TaskOutcome,
)
    requires
        job_moves(before, event, after, action),
        action matches JobAction::ReportStatus(info) && outcome_of(info, outcome),
    ensures
        outcome.result is Ok <==> before == JobStage::Building && (event matches JobEvent::Built(
            Ok(_),
        )),
{
    let info = action->ReportStatus_0;
    passes_are_recorded_as_such(info, outcome);
    if outcome.result is Ok {
        only_built_jobs_pass(before, event, after, action);
    }
}

/// The notices that a task has ended: one for each notifier, in order, each about the same commit and
/// with the same result.
pub fn completion_notices(
    notifiers: &Vec<RemoteNotifier>,
    sha: &str,
    outcome: &TaskOutcome,
) -> (r: Vec<Notice>)
    ensures
        tell_all_complete(notifiers@, r@, sha@, outcome.result),
{
    let mut notices: Vec<Notice> = Vec::new();
    let mut i: usize = 0;
    while i < notifiers.len()
        invariant
            i <= notifiers@.len(),
            notices@.len() == i,
            forall|j: int|
                0 <= j < i ==> notifiers@[j].tells_complete(
                    #[trigger] notices@[j],
                    sha@,
                    outcome.result,
                ),
        decreases notifiers@.len() - i,
    {
        let result: Result<String, String> = match &outcome.result {
            Ok(message) => Ok(message.clone()),
            Err(message) => Err(message.clone()),
        };
        notices.push(notifiers[i].tell_complete_job(sha, result));
        i = i + 1;
    }
    notices
}

/// What is done next once a task has ended.
#[derive(Debug, Clone, Copy, PartialEq, Eq, Structural)]
pub enum CompletionStep {
    /// The notice with this number is sent.
    Tell(usize),
    /// The end of the run is recorded.
    Record,
}

/// What follows once some of the notices were sent: the next one is, until none is left.
pub open spec fn completion_step(
    notices: usize,
    sent: Seq<Result<(), String>>,
) -> CompletionStep {
    if sent.len() < notices {
        CompletionStep::Tell(sent.len() as usize)
    } else {
        CompletionStep::Record
    }
}

/// What is done next once a task has ended, with `notices` notices to send, after what came of those
/// that were sent. One that could not be sent keeps no other from being sent, nor the end of the run
/// from being recorded.
pub fn completion_next(notices: usize, sent: &Vec<Result<(), String>>) -> (r: CompletionStep)
    ensures
        r == completion_step(notices, sent@),
{
    if sent.len() < notices {
        CompletionStep::Tell(sent.len())
    } else {
        CompletionStep::Record
    }
}

/// The end of a task is told to every notifier once, in order, and then recorded, whatever comes of
/// the notices: `results` is what came of each, and `steps` what was done.
pub proof fn every_notifier_is_told(
    notices: usize,
    results: Seq<Result<(), String>>,
    steps: Seq<CompletionStep>,
)
    requires
        results.len() == notices,
        steps.len() == notices + 1,
        forall|k: int|
            0 <= k < steps.len() ==> #[trigger] steps[k] == completion_step(
                notices,
                results.take(k),
            ),
    ensures
        forall|k: int| 0 <= k < notices ==> #[trigger] steps[k] == CompletionStep::Tell(k as usize),
        steps[notices as int] == CompletionStep::Record,
{
}

/// The statement records how a run ended at the time `now`.
pub open spec fn ends_run(
    statement: Statement,
    outcome: TaskOutcome,
    run_id: u64,
    now: u64,
) -> bool {
    statement.asks(
        "update runs set complete_time=?1, state=?2, build_result=?3, final_status=?4 where id=?5"@,
        seq![
            Bound::Unsigned(now),
            Bound::Unsigned(outcome.state.number() as u64),
            Bound::Unsigned(
                (if outcome.result is Ok {
                    0u64
                } else {
                    1u64
                }),
            ),
            Bound::Text(
                (match outcome.result {
                    Ok(message) => message@,
                    Err(message) => message@,
                }),
            ),
            Bound::Unsigned(run_id),
        ],
    )
}

/// The end of a run is recorded for that run, at the time at which it ended: as finished and passed
/// where the runner reported that it passed, and else as an error, with what the runner said.
pub proof fn ended_runs_are_recorded(
    info: TaskInfo,
    statement: Statement,
    outcome: TaskOutcome,
    run_id: u64,
    now: u64,
)
    requires
        outcome_of(info, outcome),
        ends_run(statement, outcome, run_id, now),
    ensures
        binds(statement, "complete_time"@, Bound::Unsigned(now)),
        binds(statement, "id"@, Bound::Unsigned(run_id)),
        binds(
            statement,
            "state"@,
            Bound::Unsigned(
                (if ends_with_word(info, "pass"@) {
                    2u64
                } else {
                    3u64
                }),
            ),
        ),
        binds(
            statement,
            "build_result"@,
            Bound::Unsigned(
                (if ends_with_word(info, "pass"@) {
                    0u64
                } else {
                    1u64
                }),
            ),
        ),
        binds(
            statement,
            "final_status"@,
            Bound::Text(
                (match info {
                    TaskInfo::Finished { status } => if status@ == "pass"@ {
                        "success"@
                    } else {
                        status@
                    },
                    TaskInfo::Interrupted { description: Some(description), .. } => description@,
                    TaskInfo::Interrupted { status, description: None } => status@,
                }),
            ),
        ),
        RunState::Finished.number() == 2 && RunState::Error.number() == 3,
{
    reveal_strlit(
        "update runs set complete_time=?1, state=?2, build_result=?3, final_status=?4 where id=?5",
    );
    reveal_strlit(" ");
    reveal_strlit("=?");
    reveal_strlit("1");
    reveal_strlit("2");
    reveal_strlit("3");
    reveal_strlit("4");
    reveal_strlit("5");
    reveal_strlit("complete_time");
    reveal_strlit("state");
    reveal_strlit("build_result");
    reveal_strlit("final_status");
    reveal_strlit("id");
    let bounds = Seq::new(statement.params@.len(), |i: int| statement.params@[i]@);
    assert(bounds.len() == 5);
    assert(bounds[0] == Bound::Unsigned(now));
    assert(bounds[4] == Bound::Unsigned(run_id));
    assert("1"@ =~= seq!['1'] && "2"@ =~= seq!['2'] && "3"@ =~= seq!['3']);
    assert("4"@ =~= seq!['4'] && "5"@ =~= seq!['5']);
    assert(statement.sql@.subrange(15, 32) =~= " "@ + "complete_time"@ + "=?"@ + "1"@);
    assert(occurs_at(statement.sql@, " "@ + "complete_time"@ + "=?"@ + "1"@, 15));
    named_values_are_bound(statement, "complete_time"@, 1, "1"@, 15, bounds[0]);
    assert(statement.sql@.subrange(33, 42) =~= " "@ + "state"@ + "=?"@ + "2"@);
    assert(occurs_at(statement.sql@, " "@ + "state"@ + "=?"@ + "2"@, 33));
    named_values_are_bound(statement, "state"@, 2, "2"@, 33, bounds[1]);
    assert(statement.sql@.subrange(43, 59) =~= " "@ + "build_result"@ + "=?"@ + "3"@);
    assert(occurs_at(statement.sql@, " "@ + "build_result"@ + "=?"@ + "3"@, 43));
    named_values_are_bound(statement, "build_result"@, 3, "3"@, 43, bounds[2]);
    assert(statement.sql@.subrange(60, 76) =~= " "@ + "final_status"@ + "=?"@ + "4"@);
    assert(occurs_at(statement.sql@, " "@ + "final_status"@ + "=?"@ + "4"@, 60));
    named_values_are_bound(statement, "final_status"@, 4, "4"@, 60, bounds[3]);
    assert(statement.sql@.subrange(82, 88) =~= " "@ + "id"@ + "=?"@ + "5"@);
    assert(occurs_at(statement.sql@, " "@ + "id"@ + "=?"@ + "5"@, 82));
    named_values_are_bound(statement, "id"@, 5, "5"@, 82, bounds[4]);
}

/// The statement that records how a run ended at the time `now`.
pub fn complete_run(outcome: &TaskOutcome, run_id: u64, now: u64) -> (r: Statement)
    ensures
        ends_run(r, *outcome, run_id, now),
{
    let (build_result, message): (JobResult, String) = match &outcome.result {
        Ok(message) => (JobResult::Pass, message.clone()),
        Err(message) => (JobResult::Fail, message.clone()),
    };
    Statement::new(
        "update runs set complete_time=?1, state=?2, build_result=?3, final_status=?4 where id=?5",
        vec![
            Param::Unsigned(now),
            Param::Unsigned(outcome.state.code() as u64),
            Param::Unsigned(build_result.code() as u64),
            Param::Text(message),
            Param::Unsigned(run_id),
        ],
    )
}

/// A run is shown as passed exactly if its runner reported that it passed.
pub proof fn passes_show_as_such(info: TaskInfo, outcome: TaskOutcome, run: Run)
    requires
        outcome_of(info, outcome),
        run.state == outcome.state,
        run.build_result == Some(
            (if outcome.result is Ok {
                0u8
            } else {
                1u8
            }),
        ),
    ensures
        ends_with_word(info, "pass"@) <==> result_html(run.state, run.build_result)
            == "<span style='color:green;'>pass</span>"@,
        ends_with_word(info, "pass"@) <==> status_html(run.state, run.build_result)
            == "<span style='color:green;'>pass</span>"@,
{
    passes_are_recorded_as_such(info, outcome);
    reveal_strlit("<span style='color:green;'>pass</span>");
    reveal_strlit("<span style='color:red;'>fail</span>");
    reveal_strlit("<span style='color:red;'>error</span>");
    let pass = "<span style='color:green;'>pass</span>"@;
    assert(pass[19] == 'g');
    assert("<span style='color:red;'>fail</span>"@[19] == 'r');
    assert("<span style='color:red;'>error</span>"@[19] == 'r');
}

/// What the driver does about a message of a runner that has a task.
pub enum ClientAction {
    /// It is done with the runner.
    End,
    /// The notifiers of the task's repository are told, and the end of the run is recorded.
    Complete(TaskOutcome),
    /// The text is sent to the runner.
    Send(String),
    /// The statement is run.
    Run(Statement),
    Nothing,
}

/// What a runner that wants to create an artifact is answered.
pub open spec fn artifact_ack() -> JsonTree {
    JsonTree::Object(
        map!["status"@ => JsonTree::Text("ok"@), "object_id"@ => JsonTree::Text("10"@)],
    )
}

fn artifact_ack_text() -> (r: String)
    ensures
        r@ == json_written(artifact_ack()),
{
    let mut members: Vec<(String, serde_json::Value)> = Vec::new();
    members.push(("status".to_owned(), text_value("ok")));
    members.push(("object_id".to_owned(), text_value("10")));
    let ghost list = members@;
    proof {
        reveal_strlit("status");
        reveal_strlit("object_id");
        assert("status"@.len() < "object_id"@.len());
    }
    let reply = object_value(members);
    proof {
        reveal_with_fuel(listed_trees, 3);
        assert(listed_trees(list) =~= artifact_ack()->Object_0);
    }
    write_value(&reply)
}

/// A task that a runner has in hand.
pub struct ClientJob {
    pub remote_git_url: String,
    pub sha: String,
    pub task: PendingRun,
}

/// The statement records a metric of a run.
pub open spec fn records_metric(
    statement: Statement,
    run_id: u64,
    name: Seq<char>,
    value: Seq<char>,
) -> bool {
    statement.asks(
        "insert into metrics (run_id, name, value) values (?1, ?2, ?3) on conflict (run_id, name) do update set value=excluded.value"@,
        seq![Bound::Unsigned(run_id), Bound::Text(name), Bound::Text(value)],
    )
}

/// What the driver does about a message of a runner that has the given run in hand, or its silence.
pub open spec fn client_acts(
    run_id: u64,
    message: Option<ClientProto>,
    action: ClientAction,
) -> bool {
    match message {
        None => action is End,
        Some(ClientProto::NewTaskPlease { .. }) => action is End,
        Some(ClientProto::TaskStatus(info)) => action matches ClientAction::Complete(outcome)
            && outcome_of(info, outcome),
        Some(ClientProto::ArtifactCreate) => action matches ClientAction::Send(text) && text@
            == json_written(artifact_ack()),
        Some(ClientProto::Metric { name, value }) => action matches ClientAction::Run(statement)
            && records_metric(statement, run_id, name@, value@),
        Some(_) => action is Nothing,
    }
}

/// A run ends exactly when its runner reports how it ended, the driver is done with the runner
/// exactly when it falls silent or asks for another task, and all that is recorded meanwhile are the
/// metrics that the runner reports, under their names, for its own run.
pub proof fn runners_are_heard(run_id: u64, message: Option<ClientProto>, action: ClientAction)
    requires
        client_acts(run_id, message, action),
    ensures
        action is Complete <==> (message matches Some(ClientProto::TaskStatus(_))),
        action matches ClientAction::Complete(outcome) ==> (message matches Some(
            ClientProto::TaskStatus(info),
        ) && (outcome.result is Ok <==> ends_with_word(info, "pass"@))),
        action is End <==> message is None || (message matches Some(
            ClientProto::NewTaskPlease { .. },
        )),
        action is Run <==> (message matches Some(ClientProto::Metric { .. })),
        action matches ClientAction::Run(statement) ==> (message matches Some(
            ClientProto::Metric { name, value },
        ) && statement.params@.len() == 3 && statement.params@[0]@ == Bound::Unsigned(run_id)
            && statement.params@[1]@ == Bound::Text(name@) && statement.params@[2]@ == Bound::Text(
            value@,
        ) && insert_head("metrics"@, metric_columns()).is_prefix_of(statement.sql@)),
        action is Send <==> (message matches Some(ClientProto::ArtifactCreate)),
{
    if let ClientAction::Run(statement) = action {
        metric_texts_name_their_columns();
        let bounds = Seq::new(statement.params@.len(), |i: int| statement.params@[i]@);
        assert(bounds.len() == 3);
        assert(bounds[0] == Bound::Unsigned(run_id));
        assert(statement.params@[1]@ == bounds[1] && statement.params@[2]@ == bounds[2]);
    }
}

impl ClientJob {
    /// What the driver does about a message of the runner, or its silence.
    pub fn run(&self, ctx: &DbCtx, message: Option<ClientProto>) -> (r: ClientAction)
        ensures
            client_acts(self.task.id, message, r),
    {
        match message {
            None => ClientAction::End,
            Some(ClientProto::NewTaskPlease { .. }) => ClientAction::End,
            Some(ClientProto::TaskStatus(info)) => ClientAction::Complete(task_outcome(info)),
            Some(ClientProto::ArtifactCreate) => ClientAction::Send(artifact_ack_text()),
            Some(ClientProto::Metric { name, value }) => ClientAction::Run(
                ctx.insert_metric(self.task.id, name.as_str(), value.as_str()),
            ),
            Some(_) => ClientAction::Nothing,
        }
    }
}

/// What is done about a request that brings an artifact.
pub enum ArtifactGate {
    /// It is refused with status 400.
    Refused,
    /// The artifact is reserved for the run, in the directory.
    Reserve { run: u64, dir: String, name: String, desc: String },
}

/// A request that brings an artifact is taken up: it names a run that was started and whose time is
/// not up, which has a directory for artifacts, and it names and describes the artifact.
pub open spec fn takes_artifact(
    token: Option<&str>,
    run: Option<(u64, Option<String>, TokenValidity)>,
    name: Option<&str>,
    desc: Option<&str>,
) -> bool {
    &&& token is Some
    &&& run matches Some((_, path, validity)) && path is Some && validity == TokenValidity::Valid
    &&& name is Some
    &&& desc is Some
}

/// What is done about a request that brings an artifact.
pub open spec fn gates_artifact(
    token: Option<&str>,
    run: Option<(u64, Option<String>, TokenValidity)>,
    name: Option<&str>,
    desc: Option<&str>,
    gate: ArtifactGate,
) -> bool {
    match gate {
        ArtifactGate::Refused => !takes_artifact(token, run, name, desc),
        ArtifactGate::Reserve { run: id, dir, name: n, desc: d } => {
            &&& takes_artifact(token, run, name, desc)
            &&& id == (run->0).0
            &&& dir == (run->0).1->0
            &&& n@ == name->0@
            &&& d@ == desc->0@
        },
    }
}

/// An artifact is reserved exactly if the request names a token, a name and a description and the
/// token stands for a run that is valid and has a directory; it is reserved for that run, in that
/// directory, under that name and description.
pub proof fn artifacts_go_to_their_run(
    token: Option<&str>,
    run: Option<(u64, Option<String>, TokenValidity)>,
    name: Option<&str>,
    desc: Option<&str>,
    gate: ArtifactGate,
)
    requires
        gates_artifact(token, run, name, desc, gate),
    ensures
        gate is Reserve <==> token is Some && name is Some && desc is Some && (run matches Some(
            (_, Some(_), TokenValidity::Valid),
        )),
        gate matches ArtifactGate::Reserve { run: id, dir, name: n, desc: d } ==> (run
            matches Some((of, Some(path), _)) && id == of && dir == path && n@ == name->0@ && d@
            == desc->0@),
{
}

/// An artifact is taken up only while its run's time lasts.
pub proof fn artifacts_need_a_live_run(
    token: Option<&str>,
    id: u64,
    path: Option<String>,
    started: Option<u64>,
    timeout: Option<u64>,
    now: u64,
    name: Option<&str>,
    desc: Option<&str>,
)
    requires
        takes_artifact(
            token,
            Some((id, path, validity_at(started, timeout, now))),
            name,
            desc,
        ),
    ensures
        started is Some,
        now <= started->0 + (match timeout {
            Some(timeout) => timeout,
            None => TOKEN_EXPIRY_MS,
        }),
{
}

/// What is done about a request that brings an artifact: its headers `x-task-token`,
/// `x-artifact-name` and `x-artifact-desc`, and the run that the token stands for.
pub fn handle_artifact(
    token: Option<&str>,
    run: Option<(u64, Option<String>, TokenValidity)>,
    name: Option<&str>,
    desc: Option<&str>,
) -> (r: ArtifactGate)
    ensures
        gates_artifact(token, run, name, desc, r),
{
    if token.is_none() {
        return ArtifactGate::Refused;
    }
    let (run, path, validity): (u64, Option<String>, TokenValidity) = match run {
        Some(run) => run,
        None => {
            return ArtifactGate::Refused;
        },
    };
    if validity != TokenValidity::Valid {
        return ArtifactGate::Refused;
    }
    let dir: String = match path {
        Some(path) => path,
        None => {
            return ArtifactGate::Refused;
        },
    };
    let name: String = match name {
        Some(name) => name.to_owned(),
        None => {
            return ArtifactGate::Refused;
        },
    };
    let desc: String = match desc {
        Some(desc) => desc.to_owned(),
        None => {
            return ArtifactGate::Refused;
        },
    };
    ArtifactGate::Reserve { run, dir, name, desc }
}

/// The status with which a request that brings an artifact is answered, by whether the artifact
/// could be reserved.
pub fn artifact_status(reserved: bool) -> (r: u16)
    ensures
        r == (if reserved {
            200u16
        } else {
            500u16
        }),
{
    if reserved {
        200
    } else {
        500
    }
}

/// The runner knows the driver's secret.
pub open spec fn knows_secret(authorization: Option<&str>, secret: Option<&str>) -> bool {
    &&& authorization is Some
    &&& secret is Some
    &&& authorization->0@ == secret->0@
}

/// Whether a runner that asks for a task knows the driver's secret; it is refused with status 400 if
/// not.
pub fn authorized(authorization: Option<&str>, secret: Option<&str>) -> (r: bool)
    ensures
        r == knows_secret(authorization, secret),
{
    match (authorization, secret) {
        (Some(authorization), Some(secret)) => same(authorization, secret),
        _ => false,
    }
}

/// What a runner that asks for a task says of itself.
pub open spec fn asked_for(request: Option<ClientProto>) -> Result<
    (Option<Vec<String>>, HostInfo),
    u16,
> {
    match request {
        Some(ClientProto::NewTaskPlease { allowed_pushers, host_info }) => Ok(
            (allowed_pushers, host_info),
        ),
        _ => Err(421),
    }
}

/// A runner is heard exactly if it asks for a task, and then whom it names and what it says of its
/// machine are kept as it said them; what the runner sends for that is heard.
pub proof fn runners_must_ask(
    request: Option<ClientProto>,
    allowed_pushers: Option<Vec<String>>,
    host_info: HostInfo,
)
    ensures
        asked_for(request) is Ok <==> (request matches Some(ClientProto::NewTaskPlease { .. })),
        asked_for(Some(ClientProto::NewTaskPlease { allowed_pushers, host_info })) == Ok::<
            (Option<Vec<String>>, HostInfo),
            u16,
        >((allowed_pushers, host_info)),
        asked_for(request) matches Err(status) ==> status == 421,
{
}

/// What a runner that asks for a task said of itself; where it said something else it is refused
/// with the status given.
pub fn handle_next_job(request: Option<ClientProto>) -> (r: Result<
    (Option<Vec<String>>, HostInfo),
    u16,
>)
    ensures
        r == asked_for(request),
{
    match request {
        Some(ClientProto::NewTaskPlease { allowed_pushers, host_info }) => Ok(
            (allowed_pushers, host_info),
        ),
        _ => Err(421),
    }
}

/// What came of putting a runner in the queue of those that wait for a task.
#[derive(Debug, Clone, Copy, PartialEq, Eq, Structural)]
pub enum Queued {
    Queued,
    Full,
    Closed,
}

/// The status with which a runner is answered.
pub open spec fn queue_answer(queued: Queued) -> Option<u16> {
    match queued {
        Queued::Queued => Some(200),
        Queued::Full => Some(418),
        Queued::Closed => None,
    }
}

/// A runner is told that it waits for a task exactly if it is in the queue.
pub proof fn runners_are_told_if_they_wait(queued: Queued)
    ensures
        queue_answer(queued) == Some(200u16) <==> queued == Queued::Queued,
        queue_answer(queued) == Some(418u16) <==> queued == Queued::Full,
        queue_answer(queued) is None <==> queued == Queued::Closed,
{
}

/// The status with which a runner is answered, by what came of putting it in the queue; `None` where
/// there is no queue any more.
pub fn queue_status(queued: Queued) -> (r: Option<u16>)
    ensures
        r == queue_answer(queued),
{
    match queued {
        Queued::Queued => Some(200),
        Queued::Full => Some(418),
        Queued::Closed => None,
    }
}

/// The run should be in a client's hands, or is in none: it was started a while ago, or it has no
/// time at which it was started.
pub open spec fn overdue(run: Run, now: u64) -> bool {
    run.state == RunState::Started && match run.start_time {
        Some(start_time) => start_time < now - STALE_MS,
        None => true,
    }
}

fn is_overdue(run: &Run, now: u64) -> (r: bool)
    requires
        now >= STALE_MS,
    ensures
        r == overdue(*run, now),
{
    run.state == RunState::Started && match run.start_time {
        Some(start_time) => start_time < now - STALE_MS,
        None => true,
    }
}

/// The ids of the runs among the first `n` that are stale: overdue, and in no client's hands.
pub open spec fn stale_ids(runs: Seq<Run>, active: Seq<u64>, now: u64, n: nat) -> Seq<u64>
    decreases n,
{
    if n == 0 {
        Seq::empty()
    } else {
        let before = stale_ids(runs, active, now, (n - 1) as nat);
        let run = runs[n - 1];
        if overdue(run, now) && !active.contains(run.id) {
            before.push(run.id)
        } else {
            before
        }
    }
}

fn holds_id(ids: &Vec<u64>, id: u64) -> (r: bool)
    ensures
        r == ids@.contains(id),
{
    let mut i: usize = 0;
    while i < ids.len()
        invariant
            i <= ids@.len(),
            forall|j: int| 0 <= j < i ==> ids@[j] != id,
        decreases ids@.len() - i,
    {
        if ids[i] == id {
            return true;
        }
        i = i + 1;
    }
    false
}

/// The runs that have to be reaped at the time `now`, of those that have not ended and of the tasks
/// that clients have in hand.
pub fn old_task_reaper(runs: &Vec<Run>, active: &Vec<u64>, now: u64) -> (r: Vec<u64>)
    requires
        now >= STALE_MS,
    ensures
        r@ == stale_ids(runs@, active@, now, runs@.len()),
{
    let mut stale: Vec<u64> = Vec::new();
    let mut i: usize = 0;
    while i < runs.len()
        invariant
            i <= runs@.len(),
            now >= STALE_MS,
            stale@ =~= stale_ids(runs@, active@, now, i as nat),
        decreases runs@.len() - i,
    {
        if is_overdue(&runs[i], now) && !holds_id(active, runs[i].id) {
            stale.push(runs[i].id);
        }
        i = i + 1;
    }
    stale
}

/// A run is reaped only if it is overdue and in no client's hands, and each that is so is reaped.
pub proof fn reaped_runs_are_stale(runs: Seq<Run>, active: Seq<u64>, now: u64, n: nat, id: u64)
    requires
        n <= runs.len(),
    ensures
        stale_ids(runs, active, now, n).contains(id) <==> !active.contains(id) && exists|i: int|
            0 <= i < n && (#[trigger] runs[i]).id == id && overdue(runs[i], now),
    decreases n,
{
    if n > 0 {
        reaped_runs_are_stale(runs, active, now, (n - 1) as nat, id);
        let before = stale_ids(runs, active, now, (n - 1) as nat);
        let after = stale_ids(runs, active, now, n);
        let run = runs[n - 1];
        if after.contains(id) {
            if !before.contains(id) {
                assert(run.id == id);
            }
        }
        if before.contains(id) {
            let k = choose|k: int| 0 <= k < before.len() && before[k] == id;
            assert(after[k] == id);
        }
        if !active.contains(id) && run.id == id && overdue(run, now) {
            assert(after.last() == id);
        }
    }
}

/// A runner that names nobody takes every job; one that does takes exactly the jobs that are known
/// to come from somebody it names.
pub proof fn runners_take_the_jobs_of_those_they_name(client: RunnerClient, job: Job)
    ensures
        client.accepted_sources is None ==> accepts(client, job),
        client.accepted_sources matches Some(named) ==> (accepts(client, job) <==> (job.source
            matches Some(source) && exists|i: int|
            0 <= i < named@.len() && (#[trigger] named@[i])@ == source@)),
{
}

/// Whether a job is taken depends on its source and on whom the runner names, and on nothing else.
pub proof fn only_sources_count(
    client: RunnerClient,
    other: RunnerClient,
    job: Job,
    alike: Job,
)
    requires
        client.accepted_sources == other.accepted_sources,
        job.source == alike.source,
    ensures
        accepts(client, job) == accepts(other, alike),
{
}

/// A runner that names nobody is given the first run that waits, and else a new run of the first job
/// that was not run on its host yet.
pub proof fn open_runners_get_the_first_task(
    client: RunnerClient,
    event: FindEvent,
    action: FindAction,
)
    requires
        finds(client, event, action),
        client.accepted_sources is None,
    ensures
        event matches FindEvent::Pending(jobs) ==> action == (if jobs@.len() > 0 {
            FindAction::Give(0)
        } else {
            FindAction::AskAlternates
        }),
        event matches FindEvent::Alternates(jobs) ==> action == (if jobs@.len() > 0 {
            FindAction::MakeRun(0)
        } else {
            FindAction::Wait(100)
        }),
{
    match event {
        FindEvent::Pending(jobs) => {
            if jobs@.len() > 0 {
                assert(accepts(client, jobs@[0]));
            }
        },
        FindEvent::Alternates(jobs) => {
            if jobs@.len() > 0 {
                assert(accepts(client, jobs@[0]));
            }
        },
        _ => {},
    }
}

/// Where there is a run that a runner takes it is given one, and else where there is a job that it
/// takes a run of one is made; so nothing waits while a runner that takes it asks. What it gets is
/// the first that it takes.
pub proof fn tasks_that_are_taken_are_found(
    client: RunnerClient,
    jobs: Vec<Job>,
    j: int,
    pending: FindAction,
    alternates: FindAction,
)
    requires
        finds(client, FindEvent::Pending(jobs), pending),
        finds(client, FindEvent::Alternates(jobs), alternates),
        0 <= j < jobs@.len(),
        accepts(client, jobs@[j]),
    ensures
        pending matches FindAction::Give(k) && k <= j,
        alternates matches FindAction::MakeRun(k) && k <= j,
{
}

/// A search goes on exactly as long as the runner is there and not more than five minutes have
/// passed, and nothing is looked up before the wait is over and the runner was asked.
pub proof fn searches_end_in_time(client: RunnerClient, event: FindEvent, action: FindAction)
    requires
        finds(client, event, action),
    ensures
        action == FindAction::LostConnection <==> (event matches FindEvent::Tested {
            alive,
            ..
        } && !alive),
        action == FindAction::DeadlineElapsed <==> (event matches FindEvent::Tested {
            alive,
            elapsed_secs,
        } && alive && elapsed_secs > 5 * 60),
        action == FindAction::AskPending <==> (event matches FindEvent::Tested {
            alive,
            elapsed_secs,
        } && alive && elapsed_secs <= 5 * 60),
        action == FindAction::Test <==> event is Waited,
        action is AskAlternates ==> event is Pending,
        action is Wait ==> event is Alternates,
{
}

/// A runner is let in exactly if the driver has a secret and the runner shows the same; without a
/// secret nobody is.
pub proof fn only_those_who_know_the_secret_are_let_in(
    authorization: Option<&str>,
    secret: Option<&str>,
)
    ensures
        secret is None ==> !knows_secret(authorization, secret),
        authorization is None ==> !knows_secret(authorization, secret),
        authorization matches Some(shown) ==> (secret matches Some(kept) ==> (knows_secret(
            authorization,
            secret,
        ) <==> shown@ == kept@)),
{
}

/// A run is reaped exactly if it was started more than a minute ago, or it is not known when, and no
/// runner has it in hand; so none that waits or has ended is.
pub proof fn only_lost_runs_are_reaped(
    runs: Seq<Run>,
    active: Seq<u64>,
    now: u64,
    id: u64,
)
    ensures
        stale_ids(runs, active, now, runs.len()).contains(id) <==> !active.contains(id) && exists|
            i: int,
        |
            0 <= i < runs.len() && (#[trigger] runs[i]).id == id && runs[i].state
                == RunState::Started && (runs[i].start_time is None || runs[i].start_time->0
                + 60_000 < now),
{
    reaped_runs_are_stale(runs, active, now, runs.len(), id);
    if exists|i: int|
        0 <= i < runs.len() && (#[trigger] runs[i]).id == id && overdue(runs[i], now) {
        let i = choose|i: int|
            0 <= i < runs.len() && (#[trigger] runs[i]).id == id && overdue(runs[i], now);
        assert(runs[i].id == id && runs[i].state == RunState::Started && (runs[i].start_time is None
            || runs[i].start_time->0 + 60_000 < now));
    }
    if exists|i: int|
        0 <= i < runs.len() && (#[trigger] runs[i]).id == id && runs[i].state == RunState::Started
            && (runs[i].start_time is None || runs[i].start_time->0 + 60_000 < now) {
        let i = choose|i: int|
            0 <= i < runs.len() && (#[trigger] runs[i]).id == id && runs[i].state
                == RunState::Started && (runs[i].start_time is None || runs[i].start_time->0
                + 60_000 < now);
        assert(runs[i].id == id && overdue(runs[i], now));
    }
}

} // verus!
