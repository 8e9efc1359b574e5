//! The program that runs jobs: where it gets them, what it does for each, and what it reports.

use crate::goodfile::text_of;
use crate::paths::parent;
use crate::paths::parent_of;
use crate::paths::path_joined;
use crate::paths::path_under;
use crate::protocol::ClientProto;
use crate::protocol::CommandInfo;
use crate::protocol::HostInfo;
use crate::protocol::RequestedJob;
use crate::protocol::TaskInfo;
use crate::text::contains;
use crate::text::ends_with;
use crate::text::join;
use crate::text::joined;
use crate::text::occurs;
use crate::text::trim;
use crate::text::trimmed;
use crate::text::views;
use vstd::prelude::*;

verus! {

/// Where a run's steps stand within each other.
pub struct StepTracker {
    pub scopes: Vec<String>,
}

impl StepTracker {
    pub fn new() -> (r: Self)
        ensures
            r.scopes@ == Seq::<String>::empty(),
    {
        StepTracker { scopes: Vec::new() }
    }

    pub fn push(&mut self, name: String)
        ensures
            final(self).scopes@ == old(self).scopes@.push(name),
    {
        self.scopes.push(name);
    }

    /// Leaves the innermost step, where there is one.
    pub fn pop(&mut self)
        ensures
            final(self).scopes@ == (if old(self).scopes@.len() > 0 {
                old(self).scopes@.drop_last()
            } else {
                old(self).scopes@
            }),
    {
        let _left = self.scopes.pop();
    }

    pub fn clear(&mut self)
        ensures
            final(self).scopes@ == Seq::<String>::empty(),
    {
        self.scopes.clear();
    }

    /// The steps, the outermost first.
    pub fn full_step_path(&self) -> (r: &[String])
        ensures
            r@ == self.scopes@,
    {
        self.scopes.as_slice()
    }
}

/// How a process ended.
#[derive(Debug, Clone, Copy, PartialEq, Eq, Structural)]
pub struct ExitInfo {
    pub success: bool,
    pub code: Option<i32>,
}

/// A command that is run, and the artifacts that its output becomes.
pub struct CommandPlan {
    pub program: String,
    pub args: Vec<String>,
    pub cwd: Option<String>,
    pub name: String,
    pub desc: String,
}

impl CommandPlan {
    /// The plan runs the given words in the given directory.
    pub open spec fn runs(&self, words: Seq<Seq<char>>, cwd: Option<Seq<char>>) -> bool {
        &&& seq![self.program@] + views(self.args@) == words
        &&& text_of(self.cwd) == cwd
    }

    /// The plan's output is kept under the given name and description.
    pub open spec fn logs(&self, name: Seq<char>, desc: Seq<char>) -> bool {
        self.name@ == name && self.desc@ == desc
    }
}

/// An artifact that holds one of the two outputs of a command.
pub open spec fn output_name(text: Seq<char>, stderr: bool) -> Seq<char> {
    if stderr {
        text + " (stderr)"@
    } else {
        text + " (stdout)"@
    }
}

/// The name and the description of the artifact that holds one of the two outputs of a command.
pub fn output_artifact(name: &str, desc: &str, stderr: bool) -> (r: (String, String))
    ensures
        r.0@ == output_name(name@, stderr),
        r.1@ == output_name(desc@, stderr),
{
    let suffix: &str = if stderr {
        " (stderr)"
    } else {
        " (stdout)"
    };
    (name.to_owned().concat(suffix), desc.to_owned().concat(suffix))
}

/// Why a commit could not be fetched.
#[derive(Debug, Clone, Copy, PartialEq, Eq, Structural)]
pub enum RepoError {
    CloneFailedIdk { exit_code: ExitInfo },
    CheckoutFailedIdk { exit_code: ExitInfo },
    CheckoutFailedMissingRef,
}

/// How far the fetching of a commit has come.
#[derive(Debug, Clone, Copy, PartialEq, Eq, Structural)]
pub enum CloneStage {
    Cloning,
    CheckingOut,
}

/// What is done next to fetch a commit.
pub enum CloneStep {
    Run(CommandPlan),
    Done(Result<(), RepoError>),
}

/// The status of a process that ended well, which stands for one that could not be started.
pub open spec fn no_exit() -> ExitInfo {
    ExitInfo { success: true, code: Some(0) }
}

/// The commands that fetch a commit.
pub open spec fn clones(plan: CommandPlan, remote_url: Seq<char>) -> bool {
    &&& plan.runs(seq!["git"@, "clone"@, remote_url, "tmpdir"@], None)
    &&& plan.logs("git clone log"@, "git clone "@ + remote_url + " tmpdir"@)
}

pub open spec fn checks_out(plan: CommandPlan, commit: Seq<char>) -> bool {
    &&& plan.runs(seq!["git"@, "checkout"@, commit], Some("tmpdir"@))
    &&& plan.logs("git checkout log"@, "git checkout "@ + commit)
}

/// The command that clones the repository of a job, which is the first step to fetch its commit.
pub fn clone_plan(job: &RequestedJob) -> (r: CommandPlan)
    ensures
        clones(r, job.remote_url@),
{
    let mut args: Vec<String> = Vec::new();
    args.push("clone".to_owned());
    args.push(job.remote_url.clone());
    args.push("tmpdir".to_owned());
    let plan = CommandPlan {
        program: "git".to_owned(),
        args,
        cwd: None,
        name: "git clone log".to_owned(),
        desc: "git clone ".to_owned().concat(job.remote_url.as_str()).concat(" tmpdir"),
    };
    assert(seq![plan.program@] + views(plan.args@) =~= seq![
        "git"@,
        "clone"@,
        job.remote_url@,
        "tmpdir"@,
    ]);
    plan
}

/// The command that checks out the commit of a job.
pub fn checkout_plan(job: &RequestedJob) -> (r: CommandPlan)
    ensures
        checks_out(r, job.commit@),
{
    let mut args: Vec<String> = Vec::new();
    args.push("checkout".to_owned());
    args.push(job.commit.clone());
    let plan = CommandPlan {
        program: "git".to_owned(),
        args,
        cwd: Some("tmpdir".to_owned()),
        name: "git checkout log".to_owned(),
        desc: "git checkout ".to_owned().concat(job.commit.as_str()),
    };
    assert(seq![plan.program@] + views(plan.args@) =~= seq!["git"@, "checkout"@, job.commit@]);
    plan
}

/// A step follows from how the command of a stage ended; `None` if it could not be run.
pub open spec fn clone_moves(
    stage: CloneStage,
    exit: Option<ExitInfo>,
    commit: Seq<char>,
    step: CloneStep,
) -> bool {
    match (stage, exit) {
        (CloneStage::Cloning, None) => step == CloneStep::Done(
            Err(RepoError::CloneFailedIdk { exit_code: no_exit() }),
        ),
        (CloneStage::Cloning, Some(exit_code)) => if exit_code.success {
            step matches CloneStep::Run(plan) && checks_out(plan, commit)
        } else {
            step == CloneStep::Done(Err(RepoError::CloneFailedIdk { exit_code }))
        },
        (CloneStage::CheckingOut, None) => step == CloneStep::Done(
            Err(RepoError::CheckoutFailedIdk { exit_code: no_exit() }),
        ),
        (CloneStage::CheckingOut, Some(exit_code)) => if exit_code.success {
            step == CloneStep::Done(Ok(()))
        } else if exit_code.code == Some(128i32) {
            step == CloneStep::Done(Err(RepoError::CheckoutFailedIdk { exit_code }))
        } else {
            step == CloneStep::Done(Err(RepoError::CheckoutFailedMissingRef))
        },
    }
}

/// A commit is fetched only if both commands ended well.
pub proof fn fetched_if_both_succeed(
    cloned: Option<ExitInfo>,
    checked_out: Option<ExitInfo>,
    commit: Seq<char>,
    first: CloneStep,
    second: CloneStep,
)
    requires
        clone_moves(CloneStage::Cloning, cloned, commit, first),
        clone_moves(CloneStage::CheckingOut, checked_out, commit, second),
    ensures
        first != CloneStep::Done(Ok(())),
        first is Run <==> (cloned matches Some(exit) && exit.success),
        second == CloneStep::Done(Ok(())) <==> (checked_out matches Some(exit) && exit.success),
{
}

/// The directory in which a command is run.
pub open spec fn command_dir(working_dir: Option<&str>) -> Seq<char> {
    match working_dir {
        Some(dir) => "tmpdir/"@ + dir@,
        None => "tmpdir"@,
    }
}

/// A command that is run for a goodfile.
pub fn prep_command(command: &Vec<String>, working_dir: Option<&str>) -> (r: CommandPlan)
    requires
        command@.len() > 0,
    ensures
        r.runs(views(command@), Some(command_dir(working_dir))),
        r.logs(join(views(command@), " "@) + " log"@, join(views(command@), " "@)),
{
    let cwd: String = match working_dir {
        Some(dir) => "tmpdir/".to_owned().concat(dir),
        None => "tmpdir".to_owned(),
    };
    let human_name = joined(command.as_slice(), " ");
    let program = command[0].clone();
    let mut args: Vec<String> = Vec::new();
    let mut i: usize = 1;
    while i < command.len()
        invariant
            1 <= i <= command@.len(),
            args@ =~= command@.subrange(1, i as int),
        decreases command@.len() - i,
    {
        args.push(command[i].clone());
        i = i + 1;
    }
    assert(seq![program@] + views(args@) =~= views(command@));
    let name = human_name.clone().concat(" log");
    CommandPlan { program, args, cwd: Some(cwd), name, desc: human_name }
}

/// What is reported and returned of a command that was run for a goodfile.
pub enum CommandOutcome {
    /// The command could not be run: this is said, and nothing reported.
    NotRun(String),
    /// The command ended well: this is reported.
    Passed(CommandInfo),
    /// The command failed: this is reported, and the command of the given name is said to have
    /// failed.
    Failed(CommandInfo, String),
}

/// The report says that a command of the given words is run in the given directory.
pub open spec fn reports_start(
    info: CommandInfo,
    words: Seq<Seq<char>>,
    working_dir: Option<&str>,
) -> bool {
    info matches CommandInfo::Started { command, cwd, id } && views(command@) == words && id == 1
        && match working_dir {
        Some(dir) => cwd matches Some(text) && text@ == dir@,
        None => cwd is None,
    }
}

/// What is reported to be run is what is run, and where: the words are those of the command, and the
/// directory that of the command below the one that holds the commit.
pub proof fn commands_run_as_reported(
    info: CommandInfo,
    plan: CommandPlan,
    words: Seq<Seq<char>>,
    working_dir: Option<&str>,
)
    requires
        reports_start(info, words, working_dir),
        plan.runs(words, Some(command_dir(working_dir))),
    ensures
        info matches CommandInfo::Started { command, cwd, .. } && views(command@) == seq![
            plan.program@,
        ] + views(plan.args@) && match cwd {
            Some(dir) => plan.cwd matches Some(at) && at@ == "tmpdir/"@ + dir@,
            None => plan.cwd matches Some(at) && at@ == "tmpdir"@,
        },
{
}

/// What is reported before a command is run.
pub fn command_started(command: &Vec<String>, working_dir: Option<&str>) -> (r: CommandInfo)
    ensures
        reports_start(r, views(command@), working_dir),
{
    let mut words: Vec<String> = Vec::new();
    let mut i: usize = 0;
    while i < command.len()
        invariant
            i <= command@.len(),
            words@ =~= command@.take(i as int),
        decreases command@.len() - i,
    {
        words.push(command[i].clone());
        i = i + 1;
    }
    assert(command@.take(command@.len() as int) == command@);
    CommandInfo::started(words, working_dir, 1)
}

/// What is reported and returned of a command of the given words.
pub open spec fn command_ends(
    words: Seq<Seq<char>>,
    result: Result<ExitInfo, String>,
    outcome: CommandOutcome,
) -> bool {
    match result {
        Ok(exit) => {
            let info = CommandInfo::Finished { exit_code: exit.code, id: 1 };
            if exit.success {
                outcome == CommandOutcome::Passed(info)
            } else {
                outcome matches CommandOutcome::Failed(i, name) && i == info && name@ == join(
                    words,
                    " "@,
                )
            }
        },
        Err(message) => outcome == CommandOutcome::NotRun(message),
    }
}

/// A command passes exactly if it was run and ended well, and fails exactly if it was run and did
/// not; either way its exit code is reported. One that could not be run is said so, and nothing is
/// reported of it.
pub proof fn commands_are_reported_as_they_end(
    words: Seq<Seq<char>>,
    result: Result<ExitInfo, String>,
    outcome: CommandOutcome,
)
    requires
        command_ends(words, result, outcome),
    ensures
        outcome is Passed <==> (result matches Ok(exit) && exit.success),
        outcome is Failed <==> (result matches Ok(exit) && !exit.success),
        outcome is NotRun <==> result is Err,
        outcome matches CommandOutcome::NotRun(message) ==> result->Err_0 == message,
        outcome matches CommandOutcome::Passed(info) ==> (info matches CommandInfo::Finished {
            exit_code,
            ..
        } && exit_code == result->Ok_0.code),
        outcome matches CommandOutcome::Failed(info, name) ==> (info matches CommandInfo::Finished {
            exit_code,
            ..
        } && exit_code == result->Ok_0.code) && name@ == join(words, " "@),
{
}

/// What is reported and returned of a command, by how it ended or why it could not be run.
pub fn command_outcome(
    command: &Vec<String>,
    result: Result<ExitInfo, String>,
) -> (r: CommandOutcome)
    ensures
        command_ends(views(command@), result, r),
{
    match result {
        Ok(exit) => {
            let info = CommandInfo::finished(exit.code, 1);
            if exit.success {
                CommandOutcome::Passed(info)
            } else {
                CommandOutcome::Failed(info, joined(command.as_slice(), " "))
            }
        },
        Err(message) => CommandOutcome::NotRun(message),
    }
}

/// How far the running of a job has come.
#[derive(Debug, Clone, Copy, PartialEq, Eq, Structural)]
pub enum JobStage {
    Starting,
    Fetching,
    Looking,
    Building,
    Reporting,
    Over,
}

/// What was found where a repository keeps its goodfile.
#[derive(Debug, Clone, Copy, PartialEq, Eq, Structural)]
pub enum GoodfilePlace {
    Found,
    Missing,
    Inaccessible,
}

/// What happened while a job was run.
pub enum JobEvent {
    StartReported,
    Fetched(Result<(), RepoError>),
    LookedUp(GoodfilePlace),
    /// The goodfile was run, or failed with this error.
    Built(Result<(), String>),
    StatusReported,
}

/// What is done next to run a job.
pub enum JobAction {
    /// The commit is fetched into an empty directory.
    Fetch,
    LookForGoodfile,
    RunGoodfile,
    RunDefaultGoodfile,
    ReportStatus(TaskInfo),
    End,
    /// The event does not belong to the stage: nothing is done.
    Nothing,
}

/// The status says that a job ended with the given word.
pub open spec fn ends_with_word(status: TaskInfo, word: Seq<char>) -> bool {
    status matches TaskInfo::Finished { status: text } && text@ == word
}

/// The status says that a job was broken off with the given word and description.
pub open spec fn breaks_off(status: TaskInfo, word: Seq<char>, desc: Seq<char>) -> bool {
    &&& status matches TaskInfo::Interrupted { status: text, description }
    &&& text@ == word
    &&& description matches Some(d)
    &&& d@ == desc
}

/// A step of a job, by what happened. A commit that cannot be fetched is a bad reference; else the
/// repository's goodfile is run, or the default one where it has none, and the job passes if that
/// does.
pub open spec fn job_moves(
    before: JobStage,
    event: JobEvent,
    after: JobStage,
    action: JobAction,
) -> bool {
    match (before, event) {
        (JobStage::Starting, JobEvent::StartReported) => {
            &&& after == JobStage::Fetching
            &&& action is Fetch
        },
        (JobStage::Fetching, JobEvent::Fetched(Ok(_))) => {
            &&& after == JobStage::Looking
            &&& action is LookForGoodfile
        },
        (JobStage::Fetching, JobEvent::Fetched(Err(_))) => {
            &&& after == JobStage::Reporting
            &&& action matches JobAction::ReportStatus(status)
            &&& ends_with_word(status, "bad_ref"@)
        },
        (JobStage::Looking, JobEvent::LookedUp(GoodfilePlace::Found)) => {
            &&& after == JobStage::Building
            &&& action is RunGoodfile
        },
        (JobStage::Looking, JobEvent::LookedUp(GoodfilePlace::Missing)) => {
            &&& after == JobStage::Building
            &&& action is RunDefaultGoodfile
        },
        (JobStage::Looking, JobEvent::LookedUp(GoodfilePlace::Inaccessible)) => {
            &&& after == JobStage::Reporting
            &&& action matches JobAction::ReportStatus(status)
            &&& breaks_off(status, "failed"@, "inaccessible goodfile"@)
        },
        (JobStage::Building, JobEvent::Built(Ok(_))) => {
            &&& after == JobStage::Reporting
            &&& action matches JobAction::ReportStatus(status)
            &&& ends_with_word(status, "pass"@)
        },
        (JobStage::Building, JobEvent::Built(Err(error))) => {
            &&& after == JobStage::Reporting
            &&& action matches JobAction::ReportStatus(status)
            &&& breaks_off(status, "failed"@, error@)
        },
        (JobStage::Reporting, JobEvent::StatusReported) => {
            &&& after == JobStage::Over
            &&& action is End
        },
        _ => {
            &&& after == before
            &&& action is Nothing
        },
    }
}

/// How many stages of a job lie behind it.
pub open spec fn job_rank(stage: JobStage) -> int {
    match stage {
        JobStage::Starting => 0,
        JobStage::Fetching => 1,
        JobStage::Looking => 2,
        JobStage::Building => 3,
        JobStage::Reporting => 4,
        JobStage::Over => 5,
    }
}

/// A job moves forward only, and so its status is reported at most once; and it does not end before
/// its status was reported.
pub proof fn jobs_report_once(
    before: JobStage,
    event: JobEvent,
    after: JobStage,
    action: JobAction,
)
    requires
        job_moves(before, event, after, action),
    ensures
        action is Nothing || job_rank(before) < job_rank(after),
        action is ReportStatus ==> after == JobStage::Reporting,
        action is ReportStatus ==> before != JobStage::Reporting,
        action is End ==> before == JobStage::Reporting && event is StatusReported,
{
}

/// A job is reported to have passed only when its goodfile ran without an error.
pub proof fn only_built_jobs_pass(
    before: JobStage,
    event: JobEvent,
    after: JobStage,
    action: JobAction,
)
    requires
        job_moves(before, event, after, action),
        action matches JobAction::ReportStatus(status) && ends_with_word(status, "pass"@),
    ensures
        before == JobStage::Building,
        event matches JobEvent::Built(Ok(_)),
{
    reveal_strlit("pass");
    reveal_strlit("bad_ref");
    assert("pass"@.len() != "bad_ref"@.len());
}

/// A job that is run.
pub struct RunningJob {
    pub job: RequestedJob,
    pub current_step: StepTracker,
    pub stage: JobStage,
}

impl RequestedJob {
    /// The job, to be run from its beginning.
    pub fn into_running(self) -> (r: RunningJob)
        ensures
            r.job == self,
            r.current_step.scopes@ == Seq::<String>::empty(),
            r.stage == JobStage::Starting,
    {
        RunningJob { job: self, current_step: StepTracker::new(), stage: JobStage::Starting }
    }
}

impl RunningJob {
    /// What is done next to fetch the job's commit, by how the command of the stage ended.
    pub fn clone_remote(&self, stage: CloneStage, exit: Option<ExitInfo>) -> (r: CloneStep)
        ensures
            clone_moves(stage, exit, self.job.commit@, r),
    {
        let no_exit = ExitInfo { success: true, code: Some(0) };
        match (stage, exit) {
            (CloneStage::Cloning, None) => CloneStep::Done(
                Err(RepoError::CloneFailedIdk { exit_code: no_exit }),
            ),
            (CloneStage::Cloning, Some(exit_code)) => if exit_code.success {
                CloneStep::Run(checkout_plan(&self.job))
            } else {
                CloneStep::Done(Err(RepoError::CloneFailedIdk { exit_code }))
            },
            (CloneStage::CheckingOut, None) => CloneStep::Done(
                Err(RepoError::CheckoutFailedIdk { exit_code: no_exit }),
            ),
            (CloneStage::CheckingOut, Some(exit_code)) => if exit_code.success {
                CloneStep::Done(Ok(()))
            } else {
                let unknown = match exit_code.code {
                    Some(code) => code == 128,
                    None => false,
                };
                if unknown {
                    CloneStep::Done(Err(RepoError::CheckoutFailedIdk { exit_code }))
                } else {
                    CloneStep::Done(Err(RepoError::CheckoutFailedMissingRef))
                }
            },
        }
    }

    /// What is done next to run the job, by what happened.
    pub fn run(&mut self, event: JobEvent) -> (r: JobAction)
        ensures
            job_moves(old(self).stage, event, final(self).stage, r),
            final(self).job == old(self).job,
            final(self).current_step == old(self).current_step,
    {
        match (self.stage, event) {
            (JobStage::Starting, JobEvent::StartReported) => {
                self.stage = JobStage::Fetching;
                JobAction::Fetch
            },
            (JobStage::Fetching, JobEvent::Fetched(Ok(_))) => {
                self.stage = JobStage::Looking;
                JobAction::LookForGoodfile
            },
            (JobStage::Fetching, JobEvent::Fetched(Err(_))) => {
                self.stage = JobStage::Reporting;
                JobAction::ReportStatus(TaskInfo::finished("bad_ref".to_owned()))
            },
            (JobStage::Looking, JobEvent::LookedUp(GoodfilePlace::Found)) => {
                self.stage = JobStage::Building;
                JobAction::RunGoodfile
            },
            (JobStage::Looking, JobEvent::LookedUp(GoodfilePlace::Missing)) => {
                self.stage = JobStage::Building;
                JobAction::RunDefaultGoodfile
            },
            (JobStage::Looking, JobEvent::LookedUp(GoodfilePlace::Inaccessible)) => {
                self.stage = JobStage::Reporting;
                JobAction::ReportStatus(
                    TaskInfo::interrupted(
                        "failed".to_owned(),
                        Some("inaccessible goodfile".to_owned()),
                    ),
                )
            },
            (JobStage::Building, JobEvent::Built(Ok(_))) => {
                self.stage = JobStage::Reporting;
                JobAction::ReportStatus(TaskInfo::finished("pass".to_owned()))
            },
            (JobStage::Building, JobEvent::Built(Err(error))) => {
                self.stage = JobStage::Reporting;
                JobAction::ReportStatus(TaskInfo::interrupted("failed".to_owned(), Some(error)))
            },
            (JobStage::Reporting, JobEvent::StatusReported) => {
                self.stage = JobStage::Over;
                JobAction::End
            },
            _ => JobAction::Nothing,
        }
    }
}

/// Why a runner and a server do not get on.
#[derive(Debug, Clone, Copy, PartialEq, Eq, Structural)]
pub enum HelloError {
    BadResponse,
    BadHello,
}

/// Whether a server greets a runner, by its status and the first part of its answer.
pub open spec fn hello_of(status: u16, hello: Option<Seq<u8>>) -> Result<(), HelloError> {
    if status != 200 {
        Err(HelloError::BadResponse)
    } else if hello is Some && hello->0 == seq![104u8, 101u8, 108u8, 108u8, 111u8] {
        Ok(())
    } else {
        Err(HelloError::BadHello)
    }
}

/// A runner is greeted exactly if the status is 200 and the first part of the answer spells `hello`;
/// a bad status counts before a bad greeting.
pub proof fn greetings_spell_hello(status: u16, hello: Option<Seq<u8>>)
    ensures
        hello_of(status, hello) is Ok <==> status == 200 && (hello matches Some(bytes)
            && bytes.len() == "hello"@.len() && forall|i: int|
            0 <= i < bytes.len() ==> #[trigger] bytes[i] == "hello"@[i] as u8),
        hello_of(status, hello) == Err::<(), HelloError>(HelloError::BadResponse) <==> status
            != 200,
{
    reveal_strlit("hello");
    let spelled = seq![104u8, 101u8, 108u8, 108u8, 111u8];
    assert("hello"@.len() == 5);
    assert("hello"@[0] as u8 == 104 && "hello"@[1] as u8 == 101 && "hello"@[2] as u8 == 108);
    assert("hello"@[3] as u8 == 108 && "hello"@[4] as u8 == 111);
    if hello is Some && hello->0.len() == 5 && (forall|i: int|
        0 <= i < hello->0.len() ==> #[trigger] hello->0[i] == "hello"@[i] as u8) {
        let bytes = hello->0;
        assert(bytes[0] == 104 && bytes[1] == 101 && bytes[2] == 108 && bytes[3] == 108);
        assert(bytes[4] == 111);
        assert(bytes =~= spelled);
    }
}

/// Whether a server that was asked for a job greets the runner: with status 200, and with `hello` as
/// the first part of its answer.
pub fn check_hello(status: u16, hello: Option<&[u8]>) -> (r: Result<(), HelloError>)
    ensures
        r == hello_of(
            status,
            (match hello {
                Some(bytes) => Some(bytes@),
                None => None,
            }),
        ),
{
    if status != 200 {
        return Err(HelloError::BadResponse);
    }
    match hello {
        Some(bytes) => {
            if bytes.len() == 5 && bytes[0] == 104 && bytes[1] == 101 && bytes[2] == 108 && bytes[3]
                == 108 && bytes[4] == 111 {
                assert(bytes@ =~= seq![104u8, 101u8, 108u8, 108u8, 111u8]);
                Ok(())
            } else {
                Err(HelloError::BadHello)
            }
        },
        None => Err(HelloError::BadHello),
    }
}

/// What came while a runner waited for a job.
pub enum WaitEvent {
    Message(ClientProto),
    Closed,
    Failed(String),
    Ponged,
    PongFailed(String),
}

/// Why a runner got no job.
pub enum WorkAcquireError {
    Unexpected(ClientProto),
    Protocol(String),
}

/// What a runner that waits for a job does next.
pub enum WaitAction {
    Wait,
    SendPong,
    Done(Result<Option<RequestedJob>, WorkAcquireError>),
}

/// What a runner that waits for a job does next.
pub open spec fn waits(event: WaitEvent, action: WaitAction) -> bool {
    match event {
        WaitEvent::Message(ClientProto::NewTask(task)) => action == WaitAction::Done(
            Ok(Some(task)),
        ),
        WaitEvent::Message(ClientProto::Ping) => action is SendPong,
        WaitEvent::Message(other) => action == WaitAction::Done(
            Err(WorkAcquireError::Unexpected(other)),
        ),
        WaitEvent::Closed => action == WaitAction::Done(Ok(None)),
        WaitEvent::Failed(e) => action == WaitAction::Done(Err(WorkAcquireError::Protocol(e))),
        WaitEvent::Ponged => action is Wait,
        WaitEvent::PongFailed(e) => action matches WaitAction::Done(
            Err(WorkAcquireError::Protocol(message)),
        ) && message@ == "failed to pong: "@ + e@,
    }
}

/// A runner gets a job exactly if the driver gives it one, and it is that job; it answers exactly
/// the pings, waits on exactly after it has answered one, and gets none without an error exactly if
/// the driver closes the connection.
pub proof fn jobs_come_from_the_driver(event: WaitEvent, action: WaitAction)
    requires
        waits(event, action),
    ensures
        action matches WaitAction::Done(Ok(Some(job))) ==> event == WaitEvent::Message(
            ClientProto::NewTask(job),
        ),
        event matches WaitEvent::Message(ClientProto::NewTask(job)) ==> action == WaitAction::Done(
            Ok(Some(job)),
        ),
        action is SendPong <==> (event matches WaitEvent::Message(ClientProto::Ping)),
        action is Wait <==> event is Ponged,
        (action matches WaitAction::Done(Ok(None))) <==> event is Closed,
        action matches WaitAction::Done(Err(WorkAcquireError::Unexpected(message))) ==> event
            == WaitEvent::Message(message) && message !is NewTask && message !is Ping,
        (action matches WaitAction::Done(Err(WorkAcquireError::Protocol(_)))) <==> event is Failed
            || event is PongFailed,
{
}

/// What a runner that waits for a job does next: it answers pings, and takes the first task.
pub fn wait_for_work(event: WaitEvent) -> (r: WaitAction)
    ensures
        waits(event, r),
{
    match event {
        WaitEvent::Message(ClientProto::NewTask(task)) => WaitAction::Done(Ok(Some(task))),
        WaitEvent::Message(ClientProto::Ping) => WaitAction::SendPong,
        WaitEvent::Message(other) => WaitAction::Done(Err(WorkAcquireError::Unexpected(other))),
        WaitEvent::Closed => WaitAction::Done(Ok(None)),
        WaitEvent::Failed(e) => WaitAction::Done(Err(WorkAcquireError::Protocol(e))),
        WaitEvent::Ponged => WaitAction::Wait,
        WaitEvent::PongFailed(e) => WaitAction::Done(
            Err(
                WorkAcquireError::Protocol(
                    "failed to pong: ".to_owned().concat(e.as_str()),
                ),
            ),
        ),
    }
}

/// How a runner gets jobs.
pub struct RunnerConfig {
    pub server_address: String,
    pub auth_secret: String,
    pub allowed_pushers: Option<Vec<String>>,
}

/// The request with which a runner asks for a job.
pub struct PollRequest {
    pub url: String,
    pub user_agent: String,
    pub authorization: String,
}

/// The request with which a runner asks for a job.
pub fn poll_request(config: &RunnerConfig) -> (r: PollRequest)
    ensures
        r.url@ == "https://ci.butactuallyin.space:9876/api/next_job"@,
        r.user_agent@ == "ci-butactuallyin-space-runner"@,
        r.authorization@ == trim(config.auth_secret@),
{
    PollRequest {
        url: "https://ci.butactuallyin.space:9876/api/next_job".to_owned(),
        user_agent: "ci-butactuallyin-space-runner".to_owned(),
        authorization: trimmed(config.auth_secret.as_str()),
    }
}

/// The message with which a runner asks for a job.
pub fn poll_message(allowed_pushers: Option<Vec<String>>, host_info: HostInfo) -> (r: ClientProto)
    ensures
        r == (ClientProto::NewTaskPlease { allowed_pushers, host_info }),
{
    ClientProto::new_task_please(allowed_pushers, host_info)
}

/// What came of asking for a job.
pub enum PollEvent {
    /// The request could not be sent, for the reason given.
    NotSent(String),
    /// The server did not greet the runner.
    NoHello,
    /// No job came: an error.
    NoJob,
    /// There is no job.
    Idle,
    /// A job came.
    Job(RequestedJob),
    /// The job was run.
    JobOver,
}

/// What a runner does next.
pub enum PollAction {
    /// It waits so many milliseconds, and asks again.
    AskAfter(u64),
    RunJob(RequestedJob),
}

/// What a runner does next.
pub open spec fn poll_next(event: PollEvent) -> PollAction {
    match event {
        PollEvent::NotSent(message) => if occurs(message@, "tcp connect error"@) {
            PollAction::AskAfter(5000)
        } else {
            PollAction::AskAfter(1000)
        },
        PollEvent::NoHello => PollAction::AskAfter(10000),
        PollEvent::NoJob => PollAction::AskAfter(10000),
        PollEvent::Idle => PollAction::AskAfter(2000),
        PollEvent::Job(job) => PollAction::RunJob(job),
        PollEvent::JobOver => PollAction::AskAfter(10000),
    }
}

/// A runner runs exactly the jobs that it gets, and after everything else asks again: after a second
/// at the earliest and ten at the latest, sooner after a server that had nothing to do than after
/// one that gave an error, and later where there is no server than where a request went wrong.
pub proof fn runners_ask_again(event: PollEvent)
    ensures
        event matches PollEvent::Job(job) ==> poll_next(event) == PollAction::RunJob(job),
        poll_next(event) matches PollAction::RunJob(job) ==> event == PollEvent::Job(job),
        poll_next(event) matches PollAction::AskAfter(ms) ==> 1000 <= ms <= 10000,
        event is Idle ==> poll_next(event) == PollAction::AskAfter(2000),
        event is NoHello || event is NoJob || event is JobOver ==> poll_next(event)
            == PollAction::AskAfter(10000),
        event matches PollEvent::NotSent(message) ==> (poll_next(event) == PollAction::AskAfter(5000)
            <==> occurs(message@, "tcp connect error"@)),
        event matches PollEvent::NotSent(message) ==> (poll_next(event) == PollAction::AskAfter(1000)
            <==> !occurs(message@, "tcp connect error"@)),
{
}

/// What a runner does next: it runs what it gets, and asks again after a while, sooner where the
/// server had nothing to do or could not be reached.
pub fn run_remote(event: PollEvent) -> (r: PollAction)
    ensures
        r == poll_next(event),
{
    match event {
        PollEvent::NotSent(message) => {
            if contains(message.as_str(), "tcp connect error") {
                PollAction::AskAfter(5000)
            } else {
                PollAction::AskAfter(1000)
            }
        },
        PollEvent::NoHello => PollAction::AskAfter(10000),
        PollEvent::NoJob => PollAction::AskAfter(10000),
        PollEvent::Idle => PollAction::AskAfter(2000),
        PollEvent::Job(job) => PollAction::RunJob(job),
        PollEvent::JobOver => PollAction::AskAfter(10000),
    }
}

/// The request that starts an artifact.
pub struct ArtifactRequest {
    pub url: String,
    pub headers: Vec<(String, String)>,
}

/// The headers of the request that starts an artifact.
pub open spec fn artifact_headers(
    name: Seq<char>,
    desc: Seq<char>,
    build_token: Seq<char>,
) -> Seq<(Seq<char>, Seq<char>)> {
    seq![
        ("user-agent"@, "ci-butactuallyin-space-runner"@),
        ("x-task-token"@, build_token),
        ("x-artifact-name"@, name),
        ("x-artifact-desc"@, desc),
    ]
}

/// The one value that the headers have under a name.
pub open spec fn header_is(
    headers: Seq<(Seq<char>, Seq<char>)>,
    name: Seq<char>,
    value: Seq<char>,
) -> bool {
    &&& exists|i: int| 0 <= i < headers.len() && (#[trigger] headers[i]).0 == name
    &&& forall|i: int|
        0 <= i < headers.len() && (#[trigger] headers[i]).0 == name ==> headers[i].1 == value
}

/// The driver finds the run's token, the artifact's name and its description each under the header
/// under which it looks for it.
pub proof fn artifacts_say_whose_they_are(
    name: Seq<char>,
    desc: Seq<char>,
    build_token: Seq<char>,
)
    ensures
        header_is(artifact_headers(name, desc, build_token), "x-task-token"@, build_token),
        header_is(artifact_headers(name, desc, build_token), "x-artifact-name"@, name),
        header_is(artifact_headers(name, desc, build_token), "x-artifact-desc"@, desc),
{
    reveal_strlit("user-agent");
    reveal_strlit("x-task-token");
    reveal_strlit("x-artifact-name");
    reveal_strlit("x-artifact-desc");
    assert("user-agent"@.len() == 10 && "x-task-token"@.len() == 12);
    assert("x-artifact-name"@.len() == 15 && "x-artifact-desc"@.len() == 15);
    assert("x-artifact-name"@[11] == 'n' && "x-artifact-desc"@[11] == 'd');
    let headers = artifact_headers(name, desc, build_token);
    assert(headers[0].0 == "user-agent"@);
    assert(headers[1] == ("x-task-token"@, build_token));
    assert(headers[2] == ("x-artifact-name"@, name));
    assert(headers[3] == ("x-artifact-desc"@, desc));
}

/// The request that starts an artifact of the job with the given token.
pub fn create_artifact(name: &str, desc: &str, build_token: &str) -> (r: ArtifactRequest)
    ensures
        r.url@ == "https://ci.butactuallyin.space:9876/api/artifact"@,
        crate::github::header_texts(r.headers@) == artifact_headers(name@, desc@, build_token@),
{
    let mut headers: Vec<(String, String)> = Vec::new();
    headers.push(("user-agent".to_owned(), "ci-butactuallyin-space-runner".to_owned()));
    headers.push(("x-task-token".to_owned(), build_token.to_owned()));
    headers.push(("x-artifact-name".to_owned(), name.to_owned()));
    headers.push(("x-artifact-desc".to_owned(), desc.to_owned()));
    ArtifactRequest {
        url: "https://ci.butactuallyin.space:9876/api/artifact".to_owned(),
        headers,
    }
}

/// What is said of a metric after it was sent: nothing, or that it could not be, for the given
/// reason.
pub fn metric_sent(name: &str, sent: Result<(), String>) -> (r: Result<(), String>)
    ensures
        match sent {
            Ok(_) => r is Ok,
            Err(reason) => r matches Err(message) && message@ == "failed to send metric "@ + name@
                + ": "@ + reason@ + ")"@,
        },
{
    match sent {
        Ok(_) => Ok(()),
        Err(reason) => Err(
            "failed to send metric ".to_owned().concat(name).concat(": ").concat(
                reason.as_str(),
            ).concat(")"),
        ),
    }
}

/// The file that keeps an artifact of a job that is run here and not for a server.
pub fn local_artifact(name: &str) -> (r: String)
    ensures
        r@ == path_under("ci_working_dir"@, name@),
{
    path_joined("ci_working_dir", name)
}

/// The argument names a goodfile to be run here, and not a configuration.
pub fn runs_locally(argument: &str) -> (r: bool)
    ensures
        r == "goodfile"@.is_suffix_of(argument@),
{
    ends_with(argument, "goodfile")
}

/// The repository of a goodfile, and where that must keep its history; `None` where the goodfile
/// has no directory.
pub fn local_repo(goodfile: &str) -> (r: Option<(String, String)>)
    ensures
        match r {
            Some((repo, git_dir)) => parent_of(goodfile@) == Some(repo@) && git_dir@ == repo@
                + "/.git"@,
            None => parent_of(goodfile@) is None,
        },
{
    match parent(goodfile) {
        Some(repo) => {
            let git_dir = repo.clone().concat("/.git");
            Some((repo, git_dir))
        },
        None => None,
    }
}

/// The job that builds what a repository here has checked out, by what git says that is.
pub fn local_job(repo: String, log_output: &str) -> (r: RequestedJob)
    ensures
        r.commit@ == trim(log_output@),
        r.remote_url == repo,
        r.build_token@ == "n/a"@,
{
    RequestedJob {
        commit: trimmed(log_output),
        remote_url: repo,
        build_token: "n/a".to_owned(),
    }
}

/// A job that is run from its beginning: `stages[i]` is how far it has come before event `i`, and
/// `actions[i]` what is done then. Every event belongs to its stage.
pub open spec fn job_runs(
    stages: Seq<JobStage>,
    events: Seq<JobEvent>,
    actions: Seq<JobAction>,
) -> bool {
    &&& stages.len() == events.len() + 1
    &&& actions.len() == events.len()
    &&& stages[0] == JobStage::Starting
    &&& forall|i: int|
        0 <= i < actions.len() ==> {
            &&& job_moves(stages[i], events[i], stages[i + 1], #[trigger] actions[i])
            &&& actions[i] !is Nothing
        }
}

proof fn job_goes_on(
    stages: Seq<JobStage>,
    events: Seq<JobEvent>,
    actions: Seq<JobAction>,
    i: int,
)
    requires
        job_runs(stages, events, actions),
    ensures
        0 <= i < actions.len() ==> {
            &&& job_moves(stages[i], events[i], stages[i + 1], actions[i])
            &&& actions[i] !is Nothing
        },
{
}

/// A goodfile is looked for only after the commit was fetched, and run only after it was looked for;
/// a commit that was not fetched, for whatever reason, is reported as a bad reference.
pub proof fn goodfiles_need_a_commit(
    before: JobStage,
    event: JobEvent,
    after: JobStage,
    action: JobAction,
)
    requires
        job_moves(before, event, after, action),
    ensures
        before == JobStage::Fetching && after == JobStage::Looking ==> (event matches JobEvent::Fetched(Ok(_))),
        action is LookForGoodfile ==> before == JobStage::Fetching && (event matches JobEvent::Fetched(Ok(_))),
        before == JobStage::Fetching && (event matches JobEvent::Fetched(Err(_))) ==> (action
            matches JobAction::ReportStatus(TaskInfo::Finished { status }) && status@
            == "bad_ref"@),
        action is RunGoodfile <==> before == JobStage::Looking && event == JobEvent::LookedUp(
            GoodfilePlace::Found,
        ),
        action is RunDefaultGoodfile <==> before == JobStage::Looking && event
            == JobEvent::LookedUp(GoodfilePlace::Missing),
        action is Fetch <==> before == JobStage::Starting && event is StartReported,
{
}

/// What a job reports: `pass` exactly if its goodfile ran without an error, `bad_ref` exactly if its
/// commit was not fetched, and else that it failed, with the error of the goodfile or with that the
/// goodfile could not be read.
pub proof fn jobs_report_what_happened(
    before: JobStage,
    event: JobEvent,
    after: JobStage,
    action: JobAction,
)
    requires
        job_moves(before, event, after, action),
        action is ReportStatus,
    ensures
        after == JobStage::Reporting,
        action matches JobAction::ReportStatus(status) && match status {
            TaskInfo::Finished { status } => {
                ||| status@ == "pass"@ && before == JobStage::Building && (event matches JobEvent::Built(Ok(_)))
                ||| status@ == "bad_ref"@ && before == JobStage::Fetching && (event
                    matches JobEvent::Fetched(Err(_)))
            },
            TaskInfo::Interrupted { status, description } => {
                &&& status@ == "failed"@
                &&& description is Some
                &&& {
                    ||| before == JobStage::Building && (event matches JobEvent::Built(Err(error))
                        && description->0@ == error@)
                    ||| before == JobStage::Looking && event == JobEvent::LookedUp(
                        GoodfilePlace::Inaccessible,
                    ) && description->0@ == "inaccessible goodfile"@
                }
            },
        },
{
}

/// A job that reports that it passed was started, its commit was fetched, a goodfile was looked for
/// and not inaccessible, and the goodfile, its own or the default one, ran without an error; and
/// nothing else happened.
pub proof fn passed_jobs_were_fetched_and_built(
    stages: Seq<JobStage>,
    events: Seq<JobEvent>,
    actions: Seq<JobAction>,
    k: int,
)
    requires
        job_runs(stages, events, actions),
        0 <= k < actions.len(),
        actions[k] matches JobAction::ReportStatus(status) && ends_with_word(status, "pass"@),
    ensures
        k == 3,
        events[0] is StartReported,
        events[1] matches JobEvent::Fetched(Ok(_)),
        events[2] == JobEvent::LookedUp(GoodfilePlace::Found) && actions[2] is RunGoodfile
            || events[2] == JobEvent::LookedUp(GoodfilePlace::Missing) && actions[2]
            is RunDefaultGoodfile,
        events[3] matches JobEvent::Built(Ok(_)),
{
    job_goes_on(stages, events, actions, 0);
    job_goes_on(stages, events, actions, 1);
    job_goes_on(stages, events, actions, 2);
    job_goes_on(stages, events, actions, 3);
    job_goes_on(stages, events, actions, 4);
    job_goes_on(stages, events, actions, 5);
    job_goes_on(stages, events, actions, k);
    only_built_jobs_pass(stages[k], events[k], stages[k + 1], actions[k]);
}

/// A job that has ended reported its status just before, and once.
pub proof fn ended_jobs_have_reported(
    stages: Seq<JobStage>,
    events: Seq<JobEvent>,
    actions: Seq<JobAction>,
)
    requires
        job_runs(stages, events, actions),
        actions.len() > 0,
        actions.last() is End,
    ensures
        3 <= actions.len() <= 5,
        actions[actions.len() - 2] is ReportStatus,
        events.last() is StatusReported,
        forall|i: int|
            0 <= i < actions.len() - 2 ==> (#[trigger] actions[i]) !is ReportStatus && actions[i]
                !is End,
{
    job_goes_on(stages, events, actions, 0);
    job_goes_on(stages, events, actions, 1);
    job_goes_on(stages, events, actions, 2);
    job_goes_on(stages, events, actions, 3);
    job_goes_on(stages, events, actions, 4);
    job_goes_on(stages, events, actions, 5);
}

/// The commit is fetched from the job's remote into the directory in which it is then checked out
/// and in which, or below which, the commands of its goodfile are run.
pub proof fn commands_run_where_the_commit_is(
    clone: CommandPlan,
    checkout: CommandPlan,
    command: CommandPlan,
    remote_url: Seq<char>,
    commit: Seq<char>,
    words: Seq<Seq<char>>,
    working_dir: Option<&str>,
)
    requires
        clones(clone, remote_url),
        checks_out(checkout, commit),
        command.runs(words, Some(command_dir(working_dir))),
        words.len() > 0,
    ensures
        clone.program@ == "git"@,
        views(clone.args@) == seq!["clone"@, remote_url, "tmpdir"@],
        clone.cwd is None,
        checkout.program@ == "git"@,
        views(checkout.args@) == seq!["checkout"@, commit],
        text_of(checkout.cwd) == Some(views(clone.args@).last()),
        command.program@ == words[0],
        views(command.args@) == words.skip(1),
        command.cwd is Some,
        text_of(checkout.cwd)->0.is_prefix_of(command.cwd->0@),
        working_dir is None ==> text_of(command.cwd) == text_of(checkout.cwd),
        working_dir matches Some(dir) ==> command.cwd->0@ == text_of(checkout.cwd)->0 + "/"@ + dir@,
{
    reveal_strlit("tmpdir");
    reveal_strlit("tmpdir/");
    reveal_strlit("/");
    assert("tmpdir/"@ =~= "tmpdir"@ + "/"@);
    let w1 = seq![clone.program@] + views(clone.args@);
    assert(w1.skip(1) =~= views(clone.args@));
    assert(seq!["git"@, "clone"@, remote_url, "tmpdir"@].skip(1) =~= seq![
        "clone"@,
        remote_url,
        "tmpdir"@,
    ]);
    assert(w1[0] == clone.program@);
    let w2 = seq![checkout.program@] + views(checkout.args@);
    assert(w2.skip(1) =~= views(checkout.args@));
    assert(seq!["git"@, "checkout"@, commit].skip(1) =~= seq!["checkout"@, commit]);
    assert(w2[0] == checkout.program@);
    let w3 = seq![command.program@] + views(command.args@);
    assert(w3.skip(1) =~= views(command.args@));
    assert(w3[0] == command.program@);
    let dir = command.cwd->0@;
    assert("tmpdir"@ =~= dir.take(6));
    if working_dir is Some {
        assert(dir =~= "tmpdir"@ + "/"@ + working_dir->0@);
    }
}

/// A commit counts as fetched exactly if the repository was cloned and then the commit checked out;
/// what went wrong is told by which of the two did: a clone that failed is never taken for a missing
/// commit, nor a checkout for a failed clone.
pub proof fn failures_to_fetch_are_told_apart(
    stage: CloneStage,
    exit: Option<ExitInfo>,
    commit: Seq<char>,
    step: CloneStep,
)
    requires
        clone_moves(stage, exit, commit, step),
    ensures
        step matches CloneStep::Done(Ok(_)) ==> stage == CloneStage::CheckingOut && (exit
            matches Some(status) && status.success),
        step is Run ==> stage == CloneStage::Cloning && (exit matches Some(status)
            && status.success),
        (step matches CloneStep::Done(Err(RepoError::CloneFailedIdk { .. }))) <==> stage
            == CloneStage::Cloning && !(exit matches Some(status) && status.success),
        (step matches CloneStep::Done(Err(RepoError::CheckoutFailedMissingRef))) <==> stage
            == CloneStage::CheckingOut && (exit matches Some(status) && !status.success
            && status.code != Some(128i32)),
        (step matches CloneStep::Done(Err(RepoError::CheckoutFailedIdk { .. }))) <==> stage
            == CloneStage::CheckingOut && (exit matches Some(status) ==> !status.success
            && status.code == Some(128i32)),
        exit matches Some(status) ==> match step {
            CloneStep::Done(Err(RepoError::CloneFailedIdk { exit_code })) => exit_code == status,
            CloneStep::Done(Err(RepoError::CheckoutFailedIdk { exit_code })) => exit_code
                == status,
            _ => true,
        },
{
}

/// The two outputs of a command become artifacts of different names, each with the name of the
/// command at its beginning, and are found as outputs by their names.
pub proof fn outputs_are_told_apart(text: Seq<char>)
    ensures
        output_name(text, false) != output_name(text, true),
        text.is_prefix_of(output_name(text, false)),
        text.is_prefix_of(output_name(text, true)),
        "(stdout)"@.is_suffix_of(output_name(text, false)),
        "(stderr)"@.is_suffix_of(output_name(text, true)),
{
    reveal_strlit(" (stderr)");
    reveal_strlit(" (stdout)");
    reveal_strlit("(stderr)");
    reveal_strlit("(stdout)");
    let out = output_name(text, false);
    let err = output_name(text, true);
    assert(text =~= out.take(text.len() as int));
    assert(text =~= err.take(text.len() as int));
    assert("(stdout)"@ =~= out.subrange(out.len() - 8, out.len() as int));
    assert("(stderr)"@ =~= err.subrange(err.len() - 8, err.len() as int));
    assert(out[text.len() as int + 5] == 'o');
    assert(err[text.len() as int + 5] == 'e');
}

/// A job never gets stuck: at every stage, each thing that can come of what was done leads on.
pub proof fn jobs_go_on(before: JobStage, event: JobEvent, after: JobStage, action: JobAction)
    requires
        job_moves(before, event, after, action),
    ensures
        before == JobStage::Starting && event is StartReported ==> action is Fetch,
        before == JobStage::Fetching && event is Fetched ==> action is LookForGoodfile || action
            is ReportStatus,
        before == JobStage::Looking && event is LookedUp ==> action is RunGoodfile || action
            is RunDefaultGoodfile || action is ReportStatus,
        before == JobStage::Building && event is Built ==> action is ReportStatus,
        before == JobStage::Reporting && event is StatusReported ==> action is End && after
            == JobStage::Over,
        action is Nothing <==> after == before,
{
}

/// After the repository was cloned the job's own commit is checked out.
pub proof fn the_commit_is_checked_out(
    stage: CloneStage,
    exit: Option<ExitInfo>,
    commit: Seq<char>,
    step: CloneStep,
)
    requires
        clone_moves(stage, exit, commit, step),
    ensures
        stage == CloneStage::Cloning && (exit matches Some(status) && status.success) ==> (step
            matches CloneStep::Run(plan) && plan.program@ == "git"@ && views(plan.args@) == seq![
            "checkout"@,
            commit,
        ]),
{
    if let CloneStep::Run(plan) = step {
        let words = seq![plan.program@] + views(plan.args@);
        assert(words.skip(1) =~= views(plan.args@));
        assert(seq!["git"@, "checkout"@, commit].skip(1) =~= seq!["checkout"@, commit]);
        assert(words[0] == plan.program@);
    }
}

} // verus!
