//! The messages that a runner and the driver exchange.

use vstd::prelude::*;

verus! {

/// One message, in either direction.
#[derive(Debug)]
pub enum ClientProto {
    Started,
    ArtifactCreate,
    NewTask(RequestedJob),
    NewTaskPlease { allowed_pushers: Option<Vec<String>>, host_info: HostInfo },
    Metric { name: String, value: String },
    Command(CommandInfo),
    TaskStatus(TaskInfo),
    Ping,
    Pong,
}

/// What a runner says of a command that it runs.
#[derive(Debug, Clone)]
pub enum CommandInfo {
    Started { command: Vec<String>, cwd: Option<String>, id: u32 },
    Finished { exit_code: Option<i32>, id: u32 },
}

/// How a task ended.
#[derive(Debug, Clone)]
pub enum TaskInfo {
    Finished { status: String },
    Interrupted { status: String, description: Option<String> },
}

impl ClientProto {
    pub fn metric(name: String, value: String) -> (r: Self)
        ensures
            r == (ClientProto::Metric { name, value }),
    {
        ClientProto::Metric { name, value }
    }

    pub fn command(state: CommandInfo) -> (r: Self)
        ensures
            r == ClientProto::Command(state),
    {
        ClientProto::Command(state)
    }

    pub fn new_task_please(allowed_pushers: Option<Vec<String>>, host_info: HostInfo) -> (r: Self)
        ensures
            r == (ClientProto::NewTaskPlease { allowed_pushers, host_info }),
    {
        ClientProto::NewTaskPlease { allowed_pushers, host_info }
    }

    pub fn task_status(state: TaskInfo) -> (r: Self)
        ensures
            r == ClientProto::TaskStatus(state),
    {
        ClientProto::TaskStatus(state)
    }

    pub fn new_task(task: RequestedJob) -> (r: Self)
        ensures
            r == ClientProto::NewTask(task),
    {
        ClientProto::NewTask(task)
    }
}

impl CommandInfo {
    pub fn started(command: Vec<String>, cwd: Option<&str>, id: u32) -> (r: Self)
        ensures
            r matches CommandInfo::Started { command: c, cwd: d, id: n } && c == command && n == id
                && match cwd {
                Some(dir) => d matches Some(text) && text@ == dir@,
                None => d is None,
            },
    {
        let cwd: Option<String> = match cwd {
            Some(dir) => Some(dir.to_owned()),
            None => None,
        };
        CommandInfo::Started { command, cwd, id }
    }

    pub fn finished(exit_code: Option<i32>, id: u32) -> (r: Self)
        ensures
            r == (CommandInfo::Finished { exit_code, id }),
    {
        CommandInfo::Finished { exit_code, id }
    }
}

impl TaskInfo {
    pub fn finished(status: String) -> (r: Self)
        ensures
            r == (TaskInfo::Finished { status }),
    {
        TaskInfo::Finished { status }
    }

    pub fn interrupted(status: String, description: Option<String>) -> (r: Self)
        ensures
            r == (TaskInfo::Interrupted { status, description }),
    {
        TaskInfo::Interrupted { status, description }
    }
}

/// The machine that a runner runs on.
#[derive(Debug, Clone)]
pub struct HostInfo {
    pub hostname: String,
    pub cpu_info: CpuInfo,
    pub memory_info: MemoryInfo,
    pub env_info: EnvInfo,
}

#[derive(Debug, Clone)]
pub struct CpuInfo {
    pub model_name: String,
    pub microcode: String,
    pub cores: u32,
    pub vendor_id: String,
    pub family: String,
    pub model: String,
    /// clock speed in khz
    pub max_freq: u64,
}

#[derive(Debug, Clone)]
pub struct MemoryInfo {
    pub total: String,
    pub available: String,
}

#[derive(Debug, Clone)]
pub struct EnvInfo {
    pub arch: String,
    pub family: String,
    pub os: String,
}

/// A commit to build, where to fetch it, and the token under which to report.
#[derive(Debug, Clone)]
pub struct RequestedJob {
    pub commit: String,
    pub remote_url: String,
    pub build_token: String,
}

} // verus!
