//! What the rows of the database stand for.

use crate::dbctx::DbCtx;
use crate::dbctx::TOKEN_EXPIRY_MS;
use crate::sql::ArtifactRecord;
use crate::sql::CommitName;
use crate::sql::Job;
use crate::sql::MetricRecord;
use crate::sql::NameState;
use crate::sql::PendingRun;
use crate::sql::Remote;
use crate::sql::Repo;
use crate::sql::Run;
use crate::sql::RunState;
use crate::sql::TokenValidity;
use vstd::prelude::*;

verus! {

/// A value in a row. `Other` is a value that no record holds: a real number, or bytes.
pub enum Cell {
    Null,
    Integer(i64),
    Text(String),
    Other,
}

/// The number in column `i`, where there is one that is not negative.
pub open spec fn u64_at(row: Seq<Cell>, i: int) -> Option<u64> {
    if 0 <= i < row.len() {
        match row[i] {
            Cell::Integer(n) => if n >= 0 {
                Some(n as u64)
            } else {
                None
            },
            _ => None,
        }
    } else {
        None
    }
}

/// The number or the null in column `i`.
pub open spec fn opt_u64_at(row: Seq<Cell>, i: int) -> Option<Option<u64>> {
    if 0 <= i < row.len() && row[i] is Null {
        Some(None)
    } else {
        match u64_at(row, i) {
            Some(n) => Some(Some(n)),
            None => None,
        }
    }
}

/// The number in column `i`, where it fits a byte.
pub open spec fn u8_at(row: Seq<Cell>, i: int) -> Option<u8> {
    match u64_at(row, i) {
        Some(n) => if n <= 255 {
            Some(n as u8)
        } else {
            None
        },
        None => None,
    }
}

/// The byte or the null in column `i`.
pub open spec fn opt_u8_at(row: Seq<Cell>, i: int) -> Option<Option<u8>> {
    if 0 <= i < row.len() && row[i] is Null {
        Some(None)
    } else {
        match u8_at(row, i) {
            Some(n) => Some(Some(n)),
            None => None,
        }
    }
}

/// The text in column `i`.
pub open spec fn text_at(row: Seq<Cell>, i: int) -> Option<String> {
    if 0 <= i < row.len() {
        match row[i] {
            Cell::Text(s) => Some(s),
            _ => None,
        }
    } else {
        None
    }
}

/// The text or the null in column `i`.
pub open spec fn opt_text_at(row: Seq<Cell>, i: int) -> Option<Option<String>> {
    if 0 <= i < row.len() && row[i] is Null {
        Some(None)
    } else {
        match text_at(row, i) {
            Some(s) => Some(Some(s)),
            None => None,
        }
    }
}

pub(crate) fn read_u64(row: &[Cell], i: usize) -> (r: Option<u64>)
    ensures
        r == u64_at(row@, i as int),
{
    if i < row.len() {
        match &row[i] {
            Cell::Integer(n) => if *n >= 0 {
                Some(*n as u64)
            } else {
                None
            },
            _ => None,
        }
    } else {
        None
    }
}

fn read_null(row: &[Cell], i: usize) -> (r: bool)
    ensures
        r == (i < row@.len() && row@[i as int] is Null),
{
    if i < row.len() {
        match &row[i] {
            Cell::Null => true,
            _ => false,
        }
    } else {
        false
    }
}

pub(crate) fn read_opt_u64(row: &[Cell], i: usize) -> (r: Option<Option<u64>>)
    ensures
        r == opt_u64_at(row@, i as int),
{
    if read_null(row, i) {
        return Some(None);
    }
    match read_u64(row, i) {
        Some(n) => Some(Some(n)),
        None => None,
    }
}

pub(crate) fn read_u8(row: &[Cell], i: usize) -> (r: Option<u8>)
    ensures
        r == u8_at(row@, i as int),
{
    match read_u64(row, i) {
        Some(n) => if n <= 255 {
            Some(n as u8)
        } else {
            None
        },
        None => None,
    }
}

pub(crate) fn read_opt_u8(row: &[Cell], i: usize) -> (r: Option<Option<u8>>)
    ensures
        r == opt_u8_at(row@, i as int),
{
    if read_null(row, i) {
        return Some(None);
    }
    match read_u8(row, i) {
        Some(n) => Some(Some(n)),
        None => None,
    }
}

pub(crate) fn read_text(row: &[Cell], i: usize) -> (r: Option<String>)
    ensures
        r == text_at(row@, i as int),
{
    if i < row.len() {
        match &row[i] {
            Cell::Text(s) => Some(s.clone()),
            _ => None,
        }
    } else {
        None
    }
}

pub(crate) fn read_opt_text(row: &[Cell], i: usize) -> (r: Option<Option<String>>)
    ensures
        r == opt_text_at(row@, i as int),
{
    if read_null(row, i) {
        return Some(None);
    }
    match read_text(row, i) {
        Some(s) => Some(Some(s)),
        None => None,
    }
}

/// The state that a number stands for.
pub open spec fn state_of(n: u8) -> Option<RunState> {
    if n <= 4 {
        Some(
            if n == 0 {
                RunState::Pending
            } else if n == 1 {
                RunState::Started
            } else if n == 2 {
                RunState::Finished
            } else if n == 3 {
                RunState::Error
            } else {
                RunState::Invalid
            },
        )
    } else {
        None
    }
}

/// A run's state is read back from its number.
pub proof fn state_reads_back(s: RunState)
    ensures
        state_of(s.number()) == Some(s),
{
}

/// The row holds an artifact.
pub open spec fn holds_artifact(row: Seq<Cell>) -> bool {
    &&& u64_at(row, 0) is Some
    &&& u64_at(row, 1) is Some
    &&& text_at(row, 2) is Some
    &&& text_at(row, 3) is Some
    &&& u64_at(row, 4) is Some
    &&& opt_u64_at(row, 5) is Some
}

/// The artifact that a row holds.
pub open spec fn artifact_in(row: Seq<Cell>) -> Option<ArtifactRecord> {
    if holds_artifact(row) {
        Some(
            ArtifactRecord {
                id: u64_at(row, 0)->0,
                run_id: u64_at(row, 1)->0,
                name: text_at(row, 2)->0,
                desc: text_at(row, 3)->0,
                created_time: u64_at(row, 4)->0,
                completed_time: opt_u64_at(row, 5)->0,
            },
        )
    } else {
        None
    }
}

/// The row holds a metric.
pub open spec fn holds_metric(row: Seq<Cell>) -> bool {
    &&& u64_at(row, 0) is Some
    &&& u64_at(row, 1) is Some
    &&& text_at(row, 2) is Some
    &&& text_at(row, 3) is Some
}

/// The metric that a row holds.
pub open spec fn metric_in(row: Seq<Cell>) -> Option<MetricRecord> {
    if holds_metric(row) {
        Some(
            MetricRecord {
                id: u64_at(row, 0)->0,
                run_id: u64_at(row, 1)->0,
                name: text_at(row, 2)->0,
                value: text_at(row, 3)->0,
            },
        )
    } else {
        None
    }
}

/// The row holds a job.
pub open spec fn holds_job(row: Seq<Cell>) -> bool {
    &&& u64_at(row, 0) is Some
    &&& opt_text_at(row, 1) is Some
    &&& u64_at(row, 2) is Some
    &&& u64_at(row, 3) is Some
    &&& u64_at(row, 4) is Some
    &&& opt_text_at(row, 5) is Some
}

/// The job that a row holds.
pub open spec fn job_in(row: Seq<Cell>) -> Option<Job> {
    if holds_job(row) {
        Some(
            Job {
                id: u64_at(row, 0)->0,
                source: opt_text_at(row, 1)->0,
                created_time: u64_at(row, 2)->0,
                remote_id: u64_at(row, 3)->0,
                commit_id: u64_at(row, 4)->0,
                run_preferences: opt_text_at(row, 5)->0,
            },
        )
    } else {
        None
    }
}

/// The row holds a remote.
pub open spec fn holds_remote(row: Seq<Cell>) -> bool {
    &&& u64_at(row, 0) is Some
    &&& u64_at(row, 1) is Some
    &&& text_at(row, 2) is Some
    &&& text_at(row, 3) is Some
    &&& text_at(row, 4) is Some
    &&& text_at(row, 5) is Some
    &&& text_at(row, 6) is Some
}

/// The remote that a row holds.
pub open spec fn remote_in(row: Seq<Cell>) -> Option<Remote> {
    if holds_remote(row) {
        Some(
            Remote {
                id: u64_at(row, 0)->0,
                repo_id: u64_at(row, 1)->0,
                remote_path: text_at(row, 2)->0,
                remote_api: text_at(row, 3)->0,
                remote_url: text_at(row, 4)->0,
                remote_git_url: text_at(row, 5)->0,
                notifier_config_path: text_at(row, 6)->0,
            },
        )
    } else {
        None
    }
}

/// The row holds a repo.
pub open spec fn holds_repo(row: Seq<Cell>) -> bool {
    &&& u64_at(row, 0) is Some
    &&& text_at(row, 1) is Some
    &&& opt_text_at(row, 2) is Some
}

/// The repo that a row holds.
pub open spec fn repo_in(row: Seq<Cell>) -> Option<Repo> {
    if holds_repo(row) {
        Some(
            Repo {
                id: u64_at(row, 0)->0,
                name: text_at(row, 1)->0,
                default_run_preference: opt_text_at(row, 2)->0,
            },
        )
    } else {
        None
    }
}

/// The row holds a pending run.
pub open spec fn holds_pending_run(row: Seq<Cell>) -> bool {
    &&& u64_at(row, 0) is Some
    &&& u64_at(row, 1) is Some
    &&& u64_at(row, 2) is Some
}

/// The pending run that a row holds.
pub open spec fn pending_run_in(row: Seq<Cell>) -> Option<PendingRun> {
    if holds_pending_run(row) {
        Some(
            PendingRun {
                id: u64_at(row, 0)->0,
                job_id: u64_at(row, 1)->0,
                create_time: u64_at(row, 2)->0,
            },
        )
    } else {
        None
    }
}

/// The row holds a run.
pub open spec fn holds_run(row: Seq<Cell>) -> bool {
    &&& u64_at(row, 0) is Some
    &&& u64_at(row, 1) is Some
    &&& opt_text_at(row, 2) is Some
    &&& u8_at(row, 3) matches Some(n) && n <= 4
    &&& opt_u64_at(row, 4) is Some
    &&& opt_text_at(row, 5) is Some
    &&& u64_at(row, 6) is Some
    &&& opt_u64_at(row, 7) is Some
    &&& opt_u64_at(row, 8) is Some
    &&& opt_u64_at(row, 9) is Some
    &&& opt_u8_at(row, 10) is Some
    &&& opt_text_at(row, 11) is Some
}

/// The run that a row holds.
pub open spec fn run_in(row: Seq<Cell>) -> Option<Run> {
    if holds_run(row) {
        Some(
            Run {
                id: u64_at(row, 0)->0,
                job_id: u64_at(row, 1)->0,
                artifacts_path: opt_text_at(row, 2)->0,
                state: state_of(u8_at(row, 3)->0)->0,
                host_id: opt_u64_at(row, 4)->0,
                build_token: opt_text_at(row, 5)->0,
                create_time: u64_at(row, 6)->0,
                start_time: opt_u64_at(row, 7)->0,
                complete_time: opt_u64_at(row, 8)->0,
                run_timeout: opt_u64_at(row, 9)->0,
                build_result: opt_u8_at(row, 10)->0,
                final_text: opt_text_at(row, 11)->0,
            },
        )
    } else {
        None
    }
}

impl DbCtx {
    /// The artifact that a row holds.
    pub fn row2artifact(row: &[Cell]) -> (r: Option<ArtifactRecord>)
        ensures
            r == artifact_in(row@),
    {
        let id: u64 = read_u64(row, 0)?;
        let run_id: u64 = read_u64(row, 1)?;
        let name: String = read_text(row, 2)?;
        let desc: String = read_text(row, 3)?;
        let created_time: u64 = read_u64(row, 4)?;
        let completed_time: Option<u64> = read_opt_u64(row, 5)?;
        Some(
            ArtifactRecord {
                id,
                run_id,
                name,
                desc,
                created_time,
                completed_time,
            },
        )
    }

    /// The metric that a row holds.
    pub fn row2metric(row: &[Cell]) -> (r: Option<MetricRecord>)
        ensures
            r == metric_in(row@),
    {
        let id: u64 = read_u64(row, 0)?;
        let run_id: u64 = read_u64(row, 1)?;
        let name: String = read_text(row, 2)?;
        let value: String = read_text(row, 3)?;
        Some(
            MetricRecord {
                id,
                run_id,
                name,
                value,
            },
        )
    }

    /// The job that a row holds.
    pub fn row2job(row: &[Cell]) -> (r: Option<Job>)
        ensures
            r == job_in(row@),
    {
        let id: u64 = read_u64(row, 0)?;
        let source: Option<String> = read_opt_text(row, 1)?;
        let created_time: u64 = read_u64(row, 2)?;
        let remote_id: u64 = read_u64(row, 3)?;
        let commit_id: u64 = read_u64(row, 4)?;
        let run_preferences: Option<String> = read_opt_text(row, 5)?;
        Some(
            Job {
                id,
                source,
                created_time,
                remote_id,
                commit_id,
                run_preferences,
            },
        )
    }

    /// The remote that a row holds.
    pub fn row2remote(row: &[Cell]) -> (r: Option<Remote>)
        ensures
            r == remote_in(row@),
    {
        let id: u64 = read_u64(row, 0)?;
        let repo_id: u64 = read_u64(row, 1)?;
        let remote_path: String = read_text(row, 2)?;
        let remote_api: String = read_text(row, 3)?;
        let remote_url: String = read_text(row, 4)?;
        let remote_git_url: String = read_text(row, 5)?;
        let notifier_config_path: String = read_text(row, 6)?;
        Some(
            Remote {
                id,
                repo_id,
                remote_path,
                remote_api,
                remote_url,
                remote_git_url,
                notifier_config_path,
            },
        )
    }

    /// The repo that a row holds.
    pub fn row2repo(row: &[Cell]) -> (r: Option<Repo>)
        ensures
            r == repo_in(row@),
    {
        let id: u64 = read_u64(row, 0)?;
        let name: String = read_text(row, 1)?;
        let default_run_preference: Option<String> = read_opt_text(row, 2)?;
        Some(
            Repo {
                id,
                name,
                default_run_preference,
            },
        )
    }

    /// The pending run that a row holds.
    pub fn row2pending_run(row: &[Cell]) -> (r: Option<PendingRun>)
        ensures
            r == pending_run_in(row@),
    {
        let id: u64 = read_u64(row, 0)?;
        let job_id: u64 = read_u64(row, 1)?;
        let create_time: u64 = read_u64(row, 2)?;
        Some(
            PendingRun {
                id,
                job_id,
                create_time,
            },
        )
    }

    /// The run that a row holds.
    pub fn row2run(row: &[Cell]) -> (r: Option<Run>)
        ensures
            r == run_in(row@),
    {
        let id: u64 = read_u64(row, 0)?;
        let job_id: u64 = read_u64(row, 1)?;
        let artifacts_path: Option<String> = read_opt_text(row, 2)?;
        let code: u8 = read_u8(row, 3)?;
        let state: RunState = match RunState::try_from(code) {
            Ok(state) => state,
            Err(_) => {
                return None;
            },
        };
        let host_id: Option<u64> = read_opt_u64(row, 4)?;
        let build_token: Option<String> = read_opt_text(row, 5)?;
        let create_time: u64 = read_u64(row, 6)?;
        let start_time: Option<u64> = read_opt_u64(row, 7)?;
        let complete_time: Option<u64> = read_opt_u64(row, 8)?;
        let run_timeout: Option<u64> = read_opt_u64(row, 9)?;
        let build_result: Option<u8> = read_opt_u8(row, 10)?;
        let final_text: Option<String> = read_opt_text(row, 11)?;
        Some(
            Run {
                id,
                job_id,
                artifacts_path,
                state,
                host_id,
                build_token,
                create_time,
                start_time,
                complete_time,
                run_timeout,
                build_result,
                final_text,
            },
        )
    }

    /// The artifacts that rows hold, where every row holds one.
    pub fn rows2artifacts(rows: &Vec<Vec<Cell>>) -> (r: Option<Vec<ArtifactRecord>>)
        ensures
            match r {
                Some(list) => {
                    &&& list@.len() == rows@.len()
                    &&& forall|i: int|
                        0 <= i < rows@.len() ==> artifact_in((#[trigger] rows@[i])@) == Some(list@[i])
                },
                None => exists|i: int|
                    0 <= i < rows@.len() && artifact_in((#[trigger] rows@[i])@) is None,
            },
    {
        let mut list: Vec<ArtifactRecord> = Vec::new();
        let mut i: usize = 0;
        while i < rows.len()
            invariant
                i <= rows@.len(),
                list@.len() == i,
                forall|j: int|
                    0 <= j < i ==> artifact_in((#[trigger] rows@[j])@) == Some(list@[j]),
            decreases rows@.len() - i,
        {
            match DbCtx::row2artifact(rows[i].as_slice()) {
                Some(record) => {
                    list.push(record);
                },
                None => {
                    assert(artifact_in(rows@[i as int]@) is None);
                    return None;
                },
            }
            i = i + 1;
        }
        Some(list)
    }

    /// The metrics that rows hold, where every row holds one.
    pub fn rows2metrics(rows: &Vec<Vec<Cell>>) -> (r: Option<Vec<MetricRecord>>)
        ensures
            match r {
                Some(list) => {
                    &&& list@.len() == rows@.len()
                    &&& forall|i: int|
                        0 <= i < rows@.len() ==> metric_in((#[trigger] rows@[i])@) == Some(list@[i])
                },
                None => exists|i: int|
                    0 <= i < rows@.len() && metric_in((#[trigger] rows@[i])@) is None,
            },
    {
        let mut list: Vec<MetricRecord> = Vec::new();
        let mut i: usize = 0;
        while i < rows.len()
            invariant
                i <= rows@.len(),
                list@.len() == i,
                forall|j: int|
                    0 <= j < i ==> metric_in((#[trigger] rows@[j])@) == Some(list@[j]),
            decreases rows@.len() - i,
        {
            match DbCtx::row2metric(rows[i].as_slice()) {
                Some(record) => {
                    list.push(record);
                },
                None => {
                    assert(metric_in(rows@[i as int]@) is None);
                    return None;
                },
            }
            i = i + 1;
        }
        Some(list)
    }

    /// The jobs that rows hold, where every row holds one.
    pub fn rows2jobs(rows: &Vec<Vec<Cell>>) -> (r: Option<Vec<Job>>)
        ensures
            match r {
                Some(list) => {
                    &&& list@.len() == rows@.len()
                    &&& forall|i: int|
                        0 <= i < rows@.len() ==> job_in((#[trigger] rows@[i])@) == Some(list@[i])
                },
                None => exists|i: int|
                    0 <= i < rows@.len() && job_in((#[trigger] rows@[i])@) is None,
            },
    {
        let mut list: Vec<Job> = Vec::new();
        let mut i: usize = 0;
        while i < rows.len()
            invariant
                i <= rows@.len(),
                list@.len() == i,
                forall|j: int|
                    0 <= j < i ==> job_in((#[trigger] rows@[j])@) == Some(list@[j]),
            decreases rows@.len() - i,
        {
            match DbCtx::row2job(rows[i].as_slice()) {
                Some(record) => {
                    list.push(record);
                },
                None => {
                    assert(job_in(rows@[i as int]@) is None);
                    return None;
                },
            }
            i = i + 1;
        }
        Some(list)
    }

    /// The remotes that rows hold, where every row holds one.
    pub fn rows2remotes(rows: &Vec<Vec<Cell>>) -> (r: Option<Vec<Remote>>)
        ensures
            match r {
                Some(list) => {
                    &&& list@.len() == rows@.len()
                    &&& forall|i: int|
                        0 <= i < rows@.len() ==> remote_in((#[trigger] rows@[i])@) == Some(list@[i])
                },
                None => exists|i: int|
                    0 <= i < rows@.len() && remote_in((#[trigger] rows@[i])@) is None,
            },
    {
        let mut list: Vec<Remote> = Vec::new();
        let mut i: usize = 0;
        while i < rows.len()
            invariant
                i <= rows@.len(),
                list@.len() == i,
                forall|j: int|
                    0 <= j < i ==> remote_in((#[trigger] rows@[j])@) == Some(list@[j]),
            decreases rows@.len() - i,
        {
            match DbCtx::row2remote(rows[i].as_slice()) {
                Some(record) => {
                    list.push(record);
                },
                None => {
                    assert(remote_in(rows@[i as int]@) is None);
                    return None;
                },
            }
            i = i + 1;
        }
        Some(list)
    }

    /// The repos that rows hold, where every row holds one.
    pub fn rows2repos(rows: &Vec<Vec<Cell>>) -> (r: Option<Vec<Repo>>)
        ensures
            match r {
                Some(list) => {
                    &&& list@.len() == rows@.len()
                    &&& forall|i: int|
                        0 <= i < rows@.len() ==> repo_in((#[trigger] rows@[i])@) == Some(list@[i])
                },
                None => exists|i: int|
                    0 <= i < rows@.len() && repo_in((#[trigger] rows@[i])@) is None,
            },
    {
        let mut list: Vec<Repo> = Vec::new();
        let mut i: usize = 0;
        while i < rows.len()
            invariant
                i <= rows@.len(),
                list@.len() == i,
                forall|j: int|
                    0 <= j < i ==> repo_in((#[trigger] rows@[j])@) == Some(list@[j]),
            decreases rows@.len() - i,
        {
            match DbCtx::row2repo(rows[i].as_slice()) {
                Some(record) => {
                    list.push(record);
                },
                None => {
                    assert(repo_in(rows@[i as int]@) is None);
                    return None;
                },
            }
            i = i + 1;
        }
        Some(list)
    }

    /// The pending runs that rows hold, where every row holds one.
    pub fn rows2pending_runs(rows: &Vec<Vec<Cell>>) -> (r: Option<Vec<PendingRun>>)
        ensures
            match r {
                Some(list) => {
                    &&& list@.len() == rows@.len()
                    &&& forall|i: int|
                        0 <= i < rows@.len() ==> pending_run_in((#[trigger] rows@[i])@) == Some(list@[i])
                },
                None => exists|i: int|
                    0 <= i < rows@.len() && pending_run_in((#[trigger] rows@[i])@) is None,
            },
    {
        let mut list: Vec<PendingRun> = Vec::new();
        let mut i: usize = 0;
        while i < rows.len()
            invariant
                i <= rows@.len(),
                list@.len() == i,
                forall|j: int|
                    0 <= j < i ==> pending_run_in((#[trigger] rows@[j])@) == Some(list@[j]),
            decreases rows@.len() - i,
        {
            match DbCtx::row2pending_run(rows[i].as_slice()) {
                Some(record) => {
                    list.push(record);
                },
                None => {
                    assert(pending_run_in(rows@[i as int]@) is None);
                    return None;
                },
            }
            i = i + 1;
        }
        Some(list)
    }

    /// The runs that rows hold, where every row holds one.
    pub fn rows2runs(rows: &Vec<Vec<Cell>>) -> (r: Option<Vec<Run>>)
        ensures
            match r {
                Some(list) => {
                    &&& list@.len() == rows@.len()
                    &&& forall|i: int|
                        0 <= i < rows@.len() ==> run_in((#[trigger] rows@[i])@) == Some(list@[i])
                },
                None => exists|i: int|
                    0 <= i < rows@.len() && run_in((#[trigger] rows@[i])@) is None,
            },
    {
        let mut list: Vec<Run> = Vec::new();
        let mut i: usize = 0;
        while i < rows.len()
            invariant
                i <= rows@.len(),
                list@.len() == i,
                forall|j: int|
                    0 <= j < i ==> run_in((#[trigger] rows@[j])@) == Some(list@[j]),
            decreases rows@.len() - i,
        {
            match DbCtx::row2run(rows[i].as_slice()) {
                Some(record) => {
                    list.push(record);
                },
                None => {
                    assert(run_in(rows@[i as int]@) is None);
                    return None;
                },
            }
            i = i + 1;
        }
        Some(list)
    }
}

/// What a build token is worth at the time `now`: nothing before its run has started, and nothing
/// once more than the run's timeout has passed.
pub open spec fn validity_at(started: Option<u64>, timeout: Option<u64>, now: u64) -> TokenValidity {
    let lasts: u64 = match timeout {
        Some(timeout) => timeout,
        None => TOKEN_EXPIRY_MS,
    };
    match started {
        Some(time) => if now > time + lasts {
            TokenValidity::Expired
        } else {
            TokenValidity::Valid
        },
        None => TokenValidity::Invalid,
    }
}

/// What a build token is worth at the time `now`.
pub fn token_validity(started: Option<u64>, timeout: Option<u64>, now: u64) -> (r: TokenValidity)
    ensures
        r == validity_at(started, timeout, now),
{
    let lasts: u64 = match timeout {
        Some(timeout) => timeout,
        None => TOKEN_EXPIRY_MS,
    };
    match started {
        Some(time) => if now as u128 > time as u128 + lasts as u128 {
            TokenValidity::Expired
        } else {
            TokenValidity::Valid
        },
        None => TokenValidity::Invalid,
    }
}

/// A token that has expired stays so, and one that is still valid was valid at every earlier time.
pub proof fn token_expires_once(
    started: Option<u64>,
    timeout: Option<u64>,
    earlier: u64,
    later: u64,
)
    requires
        earlier <= later,
    ensures
        validity_at(started, timeout, earlier) == TokenValidity::Expired ==> validity_at(
            started,
            timeout,
            later,
        ) == TokenValidity::Expired,
        validity_at(started, timeout, later) == TokenValidity::Valid ==> validity_at(
            started,
            timeout,
            earlier,
        ) == TokenValidity::Valid,
        validity_at(started, timeout, earlier) == TokenValidity::Invalid <==> validity_at(
            started,
            timeout,
            later,
        ) == TokenValidity::Invalid,
{
}

/// The row holds the run of a build token: its id, where its artifacts go, when it was started
/// and how long it may take.
pub open spec fn holds_token_run(row: Seq<Cell>) -> bool {
    &&& u64_at(row, 0) is Some
    &&& opt_text_at(row, 1) is Some
    &&& opt_u64_at(row, 2) is Some
    &&& opt_u64_at(row, 3) is Some
}

/// The run of a build token that a row holds, at the time `now`.
pub open spec fn token_run_in(row: Seq<Cell>, now: u64) -> Option<
    (u64, Option<String>, TokenValidity),
> {
    if holds_token_run(row) {
        Some(
            (
                u64_at(row, 0)->0,
                opt_text_at(row, 1)->0,
                validity_at(opt_u64_at(row, 2)->0, opt_u64_at(row, 3)->0, now),
            ),
        )
    } else {
        None
    }
}

/// The run of a build token: its id, where its artifacts go, and what the token is worth at the
/// time `now`.
pub fn token_run(row: &[Cell], now: u64) -> (r: Option<(u64, Option<String>, TokenValidity)>)
    ensures
        r == token_run_in(row@, now),
{
    let id: u64 = read_u64(row, 0)?;
    let path: Option<String> = read_opt_text(row, 1)?;
    let started: Option<u64> = read_opt_u64(row, 2)?;
    let timeout: Option<u64> = read_opt_u64(row, 3)?;
    Some((id, path, token_validity(started, timeout, now)))
}

/// The number that a row holds, such as an id.
pub fn single_number(row: &[Cell]) -> (r: Option<u64>)
    ensures
        r == u64_at(row@, 0),
{
    read_u64(row, 0)
}

/// The text that a row holds, such as a hash or a name.
pub fn single_text(row: &[Cell]) -> (r: Option<String>)
    ensures
        r == text_at(row@, 0),
{
    read_text(row, 0)
}

/// The text or the null that a row holds, such as a preference.
pub fn single_opt_text(row: &[Cell]) -> (r: Option<Option<String>>)
    ensures
        r == opt_text_at(row@, 0),
{
    read_opt_text(row, 0)
}

/// The two numbers that a row holds.
pub open spec fn numbers_in(row: Seq<Cell>) -> Option<(u64, u64)> {
    if u64_at(row, 0) is Some && u64_at(row, 1) is Some {
        Some((u64_at(row, 0)->0, u64_at(row, 1)->0))
    } else {
        None
    }
}

/// The two numbers that a row holds: a remote and its repository.
pub fn two_numbers(row: &[Cell]) -> (r: Option<(u64, u64)>)
    ensures
        r == numbers_in(row@),
{
    let first: u64 = read_u64(row, 0)?;
    let second: u64 = read_u64(row, 1)?;
    Some((first, second))
}

/// The commit that a row holds: its id and its hash.
pub open spec fn commit_in(row: Seq<Cell>) -> Option<(u64, String)> {
    if u64_at(row, 0) is Some && text_at(row, 1) is Some {
        Some((u64_at(row, 0)->0, text_at(row, 1)->0))
    } else {
        None
    }
}

/// The id and the hash of a commit.
pub fn commit_row(row: &[Cell]) -> (r: Option<(u64, String)>)
    ensures
        r == commit_in(row@),
{
    let id: u64 = read_u64(row, 0)?;
    let sha: String = read_text(row, 1)?;
    Some((id, sha))
}

/// The pending run that a new row of `runs` makes.
pub fn pending_run(run_id: u64, job_id: u64, created_time: u64) -> (r: PendingRun)
    ensures
        r == (PendingRun { id: run_id, job_id, create_time: created_time }),
{
    PendingRun { id: run_id, job_id, create_time: created_time }
}

/// The host that a row holds.
pub open spec fn host_model_in(row: Seq<Cell>) -> Option<(String, String, String, String, u64)> {
    if text_at(row, 0) is Some && text_at(row, 1) is Some && text_at(row, 2) is Some && text_at(
        row,
        3,
    ) is Some && u64_at(row, 4) is Some {
        Some(
            (
                text_at(row, 0)->0,
                text_at(row, 1)->0,
                text_at(row, 2)->0,
                text_at(row, 3)->0,
                u64_at(row, 4)->0,
            ),
        )
    } else {
        None
    }
}

/// The host that a run was made on: its name, the vendor, family and model of its cpu, and the
/// cpu's highest frequency in khz.
pub fn host_model(row: &[Cell]) -> (r: Option<(String, String, String, String, u64)>)
    ensures
        r == host_model_in(row@),
{
    let hostname: String = read_text(row, 0)?;
    let vendor: String = read_text(row, 1)?;
    let family: String = read_text(row, 2)?;
    let model: String = read_text(row, 3)?;
    let freq: u64 = read_u64(row, 4)?;
    Some((hostname, vendor, family, model, freq))
}

/// A name of a commit as the database holds it: the name, and the number of its state.
pub fn commit_name_row(row: &[Cell]) -> (r: Option<(String, u8)>)
    ensures
        r == (if u64_at(row@, 0) is Some && text_at(row@, 1) is Some && u8_at(row@, 2) is Some {
            Some((text_at(row@, 1)->0, u8_at(row@, 2)->0))
        } else {
            None
        }),
{
    let _id: u64 = read_u64(row, 0)?;
    let name: String = read_text(row, 1)?;
    let state: u8 = read_u8(row, 2)?;
    Some((name, state))
}

/// Entry `k` is the first fresh one.
pub open spec fn first_fresh(names: Seq<(String, u8)>, k: int) -> bool {
    &&& 0 <= k < names.len()
    &&& names[k].1 == 0
    &&& forall|j: int| 0 <= j < k ==> (#[trigger] names[j]).1 != 0
}

/// Entry `k` is the name to show.
pub open spec fn is_best_name(names: Seq<(String, u8)>, k: int, best: CommitName) -> bool {
    &&& 0 <= k < names.len()
    &&& best.name == names[k].0
    &&& best.state.number() == names[k].1
    &&& forall|j: int| 0 <= j < k ==> 1 <= (#[trigger] names[j]).1 <= 2
    &&& first_fresh(names, k) || k == names.len() - 1
}

/// Where a commit has a fresh name a fresh one is shown, and the oldest of them; a stale one is shown
/// only where all are stale, and then it is the newest.
pub proof fn fresh_names_are_shown(
    names: Seq<(String, u8)>,
    k: int,
    best: CommitName,
    other: int,
)
    requires
        is_best_name(names, k, best),
        0 <= other < names.len(),
    ensures
        best.name == names[k].0,
        names[other].1 == 0 ==> best.state == NameState::Fresh && k <= other,
        best.state != NameState::Fresh ==> k == names.len() - 1 && names[other].1 != 0,
{
}

/// The name to show for a commit, of the names it has had, oldest first: the first that is still
/// fresh, or else the last. The names up to the one that is shown must have states that exist; the
/// result is `None` where one of them has not.
pub fn best_name(names: &Vec<(String, u8)>) -> (r: Option<Option<CommitName>>)
    ensures
        match r {
            Some(Some(best)) => exists|k: int| #[trigger] is_best_name(names@, k, best),
            Some(None) => names@.len() == 0,
            None => exists|k: int|
                {
                    &&& 0 <= k < names@.len()
                    &&& (#[trigger] names@[k]).1 > 2
                    &&& forall|j: int| 0 <= j < k ==> 1 <= (#[trigger] names@[j]).1 <= 2
                },
        },
{
    let mut best: Option<CommitName> = None;
    let mut i: usize = 0;
    while i < names.len()
        invariant
            i <= names@.len(),
            forall|j: int| 0 <= j < i ==> 1 <= (#[trigger] names@[j]).1 <= 2,
            i == 0 ==> best is None,
            i > 0 ==> (best matches Some(b) && b.name == names@[i - 1].0 && b.state.number()
                == names@[i - 1].1),
        decreases names@.len() - i,
    {
        let state: NameState = match NameState::try_from(names[i].1) {
            Ok(state) => state,
            Err(_) => {
                assert(names@[i as int].1 > 2);
                return None;
            },
        };
        let name = CommitName { name: names[i].0.clone(), state };
        if !name.stale() {
            assert(first_fresh(names@, i as int));
            assert(is_best_name(names@, i as int, name));
            return Some(Some(name));
        }
        best = Some(name);
        i = i + 1;
    }
    proof {
        if names@.len() > 0 {
            assert(is_best_name(names@, names@.len() - 1, best->0));
        }
    }
    Some(best)
}

/// A build token is worth something exactly from when its run was started until the run's timeout, or
/// half an hour where it has none, has passed; before that it is invalid, and after it expired.
pub proof fn tokens_last_as_long_as_their_run(
    started: Option<u64>,
    timeout: Option<u64>,
    now: u64,
)
    ensures
        validity_at(started, timeout, now) == TokenValidity::Invalid <==> started is None,
        validity_at(started, timeout, now) == TokenValidity::Valid <==> (started matches Some(time)
            && now <= time + (match timeout {
            Some(timeout) => timeout as int,
            None => 1_800_000int,
        })),
        validity_at(started, timeout, now) == TokenValidity::Expired <==> (started matches Some(
            time,
        ) && now > time + (match timeout {
            Some(timeout) => timeout as int,
            None => 1_800_000int,
        })),
{
}

} // verus!
