//! The program with which the service's database is looked after.

use crate::dbctx::Bound;
use crate::dbctx::Param;
use crate::dbctx::Statement;
use crate::notifier::notifier_kind;
use crate::notifier::NotifierKind;
use crate::text::contains;
use crate::text::decimal;
use crate::text::decimal_text;
use crate::text::occurs;
use crate::text::same;
use vstd::prelude::*;

verus! {

/// The database, unless another is named.
pub fn db_path(named: Option<String>) -> (r: String)
    ensures
        r@ == (match named {
            Some(path) => path@,
            None => "./state.db"@,
        }),
{
    match named {
        Some(path) => path,
        None => "./state.db".to_owned(),
    }
}

/// The directory of the configuration, unless another is named.
pub fn config_path(named: Option<String>) -> (r: String)
    ensures
        r@ == (match named {
            Some(path) => path@,
            None => "./config"@,
        }),
{
    match named {
        Some(path) => path,
        None => "./config".to_owned(),
    }
}

/// A text at the right end of a field of the given width that is filled up with `c`.
pub open spec fn right_aligned(s: Seq<char>, width: int, c: char) -> Seq<char> {
    if s.len() >= width {
        s
    } else {
        Seq::new((width - s.len()) as nat, |i: int| c) + s
    }
}

fn aligned(s: &str, width: usize, fill: &str) -> (r: String)
    requires
        fill@.len() == 1,
    ensures
        r@ == right_aligned(s@, width as int, fill@[0]),
{
    let len: usize = s.unicode_len();
    let mut out = String::new();
    let mut n: usize = len;
    while n < width
        invariant
            len <= n,
            n <= width || n == len,
            fill@.len() == 1,
            out@ =~= Seq::new((n - len) as nat, |i: int| fill@[0]),
        decreases width - n,
    {
        out.append(fill);
        n = n + 1;
    }
    let r = out.concat(s);
    assert(r@ =~= right_aligned(s@, width as int, fill@[0]));
    r
}

/// The statement that lists the jobs.
pub fn list_jobs() -> (r: Statement)
    ensures
        r.asks(
            "select id, artifacts_path, state, commit_id, created_time from jobs;"@,
            Seq::<Bound>::empty(),
        ),
{
    Statement::new(
        "select id, artifacts_path, state, commit_id, created_time from jobs;",
        Vec::new(),
    )
}

/// A job's line in the list of jobs.
pub fn job_line(id: u64, state: u64, created_time: u64) -> (r: String)
    ensures
        r@ == "[+] "@ + right_aligned(decimal(id as nat), 4, '0') + " | "@ + right_aligned(
            decimal(state as nat),
            8,
            ' ',
        ) + " | "@ + decimal(created_time as nat),
{
    proof {
        reveal_strlit("0");
        reveal_strlit(" ");
    }
    let number = decimal_text(id);
    let id = aligned(number.as_str(), 4, "0");
    let code = decimal_text(state);
    let state = aligned(code.as_str(), 8, " ");
    let created = decimal_text(created_time);
    "[+] ".to_owned().concat(id.as_str()).concat(" | ").concat(state.as_str()).concat(
        " | ",
    ).concat(created.as_str())
}

/// The statement that has a job run again, and what is said of it.
pub fn rerun_job(which: u32) -> (r: (Statement, String))
    ensures
        r.0.asks("update jobs set state=0 where id=?1"@, seq![Bound::Unsigned(which as u64)]),
        r.1@ == "[+] job "@ + decimal(which as nat) + " set to pending"@,
{
    let id = decimal_text(which as u64);
    (
        Statement::new(
            "update jobs set state=0 where id=?1",
            vec![Param::Unsigned(which as u64)],
        ),
        "[+] job ".to_owned().concat(id.as_str()).concat(" set to pending"),
    )
}

/// A remote that is to be added.
pub struct NewRemote {
    pub remote: String,
    pub remote_kind: String,
    pub config: String,
}

/// What is to be added with a repository, by what was named.
pub open spec fn adds_remote(
    remote: Option<String>,
    remote_kind: Option<String>,
    config: Option<String>,
    added: Result<Option<NewRemote>, String>,
) -> bool {
    match (remote, remote_kind, config) {
        (Some(remote), Some(kind), Some(config)) => if kind@ == "github"@ {
            added == Ok::<Option<NewRemote>, String>(
                Some(NewRemote { remote, remote_kind: kind, config }),
            )
        } else {
            added matches Err(message) && message@ == "unknown remote kind: "@ + remote@
        },
        (None, None, None) => added == Ok::<Option<NewRemote>, String>(None),
        _ => added matches Err(message) && message@
            == "when specifying a remote, `remote`, `remote_kind`, and `config_path` must either all be provided together or not at all"@,
    }
}

/// A remote is added exactly if it, its kind and its configuration are all named and the kind is
/// that of GitHub, and it is the one that is named; none is added exactly if nothing is named.
pub proof fn remotes_are_added_whole(
    remote: Option<String>,
    remote_kind: Option<String>,
    config: Option<String>,
    added: Result<Option<NewRemote>, String>,
)
    requires
        adds_remote(remote, remote_kind, config, added),
    ensures
        (added matches Ok(Some(_))) <==> remote is Some && config is Some && (remote_kind
            matches Some(kind) && kind@ == "github"@),
        added matches Ok(Some(new)) ==> remote == Some(new.remote) && remote_kind == Some(
            new.remote_kind,
        ) && config == Some(new.config),
        (added matches Ok(None)) <==> remote is None && remote_kind is None && config is None,
{
}

/// The remote that is to be added with a repository: none, or one that is named with its kind and
/// its configuration; and then it must be one of GitHub.
pub fn repo_remote(
    remote: Option<String>,
    remote_kind: Option<String>,
    config: Option<String>,
) -> (r: Result<Option<NewRemote>, String>)
    ensures
        adds_remote(remote, remote_kind, config, r),
{
    match (remote, remote_kind, config) {
        (Some(remote), Some(remote_kind), Some(config)) => {
            if !same(remote_kind.as_str(), "github") {
                return Err("unknown remote kind: ".to_owned().concat(remote.as_str()));
            }
            Ok(Some(NewRemote { remote, remote_kind, config }))
        },
        (None, None, None) => Ok(None),
        _ => Err(
            "when specifying a remote, `remote`, `remote_kind`, and `config_path` must either all be provided together or not at all".to_owned(),
        ),
    }
}

/// What is said of a repository that could not be made, for the reason given.
pub fn repo_not_made(name: &str, reason: &str) -> (r: String)
    ensures
        r@ == (if occurs(reason@, "UNIQUE constraint failed"@) {
            "[!] repo '"@ + name@ + "' already exists"@
        } else {
            "[!] failed to create repo entry: "@ + reason@
        }),
{
    if contains(reason, "UNIQUE constraint failed") {
        "[!] repo '".to_owned().concat(name).concat("' already exists")
    } else {
        "[!] failed to create repo entry: ".to_owned().concat(reason)
    }
}

/// What is said of a repository that was made.
pub fn repo_made(name: &str, id: u64) -> (r: String)
    ensures
        r@ == "[+] new repo created: '"@ + name@ + "' id "@ + decimal(id as nat),
{
    let id = decimal_text(id);
    "[+] new repo created: '".to_owned().concat(name).concat("' id ").concat(id.as_str())
}

/// What is said of a remote that was made.
pub fn remote_made(repo_name: &str, remote_kind: &str, remote: &str) -> (r: String)
    ensures
        r@ == "[+] new remote created: repo '"@ + repo_name@ + "', "@ + remote_kind@
            + " remote at "@ + remote@,
{
    "[+] new remote created: repo '".to_owned().concat(repo_name).concat("', ").concat(
        remote_kind,
    ).concat(" remote at ").concat(remote)
}

/// What is said of a remote for a repository that does not exist.
pub fn no_such_repo(repo_name: &str) -> (r: String)
    ensures
        r@ == "[-] repo '"@ + repo_name@ + "' does not exist"@,
{
    "[-] repo '".to_owned().concat(repo_name).concat("' does not exist")
}

/// The file that configures a remote's notifier.
pub fn config_file(config_path: &str, config: &str) -> (r: String)
    ensures
        r@ == config_path@ + "/"@ + config@,
{
    config_path.to_owned().concat("/").concat(config)
}

/// Which kind of configuration that file must hold, where the remotes of the kind have one.
pub fn config_kind(remote_kind: &str) -> (r: Option<NotifierKind>)
    ensures
        r == notifier_kind(remote_kind@),
{
    if same(remote_kind, "github") {
        Some(NotifierKind::GitHub)
    } else if same(remote_kind, "email") {
        Some(NotifierKind::Email)
    } else {
        None
    }
}

/// A text is aligned without losing anything of it: it stands at the end, and all before it is the
/// fill; the field is as wide as it should be, unless the text is wider.
pub proof fn alignment_keeps_the_text(s: Seq<char>, width: int, c: char, i: int)
    requires
        width >= 0,
    ensures
        s.is_suffix_of(right_aligned(s, width, c)),
        right_aligned(s, width, c).len() == (if s.len() >= width {
            s.len() as int
        } else {
            width
        }),
        0 <= i < right_aligned(s, width, c).len() - s.len() ==> right_aligned(s, width, c)[i] == c,
{
    let shown = right_aligned(s, width, c);
    assert(s =~= shown.subrange(shown.len() - s.len(), shown.len() as int));
}

} // verus!
