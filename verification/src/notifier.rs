//! Who is told what about a job, and how.

use crate::dbctx::DbCtx;
use crate::dbctx::remote_api_of;
use crate::dbctx::supported_remote;
use crate::github::GithubApi;
use crate::github::Request;
use crate::github::accepted;
use crate::github::header_texts;
use crate::github::is_accepted;
use crate::github::posting_headers;
use crate::github::status_tree;
use crate::json::JsonTree;
use crate::json::json_written;
use crate::paths::path_joined;
use crate::paths::path_under;
use crate::sql::Remote;
use crate::text::same;
use crate::web::job_path;
use vstd::prelude::*;

verus! {

/// How a remote is told about its jobs.
pub enum NotifierConfig {
    GitHub { token: String, webhook_token: String },
    Email { username: String, password: String, mailserver: String, from: String, to: String },
}

impl NotifierConfig {
    /// The configuration that was read from the file at `path`, where it is one for GitHub.
    pub fn github_from_file(path: &str, config: NotifierConfig) -> (r: Result<Self, String>)
        ensures
            match r {
                Ok(c) => config is GitHub && c == config,
                Err(e) => config is Email && e@ == "config at "@ + path@
                    + " doesn't look like a github config (but was otherwise valid?)"@,
            },
    {
        if matches!(config, NotifierConfig::GitHub { .. }) {
            Ok(config)
        } else {
            Err(
                "config at ".to_owned().concat(path).concat(
                    " doesn't look like a github config (but was otherwise valid?)",
                ),
            )
        }
    }

    /// The configuration that was read from the file at `path`, where it is one for mail.
    pub fn email_from_file(path: &str, config: NotifierConfig) -> (r: Result<Self, String>)
        ensures
            match r {
                Ok(c) => config is Email && c == config,
                Err(e) => config is GitHub && e@ == "config at "@ + path@
                    + " doesn't look like an email config (but was otherwise valid?)"@,
            },
    {
        if matches!(config, NotifierConfig::Email { .. }) {
            Ok(config)
        } else {
            Err(
                "config at ".to_owned().concat(path).concat(
                    " doesn't look like an email config (but was otherwise valid?)",
                ),
            )
        }
    }
}

/// A mail to be sent.
pub struct Mail {
    pub username: String,
    pub password: String,
    pub mailserver: String,
    pub from: String,
    pub to: String,
    pub subject: String,
    pub body: String,
}

/// What is to be sent to tell about a job.
pub enum Notice {
    Post(Request),
    Mail(Mail),
}

/// Where the page of a commit is found.
pub open spec fn page_url(remote_path: Seq<char>, sha: Seq<char>) -> Seq<char> {
    "https://"@ + "ci.butactuallyin.space"@ + "/"@ + remote_path + "/"@ + sha
}

/// The subject of a mail about a job.
pub open spec fn mail_subject(state: Seq<char>, remote_path: Seq<char>) -> Seq<char> {
    state + ": job for "@ + remote_path
}

/// A remote, and how it is told about its jobs.
pub struct RemoteNotifier {
    pub remote_path: String,
    pub notifier: NotifierConfig,
}

impl RemoteNotifier {
    /// The notice tells the remote that the job of commit `sha` is in the given state.
    pub open spec fn tells(
        &self,
        notice: Notice,
        sha: Seq<char>,
        state: Seq<char>,
        desc: Seq<char>,
        target_url: Seq<char>,
    ) -> bool {
        match self.notifier {
            NotifierConfig::GitHub { token, webhook_token } => {
                &&& notice matches Notice::Post(request)
                &&& request.url@ == "https://api.github.com/repos/"@ + self.remote_path@
                    + "/statuses/"@ + sha
                &&& header_texts(request.headers@) == posting_headers(token@)
                &&& request.body matches Some(body)
                &&& body@ == json_written(status_tree(state, desc, target_url))
            },
            NotifierConfig::Email { username, password, mailserver, from, to } => {
                &&& notice matches Notice::Mail(mail)
                &&& mail.username == username
                &&& mail.password == password
                &&& mail.mailserver == mailserver
                &&& mail.from == from
                &&& mail.to == to
                &&& mail.subject@ == mail_subject(state, self.remote_path@)
                &&& mail.body@ == mail_subject(state, self.remote_path@)
            },
        }
    }

    /// The notice tells the remote that the job of commit `sha` waits to be run.
    pub open spec fn tells_pending(&self, notice: Notice, sha: Seq<char>) -> bool {
        self.tells(
            notice,
            sha,
            "pending"@,
            "build is queued"@,
            page_url(self.remote_path@, sha),
        )
    }

    /// The notice tells the remote that the job of commit `sha` has ended, well or badly.
    pub open spec fn tells_complete(
        &self,
        notice: Notice,
        sha: Seq<char>,
        desc: Result<String, String>,
    ) -> bool {
        match desc {
            Ok(status) => self.tells(
                notice,
                sha,
                "success"@,
                status@,
                page_url(self.remote_path@, sha),
            ),
            Err(status) => self.tells(
                notice,
                sha,
                "failure"@,
                status@,
                page_url(self.remote_path@, sha),
            ),
        }
    }

    fn page_of(&self, sha: &str) -> (r: String)
        ensures
            r@ == page_url(self.remote_path@, sha@),
    {
        "https://".to_owned().concat("ci.butactuallyin.space").concat("/").concat(
            self.remote_path.as_str(),
        ).concat("/").concat(sha)
    }

    /// The notice that a job waits to be run.
    pub fn tell_pending_job(&self, sha: &str) -> (r: Notice)
        ensures
            self.tells_pending(r, sha@),
            self.notifier matches NotifierConfig::GitHub { token, .. } ==> (r matches Notice::Post(
                request,
            ) && bears_token(request, token@)),
    {
        let url = self.page_of(sha);
        let notice = self.tell_job_status(sha, "pending", "build is queued", url.as_str());
        proof {
            if self.notifier is GitHub {
                posting_headers_bear_the_token(notice->Post_0, self.notifier->token@);
            }
        }
        notice
    }

    /// The notice that a job has ended, well or badly.
    pub fn tell_complete_job(&self, sha: &str, desc: Result<String, String>) -> (r: Notice)
        ensures
            self.tells_complete(r, sha@, desc),
            self.notifier matches NotifierConfig::GitHub { token, .. } ==> (r matches Notice::Post(
                request,
            ) && bears_token(request, token@)),
    {
        let url = self.page_of(sha);
        let notice = match desc {
            Ok(status) => self.tell_job_status(sha, "success", status.as_str(), url.as_str()),
            Err(status) => self.tell_job_status(sha, "failure", status.as_str(), url.as_str()),
        };
        proof {
            if self.notifier is GitHub {
                posting_headers_bear_the_token(notice->Post_0, self.notifier->token@);
            }
        }
        notice
    }

    /// The notice that a job is in the given state.
    pub fn tell_job_status(
        &self,
        sha: &str,
        state: &str,
        desc: &str,
        target_url: &str,
    ) -> (r: Notice)
        ensures
            self.tells(r, sha@, state@, desc@, target_url@),
    {
        match &self.notifier {
            NotifierConfig::GitHub { token, webhook_token } => {
                let api = GithubApi {
                    token: token.as_str(),
                    webhook_token: webhook_token.as_str(),
                };
                Notice::Post(
                    api.post_status(self.remote_path.as_str(), sha, state, desc, target_url),
                )
            },
            NotifierConfig::Email { username, password, mailserver, from, to } => {
                let subject = state.to_owned().concat(": job for ").concat(
                    self.remote_path.as_str(),
                );
                Notice::Mail(
                    Mail {
                        username: username.clone(),
                        password: password.clone(),
                        mailserver: mailserver.clone(),
                        from: from.clone(),
                        to: to.clone(),
                        body: subject.clone(),
                        subject,
                    },
                )
            },
        }
    }
}

/// The notices tell each notifier, in order, that the job of commit `sha` waits to be run.
pub open spec fn tell_all_pending(
    notifiers: Seq<RemoteNotifier>,
    notices: Seq<Notice>,
    sha: Seq<char>,
) -> bool {
    &&& notices.len() == notifiers.len()
    &&& forall|i: int|
        0 <= i < notices.len() ==> notifiers[i].tells_pending(#[trigger] notices[i], sha)
}

/// The notices tell each notifier, in order, that the job of commit `sha` has ended.
pub open spec fn tell_all_complete(
    notifiers: Seq<RemoteNotifier>,
    notices: Seq<Notice>,
    sha: Seq<char>,
    result: Result<String, String>,
) -> bool {
    &&& notices.len() == notifiers.len()
    &&& forall|i: int|
        0 <= i < notices.len() ==> notifiers[i].tells_complete(
            #[trigger] notices[i],
            sha,
            result,
        )
}

/// Every notifier is told its own notice of the one commit and the one result: a success exactly if
/// the result is one, with the result's message; and that a job waits is told to all alike.
pub proof fn all_are_told_the_same(
    notifiers: Seq<RemoteNotifier>,
    pending: Seq<Notice>,
    complete: Seq<Notice>,
    sha: Seq<char>,
    result: Result<String, String>,
    i: int,
)
    requires
        tell_all_pending(notifiers, pending, sha),
        tell_all_complete(notifiers, complete, sha, result),
        0 <= i < notifiers.len(),
    ensures
        pending.len() == notifiers.len(),
        complete.len() == notifiers.len(),
        notifiers[i].tells(
            pending[i],
            sha,
            "pending"@,
            "build is queued"@,
            page_url(notifiers[i].remote_path@, sha),
        ),
        result matches Ok(message) ==> notifiers[i].tells(
            complete[i],
            sha,
            "success"@,
            message@,
            page_url(notifiers[i].remote_path@, sha),
        ),
        result matches Err(message) ==> notifiers[i].tells(
            complete[i],
            sha,
            "failure"@,
            message@,
            page_url(notifiers[i].remote_path@, sha),
        ),
{
    assert(notifiers[i].tells_pending(pending[i], sha));
    assert(notifiers[i].tells_complete(complete[i], sha, result));
}

/// The notices that a job waits to be run: one for each notifier, in order.
pub fn pending_notices(notifiers: &Vec<RemoteNotifier>, sha: &str) -> (r: Vec<Notice>)
    ensures
        tell_all_pending(notifiers@, r@, sha@),
{
    let mut notices: Vec<Notice> = Vec::new();
    let mut i: usize = 0;
    while i < notifiers.len()
        invariant
            i <= notifiers@.len(),
            notices@.len() == i,
            forall|j: int| 0 <= j < i ==> notifiers@[j].tells_pending(#[trigger] notices@[j], sha@),
        decreases notifiers@.len() - i,
    {
        notices.push(notifiers[i].tell_pending_job(sha));
        i = i + 1;
    }
    notices
}

/// What a notice links to is the page of the commit's job.
pub proof fn notices_lead_to_pages(remote: Remote, sha: Seq<char>)
    ensures
        page_url(remote.remote_path@, sha) == "https://"@ + "ci.butactuallyin.space"@ + "/"@
            + job_path(remote, sha),
{
    assert(page_url(remote.remote_path@, sha) =~= "https://"@ + "ci.butactuallyin.space"@ + "/"@
        + job_path(remote, sha));
}

/// What came of a posted notice.
pub enum PostReply {
    Answered(u16),
    NotSent,
}

/// Why a posted notice did not arrive.
#[derive(Debug, Clone, Copy, PartialEq, Eq, Structural)]
pub enum PostError {
    BadResponse(u16),
    NotSent,
}

/// Whether a posted notice arrived, by the reply.
pub open spec fn posted(reply: PostReply, result: Result<(), PostError>) -> bool {
    match result {
        Ok(_) => reply matches PostReply::Answered(status) && accepted(status),
        Err(PostError::BadResponse(s)) => reply matches PostReply::Answered(status) && s == status
            && !accepted(status),
        Err(PostError::NotSent) => reply is NotSent,
    }
}

/// A notice arrived exactly if GitHub answered that something was done or made; every other answer,
/// and none at all, is an error that says which it was.
pub proof fn notices_arrive_if_accepted(reply: PostReply, result: Result<(), PostError>)
    requires
        posted(reply, result),
    ensures
        result is Ok <==> (reply matches PostReply::Answered(status) && (status == 200 || status
            == 201)),
        result == Err::<(), PostError>(PostError::NotSent) <==> reply is NotSent,
        result matches Err(PostError::BadResponse(status)) ==> reply == PostReply::Answered(status),
{
}

/// Whether a posted notice arrived.
pub fn notice_posted(reply: PostReply) -> (r: Result<(), PostError>)
    ensures
        posted(reply, r),
{
    match reply {
        PostReply::Answered(status) => if is_accepted(status) {
            Ok(())
        } else {
            Err(PostError::BadResponse(status))
        },
        PostReply::NotSent => Err(PostError::NotSent),
    }
}

/// Which kind of configuration a file must hold.
#[derive(Debug, Clone, Copy, PartialEq, Eq, Structural)]
pub enum NotifierKind {
    GitHub,
    Email,
}

/// A notifier whose configuration is still to be read.
pub struct NotifierSource {
    pub remote_path: String,
    pub kind: NotifierKind,
    pub file: String,
}

/// How the remotes of an api are told about jobs.
pub open spec fn notifier_kind(api: Seq<char>) -> Option<NotifierKind> {
    if api == "github"@ {
        Some(NotifierKind::GitHub)
    } else if api == "email"@ {
        Some(NotifierKind::Email)
    } else {
        None
    }
}

/// Every remote that can be registered can be told about its jobs.
pub proof fn registered_remotes_are_told(kind: Seq<char>)
    requires
        supported_remote(kind),
    ensures
        notifier_kind(remote_api_of(kind)) is Some,
{
}

/// The remotes among the first `n` that can be told about jobs, in order, each with the kind of its
/// notifier and the file that configures it.
pub open spec fn told_remotes(dir: Seq<char>, remotes: Seq<Remote>, n: nat) -> Seq<
    (Seq<char>, NotifierKind, Seq<char>),
>
    decreases n,
{
    if n == 0 {
        Seq::empty()
    } else {
        let before = told_remotes(dir, remotes, (n - 1) as nat);
        let remote = remotes[n - 1];
        match notifier_kind(remote.remote_api@) {
            Some(kind) => before.push(
                (remote.remote_path@, kind, path_under(dir, remote.notifier_config_path@)),
            ),
            None => before,
        }
    }
}

/// What a list of notifiers names.
pub open spec fn source_texts(list: Seq<NotifierSource>) -> Seq<
    (Seq<char>, NotifierKind, Seq<char>),
> {
    Seq::new(list.len(), |i: int| (list[i].remote_path@, list[i].kind, list[i].file@))
}

impl DbCtx {
    /// The notifiers of a repository with the given remotes. A remote of an unknown api has none.
    pub fn notifiers_by_repo(&self, remotes: &Vec<Remote>) -> (r: Vec<NotifierSource>)
        ensures
            source_texts(r@) == told_remotes(self.config_path@, remotes@, remotes@.len()),
    {
        let mut notifiers: Vec<NotifierSource> = Vec::new();
        let mut i: usize = 0;
        while i < remotes.len()
            invariant
                i <= remotes@.len(),
                source_texts(notifiers@) =~= told_remotes(
                    self.config_path@,
                    remotes@,
                    i as nat,
                ),
            decreases remotes@.len() - i,
        {
            let remote: &Remote = &remotes[i];
            let kind: Option<NotifierKind> = if same(remote.remote_api.as_str(), "github") {
                Some(NotifierKind::GitHub)
            } else if same(remote.remote_api.as_str(), "email") {
                Some(NotifierKind::Email)
            } else {
                None
            };
            if let Some(kind) = kind {
                notifiers.push(
                    NotifierSource {
                        remote_path: remote.remote_path.clone(),
                        kind,
                        file: path_joined(
                            self.config_path.as_str(),
                            remote.notifier_config_path.as_str(),
                        ),
                    },
                );
            }
            i = i + 1;
        }
        notifiers
    }
}

/// What is posted for a remote that is told through GitHub bears the API token of its configuration:
/// the authorization is that, and there is no other.
pub open spec fn bears_token(request: Request, token: Seq<char>) -> bool {
    &&& exists|i: int|
        0 <= i < request.headers@.len() && (#[trigger] request.headers@[i]).0@ == "authorization"@
    &&& forall|i: int|
        0 <= i < request.headers@.len() && (#[trigger] request.headers@[i]).0@ == "authorization"@
            ==> request.headers@[i].1@ == "Bearer "@ + token
}

proof fn posting_headers_bear_the_token(request: Request, token: Seq<char>)
    requires
        header_texts(request.headers@) == posting_headers(token),
    ensures
        bears_token(request, token),
{
    reveal_strlit("content-type");
    reveal_strlit("user-agent");
    reveal_strlit("authorization");
    reveal_strlit("accept");
    assert("content-type"@[0] == 'c' && "user-agent"@[0] == 'u');
    assert("authorization"@.len() == 13 && "accept"@.len() == 6);
    let texts = header_texts(request.headers@);
    let named = posting_headers(token);
    assert(named.len() == 4);
    assert(named[2] == ("authorization"@, "Bearer "@ + token));
    assert(texts[2] == (request.headers@[2].0@, request.headers@[2].1@));
    assert forall|i: int|
        0 <= i < request.headers@.len() && (#[trigger] request.headers@[i]).0@
            == "authorization"@ implies request.headers@[i].1@ == "Bearer "@ + token by {
        assert(texts[i] == (request.headers@[i].0@, request.headers@[i].1@));
        assert(named[0].0 == "content-type"@ && named[1].0 == "user-agent"@);
        assert(named[3].0 == "accept"@);
    }
}

/// A notice to GitHub is posted to the statuses of the commit that it tells of, bears the API token
/// of the configuration, and says the state, the description and the page that it is to say.
pub proof fn notices_to_github_are_authorized(
    notifier: RemoteNotifier,
    notice: Notice,
    sha: Seq<char>,
    state: Seq<char>,
    desc: Seq<char>,
    target_url: Seq<char>,
    token: String,
    webhook_token: String,
)
    requires
        notifier.notifier == (NotifierConfig::GitHub { token, webhook_token }),
        notifier.tells(notice, sha, state, desc, target_url),
    ensures
        notice matches Notice::Post(request) && {
            &&& bears_token(request, token@)
            &&& request.url@ == "https://api.github.com/repos/"@ + notifier.remote_path@
                + "/statuses/"@ + sha
            &&& request.body matches Some(body) && body@ == json_written(
                status_tree(state, desc, target_url),
            )
        },
{
    posting_headers_bear_the_token(notice->Post_0, token@);
}

/// No notice depends on the secret of the webhook: two notifiers that differ in it alone are told
/// alike.
pub proof fn notices_keep_the_webhook_secret(
    notifier: RemoteNotifier,
    other: RemoteNotifier,
    notice: Notice,
    sha: Seq<char>,
    state: Seq<char>,
    desc: Seq<char>,
    target_url: Seq<char>,
    token: String,
    webhook_token: String,
    other_webhook_token: String,
)
    requires
        notifier.notifier == (NotifierConfig::GitHub { token, webhook_token }),
        other.notifier == (NotifierConfig::GitHub { token, webhook_token: other_webhook_token }),
        notifier.remote_path == other.remote_path,
    ensures
        notifier.tells(notice, sha, state, desc, target_url) == other.tells(
            notice,
            sha,
            state,
            desc,
            target_url,
        ),
        notifier.tells_pending(notice, sha) == other.tells_pending(notice, sha),
        forall|result: Result<String, String>| #[trigger]
            notifier.tells_complete(notice, sha, result) == other.tells_complete(
                notice,
                sha,
                result,
            ),
{
}

/// A status says its state, description, page and origin each under its own name, so two statuses
/// that are the same say the same.
pub proof fn statuses_say_what_they_are_given(
    state: Seq<char>,
    desc: Seq<char>,
    target_url: Seq<char>,
)
    ensures
        status_tree(state, desc, target_url) matches JsonTree::Object(members) && {
            &&& members.dom() == set!["state"@, "description"@, "target_url"@, "context"@]
            &&& members["state"@] == JsonTree::Text(state)
            &&& members["description"@] == JsonTree::Text(desc)
            &&& members["target_url"@] == JsonTree::Text(target_url)
            &&& members["context"@] == JsonTree::Text("actuallyinspace runner"@)
        },
{
    reveal_strlit("state");
    reveal_strlit("description");
    reveal_strlit("target_url");
    reveal_strlit("context");
    assert("state"@.len() < "context"@.len() < "target_url"@.len() < "description"@.len());
    assert(status_tree(state, desc, target_url)->Object_0.dom() =~= set![
        "state"@,
        "description"@,
        "target_url"@,
        "context"@,
    ]);
}

/// A mail goes from and to the addresses and through the server and the account of its
/// configuration, and its subject, which is all that it says, names the state and the remote.
pub proof fn mails_are_sent_as_configured(
    notifier: RemoteNotifier,
    notice: Notice,
    sha: Seq<char>,
    state: Seq<char>,
    desc: Seq<char>,
    target_url: Seq<char>,
    username: String,
    password: String,
    mailserver: String,
    from: String,
    to: String,
)
    requires
        notifier.notifier == (NotifierConfig::Email { username, password, mailserver, from, to }),
        notifier.tells(notice, sha, state, desc, target_url),
    ensures
        notice matches Notice::Mail(mail) && {
            &&& mail.username == username
            &&& mail.password == password
            &&& mail.mailserver == mailserver
            &&& mail.from == from
            &&& mail.to == to
            &&& mail.subject@ == state + ": job for "@ + notifier.remote_path@
            &&& mail.body@ == mail.subject@
        },
{
}

/// What a job's end is told as: a success with the message of one that passed, and a failure with
/// that of one that did not; both link to the page of the commit on the service.
pub proof fn ends_are_told_as_they_are(
    notifier: RemoteNotifier,
    notice: Notice,
    sha: Seq<char>,
    result: Result<String, String>,
)
    requires
        notifier.tells_complete(notice, sha, result),
    ensures
        notifier.tells(
            notice,
            sha,
            (if result is Ok {
                "success"@
            } else {
                "failure"@
            }),
            (match result {
                Ok(message) => message@,
                Err(message) => message@,
            }),
            "https://"@ + "ci.butactuallyin.space"@ + "/"@ + notifier.remote_path@ + "/"@ + sha,
        ),
{
}

/// A job that waits is told as pending, with a link to the page of the commit on the service.
pub proof fn waiting_jobs_are_told_as_pending(
    notifier: RemoteNotifier,
    notice: Notice,
    sha: Seq<char>,
)
    requires
        notifier.tells_pending(notice, sha),
    ensures
        notifier.tells(
            notice,
            sha,
            "pending"@,
            "build is queued"@,
            "https://"@ + "ci.butactuallyin.space"@ + "/"@ + notifier.remote_path@ + "/"@ + sha,
        ),
{
}

/// The remotes that are told are those of GitHub and of mail, and each of them is: through the kind of
/// notifier that its api has, configured by its own file in the configuration's directory.
pub proof fn remotes_are_told_through_their_api(
    dir: Seq<char>,
    remotes: Seq<Remote>,
    n: nat,
)
    requires
        n <= remotes.len(),
    ensures
        told_remotes(dir, remotes, n).len() <= n,
        forall|i: int|
            0 <= i < n && (#[trigger] remotes[i]).remote_api@ == "github"@ ==> told_remotes(
                dir,
                remotes,
                n,
            ).contains(
                (
                    remotes[i].remote_path@,
                    NotifierKind::GitHub,
                    path_under(dir, remotes[i].notifier_config_path@),
                ),
            ),
        forall|i: int|
            0 <= i < n && (#[trigger] remotes[i]).remote_api@ == "email"@ ==> told_remotes(
                dir,
                remotes,
                n,
            ).contains(
                (
                    remotes[i].remote_path@,
                    NotifierKind::Email,
                    path_under(dir, remotes[i].notifier_config_path@),
                ),
            ),
        forall|j: int|
            0 <= j < told_remotes(dir, remotes, n).len() ==> exists|i: int|
                {
                    let told = #[trigger] told_remotes(dir, remotes, n)[j];
                    &&& 0 <= i < n
                    &&& told.0 == (#[trigger] remotes[i]).remote_path@
                    &&& told.1 == NotifierKind::GitHub && remotes[i].remote_api@ == "github"@
                        || told.1 == NotifierKind::Email && remotes[i].remote_api@ == "email"@
                    &&& told.2 == path_under(dir, remotes[i].notifier_config_path@)
                },
    decreases n,
{
    reveal_strlit("github");
    reveal_strlit("email");
    assert("github"@.len() == 6 && "email"@.len() == 5);
    if n > 0 {
        remotes_are_told_through_their_api(dir, remotes, (n - 1) as nat);
        let before = told_remotes(dir, remotes, (n - 1) as nat);
        let after = told_remotes(dir, remotes, n);
        let last = remotes[n - 1];
        assert forall|x: (Seq<char>, NotifierKind, Seq<char>)|
            before.contains(x) implies #[trigger] after.contains(x) by {
            let k = choose|k: int| 0 <= k < before.len() && before[k] == x;
            assert(after[k] == x);
        }
        if notifier_kind(last.remote_api@) is Some {
            assert(after.last() == (
                last.remote_path@,
                notifier_kind(last.remote_api@)->0,
                path_under(dir, last.notifier_config_path@),
            ));
            assert(after.contains(after.last()));
        }
        assert forall|j: int| 0 <= j < after.len() implies exists|i: int|
            {
                let told = #[trigger] after[j];
                &&& 0 <= i < n
                &&& told.0 == (#[trigger] remotes[i]).remote_path@
                &&& told.1 == NotifierKind::GitHub && remotes[i].remote_api@ == "github"@
                    || told.1 == NotifierKind::Email && remotes[i].remote_api@ == "email"@
                &&& told.2 == path_under(dir, remotes[i].notifier_config_path@)
            } by {
            if j < before.len() {
                assert(after[j] == before[j]);
                let told = before[j];
                let i = choose|i: int|
                    {
                        &&& 0 <= i < n - 1
                        &&& told.0 == (#[trigger] remotes[i]).remote_path@
                        &&& told.1 == NotifierKind::GitHub && remotes[i].remote_api@ == "github"@
                            || told.1 == NotifierKind::Email && remotes[i].remote_api@ == "email"@
                        &&& told.2 == path_under(dir, remotes[i].notifier_config_path@)
                    };
                assert(remotes[i].remote_path@ == after[j].0);
            } else {
                assert(remotes[n - 1].remote_path@ == after[j].0);
            }
        }
    }
}

} // verus!
