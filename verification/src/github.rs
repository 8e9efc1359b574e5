//! What the service asks of GitHub, and what it makes of the answers.

use crate::json::array_value;
use crate::json::bool_value;
use crate::json::item_trees;
use crate::json::items_keep_their_places;
use crate::json::json_read;
use crate::json::json_written;
use crate::json::listed_trees;
use crate::json::member;
use crate::json::object_value;
use crate::json::parse;
use crate::json::text_value;
use crate::json::value_tree;
use crate::json::write_value;
use crate::json::Json;
use crate::json::JsonTree;
use crate::text::starts_with;
use vstd::prelude::*;

verus! {

/// A request to be sent: posted where it has a body.
pub struct Request {
    pub url: String,
    pub body: Option<String>,
    pub headers: Vec<(String, String)>,
}

/// The names and values of a request's headers.
pub open spec fn header_texts(headers: Seq<(String, String)>) -> Seq<(Seq<char>, Seq<char>)> {
    Seq::new(headers.len(), |i: int| (headers[i].0@, headers[i].1@))
}

/// The headers of a request without a body.
pub open spec fn asking_headers(token: Seq<char>) -> Seq<(Seq<char>, Seq<char>)> {
    seq![
        ("user-agent"@, "iximeow"@),
        ("authorization"@, "Bearer "@ + token),
        ("accept"@, "application/vnd.github+json"@),
    ]
}

/// The headers of a request with a body.
pub open spec fn posting_headers(token: Seq<char>) -> Seq<(Seq<char>, Seq<char>)> {
    seq![("content-type"@, "application/json"@)] + asking_headers(token)
}

fn headers(token: &str, posting: bool) -> (r: Vec<(String, String)>)
    ensures
        header_texts(r@) == (if posting {
            posting_headers(token@)
        } else {
            asking_headers(token@)
        }),
{
    let mut list: Vec<(String, String)> = Vec::new();
    if posting {
        list.push(("content-type".to_owned(), "application/json".to_owned()));
    }
    list.push(("user-agent".to_owned(), "iximeow".to_owned()));
    list.push(("authorization".to_owned(), "Bearer ".to_owned().concat(token)));
    list.push(("accept".to_owned(), "application/vnd.github+json".to_owned()));
    assert(header_texts(list@) =~= if posting {
        posting_headers(token@)
    } else {
        asking_headers(token@)
    });
    list
}

/// What is said about a commit.
pub open spec fn status_tree(
    state: Seq<char>,
    description: Seq<char>,
    target_url: Seq<char>,
) -> JsonTree {
    JsonTree::Object(
        map![
            "state"@ => JsonTree::Text(state),
            "description"@ => JsonTree::Text(description),
            "target_url"@ => JsonTree::Text(target_url),
            "context"@ => JsonTree::Text("actuallyinspace runner"@),
        ],
    )
}

/// The hook that tells the service about pushes.
pub open spec fn webhook_tree(remote_path: Seq<char>, secret: Seq<char>) -> JsonTree {
    JsonTree::Object(
        map![
            "name"@ => JsonTree::Text("web"@),
            "active"@ => JsonTree::Bool(true),
            "events"@ => JsonTree::Array(seq![JsonTree::Text("push"@)]),
            "config"@ => JsonTree::Object(
                map![
                    "url"@ => JsonTree::Text("https://ci.butactuallyin.space/"@ + remote_path),
                    "content_type"@ => JsonTree::Text("json"@),
                    "secret"@ => JsonTree::Text(secret),
                    "insecure_ssl"@ => JsonTree::Text("0"@),
                ],
            ),
        ],
    )
}

/// What is wrong with a list of hooks.
#[derive(Debug, Clone, Copy, PartialEq, Eq, Structural)]
pub enum HookFault {
    NotArray,
    NotObject,
    NoConfig,
    ConfigNotObject,
    NoUrl,
    UrlNotText,
}

impl HookFault {
    pub open spec fn words(self) -> Seq<char> {
        match self {
            HookFault::NotArray => "response json was not an array"@,
            HookFault::NotObject => "response array did not contain objects"@,
            HookFault::NoConfig => "hook objects do not have config"@,
            HookFault::ConfigNotObject => "hook objects have config but it is not an object"@,
            HookFault::NoUrl => "config object does not have url"@,
            HookFault::UrlNotText => "config url has url but it not a string"@,
        }
    }

    pub fn text(self) -> (r: String)
        ensures
            r@ == self.words(),
    {
        match self {
            HookFault::NotArray => "response json was not an array".to_owned(),
            HookFault::NotObject => "response array did not contain objects".to_owned(),
            HookFault::NoConfig => "hook objects do not have config".to_owned(),
            HookFault::ConfigNotObject => {
                "hook objects have config but it is not an object".to_owned()
            },
            HookFault::NoUrl => "config object does not have url".to_owned(),
            HookFault::UrlNotText => "config url has url but it not a string".to_owned(),
        }
    }
}

/// Why it is not known whether a repository has the service's hook.
pub enum HookListError {
    /// The request was answered with another status than 200.
    NotOk(u16),
    /// The answer is no JSON document.
    NotJson(serde_json::Error),
    /// The answer does not list hooks.
    Fault(HookFault),
}

/// Where a hook sends what happens.
pub open spec fn hook_url(hook: JsonTree) -> Result<Seq<char>, HookFault> {
    match hook {
        JsonTree::Object(members) => if members.contains_key("config"@) {
            match members["config"@] {
                JsonTree::Object(config) => if config.contains_key("url"@) {
                    match config["url"@] {
                        JsonTree::Text(url) => Ok(url),
                        _ => Err(HookFault::UrlNotText),
                    }
                } else {
                    Err(HookFault::NoUrl)
                },
                _ => Err(HookFault::ConfigNotObject),
            }
        } else {
            Err(HookFault::NoConfig)
        },
        _ => Err(HookFault::NotObject),
    }
}

/// Whether one of the hooks from number `i` on sends to the service. The first hook that does, or
/// that is not as it should be, decides.
pub open spec fn sends_here(hooks: Seq<JsonTree>, i: int) -> Result<bool, HookFault>
    decreases hooks.len() - i,
{
    if i < 0 || i >= hooks.len() {
        Ok(false)
    } else {
        match hook_url(hooks[i]) {
            Ok(url) => if "https://ci.butactuallyin.space"@.is_prefix_of(url) {
                Ok(true)
            } else {
                sends_here(hooks, i + 1)
            },
            Err(fault) => Err(fault),
        }
    }
}

/// Whether a list of hooks has one that sends to the service.
pub open spec fn lists_our_hook(hooks: JsonTree) -> Result<bool, HookFault> {
    match hooks {
        JsonTree::Array(items) => sends_here(items, 0),
        _ => Err(HookFault::NotArray),
    }
}

/// A hook that sends to the service is found where every hook before it is as it should be.
pub proof fn our_hook_is_found(hooks: Seq<JsonTree>, from: int, k: int)
    requires
        0 <= from <= k < hooks.len(),
        forall|i: int| from <= i < k ==> (#[trigger] hook_url(hooks[i])) is Ok,
        hook_url(hooks[k]) matches Ok(url) && "https://ci.butactuallyin.space"@.is_prefix_of(url),
    ensures
        sends_here(hooks, from) == Ok::<bool, HookFault>(true),
    decreases k - from,
{
    if from < k {
        assert(hook_url(hooks[from]) is Ok);
        our_hook_is_found(hooks, from + 1, k);
    }
}

/// A hook that the service has made is one that sends to it, for every repository and secret.
pub proof fn made_hooks_are_found(remote_path: Seq<char>, secret: Seq<char>)
    ensures
        lists_our_hook(JsonTree::Array(seq![webhook_tree(remote_path, secret)])) == Ok::<
            bool,
            HookFault,
        >(true),
{
    reveal_strlit("https://ci.butactuallyin.space");
    reveal_strlit("https://ci.butactuallyin.space/");
    reveal_strlit("url");
    reveal_strlit("content_type");
    reveal_strlit("secret");
    reveal_strlit("insecure_ssl");
    let here = "https://ci.butactuallyin.space"@;
    let url = "https://ci.butactuallyin.space/"@ + remote_path;
    assert(here =~= url.take(here.len() as int));
    let hooks = seq![webhook_tree(remote_path, secret)];
    assert("url"@.len() < "secret"@.len() < "content_type"@.len() == "insecure_ssl"@.len());
    assert(hook_url(hooks[0]) == Ok::<Seq<char>, HookFault>(url));
    our_hook_is_found(hooks, 0, 0);
}

fn url_of_hook<'a>(hook: &'a Json) -> (r: Result<&'a String, HookFault>)
    ensures
        match r {
            Ok(url) => hook_url(hook.tree()) == Ok::<Seq<char>, HookFault>(url@),
            Err(fault) => hook_url(hook.tree()) == Err::<Seq<char>, HookFault>(fault),
        },
{
    match hook {
        Json::Object(members) => match member(members, "config") {
            Some(Json::Object(config)) => match member(config, "url") {
                Some(Json::Text(url)) => Ok(url),
                Some(_) => Err(HookFault::UrlNotText),
                None => Err(HookFault::NoUrl),
            },
            Some(_) => Err(HookFault::ConfigNotObject),
            None => Err(HookFault::NoConfig),
        },
        _ => Err(HookFault::NotObject),
    }
}

/// Whether a list of hooks has one that sends to the service.
pub fn our_hook_listed(hooks: &Json) -> (r: Result<bool, HookFault>)
    ensures
        r == lists_our_hook(hooks.tree()),
{
    let items: &Vec<Json> = match hooks {
        Json::Array(items) => items,
        _ => {
            return Err(HookFault::NotArray);
        },
    };
    let ghost trees = item_trees(items@);
    proof {
        items_keep_their_places(items@);
    }
    let mut i: usize = 0;
    while i < items.len()
        invariant
            i <= items@.len(),
            hooks.tree() == JsonTree::Array(trees),
            trees.len() == items@.len(),
            forall|i: int| 0 <= i < items@.len() ==> #[trigger] trees[i] == items@[i].tree(),
            sends_here(trees, 0) == sends_here(trees, i as int),
        decreases items@.len() - i,
    {
        assert(trees[i as int] == items@[i as int].tree());
        let url: &String = match url_of_hook(&items[i]) {
            Ok(url) => url,
            Err(fault) => {
                return Err(fault);
            },
        };
        if starts_with(url.as_str(), "https://ci.butactuallyin.space") {
            return Ok(true);
        }
        i = i + 1;
    }
    Ok(false)
}

/// An answer that says that something was done, or made.
pub open spec fn accepted(status: u16) -> bool {
    status == 200 || status == 201
}

/// Whether an answer's status says that something was done, or made.
pub fn is_accepted(status: u16) -> (r: bool)
    ensures
        r == accepted(status),
{
    status == 200 || status == 201
}

/// Access to GitHub in the name of a user.
pub struct GithubApi<'a> {
    pub token: &'a str,
    pub webhook_token: &'a str,
}

/// The request sets the status of a commit, in the name of the API token.
pub open spec fn posts_status<'a>(
    request: Request,
    api: GithubApi<'a>,
    remote_path: Seq<char>,
    sha: Seq<char>,
    state: Seq<char>,
    description: Seq<char>,
    target_url: Seq<char>,
) -> bool {
    &&& request.url@ == "https://api.github.com/repos/"@ + remote_path + "/statuses/"@ + sha
    &&& header_texts(request.headers@) == posting_headers(api.token@)
    &&& request.body matches Some(body)
    &&& body@ == json_written(status_tree(state, description, target_url))
}

/// The request asks for the hooks of a repository, in the name of the API token.
pub open spec fn lists_hooks<'a>(
    request: Request,
    api: GithubApi<'a>,
    remote_path: Seq<char>,
) -> bool {
    &&& request.url@ == "https://api.github.com/repos/"@ + remote_path + "/hooks"@
    &&& header_texts(request.headers@) == asking_headers(api.token@)
    &&& request.body is None
}

/// The request makes a hook that has pushes told to the service, signed with the webhook's secret,
/// in the name of the API token.
pub open spec fn makes_hook<'a>(
    request: Request,
    api: GithubApi<'a>,
    remote_path: Seq<char>,
) -> bool {
    &&& request.url@ == "https://api.github.com/repos/"@ + remote_path + "/hooks"@
    &&& header_texts(request.headers@) == posting_headers(api.token@)
    &&& request.body matches Some(body)
    &&& body@ == json_written(webhook_tree(remote_path, api.webhook_token@))
}

/// Every request to GitHub bears the API token and never the webhook's secret in its headers; the
/// secret is what a hook is made with, and says where pushes of the repository are sent.
pub proof fn requests_bear_the_token<'a>(
    request: Request,
    api: GithubApi<'a>,
    remote_path: Seq<char>,
)
    ensures
        makes_hook(request, api, remote_path) ==> ("authorization"@, "Bearer "@ + api.token@)
            == header_texts(request.headers@)[2],
        lists_hooks(request, api, remote_path) ==> ("authorization"@, "Bearer "@ + api.token@)
            == header_texts(request.headers@)[1],
        makes_hook(request, api, remote_path) ==> request.url@ == "https://api.github.com/repos/"@
            + remote_path + "/hooks"@,
        lists_hooks(request, api, remote_path) ==> request.url@ == "https://api.github.com/repos/"@
            + remote_path + "/hooks"@,
        makes_hook(request, api, remote_path) ==> request.body is Some,
        lists_hooks(request, api, remote_path) ==> request.body is None,
{
}

/// The hook that is made for a repository is active, is sent pushes and nothing else, sends them to
/// the repository's address at the service as JSON, and signs them with the secret.
pub proof fn hooks_are_made_for_pushes(remote_path: Seq<char>, secret: Seq<char>)
    ensures
        webhook_tree(remote_path, secret) matches JsonTree::Object(members) && {
            &&& members["name"@] == JsonTree::Text("web"@)
            &&& members["active"@] == JsonTree::Bool(true)
            &&& members["events"@] == JsonTree::Array(seq![JsonTree::Text("push"@)])
            &&& members["config"@] matches JsonTree::Object(config) && {
                &&& config["url"@] == JsonTree::Text(
                    "https://ci.butactuallyin.space/"@ + remote_path,
                )
                &&& config["content_type"@] == JsonTree::Text("json"@)
                &&& config["secret"@] == JsonTree::Text(secret)
                &&& config["insecure_ssl"@] == JsonTree::Text("0"@)
            }
        },
{
    reveal_strlit("url");
    reveal_strlit("content_type");
    reveal_strlit("secret");
    reveal_strlit("insecure_ssl");
    reveal_strlit("name");
    reveal_strlit("active");
    reveal_strlit("events");
    reveal_strlit("config");
    assert("url"@.len() < "secret"@.len() < "content_type"@.len() == "insecure_ssl"@.len());
    assert("content_type"@[0] != "insecure_ssl"@[0]);
    assert("name"@[0] == 'n' && "active"@[0] == 'a' && "events"@[0] == 'e');
    assert("config"@[0] == 'c');
}

/// Whether a repository has the service's hook, by the status and the document of the answer.
pub open spec fn hook_answer(
    status: u16,
    hooks: Option<JsonTree>,
    answer: Result<bool, HookListError>,
) -> bool {
    match answer {
        Ok(found) => status == 200 && (hooks matches Some(hooks) && lists_our_hook(hooks) == Ok::<
            bool,
            HookFault,
        >(found)),
        Err(HookListError::NotOk(s)) => s == status && status != 200,
        Err(HookListError::NotJson(_)) => status == 200 && hooks is None,
        Err(HookListError::Fault(fault)) => status == 200 && (hooks matches Some(hooks)
            && lists_our_hook(hooks) == Err::<bool, HookFault>(fault)),
    }
}

/// A repository is said to have the hook only if GitHub answered with status 200 and one of the hooks
/// that it listed sends to the service, and not to have it only if each of them sends elsewhere.
pub proof fn hooks_are_found_in_the_list(
    status: u16,
    hooks: Option<JsonTree>,
    answer: Result<bool, HookListError>,
)
    requires
        hook_answer(status, hooks, answer),
        answer is Ok,
    ensures
        status == 200,
        hooks matches Some(JsonTree::Array(items)) && {
            &&& answer == Ok::<bool, HookListError>(true) ==> exists|i: int|
                0 <= i < items.len() && (hook_url(#[trigger] items[i]) matches Ok(url)
                    && "https://ci.butactuallyin.space"@.is_prefix_of(url))
            &&& answer == Ok::<bool, HookListError>(false) ==> forall|i: int|
                0 <= i < items.len() ==> (hook_url(#[trigger] items[i]) matches Ok(url)
                    && !"https://ci.butactuallyin.space"@.is_prefix_of(url))
        },
{
    let items = hooks->0->Array_0;
    hooks_decide(items, 0);
}

proof fn hooks_decide(items: Seq<JsonTree>, from: int)
    requires
        0 <= from <= items.len(),
    ensures
        sends_here(items, from) == Ok::<bool, HookFault>(true) ==> exists|i: int|
            from <= i < items.len() && (hook_url(#[trigger] items[i]) matches Ok(url)
                && "https://ci.butactuallyin.space"@.is_prefix_of(url)),
        sends_here(items, from) == Ok::<bool, HookFault>(false) ==> forall|i: int|
            from <= i < items.len() ==> (hook_url(#[trigger] items[i]) matches Ok(url)
                && !"https://ci.butactuallyin.space"@.is_prefix_of(url)),
    decreases items.len() - from,
{
    if from < items.len() {
        hooks_decide(items, from + 1);
        assert(items[from] == items[from]);
    }
}

impl<'a> GithubApi<'a> {
    /// The request that sets the status of a commit.
    pub fn post_status(
        &self,
        remote_path: &str,
        sha: &str,
        state: &str,
        description: &str,
        target_url: &str,
    ) -> (r: Request)
        ensures
            posts_status(
                r,
                *self,
                remote_path@,
                sha@,
                state@,
                description@,
                target_url@,
            ),
    {
        let mut members: Vec<(String, serde_json::Value)> = Vec::new();
        members.push(("state".to_owned(), text_value(state)));
        members.push(("description".to_owned(), text_value(description)));
        members.push(("target_url".to_owned(), text_value(target_url)));
        members.push(("context".to_owned(), text_value("actuallyinspace runner")));
        let ghost list = members@;
        proof {
            reveal_strlit("state");
            reveal_strlit("description");
            reveal_strlit("target_url");
            reveal_strlit("context");
            assert("state"@.len() < "context"@.len() < "target_url"@.len() < "description"@.len());
        }
        let status_info = object_value(members);
        proof {
            reveal_with_fuel(listed_trees, 5);
            assert(listed_trees(list) =~= status_tree(
                state@,
                description@,
                target_url@,
            )->Object_0);
        }
        Request {
            url: "https://api.github.com/repos/".to_owned().concat(remote_path).concat(
                "/statuses/",
            ).concat(sha),
            body: Some(write_value(&status_info)),
            headers: headers(self.token, true),
        }
    }

    /// The request that lists the hooks of a repository.
    pub fn has_ci_webhook(&self, remote_path: &str) -> (r: Request)
        ensures
            lists_hooks(r, *self, remote_path@),
    {
        Request {
            url: "https://api.github.com/repos/".to_owned().concat(remote_path).concat("/hooks"),
            body: None,
            headers: headers(self.token, false),
        }
    }

    /// Whether the repository has the service's hook, by the answer to the request for its hooks.
    pub fn webhook_listed(status: u16, body: &[u8]) -> (r: Result<bool, HookListError>)
        ensures
            hook_answer(status, json_read(body@), r),
    {
        if status != 200 {
            return Err(HookListError::NotOk(status));
        }
        match parse(body) {
            Ok(hooks) => match our_hook_listed(&hooks) {
                Ok(found) => Ok(found),
                Err(fault) => Err(HookListError::Fault(fault)),
            },
            Err(e) => Err(HookListError::NotJson(e)),
        }
    }

    /// The request that has pushes to a repository told to the service.
    pub fn create_ci_webhook(&self, remote_path: &str) -> (r: Request)
        ensures
            makes_hook(r, *self, remote_path@),
    {
        let webhook_url = "https://ci.butactuallyin.space/".to_owned().concat(remote_path);
        let mut config: Vec<(String, serde_json::Value)> = Vec::new();
        config.push(("url".to_owned(), text_value(webhook_url.as_str())));
        config.push(("content_type".to_owned(), text_value("json")));
        config.push(("secret".to_owned(), text_value(self.webhook_token)));
        config.push(("insecure_ssl".to_owned(), text_value("0")));
        let ghost config_list = config@;
        proof {
            reveal_strlit("url");
            reveal_strlit("content_type");
            reveal_strlit("secret");
            reveal_strlit("insecure_ssl");
            assert("url"@.len() < "secret"@.len() < "content_type"@.len() == "insecure_ssl"@.len());
            assert("content_type"@[0] != "insecure_ssl"@[0]);
        }

        let mut events: Vec<serde_json::Value> = Vec::new();
        events.push(text_value("push"));
        let ghost event_list = events@;

        let mut members: Vec<(String, serde_json::Value)> = Vec::new();
        members.push(("name".to_owned(), text_value("web")));
        members.push(("active".to_owned(), bool_value(true)));
        members.push(("events".to_owned(), array_value(events)));
        members.push(("config".to_owned(), object_value(config)));
        let ghost list = members@;
        proof {
            reveal_strlit("name");
            reveal_strlit("active");
            reveal_strlit("events");
            reveal_strlit("config");
            assert("name"@[0] == 'n' && "active"@[0] == 'a' && "events"@[0] == 'e');
            assert("config"@[0] == 'c');
        }
        let webhook_config = object_value(members);
        proof {
            let tree = webhook_tree(remote_path@, self.webhook_token@);
            reveal_with_fuel(listed_trees, 5);
            assert(Seq::new(event_list.len(), |i: int| value_tree(event_list[i])) =~= seq![
                JsonTree::Text("push"@),
            ]);
            assert(listed_trees(config_list) =~= map![
                "url"@ => JsonTree::Text("https://ci.butactuallyin.space/"@ + remote_path@),
                "content_type"@ => JsonTree::Text("json"@),
                "secret"@ => JsonTree::Text(self.webhook_token@),
                "insecure_ssl"@ => JsonTree::Text("0"@),
            ]);
            assert(listed_trees(list) =~= tree->Object_0);
        }
        Request {
            url: "https://api.github.com/repos/".to_owned().concat(remote_path).concat("/hooks"),
            body: Some(write_value(&webhook_config)),
            headers: headers(self.token, true),
        }
    }
}

/// A hook is made with the webhook's secret and never with the API token: what is sent to make it is
/// the same whichever token it is made in the name of.
pub proof fn hooks_are_made_with_their_secret<'a>(
    request: Request,
    other: Request,
    api: GithubApi<'a>,
    other_api: GithubApi<'a>,
    remote_path: Seq<char>,
)
    requires
        makes_hook(request, api, remote_path),
        makes_hook(other, other_api, remote_path),
    ensures
        request.body matches Some(body) && body@ == json_written(
            webhook_tree(remote_path, api.webhook_token@),
        ),
        api.webhook_token@ == other_api.webhook_token@ ==> request.body->0@ == other.body->0@,
        api.token@ == other_api.token@ ==> header_texts(request.headers@) == header_texts(
            other.headers@,
        ),
{
}

} // verus!
