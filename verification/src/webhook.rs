//! What the service makes of the events that GitHub sends.

use crate::dbctx::remote_git_url_of;
use crate::dbctx::Bound;
use crate::dbctx::DbCtx;
use crate::dbctx::Param;
use crate::dbctx::Statement;
use crate::json::json_read;
use crate::json::member;
use crate::json::member_trees;
use crate::json::parse;
use crate::json::Json;
use crate::json::JsonTree;
use crate::rows::job_in;
use crate::rows::u64_at;
use crate::rows::Cell;
use crate::sql::COMMIT_TO_ID;
use crate::tables::job_columns;
use crate::tables::jobs_are_read_back;
use crate::tables::makes_job;
use crate::tables::makes_run;
use crate::tables::new_job_columns;
use crate::tables::puts;
use crate::tables::shows;
use crate::text::after_bytes;
use crate::text::ascii_byte_suffix;
use crate::text::byte_suffix;
use crate::text::can_cut;
use crate::text::cuts_at;
use crate::text::same;
use vstd::prelude::*;

verus! {

/// How many bytes of a signature come before its digits: `sha256=`.
pub const SIGNATURE_PREFIX_BYTES: usize = 7;

/// A key that a GitHub user signs events with.
pub struct GithubPsk {
    pub key: String,
    pub gh_user: String,
}

/// What is wrong with a push event.
#[derive(Copy, Clone, Debug)]
pub enum GithubHookError {
    BodyNotObject,
    MissingElement { path: &'static str },
    BadType { path: &'static str, expected: &'static str },
}

/// What is wrong with a push event, in texts.
pub enum HookErrorTexts {
    BodyNotObject,
    MissingElement(Seq<char>),
    BadType(Seq<char>, Seq<char>),
}

impl View for GithubHookError {
    type V = HookErrorTexts;

    open spec fn view(&self) -> HookErrorTexts {
        match self {
            GithubHookError::BodyNotObject => HookErrorTexts::BodyNotObject,
            GithubHookError::MissingElement { path } => HookErrorTexts::MissingElement(path@),
            GithubHookError::BadType { path, expected } => HookErrorTexts::BadType(
                path@,
                expected@,
            ),
        }
    }
}

/// An event: commits were pushed, or another.
pub enum GithubEvent<'a> {
    Push {
        tip: String,
        repo_name: String,
        head_commit: &'a Vec<(String, Json)>,
        pusher: &'a Vec<(String, Json)>,
    },
    Other {},
}

/// A push event, in texts.
pub struct PushTexts {
    pub tip: Seq<char>,
    pub repo_name: Seq<char>,
    pub head_commit: Map<Seq<char>, JsonTree>,
    pub pusher: Map<Seq<char>, JsonTree>,
}

impl<'a> GithubEvent<'a> {
    /// The event is the given push.
    pub open spec fn is_push(&self, push: PushTexts) -> bool {
        match self {
            GithubEvent::Push { tip, repo_name, head_commit, pusher } => {
                &&& tip@ == push.tip
                &&& repo_name@ == push.repo_name
                &&& member_trees(head_commit@) == push.head_commit
                &&& member_trees(pusher@) == push.pusher
            },
            GithubEvent::Other {} => false,
        }
    }
}

/// The text under a name in an object that is found at `path`.
pub open spec fn text_under(
    members: Map<Seq<char>, JsonTree>,
    name: Seq<char>,
    path: Seq<char>,
) -> Result<Seq<char>, HookErrorTexts> {
    if !members.contains_key(name) {
        Err(HookErrorTexts::MissingElement(path))
    } else {
        match members[name] {
            JsonTree::Text(text) => Ok(text),
            _ => Err(HookErrorTexts::BadType(path, "str"@)),
        }
    }
}

/// The object under a name in an object that is found at `path`.
pub open spec fn object_under(
    members: Map<Seq<char>, JsonTree>,
    name: Seq<char>,
    path: Seq<char>,
) -> Result<Map<Seq<char>, JsonTree>, HookErrorTexts> {
    if !members.contains_key(name) {
        Err(HookErrorTexts::MissingElement(path))
    } else {
        match members[name] {
            JsonTree::Object(object) => Ok(object),
            _ => Err(HookErrorTexts::BadType(path, "obj"@)),
        }
    }
}

/// The full name of the repository that was pushed to.
pub open spec fn pushed_repo(members: Map<Seq<char>, JsonTree>) -> Result<
    Seq<char>,
    HookErrorTexts,
> {
    match object_under(members, "repository"@, "repository"@) {
        Ok(repository) => text_under(repository, "full_name"@, "repository/full_name"@),
        Err(e) => Err(e),
    }
}

/// The push that the body of an event tells of. The first thing that is wrong with it counts, in
/// the order of the pushed commit, the repository, the head commit and the pusher.
pub open spec fn push_in(body: JsonTree) -> Result<PushTexts, HookErrorTexts> {
    match body {
        JsonTree::Object(members) => match text_under(members, "after"@, "after"@) {
            Ok(tip) => match pushed_repo(members) {
                Ok(repo_name) => match object_under(members, "head_commit"@, "head_commit"@) {
                    Ok(head_commit) => match object_under(members, "pusher"@, "pusher"@) {
                        Ok(pusher) => Ok(PushTexts { tip, repo_name, head_commit, pusher }),
                        Err(e) => Err(e),
                    },
                    Err(e) => Err(e),
                },
                Err(e) => Err(e),
            },
            Err(e) => Err(e),
        },
        _ => Err(HookErrorTexts::BodyNotObject),
    }
}

fn text_member<'a>(
    members: &'a Vec<(String, Json)>,
    name: &str,
    path: &'static str,
) -> (r: Result<&'a String, GithubHookError>)
    ensures
        match r {
            Ok(text) => text_under(member_trees(members@), name@, path@) == Ok::<
                Seq<char>,
                HookErrorTexts,
            >(text@),
            Err(e) => text_under(member_trees(members@), name@, path@) == Err::<
                Seq<char>,
                HookErrorTexts,
            >(e@),
        },
{
    match member(members, name) {
        Some(Json::Text(text)) => Ok(text),
        Some(_) => Err(GithubHookError::BadType { path, expected: "str" }),
        None => Err(GithubHookError::MissingElement { path }),
    }
}

fn object_member<'a>(
    members: &'a Vec<(String, Json)>,
    name: &str,
    path: &'static str,
) -> (r: Result<&'a Vec<(String, Json)>, GithubHookError>)
    ensures
        match r {
            Ok(object) => object_under(member_trees(members@), name@, path@) == Ok::<
                Map<Seq<char>, JsonTree>,
                HookErrorTexts,
            >(member_trees(object@)),
            Err(e) => object_under(member_trees(members@), name@, path@) == Err::<
                Map<Seq<char>, JsonTree>,
                HookErrorTexts,
            >(e@),
        },
{
    match member(members, name) {
        Some(Json::Object(object)) => Ok(object),
        Some(_) => Err(GithubHookError::BadType { path, expected: "obj" }),
        None => Err(GithubHookError::MissingElement { path }),
    }
}

/// The push that the body of an event tells of.
pub fn parse_push_event<'a>(body: &'a Json) -> (r: Result<GithubEvent<'a>, GithubHookError>)
    ensures
        match r {
            Ok(event) => push_in(body.tree()) is Ok && event.is_push(push_in(body.tree())->Ok_0),
            Err(e) => push_in(body.tree()) == Err::<PushTexts, HookErrorTexts>(e@),
        },
{
    let body: &'a Vec<(String, Json)> = match body {
        Json::Object(members) => members,
        _ => {
            return Err(GithubHookError::BodyNotObject);
        },
    };
    let tip: &String = match text_member(body, "after", "after") {
        Ok(tip) => tip,
        Err(e) => {
            return Err(e);
        },
    };
    let repository: &Vec<(String, Json)> = match object_member(body, "repository", "repository") {
        Ok(repository) => repository,
        Err(e) => {
            return Err(e);
        },
    };
    let repo_name: &String = match text_member(repository, "full_name", "repository/full_name") {
        Ok(repo_name) => repo_name,
        Err(e) => {
            return Err(e);
        },
    };
    let head_commit: &'a Vec<(String, Json)> = match object_member(
        body,
        "head_commit",
        "head_commit",
    ) {
        Ok(head_commit) => head_commit,
        Err(e) => {
            return Err(e);
        },
    };
    let pusher: &'a Vec<(String, Json)> = match object_member(body, "pusher", "pusher") {
        Ok(pusher) => pusher,
        Err(e) => {
            return Err(e);
        },
    };
    Ok(
        GithubEvent::Push {
            tip: tip.clone(),
            repo_name: repo_name.clone(),
            head_commit,
            pusher,
        },
    )
}

/// What is to be done about an event.
pub enum EventPlan<'a> {
    /// A push: it is processed, and answered with `ok`.
    Push(GithubEvent<'a>),
    /// A push that cannot be read: there is no answer.
    BadPush(GithubHookError),
    /// The event is answered with the given text.
    Answer(&'static str),
}

/// What is to be done about an event of the given kind with the given body.
pub open spec fn plans_event<'a>(kind: Seq<char>, body: JsonTree, plan: EventPlan<'a>) -> bool {
    match plan {
        EventPlan::Push(event) => kind == "push"@ && push_in(body) is Ok && event.is_push(
            push_in(body)->Ok_0,
        ),
        EventPlan::BadPush(e) => kind == "push"@ && push_in(body) == Err::<
            PushTexts,
            HookErrorTexts,
        >(e@),
        EventPlan::Answer(text) => kind != "push"@ && text@ == (if kind == "status"@ {
            "ok"@
        } else {
            ""@
        }),
    }
}

/// Something is built only of an event that is a push and whose body tells of one: of the commit
/// under `after` in the repository whose full name it gives, for the pusher that it gives.
pub proof fn only_pushes_are_built<'a>(kind: Seq<char>, body: JsonTree, plan: EventPlan<'a>)
    requires
        plans_event(kind, body, plan),
    ensures
        plan is Answer <==> kind != "push"@,
        plan matches EventPlan::Push(event) ==> (event matches GithubEvent::Push {
            tip,
            repo_name,
            pusher,
            ..
        } && (body matches JsonTree::Object(members) && {
            &&& members.contains_pair("after"@, JsonTree::Text(tip@))
            &&& members.contains_pair("pusher"@, JsonTree::Object(member_trees(pusher@)))
            &&& members.contains_key("repository"@) && (members["repository"@]
                matches JsonTree::Object(repository) && repository.contains_pair(
                "full_name"@,
                JsonTree::Text(repo_name@),
            ))
        })),
{
}

/// A push can be read exactly if its body is an object that has the pushed commit, the full name of
/// the repository, the head commit and the pusher, each of its type; and then these are what is read,
/// whatever else the body holds.
pub proof fn pushes_are_read_from_their_members(
    members: Map<Seq<char>, JsonTree>,
    push: PushTexts,
)
    ensures
        push_in(JsonTree::Object(members)) == Ok::<PushTexts, HookErrorTexts>(push) <==> {
            &&& members.contains_pair("after"@, JsonTree::Text(push.tip))
            &&& members.contains_key("repository"@) && (members["repository"@]
                matches JsonTree::Object(repository) && repository.contains_pair(
                "full_name"@,
                JsonTree::Text(push.repo_name),
            ))
            &&& members.contains_pair("head_commit"@, JsonTree::Object(push.head_commit))
            &&& members.contains_pair("pusher"@, JsonTree::Object(push.pusher))
        },
{
}

/// What is said to be missing in a push is missing, and what is said to be of the wrong type is
/// there and of another; the pushed commit is looked for first, and then the repository.
pub proof fn faults_of_pushes_are_there(members: Map<Seq<char>, JsonTree>, fault: HookErrorTexts)
    requires
        push_in(JsonTree::Object(members)) == Err::<PushTexts, HookErrorTexts>(fault),
    ensures
        fault !is BodyNotObject,
        !members.contains_key("after"@) <==> fault == HookErrorTexts::MissingElement("after"@),
        members.contains_key("after"@) && members["after"@] !is Text <==> fault
            == HookErrorTexts::BadType("after"@, "str"@),
        fault == HookErrorTexts::MissingElement("repository"@) ==> !members.contains_key(
            "repository"@,
        ),
        fault == HookErrorTexts::MissingElement("head_commit"@) ==> !members.contains_key(
            "head_commit"@,
        ),
        fault == HookErrorTexts::MissingElement("pusher"@) ==> !members.contains_key("pusher"@),
        fault == HookErrorTexts::BadType("head_commit"@, "obj"@) ==> members.contains_key(
            "head_commit"@,
        ) && members["head_commit"@] !is Object,
        fault == HookErrorTexts::BadType("pusher"@, "obj"@) ==> members.contains_key("pusher"@)
            && members["pusher"@] !is Object,
{
    reveal_strlit("after");
    reveal_strlit("repository");
    reveal_strlit("repository/full_name");
    reveal_strlit("head_commit");
    reveal_strlit("pusher");
    reveal_strlit("str");
    reveal_strlit("obj");
    assert("after"@.len() == 5 && "repository"@.len() == 10 && "repository/full_name"@.len() == 20);
    assert("head_commit"@.len() == 11 && "pusher"@.len() == 6);
    assert("str"@[0] == 's' && "obj"@[0] == 'o');
}

/// What is to be done about an event of the given kind.
pub fn handle_github_event<'a>(event_kind: &str, body: &'a Json) -> (r: EventPlan<'a>)
    ensures
        plans_event(event_kind@, body.tree(), r),
{
    if same(event_kind, "push") {
        match parse_push_event(body) {
            Ok(event) => EventPlan::Push(event),
            Err(e) => EventPlan::BadPush(e),
        }
    } else if same(event_kind, "status") {
        EventPlan::Answer("ok")
    } else {
        EventPlan::Answer("")
    }
}

/// The value of a hexadecimal digit.
pub open spec fn hex_value(c: char) -> int {
    if '0' <= c <= '9' {
        c as int - 48
    } else if 'a' <= c <= 'f' {
        c as int - 87
    } else {
        c as int - 55
    }
}

pub open spec fn is_hex_digit(c: char) -> bool {
    '0' <= c <= '9' || 'a' <= c <= 'f' || 'A' <= c <= 'F'
}

/// Pairs of hexadecimal digits.
pub open spec fn is_hex(s: Seq<char>) -> bool {
    &&& s.len() % 2 == 0
    &&& forall|i: int| 0 <= i < s.len() ==> is_hex_digit(#[trigger] s[i])
}

/// The bytes that pairs of hexadecimal digits stand for.
pub open spec fn hex_bytes(s: Seq<char>) -> Seq<u8> {
    Seq::new(s.len() / 2, |i: int| (16 * hex_value(s[2 * i]) + hex_value(s[2 * i + 1])) as u8)
}

/// `hex::FromHexError`, why a text is not hexadecimal.
#[verifier::external_type_specification]
#[verifier::external_body]
pub struct ExFromHexError(hex::FromHexError);

/// `hex::decode` of a text. It gives the bytes that pairs of hexadecimal digits stand for, the
/// upper half of a byte first, in digits of either case; it fails on everything else.
#[verifier::external_body]
fn hex_decode(s: &str) -> (r: Result<Vec<u8>, hex::FromHexError>)
    ensures
        match r {
            Ok(bytes) => is_hex(s@) && bytes@ == hex_bytes(s@),
            Err(_) => !is_hex(s@),
        },
{
    hex::decode(s)
}

/// The HMAC of a message under a key, with SHA-256.
pub uninterp spec fn hmac_sha256_of(key: Seq<u8>, message: Seq<u8>) -> Seq<u8>;

/// `hmac::Hmac` over `sha2::Sha256`: `new_from_slice` with the key, which takes keys of every
/// length, `update` with the message, and `finalize`. The 32 bytes depend on the key and the
/// message alone.
#[verifier::external_body]
fn hmac_sha256(key: &[u8], message: &[u8]) -> (r: Vec<u8>)
    ensures
        r@ == hmac_sha256_of(key@, message@),
        r@.len() == 32,
{
    let mut mac = <hmac::Hmac<sha2::Sha256> as hmac::Mac>::new_from_slice(key)
        .expect("hmac can be constructed");
    hmac::Mac::update(&mut mac, message);
    hmac::Mac::finalize(mac).into_bytes().to_vec()
}

/// A signature that can be read: seven bytes, and hexadecimal digits after them.
pub open spec fn readable_signature(signature: Seq<char>) -> bool {
    &&& cuts_at(signature, SIGNATURE_PREFIX_BYTES as int)
    &&& is_hex(byte_suffix(signature, SIGNATURE_PREFIX_BYTES as int))
}

/// The bytes of a signature.
pub open spec fn signature_bytes(signature: Seq<char>) -> Seq<u8> {
    hex_bytes(byte_suffix(signature, SIGNATURE_PREFIX_BYTES as int))
}

/// The signature is that of the body under the key.
pub open spec fn signs(key: Seq<char>, body: Seq<u8>, signature: Seq<char>) -> bool {
    hmac_sha256_of(vstd::utf8::encode_utf8(key), body) == signature_bytes(signature)
}

/// The signature is that of the body under one of the keys.
pub open spec fn signed(psks: Seq<GithubPsk>, body: Seq<u8>, signature: Seq<char>) -> bool {
    exists|i: int| 0 <= i < psks.len() && signs((#[trigger] psks[i]).key@, body, signature)
}

fn bytes_equal(a: &Vec<u8>, b: &Vec<u8>) -> (r: bool)
    ensures
        r == (a@ == b@),
{
    if a.len() != b.len() {
        return false;
    }
    let mut i: usize = 0;
    while i < a.len()
        invariant
            i <= a@.len(),
            a@.len() == b@.len(),
            forall|j: int| 0 <= j < i ==> a@[j] == b@[j],
        decreases a@.len() - i,
    {
        if a[i] != b[i] {
            return false;
        }
        i = i + 1;
    }
    assert(a@ =~= b@);
    true
}

/// Whether one of the bytes that the keys give for a body is that of the signature.
fn any_key_gives(psks: &Vec<GithubPsk>, body: &[u8], expected: &Vec<u8>) -> (r: bool)
    ensures
        r == exists|i: int|
            0 <= i < psks@.len() && hmac_sha256_of(
                vstd::utf8::encode_utf8((#[trigger] psks@[i]).key@),
                body@,
            ) == expected@,
{
    let mut i: usize = 0;
    while i < psks.len()
        invariant
            i <= psks@.len(),
            forall|j: int|
                0 <= j < i ==> hmac_sha256_of(
                    vstd::utf8::encode_utf8((#[trigger] psks@[j]).key@),
                    body@,
                ) != expected@,
        decreases psks@.len() - i,
    {
        let result = hmac_sha256(psks[i].key.as_str().as_bytes(), body);
        if bytes_equal(&result, expected) {
            return true;
        }
        i = i + 1;
    }
    false
}

/// Whether the signature is that of the body under one of the keys; `None` where there are keys and
/// the signature cannot be read.
pub fn check_signature(psks: &Vec<GithubPsk>, body: &[u8], signature: &str) -> (r: Option<bool>)
    ensures
        match r {
            Some(ok) => {
                &&& psks@.len() == 0 || readable_signature(signature@)
                &&& ok == signed(psks@, body@, signature@)
            },
            None => psks@.len() > 0 && !readable_signature(signature@),
        },
{
    if psks.len() == 0 {
        return Some(false);
    }
    if !can_cut(signature, SIGNATURE_PREFIX_BYTES) {
        return None;
    }
    let digits = after_bytes(signature, SIGNATURE_PREFIX_BYTES);
    match hex_decode(digits.as_str()) {
        Ok(decoded) => {
            let ok = any_key_gives(psks, body, &decoded);
            proof {
                if ok {
                    let i = choose|i: int|
                        0 <= i < psks@.len() && hmac_sha256_of(
                            vstd::utf8::encode_utf8((#[trigger] psks@[i]).key@),
                            body@,
                        ) == decoded@;
                    assert(signs(psks@[i].key@, body@, signature@));
                }
            }
            Some(ok)
        },
        Err(_) => None,
    }
}

/// What is to be done about a request that brings an event.
pub enum RepoEvent {
    /// It is refused with status 400.
    Refused,
    /// Its signature cannot be read: there is no answer.
    Unreadable,
    /// It brings an event of the given kind.
    Accepted { kind: String, payload: Json },
}

/// A request is refused: its body is no JSON document, it has no signature, the signature is that of
/// no key, or it does not say which kind of event it brings.
pub open spec fn refused(
    psks: Seq<GithubPsk>,
    body: Seq<u8>,
    signature: Option<&str>,
    kind: Option<&str>,
) -> bool {
    ||| json_read(body) is None
    ||| signature is None
    ||| psks.len() == 0
    ||| readable_signature(signature->0@) && (kind is None || !signed(psks, body, signature->0@))
}

/// What is to be done about a request that brings an event.
pub open spec fn admits_event(
    psks: Seq<GithubPsk>,
    body: Seq<u8>,
    signature: Option<&str>,
    kind: Option<&str>,
    event: RepoEvent,
) -> bool {
    match event {
        RepoEvent::Refused => refused(psks, body, signature, kind),
        RepoEvent::Unreadable => !refused(psks, body, signature, kind) && !readable_signature(
            signature->0@,
        ),
        RepoEvent::Accepted { kind: k, payload } => {
            &&& !refused(psks, body, signature, kind)
            &&& readable_signature(signature->0@)
            &&& k@ == kind->0@
            &&& json_read(body) == Some(payload.tree())
        },
    }
}

/// An event that is accepted came with a signature that gives, in hexadecimal digits after its first
/// seven bytes, the HMAC of its very body under one of the keys; what is accepted is what the body
/// says, as the kind that the request says.
pub proof fn accepted_events_are_authentic(
    psks: Seq<GithubPsk>,
    body: Seq<u8>,
    signature: Option<&str>,
    kind: Option<&str>,
    event: RepoEvent,
)
    requires
        admits_event(psks, body, signature, kind, event),
        event is Accepted,
    ensures
        signature is Some,
        is_hex(byte_suffix(signature->0@, 7)),
        exists|k: int|
            0 <= k < psks.len() && hmac_sha256_of(
                vstd::utf8::encode_utf8((#[trigger] psks[k]).key@),
                body,
            ) == hex_bytes(byte_suffix(signature->0@, 7)),
        event matches RepoEvent::Accepted { kind: k, payload } && kind is Some && k@ == kind->0@
            && json_read(body) == Some(payload.tree()),
{
    let k = choose|k: int|
        0 <= k < psks.len() && signs((#[trigger] psks[k]).key@, body, signature->0@);
    assert(hmac_sha256_of(vstd::utf8::encode_utf8(psks[k].key@), body) == hex_bytes(
        byte_suffix(signature->0@, 7),
    ));
}

/// A signature does not carry over to another body: where there is one key and both bodies are
/// accepted with one signature, their HMACs under the key are the same.
pub proof fn signatures_hold_for_their_body(
    key: GithubPsk,
    body: Seq<u8>,
    other: Seq<u8>,
    signature: Option<&str>,
    kind: Option<&str>,
    event: RepoEvent,
    other_event: RepoEvent,
)
    requires
        admits_event(seq![key], body, signature, kind, event),
        admits_event(seq![key], other, signature, kind, other_event),
        event is Accepted,
        other_event is Accepted,
    ensures
        hmac_sha256_of(vstd::utf8::encode_utf8(key.key@), body) == hmac_sha256_of(
            vstd::utf8::encode_utf8(key.key@),
            other,
        ),
{
    accepted_events_are_authentic(seq![key], body, signature, kind, event);
    accepted_events_are_authentic(seq![key], other, signature, kind, other_event);
}

/// Without a key nothing is accepted, nor without a signature, without a kind or with a body that is
/// no JSON document; and what is wrong with a request is answered in every such case.
pub proof fn incomplete_events_are_refused(
    psks: Seq<GithubPsk>,
    body: Seq<u8>,
    signature: Option<&str>,
    kind: Option<&str>,
    event: RepoEvent,
)
    requires
        admits_event(psks, body, signature, kind, event),
    ensures
        psks.len() == 0 || signature is None || json_read(body) is None ==> event is Refused,
        kind is None ==> event !is Accepted,
        event is Unreadable ==> signature is Some && !(cuts_at(signature->0@, 7) && is_hex(
            byte_suffix(signature->0@, 7),
        )),
{
}

/// What is to be done about a request that brings an event: its body, and its headers
/// `x-hub-signature-256` and `x-github-event`.
pub fn handle_repo_event(
    psks: &Vec<GithubPsk>,
    body: &[u8],
    signature: Option<&str>,
    kind: Option<&str>,
) -> (r: RepoEvent)
    ensures
        admits_event(psks@, body@, signature, kind, r),
{
    let payload: Json = match parse(body) {
        Ok(payload) => payload,
        Err(_) => {
            return RepoEvent::Refused;
        },
    };
    let signature: &str = match signature {
        Some(signature) => signature,
        None => {
            return RepoEvent::Refused;
        },
    };
    match check_signature(psks, body, signature) {
        Some(true) => {},
        Some(false) => {
            return RepoEvent::Refused;
        },
        None => {
            return RepoEvent::Unreadable;
        },
    }
    match kind {
        Some(kind) => RepoEvent::Accepted { kind: kind.to_owned(), payload },
        None => RepoEvent::Refused,
    }
}

/// No event is accepted whose body is not signed with one of the keys.
pub proof fn accepted_events_are_signed(
    psks: Seq<GithubPsk>,
    body: Seq<u8>,
    signature: Option<&str>,
    kind: Option<&str>,
)
    requires
        !refused(psks, body, signature, kind),
        readable_signature(signature->0@),
    ensures
        signed(psks, body, signature->0@),
        json_read(body) is Some,
        kind is Some,
{
}

/// A hexadecimal digit.
pub open spec fn hex_digit(d: int) -> char {
    if d < 10 {
        (48 + d) as char
    } else {
        (87 + d) as char
    }
}

/// Bytes in hexadecimal digits.
pub open spec fn hex_text(bytes: Seq<u8>) -> Seq<char> {
    Seq::new(
        2 * bytes.len(),
        |i: int|
            if i % 2 == 0 {
                hex_digit(bytes[i / 2] as int / 16)
            } else {
                hex_digit(bytes[i / 2] as int % 16)
            },
    )
}

/// Bytes in hexadecimal digits are read back.
pub proof fn hex_reads_back(bytes: Seq<u8>)
    ensures
        is_hex(hex_text(bytes)),
        hex_bytes(hex_text(bytes)) == bytes,
{
    let text = hex_text(bytes);
    assert forall|i: int| 0 <= i < text.len() implies is_hex_digit(#[trigger] text[i]) by {
        assert(0 <= bytes[i / 2] as int / 16 < 16);
        assert(0 <= bytes[i / 2] as int % 16 < 16);
    }
    assert forall|i: int| 0 <= i < bytes.len() implies #[trigger] hex_bytes(text)[i]
        == bytes[i] by {
        assert(text[2 * i] == hex_digit(bytes[i] as int / 16));
        assert(text[2 * i + 1] == hex_digit(bytes[i] as int % 16));
    }
    assert(hex_bytes(text) =~= bytes);
}

/// An event that is signed with one of the keys, is JSON and says its kind is not refused.
pub proof fn signed_events_are_accepted(
    psks: Seq<GithubPsk>,
    k: int,
    body: Seq<u8>,
    signature: &str,
    kind: &str,
)
    requires
        0 <= k < psks.len(),
        json_read(body) is Some,
        signature@ == "sha256="@ + hex_text(
            hmac_sha256_of(vstd::utf8::encode_utf8(psks[k].key@), body),
        ),
    ensures
        readable_signature(signature@),
        signed(psks, body, signature@),
        !refused(psks, body, Some(signature), Some(kind)),
{
    let mac = hmac_sha256_of(vstd::utf8::encode_utf8(psks[k].key@), body);
    reveal_strlit("sha256=");
    hex_reads_back(mac);
    let digits = hex_text(mac);
    assert(vstd::utf8::is_ascii_chars(signature@)) by {
        assert forall|i: int| 0 <= i < signature@.len() implies 0 <= (
        #[trigger] signature@[i] as u32) < 128 by {
            if i >= 7 {
                assert(is_hex_digit(digits[i - 7]));
                assert(signature@[i] == digits[i - 7]);
            }
        }
    }
    ascii_byte_suffix(signature@, 7);
    assert(signature@.skip(7) =~= digits);
    assert(signs(psks[k].key@, body, signature@));
}

/// How far the processing of a push has come.
pub enum PushStage {
    FindingCommit,
    FindingRemote,
    FindingPreference { remote_id: u64, repo_id: u64 },
    MakingCommit { remote_id: u64, repo_id: u64, preference: Option<String> },
    MakingJob { repo_id: u64 },
    MakingRun { repo_id: u64, job_id: u64 },
    Over,
}

/// What the database said.
pub enum PushAnswer {
    /// The id of the commit, where it is known.
    Commit(Option<u64>),
    /// The id of the remote and that of its repository, where the remote is known.
    Remote(Option<(u64, u64)>),
    /// Where the repository's jobs are run unless something else is said.
    Preference(Option<String>),
    /// The id of the commit that was made.
    CommitMade(u64),
    /// The id of the job that was made.
    JobMade(u64),
    /// The run was made.
    RunMade,
}

/// What is to be done next about a push.
pub enum PushStep {
    /// The statement is run, and what it gives is the next answer.
    Run(Statement),
    /// The notifiers of the repository tell that the job waits, and status 200 is answered.
    Notify { repo_id: u64, job_id: u64 },
    /// The status is answered.
    Answer(u16),
    /// The pusher has no mail address: there is no answer.
    NoEmail,
    /// Something else was asked: nothing is done.
    Unexpected,
}

/// A push that is processed.
pub struct PushWork {
    pub sha: String,
    pub repo_name: String,
    pub pusher_email: Option<String>,
    pub stage: PushStage,
}

/// The mail address of a pusher.
pub open spec fn email_of(pusher: Map<Seq<char>, JsonTree>) -> Option<Seq<char>> {
    if pusher.contains_key("email"@) {
        match pusher["email"@] {
            JsonTree::Text(email) => Some(email),
            _ => None,
        }
    } else {
        None
    }
}

/// Where git fetches the pushed repository from.
pub open spec fn pushed_git_url(repo_name: Seq<char>) -> Seq<char> {
    "https://www.github.com/"@ + repo_name + ".git"@
}

/// A push to a repository of GitHub that was registered is looked for under the address that it was
/// registered with.
pub proof fn registered_remotes_are_found(repo_name: Seq<char>)
    ensures
        pushed_git_url(repo_name) == remote_git_url_of(repo_name, "github"@),
{
}

/// The processing of a push begins: nothing is known yet but what the event says, and the pushed
/// commit is looked for.
pub open spec fn begins_push(
    tip: String,
    repo_name: String,
    pusher: Map<Seq<char>, JsonTree>,
    work: PushWork,
    statement: Statement,
) -> bool {
    &&& work.sha == tip
    &&& work.repo_name == repo_name
    &&& match work.pusher_email {
        Some(email) => email_of(pusher) == Some(email@),
        None => email_of(pusher) is None,
    }
    &&& work.stage is FindingCommit
    &&& statement.asks(COMMIT_TO_ID@, seq![Bound::Text(tip@)])
}

/// What a push is processed with is what its event says: the pushed commit, which is looked for by
/// its hash, the name of its repository, and the mail address of its pusher where that is a text.
pub proof fn pushes_begin_with_their_event(
    tip: String,
    repo_name: String,
    pusher: Map<Seq<char>, JsonTree>,
    work: PushWork,
    statement: Statement,
)
    requires
        begins_push(tip, repo_name, pusher, work, statement),
    ensures
        work.sha@ == tip@,
        work.repo_name@ == repo_name@,
        work.pusher_email matches Some(email) ==> pusher.contains_pair(
            "email"@,
            JsonTree::Text(email@),
        ),
        work.pusher_email is None ==> !(pusher.contains_key("email"@) && pusher["email"@] is Text),
        statement.sql@ == "select id from commits where sha=?1;"@,
        statement.params@.len() == 1,
        statement.params@[0]@ == Bound::Text(tip@),
{
    let bounds = Seq::new(statement.params@.len(), |i: int| statement.params@[i]@);
    assert(bounds.len() == 1 && bounds[0] == Bound::Text(tip@));
}

impl PushWork {
    /// The processing of a push, and its first step: to look for the commit.
    pub fn new<'a>(event: GithubEvent<'a>) -> (r: Option<(PushWork, Statement)>)
        ensures
            match event {
                GithubEvent::Push { tip, repo_name, head_commit, pusher } => {
                    &&& r matches Some((work, statement))
                    &&& begins_push(tip, repo_name, member_trees(pusher@), work, statement)
                },
                GithubEvent::Other {} => r is None,
            },
    {
        match event {
            GithubEvent::Push { tip, repo_name, head_commit: _, pusher } => {
                let pusher_email: Option<String> = match member(pusher, "email") {
                    Some(Json::Text(email)) => Some(email.clone()),
                    _ => None,
                };
                let statement = Statement::new(COMMIT_TO_ID, vec![Param::Text(tip.clone())]);
                Some(
                    (
                        PushWork {
                            sha: tip,
                            repo_name,
                            pusher_email,
                            stage: PushStage::FindingCommit,
                        },
                        statement,
                    ),
                )
            },
            GithubEvent::Other {} => None,
        }
    }
}

/// A step from one stage to the next, by what the database said at the time `now`. A commit that is
/// known is not built again; a push to a repository without a remote is not found; of every other
/// push a commit, a job and a run are made, in this order, and then the notifiers tell of the job.
pub open spec fn push_moves(
    before: PushWork,
    answer: PushAnswer,
    now: u64,
    after: PushStage,
    step: PushStep,
) -> bool {
    match (before.stage, answer) {
        (PushStage::FindingCommit, PushAnswer::Commit(Some(_))) => {
            &&& after is Over
            &&& step == PushStep::Answer(200)
        },
        (PushStage::FindingCommit, PushAnswer::Commit(None)) => {
            &&& after is FindingRemote
            &&& step matches PushStep::Run(statement)
            &&& statement.asks(
                "select id, repo_id from remotes where remote_git_url=?1;"@,
                seq![Bound::Text(pushed_git_url(before.repo_name@))],
            )
        },
        (PushStage::FindingRemote, PushAnswer::Remote(None)) => {
            &&& after is Over
            &&& step == PushStep::Answer(404)
        },
        (PushStage::FindingRemote, PushAnswer::Remote(Some((remote_id, repo_id)))) => {
            &&& after == (PushStage::FindingPreference { remote_id, repo_id })
            &&& step matches PushStep::Run(statement)
            &&& statement.asks(
                "select default_run_preference from repos where id=?1;"@,
                seq![Bound::Unsigned(repo_id)],
            )
        },
        (
            PushStage::FindingPreference { remote_id, repo_id },
            PushAnswer::Preference(preference),
        ) => if before.pusher_email is None {
            &&& after is Over
            &&& step is NoEmail
        } else {
            &&& after == (PushStage::MakingCommit { remote_id, repo_id, preference })
            &&& step matches PushStep::Run(statement)
            &&& statement.asks(
                "insert into commits (sha) values (?1)"@,
                seq![Bound::Text(before.sha@)],
            )
        },
        (
            PushStage::MakingCommit { remote_id, repo_id, preference },
            PushAnswer::CommitMade(commit_id),
        ) => {
            &&& after == (PushStage::MakingJob { repo_id })
            &&& step matches PushStep::Run(statement)
            &&& statement.asks(
                "insert into jobs (remote_id, commit_id, created_time, source, run_preferences) values (?1, ?2, ?3, ?4, ?5);"@,
                seq![
                    Bound::Unsigned(remote_id),
                    Bound::Unsigned(commit_id),
                    Bound::Unsigned(now),
                    text_bound(before.pusher_email),
                    text_bound(preference),
                ],
            )
        },
        (PushStage::MakingJob { repo_id }, PushAnswer::JobMade(job_id)) => {
            &&& after == (PushStage::MakingRun { repo_id, job_id })
            &&& step matches PushStep::Run(statement)
            &&& statement.asks(
                "insert into runs (job_id, state, created_time, host_preference) values (?1, ?2, ?3, ?4);"@,
                seq![
                    Bound::Unsigned(job_id),
                    Bound::Unsigned(0),
                    Bound::Unsigned(now),
                    Bound::Null,
                ],
            )
        },
        (PushStage::MakingRun { repo_id, job_id }, PushAnswer::RunMade) => {
            &&& after is Over
            &&& step == (PushStep::Notify { repo_id, job_id })
        },
        _ => {
            &&& after == before.stage
            &&& step is Unexpected
        },
    }
}

/// A text that may be absent, as a bound value.
pub open spec fn text_bound(s: Option<String>) -> Bound {
    match s {
        Some(s) => Bound::Text(s@),
        None => Bound::Null,
    }
}

/// How many stages lie behind a push.
pub open spec fn stage_rank(stage: PushStage) -> int {
    match stage {
        PushStage::FindingCommit => 0,
        PushStage::FindingRemote => 1,
        PushStage::FindingPreference { .. } => 2,
        PushStage::MakingCommit { .. } => 3,
        PushStage::MakingJob { .. } => 4,
        PushStage::MakingRun { .. } => 5,
        PushStage::Over => 6,
    }
}

/// No stage comes twice, so a push makes at most one commit, one job and one run; and after it is
/// over nothing is done any more.
pub proof fn pushes_advance(
    before: PushWork,
    answer: PushAnswer,
    now: u64,
    after: PushStage,
    step: PushStep,
)
    requires
        push_moves(before, answer, now, after, step),
    ensures
        step is Unexpected <==> after == before.stage,
        step !is Unexpected ==> stage_rank(before.stage) < stage_rank(after),
        before.stage is Over ==> step is Unexpected,
        step is Run ==> after !is Over,
        step is Answer || step is Notify || step is NoEmail ==> after is Over,
{
}

impl PushWork {
    /// The next step, by what the database said at the time `now`.
    pub fn next(&mut self, ctx: &DbCtx, answer: PushAnswer, now: u64) -> (r: PushStep)
        ensures
            push_moves(*old(self), answer, now, final(self).stage, r),
            final(self).sha == old(self).sha,
            final(self).repo_name == old(self).repo_name,
            final(self).pusher_email == old(self).pusher_email,
    {
        match (&self.stage, answer) {
            (PushStage::FindingCommit, PushAnswer::Commit(Some(_))) => {
                self.stage = PushStage::Over;
                PushStep::Answer(200)
            },
            (PushStage::FindingCommit, PushAnswer::Commit(None)) => {
                let remote_url = "https://www.github.com/".to_owned().concat(
                    self.repo_name.as_str(),
                ).concat(".git");
                self.stage = PushStage::FindingRemote;
                PushStep::Run(
                    Statement::new(
                        "select id, repo_id from remotes where remote_git_url=?1;",
                        vec![Param::Text(remote_url)],
                    ),
                )
            },
            (PushStage::FindingRemote, PushAnswer::Remote(None)) => {
                self.stage = PushStage::Over;
                PushStep::Answer(404)
            },
            (PushStage::FindingRemote, PushAnswer::Remote(Some((remote_id, repo_id)))) => {
                self.stage = PushStage::FindingPreference { remote_id, repo_id };
                PushStep::Run(
                    Statement::new(
                        "select default_run_preference from repos where id=?1;",
                        vec![Param::Unsigned(repo_id)],
                    ),
                )
            },
            (
                PushStage::FindingPreference { remote_id, repo_id },
                PushAnswer::Preference(preference),
            ) => {
                if self.pusher_email.is_none() {
                    self.stage = PushStage::Over;
                    PushStep::NoEmail
                } else {
                    let remote_id: u64 = *remote_id;
                    let repo_id: u64 = *repo_id;
                    self.stage = PushStage::MakingCommit { remote_id, repo_id, preference };
                    PushStep::Run(ctx.new_commit(self.sha.as_str()))
                }
            },
            (
                PushStage::MakingCommit { remote_id, repo_id, preference },
                PushAnswer::CommitMade(commit_id),
            ) => {
                let repo_id: u64 = *repo_id;
                let pusher: Option<&str> = match &self.pusher_email {
                    Some(email) => Some(email.as_str()),
                    None => None,
                };
                let preference: Option<&str> = match preference {
                    Some(preference) => Some(preference.as_str()),
                    None => None,
                };
                let statement = ctx.new_job(*remote_id, commit_id, now, pusher, preference);
                self.stage = PushStage::MakingJob { repo_id };
                PushStep::Run(statement)
            },
            (PushStage::MakingJob { repo_id }, PushAnswer::JobMade(job_id)) => {
                let repo_id: u64 = *repo_id;
                self.stage = PushStage::MakingRun { repo_id, job_id };
                PushStep::Run(ctx.new_run(job_id, now, None))
            },
            (PushStage::MakingRun { repo_id, job_id }, PushAnswer::RunMade) => {
                let repo_id: u64 = *repo_id;
                let job_id: u64 = *job_id;
                self.stage = PushStage::Over;
                PushStep::Notify { repo_id, job_id }
            },
            _ => PushStep::Unexpected,
        }
    }
}

/// A push that is processed from its beginning: `works[i]` is what is known of it before answer `i`,
/// which comes at the time `times[i]`, and `steps[i]` is what is done then. Every answer is one to
/// what was asked.
pub open spec fn push_runs(
    works: Seq<PushWork>,
    answers: Seq<PushAnswer>,
    times: Seq<u64>,
    steps: Seq<PushStep>,
) -> bool {
    &&& works.len() == answers.len() + 1
    &&& times.len() == answers.len()
    &&& steps.len() == answers.len()
    &&& works[0].stage is FindingCommit
    &&& forall|i: int|
        0 <= i < steps.len() ==> {
            &&& push_moves(works[i], answers[i], times[i], works[i + 1].stage, #[trigger] steps[i])
            &&& steps[i] !is Unexpected
            &&& works[i + 1].sha == works[i].sha
            &&& works[i + 1].repo_name == works[i].repo_name
            &&& works[i + 1].pusher_email == works[i].pusher_email
        }
}

proof fn push_goes_on(
    works: Seq<PushWork>,
    answers: Seq<PushAnswer>,
    times: Seq<u64>,
    steps: Seq<PushStep>,
    i: int,
)
    requires
        push_runs(works, answers, times, steps),
    ensures
        0 <= i < steps.len() ==> {
            &&& push_moves(works[i], answers[i], times[i], works[i + 1].stage, steps[i])
            &&& steps[i] !is Unexpected
            &&& works[i + 1].sha == works[i].sha
            &&& works[i + 1].repo_name == works[i].repo_name
            &&& works[i + 1].pusher_email == works[i].pusher_email
        },
{
}

/// A push whose job is told of had six answers: its commit was not known, its remote was, and then
/// a commit, a job and a run were made. So a push to an unknown remote, one of a known commit, and
/// one of a pusher without a mail address never come so far.
pub proof fn told_pushes_were_made(
    works: Seq<PushWork>,
    answers: Seq<PushAnswer>,
    times: Seq<u64>,
    steps: Seq<PushStep>,
)
    requires
        push_runs(works, answers, times, steps),
        steps.len() > 0,
        steps.last() is Notify,
    ensures
        steps.len() == 6,
        answers[0] == PushAnswer::Commit(None),
        answers[1] matches PushAnswer::Remote(Some(_)),
        answers[2] is Preference,
        answers[3] is CommitMade,
        answers[4] is JobMade,
        answers[5] is RunMade,
        works[0].pusher_email is Some,
{
    push_goes_on(works, answers, times, steps, 0);
    push_goes_on(works, answers, times, steps, 1);
    push_goes_on(works, answers, times, steps, 2);
    push_goes_on(works, answers, times, steps, 3);
    push_goes_on(works, answers, times, steps, 4);
    push_goes_on(works, answers, times, steps, 5);
    push_goes_on(works, answers, times, steps, 6);
}

/// What is made of a push: the remote is looked up by the address from which git fetches the pushed
/// repository, a commit is made of the pushed hash, a job of that commit for that very remote, with
/// the pusher as its source and the repository's preference, and a run of that job that waits for
/// any host; and then the notifiers of that remote's repository tell of that job.
pub proof fn pushes_are_built(
    works: Seq<PushWork>,
    answers: Seq<PushAnswer>,
    times: Seq<u64>,
    steps: Seq<PushStep>,
    remote_id: u64,
    repo_id: u64,
    preference: Option<String>,
    commit_id: u64,
    job_id: u64,
)
    requires
        push_runs(works, answers, times, steps),
        answers == seq![
            PushAnswer::Commit(None),
            PushAnswer::Remote(Some((remote_id, repo_id))),
            PushAnswer::Preference(preference),
            PushAnswer::CommitMade(commit_id),
            PushAnswer::JobMade(job_id),
            PushAnswer::RunMade,
        ],
        works[0].pusher_email is Some,
    ensures
        steps[0] matches PushStep::Run(find) && find.asks(
            "select id, repo_id from remotes where remote_git_url=?1;"@,
            seq![Bound::Text("https://www.github.com/"@ + works[0].repo_name@ + ".git"@)],
        ),
        steps[1] matches PushStep::Run(find) && find.asks(
            "select default_run_preference from repos where id=?1;"@,
            seq![Bound::Unsigned(repo_id)],
        ),
        steps[2] matches PushStep::Run(commit) && commit.asks(
            "insert into commits (sha) values (?1)"@,
            seq![Bound::Text(works[0].sha@)],
        ),
        steps[3] matches PushStep::Run(job) && makes_job(
            job,
            remote_id,
            commit_id,
            times[3],
            Bound::Text(works[0].pusher_email->0@),
            (match preference {
                Some(preference) => Bound::Text(preference@),
                None => Bound::Null,
            }),
        ),
        steps[4] matches PushStep::Run(run) && makes_run(run, job_id, times[4], Bound::Null),
        steps[5] == (PushStep::Notify { repo_id, job_id }),
{
    push_goes_on(works, answers, times, steps, 0);
    push_goes_on(works, answers, times, steps, 1);
    push_goes_on(works, answers, times, steps, 2);
    push_goes_on(works, answers, times, steps, 3);
    push_goes_on(works, answers, times, steps, 4);
    push_goes_on(works, answers, times, steps, 5);
}

/// The job that a push makes is read back as one of the remote that the lookup of the pushed
/// repository gave and of the commit that was made of the push: `row` is the row that the statement
/// puts into the table, and `cells` what a lookup of the job gives of it.
pub proof fn pushed_jobs_are_read_back(
    works: Seq<PushWork>,
    answers: Seq<PushAnswer>,
    times: Seq<u64>,
    steps: Seq<PushStep>,
    row: Map<Seq<char>, Cell>,
    cells: Seq<Cell>,
)
    requires
        push_runs(works, answers, times, steps),
        steps.len() >= 4,
        steps[3] matches PushStep::Run(statement) && puts(statement, new_job_columns(), row),
        shows(row, job_columns(), cells),
        u64_at(cells, 0) is Some,
    ensures
        answers[1] matches PushAnswer::Remote(Some((remote_id, _))) && (answers[3]
            matches PushAnswer::CommitMade(commit_id) && (job_in(cells) matches Some(job) && {
            &&& job.remote_id == remote_id
            &&& job.commit_id == commit_id
            &&& job.created_time == times[3]
            &&& job.source matches Some(source) && source@ == works[0].pusher_email->0@
            &&& (answers[2] matches PushAnswer::Preference(preference) && match preference {
                Some(preference) => job.run_preferences matches Some(kept) && kept@ == preference@,
                None => job.run_preferences is None,
            })
        })),
{
    push_goes_on(works, answers, times, steps, 0);
    push_goes_on(works, answers, times, steps, 1);
    push_goes_on(works, answers, times, steps, 2);
    push_goes_on(works, answers, times, steps, 3);
    let (remote_id, _repo_id): (u64, u64) = answers[1]->Remote_0->0;
    let commit_id = answers[3]->CommitMade_0;
    let source = Bound::Text(works[0].pusher_email->0@);
    let preference = match answers[2]->Preference_0 {
        Some(preference) => Bound::Text(preference@),
        None => Bound::Null,
    };
    jobs_are_read_back(
        steps[3]->Run_0,
        remote_id,
        commit_id,
        times[3],
        source,
        preference,
        row,
        cells,
    );
}

/// How a push ends that is not built: with status 200 exactly if its commit is known, with status
/// 404 exactly if its remote is not, and without an answer exactly if the remote is known and its
/// pusher has no mail address; and then nothing was made of it.
pub proof fn other_pushes_make_nothing(
    works: Seq<PushWork>,
    answers: Seq<PushAnswer>,
    times: Seq<u64>,
    steps: Seq<PushStep>,
)
    requires
        push_runs(works, answers, times, steps),
        steps.len() > 0,
        steps.last() !is Run,
        steps.last() !is Notify,
    ensures
        steps.last() matches PushStep::Answer(status) ==> status == 200 || status == 404,
        steps.last() == PushStep::Answer(200) <==> answers[0] matches PushAnswer::Commit(Some(_)),
        steps.last() == PushStep::Answer(404) <==> answers.len() == 2 && answers[1]
            == PushAnswer::Remote(None),
        steps.last() is NoEmail <==> answers.len() == 3 && works[0].pusher_email is None,
        forall|i: int|
            0 <= i < steps.len() - 1 ==> (#[trigger] steps[i] matches PushStep::Run(statement)
                && "select "@.is_prefix_of(statement.sql@)),
{
    reveal_strlit("select ");
    reveal_strlit("select id, repo_id from remotes where remote_git_url=?1;");
    reveal_strlit("select default_run_preference from repos where id=?1;");
    assert("select "@ =~= "select id, repo_id from remotes where remote_git_url=?1;"@.take(7));
    assert("select "@ =~= "select default_run_preference from repos where id=?1;"@.take(7));
    push_goes_on(works, answers, times, steps, 0);
    push_goes_on(works, answers, times, steps, 1);
    push_goes_on(works, answers, times, steps, 2);
    push_goes_on(works, answers, times, steps, 3);
    push_goes_on(works, answers, times, steps, 4);
    push_goes_on(works, answers, times, steps, 5);
    push_goes_on(works, answers, times, steps, 6);
}

/// A push never gets stuck: at every stage each answer to what was asked leads on.
pub proof fn pushes_go_on(
    before: PushWork,
    answer: PushAnswer,
    now: u64,
    after: PushStage,
    step: PushStep,
)
    requires
        push_moves(before, answer, now, after, step),
    ensures
        before.stage is FindingCommit && answer is Commit ==> step !is Unexpected,
        before.stage is FindingRemote && answer is Remote ==> step !is Unexpected,
        before.stage is FindingPreference && answer is Preference ==> step !is Unexpected,
        before.stage is MakingCommit && answer is CommitMade ==> step is Run,
        before.stage is MakingJob && answer is JobMade ==> step is Run,
        before.stage is MakingRun && answer is RunMade ==> step is Notify,
{
}

} // verus!
