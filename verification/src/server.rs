//! How the web server listens, and how it hands out artifacts.

use crate::json::member;
use crate::json::Json;
use crate::json::JsonTree;
use crate::paths::path_joined;
use crate::paths::path_under;
use crate::sql::ArtifactRecord;
use crate::text::decimal;
use crate::text::decimal_text;
use vstd::prelude::*;

verus! {

/// How long to wait for more of an artifact that is still being written.
pub const ARTIFACT_POLL_MS: u64 = 250;

/// How a server listens.
pub enum Binding {
    Plain { address: String },
    Tls { address: String, cert_path: String, key_path: String },
}

/// Why a server cannot listen.
#[derive(Debug, Clone, Copy, PartialEq, Eq, Structural)]
pub enum BindError {
    NoAddress,
    InvalidAddress,
    HalfTls,
    InvalidConfig,
}

impl BindError {
    /// What is said of a server that cannot listen.
    pub open spec fn words(self) -> Seq<char> {
        match self {
            BindError::NoAddress => "no local address"@,
            BindError::InvalidAddress => "invalid local address"@,
            BindError::HalfTls => "invalid local tls config: only one of `cert_path` or `key_path` has been provided"@,
            BindError::InvalidConfig => "invalid server bind config"@,
        }
    }

    pub fn text(self) -> (r: &'static str)
        ensures
            r@ == self.words(),
    {
        match self {
            BindError::NoAddress => "no local address",
            BindError::InvalidAddress => "invalid local address",
            BindError::HalfTls => "invalid local tls config: only one of `cert_path` or `key_path` has been provided",
            BindError::InvalidConfig => "invalid server bind config",
        }
    }
}

/// How a server listens, in texts.
pub enum BindingTexts {
    Plain { address: Seq<char> },
    Tls { address: Seq<char>, cert_path: Seq<char>, key_path: Seq<char> },
}

impl View for Binding {
    type V = BindingTexts;

    open spec fn view(&self) -> BindingTexts {
        match self {
            Binding::Plain { address } => BindingTexts::Plain { address: address@ },
            Binding::Tls { address, cert_path, key_path } => BindingTexts::Tls {
                address: address@,
                cert_path: cert_path@,
                key_path: key_path@,
            },
        }
    }
}

/// How a server listens at an address, by its configuration: with TLS where that names both a
/// certificate and a key, and without where it names neither.
pub open spec fn binding_at(
    members: Map<Seq<char>, JsonTree>,
    address: Seq<char>,
) -> Result<BindingTexts, BindError> {
    if !members.contains_key("cert_path"@) && !members.contains_key("key_path"@) {
        Ok(BindingTexts::Plain { address })
    } else if members.contains_key("cert_path"@) && members.contains_key("key_path"@) {
        match (members["cert_path"@], members["key_path"@]) {
            (JsonTree::Text(cert_path), JsonTree::Text(key_path)) => Ok(
                BindingTexts::Tls { address, cert_path, key_path },
            ),
            _ => Err(BindError::HalfTls),
        }
    } else {
        Err(BindError::HalfTls)
    }
}

/// How a server listens, by its configuration.
pub open spec fn binding_of(conf: JsonTree) -> Result<BindingTexts, BindError> {
    match conf {
        JsonTree::Text(address) => Ok(BindingTexts::Plain { address }),
        JsonTree::Object(members) => if members.contains_key("address"@) {
            match members["address"@] {
                JsonTree::Text(address) => binding_at(members, address),
                _ => Err(BindError::InvalidAddress),
            }
        } else {
            Err(BindError::NoAddress)
        },
        _ => Err(BindError::InvalidConfig),
    }
}

/// How a server listens, by its configuration.
pub fn bind_server(conf: &Json) -> (r: Result<Binding, BindError>)
    ensures
        match r {
            Ok(binding) => binding_of(conf.tree()) == Ok::<BindingTexts, BindError>(binding@),
            Err(e) => binding_of(conf.tree()) == Err::<BindingTexts, BindError>(e),
        },
{
    match conf {
        Json::Text(address) => Ok(Binding::Plain { address: address.clone() }),
        Json::Object(members) => {
            let address: String = match member(members, "address") {
                Some(Json::Text(address)) => address.clone(),
                None => {
                    return Err(BindError::NoAddress);
                },
                Some(_) => {
                    return Err(BindError::InvalidAddress);
                },
            };
            match (member(members, "cert_path"), member(members, "key_path")) {
                (Some(Json::Text(cert_path)), Some(Json::Text(key_path))) => Ok(
                    Binding::Tls {
                        address,
                        cert_path: cert_path.clone(),
                        key_path: key_path.clone(),
                    },
                ),
                (None, None) => Ok(Binding::Plain { address }),
                _ => Err(BindError::HalfTls),
            }
        },
        _ => Err(BindError::InvalidConfig),
    }
}

/// The artifact is still being written: it was not completed, or not since it was created.
pub open spec fn live(artifact: ArtifactRecord) -> bool {
    match artifact.completed_time {
        Some(completed_time) => completed_time < artifact.created_time,
        None => true,
    }
}

/// How a request for an artifact is answered.
pub enum ArtifactReply {
    /// With status 404 and the given text.
    NotFound(&'static str),
    /// With status 200 and what the file at the path holds, as it is written.
    Stream(String),
    /// With status 200 and the given text.
    Done(&'static str),
}

/// The file of an artifact.
pub open spec fn artifact_file(jobs_path: Seq<char>, artifact: ArtifactRecord) -> Seq<char> {
    path_under(
        path_under(jobs_path, decimal(artifact.run_id as nat)),
        decimal(artifact.id as nat),
    )
}

/// How a request for an artifact is answered.
pub open spec fn replies_artifact(
    jobs_path: Seq<char>,
    artifact: Option<ArtifactRecord>,
    reply: ArtifactReply,
) -> bool {
    match artifact {
        Some(artifact) => if live(artifact) {
            reply matches ArtifactReply::Stream(path) && path@ == artifact_file(
                jobs_path,
                artifact,
            )
        } else {
            reply matches ArtifactReply::Done(text) && text@ == "all done"@
        },
        None => reply matches ArtifactReply::NotFound(text) && text@ == "no such artifact"@,
    }
}

/// An artifact is handed out exactly if it is known and was not completed since it was made, and
/// from its own file: one of the same run's directory, which is named by the run's number, under the
/// artifact's number.
pub proof fn artifacts_are_handed_out_while_written(
    jobs_path: Seq<char>,
    artifact: Option<ArtifactRecord>,
    reply: ArtifactReply,
)
    requires
        replies_artifact(jobs_path, artifact, reply),
    ensures
        reply is NotFound <==> artifact is None,
        reply is Stream <==> (artifact matches Some(found) && (found.completed_time is None
            || found.completed_time->0 < found.created_time)),
        reply is Done <==> (artifact matches Some(found) && (found.completed_time matches Some(
            completed,
        ) && found.created_time <= completed)),
        reply matches ArtifactReply::Stream(path) ==> path@ == path_under(
            path_under(jobs_path, decimal(artifact->0.run_id as nat)),
            decimal(artifact->0.id as nat),
        ),
{
}

/// How a request for an artifact is answered.
pub fn handle_get_artifact(jobs_path: &str, artifact: Option<&ArtifactRecord>) -> (r: ArtifactReply)
    ensures
        replies_artifact(
            jobs_path@,
            (match artifact {
                Some(artifact) => Some(*artifact),
                None => None,
            }),
            r,
        ),
{
    let artifact: &ArtifactRecord = match artifact {
        Some(artifact) => artifact,
        None => {
            return ArtifactReply::NotFound("no such artifact");
        },
    };
    let live_artifact: bool = match artifact.completed_time {
        Some(completed_time) => completed_time < artifact.created_time,
        None => true,
    };
    if live_artifact {
        let run = decimal_text(artifact.run_id);
        let id = decimal_text(artifact.id);
        let dir = path_joined(jobs_path, run.as_str());
        ArtifactReply::Stream(path_joined(dir.as_str(), id.as_str()))
    } else {
        ArtifactReply::Done("all done")
    }
}

/// What happened while an artifact was handed out.
#[derive(Debug, Clone, Copy, PartialEq, Eq, Structural)]
pub enum StreamEvent {
    /// The artifact was looked up, and was completed at the given time or is not.
    LookedUp(Option<u64>),
    /// All that is in its file was sent.
    Sent,
    /// Sending failed.
    SendFailed,
}

/// What is done next to hand out an artifact.
#[derive(Debug, Clone, Copy, PartialEq, Eq, Structural)]
pub enum StreamAction {
    /// What the file holds by now is sent on.
    Forward,
    /// After so many milliseconds the artifact is looked up.
    LookUpAfter(u64),
    /// All was sent.
    Close,
}

/// What follows while an artifact is handed out.
pub open spec fn stream_step(event: StreamEvent) -> StreamAction {
    match event {
        StreamEvent::LookedUp(Some(_)) => StreamAction::Close,
        StreamEvent::LookedUp(None) => StreamAction::Forward,
        StreamEvent::Sent => StreamAction::LookUpAfter(ARTIFACT_POLL_MS),
        StreamEvent::SendFailed => StreamAction::Forward,
    }
}

/// The handing out ends exactly when the artifact is found to be completed; until then what was not
/// sent is sent, and after all was sent the artifact is looked up again a quarter of a second later.
pub proof fn artifacts_are_handed_out_to_their_end(event: StreamEvent)
    ensures
        stream_step(event) == StreamAction::Close <==> (event matches StreamEvent::LookedUp(
            Some(_),
        )),
        stream_step(event) == StreamAction::LookUpAfter(250) <==> event == StreamEvent::Sent,
        stream_step(event) == StreamAction::Forward <==> event == StreamEvent::LookedUp(None)
            || event == StreamEvent::SendFailed,
{
}

/// What is done next to hand out an artifact: it is sent on and looked up in turn until it is
/// completed. A failure to send is tried again.
pub fn stream_next(event: StreamEvent) -> (r: StreamAction)
    ensures
        r == stream_step(event),
{
    match event {
        StreamEvent::LookedUp(Some(_)) => StreamAction::Close,
        StreamEvent::LookedUp(None) => StreamAction::Forward,
        StreamEvent::Sent => StreamAction::LookUpAfter(ARTIFACT_POLL_MS),
        StreamEvent::SendFailed => StreamAction::Forward,
    }
}

/// What every other request is answered with.
pub fn fallback_get() -> (r: (u16, &'static str))
    ensures
        r.0 == 200,
        r.1@ == "get resp"@,
{
    (200, "get resp")
}

/// A server listens without TLS exactly if its configuration is an address, or names one and neither
/// a certificate nor a key; with TLS exactly if it names all three, each as a text, and then with
/// those; and whatever is named is what is used.
pub proof fn servers_listen_as_configured(conf: JsonTree)
    ensures
        binding_of(conf) matches Ok(BindingTexts::Plain { address }) ==> match conf {
            JsonTree::Text(text) => address == text,
            JsonTree::Object(members) => {
                &&& members.contains_pair("address"@, JsonTree::Text(address))
                &&& !members.contains_key("cert_path"@)
                &&& !members.contains_key("key_path"@)
            },
            _ => false,
        },
        binding_of(conf) matches Ok(BindingTexts::Tls { address, cert_path, key_path }) ==> (conf
            matches JsonTree::Object(members) && {
            &&& members.contains_pair("address"@, JsonTree::Text(address))
            &&& members.contains_pair("cert_path"@, JsonTree::Text(cert_path))
            &&& members.contains_pair("key_path"@, JsonTree::Text(key_path))
        }),
        conf is Text ==> binding_of(conf) is Ok,
        conf matches JsonTree::Object(members) ==> (members.contains_key("address"@)
            && members["address"@] is Text ==> (binding_of(conf) is Ok <==> (
        !members.contains_key("cert_path"@) && !members.contains_key("key_path"@)
            || members.contains_key("cert_path"@) && members["cert_path"@] is Text
            && members.contains_key("key_path"@) && members["key_path"@] is Text))),
        binding_of(conf) == Err::<BindingTexts, BindError>(BindError::NoAddress) <==> (conf
            matches JsonTree::Object(members) && !members.contains_key("address"@)),
        binding_of(conf) == Err::<BindingTexts, BindError>(BindError::InvalidAddress) <==> (conf
            matches JsonTree::Object(members) && members.contains_key("address"@)
            && members["address"@] !is Text),
        binding_of(conf) == Err::<BindingTexts, BindError>(BindError::InvalidConfig) <==> conf
            !is Text && conf !is Object,
{
}

} // verus!
