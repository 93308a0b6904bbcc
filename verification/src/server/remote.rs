//! One remote: its handle as the dispatcher sees it, and the worker that
//! owns its backend client.

use crate::config::S3Target;
use crate::server::dto::{
    AbortMultipartUploadInput, CompleteMultipartUploadInput, CreateMultipartUploadInput,
    DeleteObjectInput, DeleteObjectsInput, GetObjectInput, HeadObjectInput, PutObjectInput,
    UploadPartInput,
};
use crate::server::error::ServiceFailure;
use vstd::prelude::*;

verus! {

/// How many messages a remote's mailbox holds before senders wait.
pub const MAILBOX_CAPACITY: usize = 32;

/// What the dispatcher knows of a remote. The mailbox that reaches the
/// remote's worker is kept by the program, in the same position as this
/// entry.
#[derive(Debug, Clone)]
pub struct S3Remote {
    pub name: String,
    pub priority: u32,
    pub read_request: bool,
}

/// Whether a remote was reachable when it was last called.
#[derive(Debug, Clone, Copy, PartialEq, Eq, Structural)]
pub enum Health {
    /// Not called yet.
    Unknown,
    Up,
    Down,
}

/// What a call changed about a remote's health; worth one log line when it
/// is not `Unchanged`.
#[derive(Debug, Clone, Copy, PartialEq, Eq, Structural)]
pub enum HealthChange {
    Unchanged,
    WentUp,
    WentDown,
}

/// How a backend call failed, as the backend client tells it.
#[derive(Debug, Clone)]
pub enum SdkFailure {
    /// The request could not be built.
    ConstructionFailure,
    /// No response within the time allowed.
    TimeoutError,
    /// The request could not be sent, or the connection broke.
    DispatchFailure,
    /// A response came that could not be read.
    ResponseError,
    /// The remote answered with an error of its own.
    ServiceError(ServiceFailure),
}

/// The outcome of a backend call, settled: the reply for the dispatcher and
/// what the call changed about the remote's health.
#[derive(Debug)]
pub struct Settled<T> {
    /// `None`: the remote is presumed down, nothing it said can be
    /// trusted. `Some(Err(..))`: it replied with an error and is up.
    pub reply: Option<Result<T, ServiceFailure>>,
    pub change: HealthChange,
}

/// A message in a remote's mailbox. `B` is the body that an upload
/// carries.
#[derive(Debug)]
#[allow(inconsistent_fields)]
pub enum RemoteMessage<B> {
    HealthCheck,
    ListObjects {
        prefix: Option<String>,
        delimiter: Option<String>,
        max_keys: Option<i32>,
        start_after: Option<String>,
    },
    HeadObject { input: HeadObjectInput },
    GetObject { input: GetObjectInput },
    PutObject { input: PutObjectInput<B> },
    DeleteObject { input: DeleteObjectInput },
    DeleteObjects { input: DeleteObjectsInput },
    CreateMultiPartUpload { input: CreateMultipartUploadInput },
    CompleteMultiPartUpload { input: CompleteMultipartUploadInput },
    UploadPart { input: UploadPartInput<B> },
    AbortMultiPartUpload { input: AbortMultipartUploadInput },
    Shutdown,
}

/// The one call that a worker makes on its backend client for a message.
#[derive(Debug)]
#[allow(inconsistent_fields)]
pub enum BackendCall<B> {
    HeadBucket { bucket: String },
    ListObjectsV2 {
        bucket: String,
        prefix: Option<String>,
        start_after: Option<String>,
        delimiter: Option<String>,
        max_keys: Option<i32>,
    },
    HeadObject { input: HeadObjectInput },
    GetObject { input: GetObjectInput },
    PutObject { input: PutObjectInput<B> },
    DeleteObject { input: DeleteObjectInput },
    DeleteObjects { input: DeleteObjectsInput },
    CreateMultipartUpload { input: CreateMultipartUploadInput },
    CompleteMultipartUpload { input: CompleteMultipartUploadInput },
    UploadPart { input: UploadPartInput<B> },
    AbortMultipartUpload { input: AbortMultipartUploadInput },
}

/// What a worker does with a message: one backend call, or stop.
#[derive(Debug)]
pub enum ActorStep<B> {
    Call(BackendCall<B>),
    Stop,
}

/// How the backend client of a remote is set up.
#[derive(Debug, Clone)]
pub struct ClientSettings {
    pub endpoint_url: String,
    pub access_key: String,
    pub secret_key: String,
    /// The name under which the credentials are registered.
    pub provider_name: String,
    pub region: String,
    pub force_path_style: bool,
}

/// The worker of one remote: its target and the health it last saw.
#[derive(Debug)]
pub struct RemoteActor {
    target: S3Target,
    health: Health,
}

/// The reply that the dispatcher gets for the outcome of a backend call:
/// the output, the remote's own error, or nothing where the remote gave no
/// usable answer.
pub open spec fn reply_of<T>(query: Result<T, SdkFailure>) -> Option<Result<T, ServiceFailure>> {
    match query {
        Ok(output) => Some(Ok(output)),
        Err(SdkFailure::ServiceError(sdk)) => Some(Err(sdk)),
        Err(_) => None,
    }
}

/// The health that the outcome of a backend call shows: up where the
/// remote answered, also with an error; down where it did not.
pub open spec fn health_shown<T>(query: Result<T, SdkFailure>) -> Health {
    match query {
        Ok(_) => Health::Up,
        Err(SdkFailure::ServiceError(_)) => Health::Up,
        Err(_) => Health::Down,
    }
}

/// The change from `before` to `after`.
pub open spec fn change_between(before: Health, after: Health) -> HealthChange {
    if before == after {
        HealthChange::Unchanged
    } else if after == Health::Up {
        HealthChange::WentUp
    } else {
        HealthChange::WentDown
    }
}

/// `step` is what a worker for the bucket `bucket` does with `message`:
/// the matching call, in that bucket and with every other field as the
/// message has it; a health check looks at the bucket itself; a shutdown
/// stops the worker.
pub open spec fn answers<B>(bucket: Seq<char>, message: RemoteMessage<B>, step: ActorStep<B>) -> bool {
    match message {
        RemoteMessage::HealthCheck => step matches ActorStep::Call(
            BackendCall::HeadBucket { bucket: b },
        ) && b@ == bucket,
        RemoteMessage::ListObjects { prefix, delimiter, max_keys, start_after } => {
            &&& step matches ActorStep::Call(
                BackendCall::ListObjectsV2 {
                    bucket: b,
                    prefix: p,
                    start_after: s,
                    delimiter: d,
                    max_keys: m,
                },
            )
            &&& b@ == bucket
            &&& p == prefix
            &&& s == start_after
            &&& d == delimiter
            &&& m == max_keys
        },
        RemoteMessage::HeadObject { input } => step matches ActorStep::Call(
            BackendCall::HeadObject { input: sent },
        ) && input.goes_as(bucket, sent),
        RemoteMessage::GetObject { input } => step matches ActorStep::Call(
            BackendCall::GetObject { input: sent },
        ) && input.goes_as(bucket, sent),
        RemoteMessage::PutObject { input } => step matches ActorStep::Call(
            BackendCall::PutObject { input: sent },
        ) && input.goes_as(bucket, sent),
        RemoteMessage::DeleteObject { input } => step matches ActorStep::Call(
            BackendCall::DeleteObject { input: sent },
        ) && input.goes_as(bucket, sent),
        RemoteMessage::DeleteObjects { input } => step matches ActorStep::Call(
            BackendCall::DeleteObjects { input: sent },
        ) && input.goes_as(bucket, sent),
        RemoteMessage::CreateMultiPartUpload { input } => step matches ActorStep::Call(
            BackendCall::CreateMultipartUpload { input: sent },
        ) && input.goes_as(bucket, sent),
        RemoteMessage::CompleteMultiPartUpload { input } => step matches ActorStep::Call(
            BackendCall::CompleteMultipartUpload { input: sent },
        ) && input.goes_as(bucket, sent),
        RemoteMessage::UploadPart { input } => step matches ActorStep::Call(
            BackendCall::UploadPart { input: sent },
        ) && input.goes_as(bucket, sent),
        RemoteMessage::AbortMultiPartUpload { input } => step matches ActorStep::Call(
            BackendCall::AbortMultipartUpload { input: sent },
        ) && input.goes_as(bucket, sent),
        RemoteMessage::Shutdown => step is Stop,
    }
}

/// Settles the outcome of a backend call: hands on what the remote said and
/// records whether it was reachable. An error that the remote itself sent
/// leaves it up; only a call without a usable answer marks it down.
pub fn map_health<T>(self_health: &mut Health, query: Result<T, SdkFailure>) -> (settled: Settled<T>)
    ensures
        settled.reply == reply_of(query),
        *final(self_health) == health_shown(query),
        settled.change == change_between(*old(self_health), health_shown(query)),
{
    let (reply, health) = match query {
        Ok(output) => (Some(Ok(output)), Health::Up),
        Err(SdkFailure::ServiceError(sdk)) => (Some(Err(sdk)), Health::Up),
        Err(_) => (None, Health::Down),
    };
    let change = if *self_health == health {
        HealthChange::Unchanged
    } else if health == Health::Up {
        HealthChange::WentUp
    } else {
        HealthChange::WentDown
    };
    *self_health = health;
    Settled { reply, change }
}

/// A change of health is reported once. After a call that showed the
/// remote up or down, a next call that shows the same reports no change,
/// and one that shows the opposite reports it.
pub proof fn lemma_health_change_is_reported_once<T>(
    before: Health,
    first: Result<T, SdkFailure>,
    second: Result<T, SdkFailure>,
)
    ensures
        change_between(health_shown(first), health_shown(second)) == HealthChange::Unchanged
            <==> health_shown(first) == health_shown(second),
        change_between(before, health_shown(first)) == HealthChange::Unchanged <==> before
            == health_shown(first),
        reply_of(first) is None <==> health_shown(first) == Health::Down,
        health_shown(first) != Health::Unknown,
{
}

/// The answer to a health check: the health that the call just settled
/// shows. The remote is healthy where it answered at all, also with an
/// error of its own; it is not where it gave no usable answer.
pub fn health_check_reply<T>(reply: &Option<Result<T, ServiceFailure>>) -> (healthy: bool)
    ensures
        healthy == (*reply is Some),
{
    match reply {
        Some(_) => true,
        None => false,
    }
}

/// The answer to a health check is the health after the call: it says
/// healthy exactly when the call left the remote up.
pub proof fn lemma_health_check_reports_the_health<T>(query: Result<T, SdkFailure>)
    ensures
        (reply_of(query) is Some) <==> health_shown(query) == Health::Up,
{
}

impl RemoteActor {
    /// The remote that this worker serves.
    pub closed spec fn target(&self) -> S3Target {
        self.target
    }

    /// The health that this worker last saw.
    pub closed spec fn health(&self) -> Health {
        self.health
    }

    /// The health that this worker last saw.
    pub fn current_health(&self) -> (health: Health)
        ensures
            health == self.health(),
    {
        self.health
    }

    /// The settings of the backend client: the target's endpoint and keys,
    /// no region, and the bucket in the path rather than in the host name.
    pub fn client_settings(&self) -> (settings: ClientSettings)
        ensures
            settings.endpoint_url == self.target().s3.endpoint,
            settings.access_key == self.target().s3.access_key,
            settings.secret_key == self.target().s3.secret_key,
            settings.provider_name@ == "loaded-from-s3reproxy-config"@,
            settings.region@ == ""@,
            settings.force_path_style,
    {
        ClientSettings {
            endpoint_url: self.target.s3.endpoint.clone(),
            access_key: self.target.s3.access_key.clone(),
            secret_key: self.target.s3.secret_key.clone(),
            provider_name: "loaded-from-s3reproxy-config".to_owned(),
            region: "".to_owned(),
            force_path_style: true,
        }
    }

    /// Takes the next message from the mailbox and says what to do for it:
    /// exactly one backend call in the remote's own bucket, or stop.
    pub fn receive<B>(&self, message: RemoteMessage<B>) -> (step: ActorStep<B>)
        ensures
            answers(self.target().s3.bucket@, message, step),
    {
        let bucket = &self.target.s3.bucket;
        match message {
            RemoteMessage::HealthCheck => ActorStep::Call(
                BackendCall::HeadBucket { bucket: bucket.clone() },
            ),
            RemoteMessage::ListObjects { prefix, delimiter, max_keys, start_after } => {
                ActorStep::Call(
                    BackendCall::ListObjectsV2 {
                        bucket: bucket.clone(),
                        prefix,
                        start_after,
                        delimiter,
                        max_keys,
                    },
                )
            },
            RemoteMessage::HeadObject { input } => ActorStep::Call(
                BackendCall::HeadObject { input: input.for_bucket(bucket) },
            ),
            RemoteMessage::GetObject { input } => ActorStep::Call(
                BackendCall::GetObject { input: input.for_bucket(bucket) },
            ),
            RemoteMessage::PutObject { input } => ActorStep::Call(
                BackendCall::PutObject { input: input.for_bucket(bucket) },
            ),
            RemoteMessage::DeleteObject { input } => ActorStep::Call(
                BackendCall::DeleteObject { input: input.for_bucket(bucket) },
            ),
            RemoteMessage::DeleteObjects { input } => ActorStep::Call(
                BackendCall::DeleteObjects { input: input.for_bucket(bucket) },
            ),
            RemoteMessage::CreateMultiPartUpload { input } => ActorStep::Call(
                BackendCall::CreateMultipartUpload { input: input.for_bucket(bucket) },
            ),
            RemoteMessage::CompleteMultiPartUpload { input } => ActorStep::Call(
                BackendCall::CompleteMultipartUpload { input: input.for_bucket(bucket) },
            ),
            RemoteMessage::UploadPart { input } => ActorStep::Call(
                BackendCall::UploadPart { input: input.for_bucket(bucket) },
            ),
            RemoteMessage::AbortMultiPartUpload { input } => ActorStep::Call(
                BackendCall::AbortMultipartUpload { input: input.for_bucket(bucket) },
            ),
            RemoteMessage::Shutdown => ActorStep::Stop,
        }
    }

    /// What the worker does when its mailbox is closed, every sender gone:
    /// no message can come any more, so it stops, as after a shutdown.
    pub fn mailbox_closed<B>(&self) -> (step: ActorStep<B>)
        ensures
            step is Stop,
    {
        ActorStep::Stop
    }

    /// Takes what the mailbox yielded: a message, with what `receive` says
    /// for it, or the news that the mailbox is closed.
    pub fn next_step<B>(&self, polled: Option<RemoteMessage<B>>) -> (step: ActorStep<B>)
        ensures
            match polled {
                Some(message) => answers(self.target().s3.bucket@, message, step),
                None => step is Stop,
            },
    {
        match polled {
            Some(message) => self.receive(message),
            None => self.mailbox_closed(),
        }
    }

    /// Settles the outcome of the call just made, against the health this
    /// worker last saw.
    pub fn settle<T>(&mut self, query: Result<T, SdkFailure>) -> (settled: Settled<T>)
        ensures
            final(self).target() == old(self).target(),
            settled.reply == reply_of(query),
            final(self).health() == health_shown(query),
            settled.change == change_between(old(self).health(), health_shown(query)),
    {
        map_health(&mut self.health, query)
    }
}

/// Sets up the worker for `target`: the handle for the dispatcher, and the
/// worker itself, which has not called its remote yet.
pub fn spawn_remote(target: S3Target) -> (spawned: (S3Remote, RemoteActor))
    ensures
        spawned.0.name == target.name,
        spawned.0.priority == target.priority,
        spawned.0.read_request == target.read_request,
        spawned.1.target() == target,
        spawned.1.health() == Health::Unknown,
{
    let remote = S3Remote {
        name: target.name.clone(),
        priority: target.priority,
        read_request: target.read_request,
    };
    (remote, RemoteActor { target, health: Health::Unknown })
}

} // verus!
