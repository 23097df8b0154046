//! Bridge entry points: what each boundary-crossing operation decides.
//!
//! An entry point may ask the storage engine for one operation, and answers
//! the host with text: the bare success value, or an error envelope. The
//! engine and its records are not part of this crate, so an entry point that
//! needs them is a function from the stage that the call has reached to what
//! happens next. The glue around it reads the text arguments through the
//! codec, acts on each decision and comes back with the next stage, until the
//! decision is a reply.

use crate::envelope::{create_error_object, error_envelope};
use crate::greeting::{greeting_for, rust_greeting};
use crate::init::{init_step, InitGuard, InitStep};
use crate::records::{json_array, json_list};
use crate::service::{BindError, Launcher, ServiceConfig};
use crate::text::{decode_text_strict, recipient_of, DecodeError};
use vstd::prelude::*;
use vstd::utf8::*;

verus! {

/// The storage engine refused or failed an operation. What went wrong inside
/// the engine does not cross the boundary.
#[derive(Debug, Clone, Copy, PartialEq, Eq)]
pub struct BackendError;

/// Why the service was not started.
#[derive(Debug, Clone, Copy, PartialEq, Eq)]
pub enum StartError {
    /// The asset path is not valid text.
    Decode(DecodeError),
    /// A service is already up on the address.
    Bind(BindError),
}

/// The stage that a call with a record argument has reached.
pub enum Stage<R> {
    /// The record argument has been through the decoder, which gave the
    /// record or the message of its failure.
    Decoded(Result<R, String>),
    /// The engine has been asked for the operation and has answered.
    Answered(Result<(), BackendError>),
}

/// What happens next in a call with a record argument.
pub enum Decision<R> {
    /// Ask the engine for the operation, on this record.
    Run(R),
    /// Answer the host with this text. The call is over.
    Reply(String),
}

/// The answer to a bucket that was created.
pub open spec fn bucket_created() -> Seq<char> {
    "Bucket successfully created"@
}

/// The message for a bucket that the engine did not create.
pub open spec fn bucket_not_created() -> Seq<char> {
    "Something went wrong when trying to create bucket"@
}

/// The answer to a heartbeat that the engine took.
pub open spec fn heartbeat_received() -> Seq<char> {
    "Heartbeat successfully received"@
}

/// The message for a heartbeat that the engine did not take. The listing of
/// events reports its failures with the same message.
pub open spec fn heartbeat_not_sent() -> Seq<char> {
    "Something went wrong when trying to send heartbeat"@
}

/// The decision of a call with a record argument at `stage`, where `done` is
/// the answer to a success and `failed` the message for a failure of the
/// engine. A record that did not decode is answered with the decoder's message
/// in an envelope, and the engine is never asked.
pub open spec fn decided<R>(
    stage: Stage<R>,
    decision: Decision<R>,
    done: Seq<char>,
    failed: Seq<char>,
) -> bool {
    match stage {
        Stage::Decoded(Ok(record)) => decision == Decision::Run(record),
        Stage::Decoded(Err(message)) => decision matches Decision::Reply(text) && text@
            == error_envelope(message@),
        Stage::Answered(Ok(_)) => decision matches Decision::Reply(text) && text@ == done,
        Stage::Answered(Err(_)) => decision matches Decision::Reply(text) && text@
            == error_envelope(failed),
    }
}

/// Takes the decision of a call with a record argument at `stage`.
fn decide<R>(stage: Stage<R>, done: &str, failed: &str) -> (decision: Decision<R>)
    ensures
        decided(stage, decision, done@, failed@),
{
    match stage {
        Stage::Decoded(Ok(record)) => Decision::Run(record),
        Stage::Decoded(Err(message)) => Decision::Reply(create_error_object(message)),
        Stage::Answered(Ok(_)) => Decision::Reply(done.to_owned()),
        Stage::Answered(Err(_)) => Decision::Reply(create_error_object(failed.to_owned())),
    }
}

/// Entry point `greeting`: the greeting for the recipient that the host names
/// in `java_pattern`, as text to hand back to the host.
#[allow(non_snake_case)]
pub fn Java_net_activitywatch_android_RustInterface_greeting(
    java_pattern: &[u8],
) -> (output: String)
    ensures
        output@ == greeting_for(recipient_of(java_pattern@)),
{
    let world = rust_greeting(java_pattern);
    match decode_text_strict(world.as_slice()) {
        Ok(text) => text,
        Err(_) => unreached(),
    }
}

/// Entry point `startServer`: reads the asset path and starts the service on
/// it, with `datastore` as the engine behind it. The configuration that comes
/// back is the one to launch with; the launch itself, which blocks, is the
/// caller's.
#[allow(non_snake_case)]
pub fn Java_net_activitywatch_android_RustInterface_startServer<E>(
    launcher: &mut Launcher,
    java_asset_path: &[u8],
    datastore: E,
) -> (started: Result<ServiceConfig<E>, StartError>)
    ensures
        match started {
            Ok(config) => {
                &&& valid_utf8(java_asset_path@)
                &&& !old(launcher)@
                &&& final(launcher)@
                &&& config.serves(decode_utf8(java_asset_path@), datastore)
            },
            Err(StartError::Decode(_)) => {
                &&& !valid_utf8(java_asset_path@)
                &&& final(launcher)@ == old(launcher)@
            },
            Err(StartError::Bind(_)) => {
                &&& valid_utf8(java_asset_path@)
                &&& old(launcher)@
                &&& final(launcher)@
            },
        },
{
    let asset_path = match decode_text_strict(java_asset_path) {
        Ok(text) => text,
        Err(error) => {
            return Err(StartError::Decode(error));
        },
    };
    match launcher.start(asset_path, datastore) {
        Ok(config) => Ok(config),
        Err(error) => Err(StartError::Bind(error)),
    }
}

/// Entry point `initialize`: the one-time setup of the process. Only the first
/// call is told to redirect the output streams.
#[allow(non_snake_case)]
pub fn Java_net_activitywatch_android_RustInterface_initialize(
    guard: &mut InitGuard,
) -> (step: InitStep)
    ensures
        step == init_step(old(guard)@),
        final(guard)@,
{
    guard.ensure_initialized()
}

/// Entry point `setDataDir`: the directory that the host names as the storage
/// location.
#[allow(non_snake_case)]
pub fn Java_net_activitywatch_android_RustInterface_setDataDir(
    java_dir: &[u8],
) -> (dir: Result<String, DecodeError>)
    ensures
        match dir {
            Ok(path) => valid_utf8(java_dir@) && path@ == decode_utf8(java_dir@),
            Err(_) => !valid_utf8(java_dir@),
        },
{
    decode_text_strict(java_dir)
}

/// Entry point `getBuckets`: the buckets that the engine listed, each as the
/// JSON text of one record, framed as one array.
#[allow(non_snake_case)]
pub fn Java_net_activitywatch_android_RustInterface_getBuckets(
    buckets: Vec<String>,
) -> (output: String)
    ensures
        output@ == json_array(buckets.deep_view()),
{
    json_list(&buckets)
}

/// Entry point `createBucket`, from the decoding of the bucket record on.
#[allow(non_snake_case)]
pub fn Java_net_activitywatch_android_RustInterface_createBucket<B>(
    stage: Stage<B>,
) -> (decision: Decision<B>)
    ensures
        decided(stage, decision, bucket_created(), bucket_not_created()),
{
    decide(
        stage,
        "Bucket successfully created",
        "Something went wrong when trying to create bucket",
    )
}

/// Entry point `heartbeat`, from the decoding of the event record on. The
/// bucket and the pulse window are not looked at here: they go to the engine as
/// the host gave them.
#[allow(non_snake_case)]
pub fn Java_net_activitywatch_android_RustInterface_heartbeat<E>(
    stage: Stage<E>,
) -> (decision: Decision<E>)
    ensures
        decided(stage, decision, heartbeat_received(), heartbeat_not_sent()),
{
    decide(
        stage,
        "Heartbeat successfully received",
        "Something went wrong when trying to send heartbeat",
    )
}

/// Entry point `getEvents`: the events that the engine listed for the bucket,
/// each as the JSON text of one record, framed as one array; or the envelope
/// for a listing that failed.
#[allow(non_snake_case)]
pub fn Java_net_activitywatch_android_RustInterface_getEvents(
    events: Result<Vec<String>, BackendError>,
) -> (output: String)
    ensures
        match events {
            Ok(listed) => output@ == json_array(listed.deep_view()),
            Err(_) => output@ == error_envelope(heartbeat_not_sent()),
        },
{
    match events {
        Ok(listed) => json_list(&listed),
        Err(_) => create_error_object(
            "Something went wrong when trying to send heartbeat".to_owned(),
        ),
    }
}

} // verus!
