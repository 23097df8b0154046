//! Embedded service launcher: what the service is started with, and the rule
//! that a process runs it once at a time.
//!
//! Launching blocks the caller for as long as the service lives, so the
//! launcher does not launch anything itself. It hands out the configuration to
//! launch with, remembers that a service is up, and is told when it has ended.

use vstd::prelude::*;

verus! {

/// The service could not take its address: it is already taken.
#[derive(Debug, Clone, Copy, PartialEq, Eq)]
pub struct BindError;

/// The port that the service listens on.
pub const SERVICE_PORT: u16 = 5600;

/// The address that the service listens on: the loopback interface.
pub open spec fn service_address() -> Seq<char> {
    "127.0.0.1"@
}

/// What the embedded service is launched with.
#[derive(Debug, PartialEq, Eq)]
pub struct ServiceConfig<E> {
    /// The address to bind to.
    pub address: String,
    /// The port to bind to.
    pub port: u16,
    /// The directory that the service serves its assets from.
    pub asset_path: String,
    /// True for the production profile of the HTTP layer.
    pub production: bool,
    /// The engine that the request handlers share.
    pub datastore: E,
}

impl<E> ServiceConfig<E> {
    /// True of the one configuration that serves the assets under
    /// `asset_path` from the engine `datastore`: fixed address, fixed port,
    /// production profile.
    pub open spec fn serves(&self, asset_path: Seq<char>, datastore: E) -> bool {
        &&& self.address@ == service_address()
        &&& self.port == SERVICE_PORT
        &&& self.asset_path@ == asset_path
        &&& self.production
        &&& self.datastore == datastore
    }
}

/// One event in the life of the service, as it appears in a history.
pub enum ServiceOp {
    /// A caller asks for the service to be started.
    Start,
    /// The service has ended.
    Exit,
    /// The launch failed because the address was taken by someone else.
    BindFailure,
}

/// True when a start that finds the service in the state `running` is
/// accepted.
pub open spec fn accepts(running: bool, op: ServiceOp) -> bool {
    op is Start && !running
}

/// Whether the service is up after `op`, given whether it was up before.
pub open spec fn service_step(running: bool, op: ServiceOp) -> bool {
    op is Start
}

/// How many starts in the history `ops` are accepted.
pub open spec fn launches(running: bool, ops: Seq<ServiceOp>) -> nat
    decreases ops.len(),
{
    if ops.len() == 0 {
        0
    } else {
        let rest = launches(service_step(running, ops[0]), ops.drop_first());
        if accepts(running, ops[0]) {
            rest + 1
        } else {
            rest
        }
    }
}

/// True when every event of `ops` is a start.
pub open spec fn only_starts(ops: Seq<ServiceOp>) -> bool {
    forall|i: int| 0 <= i < ops.len() ==> #[trigger] ops[i] is Start
}

/// The process-wide record of whether the service is up.
pub struct Launcher {
    running: bool,
}

impl Launcher {
    /// True while a service started through this launcher has not ended.
    pub closed spec fn view(&self) -> bool {
        self.running
    }

    /// The launcher at process start: no service.
    pub fn new() -> (launcher: Self)
        ensures
            !launcher@,
    {
        Launcher { running: false }
    }

    /// Starts the service on the assets under `asset_path`, with `datastore`
    /// as the engine behind it. While a service is up its address is taken:
    /// the start is refused, nothing is queued, and the service that is up is
    /// left as it is. Otherwise the service counts as up from now on, and the
    /// caller launches it with the configuration that comes back.
    pub fn start<E>(&mut self, asset_path: String, datastore: E) -> (started: Result<
        ServiceConfig<E>,
        BindError,
    >)
        ensures
            final(self)@ == service_step(old(self)@, ServiceOp::Start),
            started is Ok == accepts(old(self)@, ServiceOp::Start),
            started matches Ok(config) ==> config.serves(asset_path@, datastore),
    {
        if self.running {
            return Err(BindError);
        }
        self.running = true;
        Ok(
            ServiceConfig {
                address: "127.0.0.1".to_owned(),
                port: SERVICE_PORT,
                asset_path,
                production: true,
                datastore,
            },
        )
    }

    /// Records that the service has ended.
    pub fn exited(&mut self)
        ensures
            final(self)@ == service_step(old(self)@, ServiceOp::Exit),
    {
        self.running = false;
    }

    /// Records that the launch failed because the address was taken by someone
    /// else. The failure is handed back for the caller to surface; nothing is
    /// tried again.
    pub fn bind_failed(&mut self) -> (error: BindError)
        ensures
            final(self)@ == service_step(old(self)@, ServiceOp::BindFailure),
    {
        self.running = false;
        BindError
    }

    /// True while the service is up.
    pub fn is_running(&self) -> (running: bool)
        ensures
            running == self@,
    {
        self.running
    }
}

/// A start that follows a start is refused, whatever the first one found, and
/// leaves a service up.
pub proof fn lemma_second_start_refused(running: bool)
    ensures
        !accepts(service_step(running, ServiceOp::Start), ServiceOp::Start),
        service_step(service_step(running, ServiceOp::Start), ServiceOp::Start),
{
}

/// While the service is up, no number of starts is accepted.
pub proof fn lemma_running_refuses_starts(ops: Seq<ServiceOp>)
    requires
        only_starts(ops),
    ensures
        launches(true, ops) == 0,
    decreases ops.len(),
{
    if ops.len() > 0 {
        let rest = ops.drop_first();
        assert(only_starts(rest)) by {
            assert forall|i: int| 0 <= i < rest.len() implies #[trigger] rest[i] is Start by {
                assert(rest[i] == ops[i + 1]);
            }
        }
        assert(ops[0] is Start);
        lemma_running_refuses_starts(rest);
    }
}

/// Of any number of starts in a row on a launcher without a service, one or
/// more, exactly the first is accepted.
pub proof fn lemma_one_launch(ops: Seq<ServiceOp>)
    requires
        only_starts(ops),
        ops.len() >= 1,
    ensures
        launches(false, ops) == 1,
        accepts(false, ops[0]),
{
    let rest = ops.drop_first();
    assert(only_starts(rest)) by {
        assert forall|i: int| 0 <= i < rest.len() implies #[trigger] rest[i] is Start by {
            assert(rest[i] == ops[i + 1]);
        }
    }
    assert(ops[0] is Start);
    lemma_running_refuses_starts(rest);
}

} // verus!
