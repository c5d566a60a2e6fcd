//! The lifecycle manager: what the host's calls mean, and what becomes of the
//! table of pollers on each.

use vstd::prelude::*;
use vstd::string::*;
use crate::codec::{configuration_decoding, decode_configuration};
use crate::http::{lookup, pairs_text, ActorConfiguration, Pairs};
use crate::table::{stopped, PollerTable};
use crate::text::{join, option_text, same_text};

verus! {

/// The capability that the provider offers, as `namespace:id`.
pub const CAPABILITY_ID: &'static str = "awslambda:runtime";

/// The human-readable name of the provider.
pub const PROVIDER_NAME: &'static str = "waSCC AWS Lambda runtime provider";

/// The configuration key under which the endpoint address arrives.
pub const ENDPOINT_KEY: &'static str = "AWS_LAMBDA_RUNTIME_API";

/// The actor in whose name the host binds and removes actors.
pub const SYSTEM_ACTOR: &'static str = "system";

/// The operation that binds an actor to the provider.
pub const OP_BIND_ACTOR: &'static str = "BindActor";

/// The operation that removes an actor from the provider.
pub const OP_REMOVE_ACTOR: &'static str = "RemoveActor";

/// What the host asks for.
#[derive(Clone, Copy, Debug, PartialEq, Eq, Structural)]
pub enum Command {
    /// Start a poller for an actor.
    Bind,
    /// Stop the poller of an actor.
    Remove,
}

/// Why a call of the host failed.
#[derive(Clone, Copy, Debug, PartialEq, Eq, Structural)]
pub enum ProviderFailure {
    /// The operation is none that the provider knows, or it did not come from
    /// the system actor.
    UnsupportedOperation,
    /// The configuration that came with the call could not be decoded.
    MalformedConfiguration,
    /// The configuration lacks a value that is required to start.
    MissingConfiguration,
}

/// The text that a failure of the given cause starts with.
pub open spec fn failure_prefix(cause: ProviderFailure) -> Seq<char> {
    match cause {
        ProviderFailure::UnsupportedOperation => "Unsupported operation: "@,
        ProviderFailure::MalformedConfiguration => ""@,
        ProviderFailure::MissingConfiguration => "Missing configuration value: "@,
    }
}

/// What a provider error holds.
pub struct ProviderErrorView {
    pub cause: ProviderFailure,
    pub detail: Seq<char>,
}

impl ProviderErrorView {
    /// The text of the error: the cause's prefix, then the detail.
    pub open spec fn message(self) -> Seq<char> {
        failure_prefix(self.cause) + self.detail
    }
}

/// A failed call of the host: its cause, and the operation, the decoder's
/// text or the key that it is about.
#[derive(Debug)]
pub struct ProviderError {
    pub cause: ProviderFailure,
    pub detail: String,
}

impl View for ProviderError {
    type V = ProviderErrorView;

    open spec fn view(&self) -> ProviderErrorView {
        ProviderErrorView { cause: self.cause, detail: self.detail@ }
    }
}

impl ProviderError {
    /// The text of the error.
    pub fn message(&self) -> (r: String)
        ensures
            r@ == self@.message(),
    {
        let prefix = match self.cause {
            ProviderFailure::UnsupportedOperation => "Unsupported operation: ",
            ProviderFailure::MalformedConfiguration => "",
            ProviderFailure::MissingConfiguration => "Missing configuration value: ",
        };
        join(prefix, self.detail.as_str())
    }
}

/// The command that an operation stands for. Only the system actor binds
/// and removes actors.
pub open spec fn command_for(actor: Seq<char>, op: Seq<char>) -> Option<Command> {
    if op == OP_BIND_ACTOR@ && actor == SYSTEM_ACTOR@ {
        Some(Command::Bind)
    } else if op == OP_REMOVE_ACTOR@ && actor == SYSTEM_ACTOR@ {
        Some(Command::Remove)
    } else {
        None
    }
}

/// Returns the command that an operation stands for, if any.
pub fn command_of(actor: &str, op: &str) -> (r: Option<Command>)
    ensures
        r == command_for(actor@, op@),
{
    if same_text(op, OP_BIND_ACTOR) && same_text(actor, SYSTEM_ACTOR) {
        Some(Command::Bind)
    } else if same_text(op, OP_REMOVE_ACTOR) && same_text(actor, SYSTEM_ACTOR) {
        Some(Command::Remove)
    } else {
        None
    }
}

/// Returns the value that is configured under a name, if any.
pub fn configured(values: &Pairs, name: &str) -> (r: Option<String>)
    ensures
        option_text(r) == lookup(pairs_text(values@), name@),
{
    let ghost all = pairs_text(values@);
    let mut i: usize = 0;
    assert(all.skip(0) =~= all);
    while i < values.len()
        invariant
            i <= values.len(),
            all == pairs_text(values@),
            lookup(all, name@) == lookup(all.skip(i as int), name@),
        decreases values.len() - i,
    {
        proof {
            assert(all.skip(i as int)[0] == all[i as int]);
            assert(all.skip(i as int).drop_first() =~= all.skip(i as int + 1));
        }
        if same_text(values[i].0.as_str(), name) {
            return Some(values[i].1.clone());
        }
        i += 1;
    }
    None
}

/// What the caller is to start: a poller for the tenant against the endpoint.
#[derive(Debug)]
pub struct Launch {
    pub tenant_id: String,
    pub endpoint: String,
}

/// What a successful call holds.
pub enum CallOutcomeView {
    Started { tenant_id: Seq<char>, endpoint: Seq<char> },
    Stopped { tenant_id: Seq<char>, known: bool },
}

/// What a successful call of the host came to.
#[derive(Debug)]
pub enum CallOutcome {
    /// The tenant was entered into the table; its poller is to be started.
    Started(Launch),
    /// A stop was requested for the tenant. Where the tenant is unknown,
    /// nothing was done.
    Stopped { tenant_id: String, known: bool },
}

impl View for CallOutcome {
    type V = CallOutcomeView;

    open spec fn view(&self) -> CallOutcomeView {
        match self {
            CallOutcome::Started(launch) => CallOutcomeView::Started {
                tenant_id: launch.tenant_id@,
                endpoint: launch.endpoint@,
            },
            CallOutcome::Stopped { tenant_id, known } => CallOutcomeView::Stopped {
                tenant_id: tenant_id@,
                known: *known,
            },
        }
    }
}

/// What the result of a call holds.
pub open spec fn call_view(r: Result<CallOutcome, ProviderError>) -> Result<
    CallOutcomeView,
    ProviderErrorView,
> {
    match r {
        Ok(outcome) => Ok(outcome@),
        Err(e) => Err(e@),
    }
}

/// The value that a map holds under a name, if any.
pub open spec fn value_of(values: Map<Seq<char>, Seq<char>>, name: Seq<char>) -> Option<Seq<char>> {
    if values.contains_key(name) {
        Some(values[name])
    } else {
        None
    }
}

/// What a start for a tenant does to the table, and what it returns: with
/// an endpoint address the tenant is entered with its flag set; without one
/// the start fails, and the table stays as it was.
pub open spec fn start_outcome(
    table: Map<Seq<char>, bool>,
    tenant_id: Seq<char>,
    endpoint: Option<Seq<char>>,
) -> (Map<Seq<char>, bool>, Result<CallOutcomeView, ProviderErrorView>) {
    match endpoint {
        None => (
            table,
            Err(
                ProviderErrorView {
                    cause: ProviderFailure::MissingConfiguration,
                    detail: ENDPOINT_KEY@,
                },
            ),
        ),
        Some(endpoint) => (
            table.insert(tenant_id, true),
            Ok(CallOutcomeView::Started { tenant_id, endpoint }),
        ),
    }
}

/// What a stop for a tenant does to the table, and what it returns. It always
/// succeeds; for a tenant that is not in the table, the table stays as it was.
pub open spec fn stop_outcome(table: Map<Seq<char>, bool>, tenant_id: Seq<char>) -> (
    Map<Seq<char>, bool>,
    Result<CallOutcomeView, ProviderErrorView>,
) {
    (
        stopped(table, tenant_id),
        Ok(CallOutcomeView::Stopped { tenant_id, known: table.contains_key(tenant_id) }),
    )
}

/// What a command for a tenant does to the table, and what it returns.
pub open spec fn command_outcome(
    table: Map<Seq<char>, bool>,
    command: Command,
    tenant_id: Seq<char>,
    endpoint: Option<Seq<char>>,
) -> (Map<Seq<char>, bool>, Result<CallOutcomeView, ProviderErrorView>) {
    match command {
        Command::Bind => start_outcome(table, tenant_id, endpoint),
        Command::Remove => stop_outcome(table, tenant_id),
    }
}

/// What a call of the host does to the table, and what it returns. An
/// operation that is no command fails as unsupported. For a command the
/// configuration is decoded from the message: where it does not decode, the
/// call fails with the decoder's text, else the command is carried out for
/// the actor of the configuration, with the endpoint address that is
/// configured.
pub open spec fn call_outcome(
    table: Map<Seq<char>, bool>,
    actor: Seq<char>,
    op: Seq<char>,
    message: Seq<u8>,
) -> (Map<Seq<char>, bool>, Result<CallOutcomeView, ProviderErrorView>) {
    match command_for(actor, op) {
        None => (
            table,
            Err(ProviderErrorView { cause: ProviderFailure::UnsupportedOperation, detail: op }),
        ),
        Some(command) => match configuration_decoding(message) {
            Err(reason) => (
                table,
                Err(
                    ProviderErrorView {
                        cause: ProviderFailure::MalformedConfiguration,
                        detail: reason,
                    },
                ),
            ),
            Ok(configuration) => command_outcome(
                table,
                command,
                configuration.module,
                value_of(configuration.values, ENDPOINT_KEY@),
            ),
        },
    }
}

/// The endpoint address that a configuration holds, if any.
pub open spec fn endpoint_of(configuration: ActorConfiguration) -> Option<Seq<char>> {
    lookup(pairs_text(configuration.values@), ENDPOINT_KEY@)
}

/// Starts polling for the actor of a configuration: enters the tenant into
/// the table, and returns what is to be started. Fails where the endpoint
/// address is not configured.
pub fn start_polling(table: &mut PollerTable, configuration: ActorConfiguration) -> (r: Result<
    Launch,
    ProviderError,
>)
    requires
        old(table).well_formed(),
    ensures
        final(table).well_formed(),
        final(table)@ == start_outcome(
            old(table)@,
            configuration.module@,
            endpoint_of(configuration),
        ).0,
        match r {
            Ok(launch) => start_outcome(
                old(table)@,
                configuration.module@,
                endpoint_of(configuration),
            ).1 == Ok::<CallOutcomeView, ProviderErrorView>(
                CallOutcomeView::Started {
                    tenant_id: launch.tenant_id@,
                    endpoint: launch.endpoint@,
                },
            ),
            Err(e) => start_outcome(
                old(table)@,
                configuration.module@,
                endpoint_of(configuration),
            ).1 == Err::<CallOutcomeView, ProviderErrorView>(e@),
        },
{
    match configured(&configuration.values, ENDPOINT_KEY) {
        None => Err(
            ProviderError {
                cause: ProviderFailure::MissingConfiguration,
                detail: String::from_str(ENDPOINT_KEY),
            },
        ),
        Some(endpoint) => {
            table.start(configuration.module.as_str());
            Ok(Launch { tenant_id: configuration.module, endpoint })
        },
    }
}

/// Stops the poller of the actor of a configuration. Returns whether the
/// actor has a poller; where it has none, nothing changes.
pub fn stop_polling(table: &mut PollerTable, configuration: &ActorConfiguration) -> (known: bool)
    requires
        old(table).well_formed(),
    ensures
        final(table).well_formed(),
        final(table)@ == stopped(old(table)@, configuration.module@),
        known == old(table)@.contains_key(configuration.module@),
{
    table.stop(configuration.module.as_str())
}

/// The line that is logged for a stop request that names an unknown actor.
pub fn unknown_actor_notice(tenant_id: &str) -> (r: String)
    ensures
        r@ == "Received request to stop poller for unknown actor "@ + tenant_id@ + ". Ignoring"@,
{
    let mut line = join("Received request to stop poller for unknown actor ", tenant_id);
    line.append(". Ignoring");
    line
}

/// Carries out a command for the actor of a configuration.
pub fn carry_out(table: &mut PollerTable, command: Command, configuration: ActorConfiguration) -> (r:
    Result<CallOutcome, ProviderError>)
    requires
        old(table).well_formed(),
    ensures
        final(table).well_formed(),
        final(table)@ == command_outcome(
            old(table)@,
            command,
            configuration.module@,
            endpoint_of(configuration),
        ).0,
        call_view(r) == command_outcome(
            old(table)@,
            command,
            configuration.module@,
            endpoint_of(configuration),
        ).1,
{
    match command {
        Command::Bind => match start_polling(table, configuration) {
            Ok(launch) => Ok(CallOutcome::Started(launch)),
            Err(e) => Err(e),
        },
        Command::Remove => {
            let known = stop_polling(table, &configuration);
            Ok(CallOutcome::Stopped { tenant_id: configuration.module, known })
        },
    }
}

/// Handles a call of the host: the table and the result are those of
/// `call_outcome`. A call that fails leaves the table as it was.
pub fn handle_call(table: &mut PollerTable, actor: &str, op: &str, message: &[u8]) -> (r: Result<
    CallOutcome,
    ProviderError,
>)
    requires
        old(table).well_formed(),
    ensures
        final(table).well_formed(),
        final(table)@ == call_outcome(old(table)@, actor@, op@, message@).0,
        call_view(r) == call_outcome(old(table)@, actor@, op@, message@).1,
        r is Err ==> final(table)@ == old(table)@,
{
    match command_of(actor, op) {
        None => Err(
            ProviderError { cause: ProviderFailure::UnsupportedOperation, detail: op.to_owned() },
        ),
        Some(command) => match decode_configuration(message) {
            Err(reason) => Err(
                ProviderError { cause: ProviderFailure::MalformedConfiguration, detail: reason },
            ),
            Ok(configuration) => carry_out(table, command, configuration),
        },
    }
}

} // verus!
