//! The router's state machine: one long-lived task that pulls requests off an
//! inbound channel, runs them, and pushes exactly one response per request
//! onto an outbound channel.
//!
//! Every decision the router takes is the pure step function here, verified
//! against the transition relation `router_transition`. The surrounding loop
//! only performs the action each step hands back — await a request, run the
//! query, deliver the envelope — and feeds the outcome in as the next event.

use vstd::prelude::*;

use crate::classify::TypedTableResult;
use crate::classify::classified;
use crate::classify::convert_rows;
use crate::query::Connection;
use crate::query::FullQuery;
use crate::query::Query;
use crate::query::get_resulting_connection_string;
use crate::query::opt_str_view;
use crate::query::spec_resulting_connection_string;
use crate::table::BasicTextTable;

verus! {

/// The generic failure carried to the caller when a query cannot be run: all
/// connection, protocol and query errors collapse into this one kind.
#[derive(Debug, Clone)]
pub struct WhateverError {}

impl WhateverError {
    /// The user-facing failure message; deliberately non-diagnostic.
    pub fn message(&self) -> (r: String)
        ensures
            r@ == "An Error Occurred, Please Try Again!"@,
    {
        "An Error Occurred, Please Try Again!".to_owned()
    }
}

/// The envelope returned to the caller: the database name that was targeted,
/// the SQL text that ran, and either the classified table or a failure
/// marker. Every request yields exactly one envelope.
#[derive(Debug, PartialEq)]
pub struct DatabaseQueryResult {
    pub database: Option<String>,
    pub sql_query: String,
    pub table: TypedTableResult,
}

/// The base connection descriptor a request carries.
pub open spec fn connection_base(c: Connection) -> Seq<char> {
    match c {
        Connection::Stateless(s) => s@,
    }
}

/// Where the router stands. `Executing` remembers what the running request
/// targeted, so the envelope can carry the same metadata whether the query
/// succeeds or fails.
#[derive(Debug)]
pub enum RouterState {
    Idle,
    Executing { database: Option<String>, sql_query: String, query: Query },
    Responding,
    Stopped,
}

/// What the world reported to the router since its last step.
#[derive(Debug)]
pub enum RouterEvent {
    /// One request arrived on the inbound channel.
    Request(FullQuery),
    /// The inbound channel is permanently closed: no more senders.
    InboundClosed,
    /// The query settled, with a decoded table or a failure.
    Executed(Result<BasicTextTable, WhateverError>),
    /// The envelope was delivered on the outbound channel.
    Delivered,
    /// The outbound channel's receiver is gone: the caller abandoned us.
    ReceiverGone,
}

/// What the router asks its surrounding loop to do next.
#[derive(Debug)]
pub enum RouterAction {
    /// Await the next request on the inbound channel.
    AwaitRequest,
    /// Open a connection with this descriptor, run this SQL, and report back.
    RunQuery { connection_string: String, sql_query: String },
    /// Deliver this envelope on the outbound channel and report back.
    Deliver(DatabaseQueryResult),
    /// Stop: tear everything down and never step again.
    Halt,
}

/// Which events can reach the router in each state. The loop around the step
/// function only ever produces the event its last action asked for.
pub open spec fn event_fits(state: RouterState, event: RouterEvent) -> bool {
    match (state, event) {
        (RouterState::Idle, RouterEvent::Request(_)) => true,
        (RouterState::Idle, RouterEvent::InboundClosed) => true,
        (RouterState::Executing { .. }, RouterEvent::Executed(_)) => true,
        (RouterState::Responding, RouterEvent::Delivered) => true,
        (RouterState::Responding, RouterEvent::ReceiverGone) => true,
        _ => false,
    }
}

/// Decide at run time whether an event can reach the router in a state; an
/// unverified loop around `router_step` can guard its calls with this.
pub fn check_event_fits(state: &RouterState, event: &RouterEvent) -> (r: bool)
    ensures
        r == event_fits(*state, *event),
{
    match (state, event) {
        (RouterState::Idle, RouterEvent::Request(_)) => true,
        (RouterState::Idle, RouterEvent::InboundClosed) => true,
        (RouterState::Executing { .. }, RouterEvent::Executed(_)) => true,
        (RouterState::Responding, RouterEvent::Delivered) => true,
        (RouterState::Responding, RouterEvent::ReceiverGone) => true,
        _ => false,
    }
}

/// The transition relation of the router.
///
/// - `Idle` + request: derive the target database, the SQL text and the
///   merged connection string from the query model, and run the query.
/// - `Idle` + inbound closed: clean shutdown.
/// - `Executing` + settled query: build the one envelope for this request —
///   the classified table on success, the failure marker on failure, the
///   request's own metadata either way — and deliver it.
/// - `Responding` + delivered: back to `Idle` for the next request.
/// - `Responding` + receiver gone: stop outright rather than keep consuming
///   requests whose answers nobody can receive.
pub open spec fn router_transition(
    pre: RouterState,
    event: RouterEvent,
    post: RouterState,
    action: RouterAction,
) -> bool {
    match (pre, event) {
        (RouterState::Idle, RouterEvent::Request(full_query)) => {
            &&& post matches RouterState::Executing { database, sql_query, query }
                && database == full_query.query.spec_mentioned_database()
                && sql_query@ == full_query.query.spec_query_string()
                && query == full_query.query
            &&& action matches RouterAction::RunQuery { connection_string, sql_query }
                && connection_string@ == spec_resulting_connection_string(
                connection_base(full_query.connection),
                opt_str_view(full_query.query.spec_mentioned_database()),
            )
                && sql_query@ == full_query.query.spec_query_string()
        },
        (RouterState::Idle, RouterEvent::InboundClosed) => post is Stopped && action is Halt,
        (RouterState::Executing { database, sql_query, query }, RouterEvent::Executed(res)) => {
            &&& post is Responding
            &&& action matches RouterAction::Deliver(envelope) && envelope.database == database
                && envelope.sql_query == sql_query && (match res {
                Ok(raw_table) => envelope.table matches Ok(typed) && classified(
                    raw_table,
                    query,
                    typed,
                ),
                Err(_) => envelope.table is Err,
            })
        },
        (RouterState::Responding, RouterEvent::Delivered) => post is Idle
            && action is AwaitRequest,
        (RouterState::Responding, RouterEvent::ReceiverGone) => post is Stopped
            && action is Halt,
        _ => false,
    }
}

/// Take one step: consume the event and hand back the next state and the
/// action to perform in it.
pub fn router_step(state: RouterState, event: RouterEvent) -> (r: (RouterState, RouterAction))
    requires
        event_fits(state, event),
    ensures
        router_transition(state, event, r.0, r.1),
{
    match (state, event) {
        (RouterState::Idle, RouterEvent::Request(full_query)) => {
            let database = full_query.query.get_mentioned_database();
            let sql_query = full_query.query.get_query_string();
            let connection_string = match &full_query.connection {
                Connection::Stateless(s) => get_resulting_connection_string(
                    s.as_str(),
                    &database,
                ),
            };
            let run_sql = sql_query.clone();
            (
                RouterState::Executing { database, sql_query, query: full_query.query },
                RouterAction::RunQuery { connection_string, sql_query: run_sql },
            )
        },
        (RouterState::Idle, RouterEvent::InboundClosed) => (
            RouterState::Stopped,
            RouterAction::Halt,
        ),
        (RouterState::Executing { database, sql_query, query }, RouterEvent::Executed(res)) => {
            let table: TypedTableResult = match res {
                Ok(raw_table) => Ok(convert_rows(raw_table, &query)),
                Err(_) => Err(()),
            };
            let envelope = DatabaseQueryResult { database, sql_query, table };
            (RouterState::Responding, RouterAction::Deliver(envelope))
        },
        (RouterState::Responding, RouterEvent::Delivered) => (
            RouterState::Idle,
            RouterAction::AwaitRequest,
        ),
        (RouterState::Responding, RouterEvent::ReceiverGone) => (
            RouterState::Stopped,
            RouterAction::Halt,
        ),
        _ => unreached(),
    }
}

/// Law: one request in, one envelope out. Stepping an idle router with a
/// request and then with the settled query yields exactly one delivery, whose
/// envelope carries the database name and SQL text the query model computes
/// for that request, and a table precisely when the query succeeded.
pub proof fn lemma_router_round_trip(
    full_query: FullQuery,
    s1: RouterState,
    a1: RouterAction,
    res: Result<BasicTextTable, WhateverError>,
    s2: RouterState,
    a2: RouterAction,
)
    requires
        router_transition(RouterState::Idle, RouterEvent::Request(full_query), s1, a1),
        router_transition(s1, RouterEvent::Executed(res), s2, a2),
    ensures
        s2 is Responding,
        a2 matches RouterAction::Deliver(envelope)
            && envelope.database == full_query.query.spec_mentioned_database()
            && envelope.sql_query@ == full_query.query.spec_query_string() && (envelope.table is Ok
            <==> res is Ok),
        res matches Ok(raw_table) ==> a2 matches RouterAction::Deliver(envelope)
            && envelope.table matches Ok(typed) && classified(raw_table, full_query.query, typed),
{
}

/// Law: at most one request is ever in flight. The router accepts a request
/// event only when idle; while a query is executing or a response is being
/// delivered, no further request fits, so two requests are never overlapped.
pub proof fn lemma_requests_only_when_idle(state: RouterState, full_query: FullQuery)
    ensures
        !(state is Idle) ==> !event_fits(state, RouterEvent::Request(full_query)),
{
}

/// Law: abandonment stops the router. When the outbound receiver is gone the
/// router halts instead of consuming further requests, and a stopped router
/// admits no further event.
pub proof fn lemma_abandonment_stops(post: RouterState, action: RouterAction, event: RouterEvent)
    requires
        router_transition(RouterState::Responding, RouterEvent::ReceiverGone, post, action),
    ensures
        post is Stopped,
        action is Halt,
        !event_fits(RouterState::Stopped, event),
{
}

} // verus!
