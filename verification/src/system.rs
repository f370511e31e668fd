//! A listener and its connections side by side: however their events
//! interleave, each connection goes its own way.

use crate::connection::{step, ActionView, EventView, Phase};
use crate::server::{halt, listen, ListenerAction, ListenerEvent, ServerState, StopOutcome};
use crate::session::{lemma_run_push, run};
use vstd::prelude::*;

verus! {

/// One server with the connections it has spawned, oldest first.
pub struct System {
    pub server: ServerState,
    pub connections: Seq<Phase>,
}

/// One thing that happens to a system.
pub enum Occurrence {
    /// The accept loop reports an event.
    Listener(ListenerEvent),
    /// Somebody calls `stop`.
    Stop,
    /// Connection `id` reports an event.
    Connection { id: int, event: EventView },
}

/// What a system answers to one occurrence.
pub enum Output {
    Listener(ListenerAction),
    Stop(StopOutcome),
    Connection { id: int, action: ActionView },
    /// The event was addressed to a connection that does not exist.
    Unheard,
}

/// The system after one occurrence, and its answer. A spawn opens a new
/// connection, reading; an event of a connection moves that connection and
/// no other; nothing but the listener and `stop` moves the server.
pub open spec fn occur(system: System, occurrence: Occurrence) -> (System, Output) {
    match occurrence {
        Occurrence::Listener(event) => {
            let (server, action) = listen(system.server, event);
            let connections = if action == ListenerAction::Spawn {
                system.connections.push(Phase::Reading)
            } else {
                system.connections
            };
            (System { server, connections }, Output::Listener(action))
        },
        Occurrence::Stop => {
            let (server, outcome) = halt(system.server);
            (System { server, connections: system.connections }, Output::Stop(outcome))
        },
        Occurrence::Connection { id, event } => {
            if 0 <= id < system.connections.len() {
                let (phase, action) = step(system.connections[id], event);
                (
                    System {
                        server: system.server,
                        connections: system.connections.update(id, phase),
                    },
                    Output::Connection { id, action },
                )
            } else {
                (system, Output::Unheard)
            }
        },
    }
}

/// The system after `occurrences`, in order, and its answers.
pub open spec fn evolve(system: System, occurrences: Seq<Occurrence>) -> (System, Seq<Output>)
    decreases occurrences.len(),
{
    if occurrences.len() == 0 {
        (system, Seq::empty())
    } else {
        let (before, outputs) = evolve(system, occurrences.drop_last());
        let (after, output) = occur(before, occurrences.last());
        (after, outputs.push(output))
    }
}

/// The events among `occurrences` that connection `id` reports, in order.
pub open spec fn events_of(occurrences: Seq<Occurrence>, id: int) -> Seq<EventView>
    decreases occurrences.len(),
{
    if occurrences.len() == 0 {
        Seq::empty()
    } else {
        let earlier = events_of(occurrences.drop_last(), id);
        match occurrences.last() {
            Occurrence::Connection { id: other, event } if other == id => earlier.push(event),
            _ => earlier,
        }
    }
}

/// The actions among `outputs` that are owed to connection `id`, in order.
pub open spec fn actions_of(outputs: Seq<Output>, id: int) -> Seq<ActionView>
    decreases outputs.len(),
{
    if outputs.len() == 0 {
        Seq::empty()
    } else {
        let earlier = actions_of(outputs.drop_last(), id);
        match outputs.last() {
            Output::Connection { id: other, action } if other == id => earlier.push(action),
            _ => earlier,
        }
    }
}

/// Connections do not interfere. Whatever else happens in between (events
/// of other connections, new connections, accept errors, a stop), an open
/// connection ends in the phase, and is owed the actions, that its own
/// events alone lead to.
pub proof fn lemma_connections_do_not_interfere(
    system: System,
    occurrences: Seq<Occurrence>,
    id: int,
)
    requires
        0 <= id < system.connections.len(),
    ensures
        system.connections.len() <= evolve(system, occurrences).0.connections.len(),
        evolve(system, occurrences).0.connections[id] == run(
            system.connections[id],
            events_of(occurrences, id),
        ).0,
        actions_of(evolve(system, occurrences).1, id) == run(
            system.connections[id],
            events_of(occurrences, id),
        ).1,
    decreases occurrences.len(),
{
    if occurrences.len() > 0 {
        let earlier = occurrences.drop_last();
        lemma_connections_do_not_interfere(system, earlier, id);
        let outputs = evolve(system, earlier).1;
        let output = occur(evolve(system, earlier).0, occurrences.last()).1;
        assert(outputs.push(output).drop_last() =~= outputs);
        match occurrences.last() {
            Occurrence::Connection { id: other, event } => {
                if other == id {
                    lemma_run_push(system.connections[id], events_of(earlier, id), event);
                }
            },
            _ => {},
        }
    }
}

/// A stop closes the door and nothing else. After it no connection is ever
/// added, whatever the listener reports, and the server stays stopped;
/// the connections that are open go on as before.
pub proof fn lemma_stop_admits_no_new_connection(system: System, occurrences: Seq<Occurrence>)
    ensures
        ({
            let stopped = occur(system, Occurrence::Stop).0;
            &&& stopped.connections == system.connections
            &&& evolve(stopped, occurrences).0.server == ServerState::Stopped
            &&& evolve(stopped, occurrences).0.connections.len() == system.connections.len()
        }),
    decreases occurrences.len(),
{
    if occurrences.len() > 0 {
        lemma_stop_admits_no_new_connection(system, occurrences.drop_last());
    }
}

} // verus!
