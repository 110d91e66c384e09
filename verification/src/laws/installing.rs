//! What the installation of a connection owes.

use vstd::prelude::*;

use crate::admission::ConnectionReservation;
use crate::config::{QpCapabilities, RdmaConnectionConfig};
use crate::connection::{CmId, ConnectionPoster, ConnectionState};
use crate::error::Error;
use crate::install::{
    granted_too_little, install_retained, registered_alone, registry_has_room, setup_outcome,
    FailedConnectionInstallResources, SetupSummary,
};
use crate::laws::terms::others_kept;
use crate::outbound::{build_refusal, build_refused, built_poster, BuiltQp};
use crate::registry::{Lifecycle, RegistryView};
use crate::token::{CmRouteToken, ConnectionToken};

verus! {

/// Whether every capability that was granted is at least what was asked for.
pub open spec fn suffices(granted: QpCapabilities, asked: RdmaConnectionConfig) -> bool {
    granted.max_send_wr >= asked.max_send_wr && granted.max_recv_wr >= asked.max_recv_wr
        && granted.max_send_sge >= asked.max_send_sge && granted.max_recv_sge
        >= asked.max_recv_sge
}

/// A queue pair is taken exactly where it has everything that was asked for; more than
/// that does not harm, and to ask for less never harms.
pub proof fn a_queue_pair_must_suffice(
    granted: QpCapabilities,
    asked: RdmaConnectionConfig,
    less: RdmaConnectionConfig,
    poster: ConnectionPoster,
)
    ensures
        granted.covers(asked) <==> suffices(granted, asked),
        granted.covers(asked) && less.max_send_wr <= asked.max_send_wr && less.max_recv_wr
            <= asked.max_recv_wr && less.max_send_sge <= asked.max_send_sge && less.max_recv_sge
            <= asked.max_recv_sge ==> granted.covers(less),
        match poster {
            ConnectionPoster::Verbs(resources) => granted_too_little(poster, asked) <==> !suffices(
                resources.capabilities,
                asked,
            ),
            ConnectionPoster::Synthetic { capabilities: Some(claimed), .. } => granted_too_little(
                poster,
                asked,
            ) <==> !suffices(claimed, asked),
            ConnectionPoster::Synthetic { capabilities: None, .. } => !granted_too_little(
                poster,
                asked,
            ),
        },
{
}

/// A queue pair that was built is refused exactly where the engine does not take the
/// configuration, the queue pair does not suffice, its number is zero or taken, or its
/// route is gone, quarantined or has a connection; the engine's refusal is told first.
pub proof fn a_built_queue_pair_is_refused_for_cause(
    view: RegistryView,
    token: CmRouteToken,
    built: BuiltQp,
    config: RdmaConnectionConfig,
    cm_id: CmId,
)
    ensures
        build_refused(view, token, built, config) <==> !(built.config_check is Ok && suffices(
            built.capabilities,
            config,
        ) && built.qp_num != 0 && !view.qp_index.contains_key(built.qp_num) && view.has(token)
            && view.entry(token).quarantine is None && view.entry(token).connection is None),
        forall|error: Error|
            #![trigger build_refusal(view, token, built, config, error)]
            build_refusal(view, token, built, config, error) ==> (built.config_check is Err
                ==> error == built.config_check->Err_0) && (built.config_check is Ok ==> error
                is InvalidConfig),
        built_poster(built, cm_id) matches ConnectionPoster::Verbs(resources) && resources.has_qp
            && resources.qp_num == built.qp_num && resources.capabilities == built.capabilities
            && resources.cm_owner == Some(cm_id),
{
}

/// A setup succeeds exactly where the connection is there, the setup did, every
/// operation that it reports was accepted and no other, and the connection is still
/// wanted.
pub proof fn a_setup_is_held_to_its_report(
    view: RegistryView,
    token: ConnectionToken,
    accepted_before: usize,
    setup: Result<usize, Error>,
    gate: Result<(), Error>,
    result: Result<SetupSummary, Error>,
)
    requires
        setup_outcome(view, token, accepted_before, setup, gate, result),
    ensures
        result is Ok <==> view.connected(token) && setup is Ok && gate is Ok && view.connection(
            token,
        ).io_ledger.accepted@.len() == accepted_before + setup->Ok_0,
        result is Ok ==> result->Ok_0.posted_wrs == setup->Ok_0,
        !view.connected(token) ==> result == Err::<SetupSummary, Error>(Error::TransportClosed),
        view.connected(token) && setup is Err ==> result == Err::<SetupSummary, Error>(
            setup->Err_0,
        ),
        view.connected(token) && setup is Ok && view.connection(token).io_ledger.accepted@.len()
            == accepted_before + setup->Ok_0 && gate is Err ==> result == Err::<
            SetupSummary,
            Error,
        >(gate->Err_0),
{
}

/// An installation that failed is kept with its route, whole and quarantined, where the
/// route is still setting up; else nothing changes.
pub proof fn a_failed_installation_is_kept(
    view: RegistryView,
    token: ConnectionToken,
    resources: FailedConnectionInstallResources,
)
    ensures
        view.has(token) && view.entry(token).quarantine is None && view.entry(
            token,
        ).connection is None ==> {
            let after = install_retained(view, token, resources);
            &&& after.has(token)
            &&& after.entry(token).quarantine == Some(true)
            &&& after.entry(token).route == view.entry(token).route
            &&& after.entry(token).lifecycle == view.entry(token).lifecycle
            &&& match resources {
                FailedConnectionInstallResources::Unregistered { poster, reservation } => {
                    &&& after.entry(token).setup is Some
                    &&& after.entry(token).setup->0.poster == poster
                    &&& after.entry(token).setup->0.reservation.permit == reservation.permit
                    &&& after.entry(token).setup->0.reservation.state.is_quarantined()
                    &&& after.entry(token).connection is None
                },
                FailedConnectionInstallResources::Detached(connection) => {
                    &&& after.entry(token).connection is Some
                    &&& after.connection(token).poster == connection.poster
                    &&& after.connection(token).io_ledger == connection.io_ledger
                    &&& connection.admission matches Some(reservation) ==> {
                        &&& after.connection(token).admission is Some
                        &&& after.connection(token).admission->0.state.is_quarantined()
                        &&& after.connection(token).admission->0.permit == reservation.permit
                    }
                },
            }
            &&& others_kept(view, after, token)
        },
        !(view.has(token) && view.entry(token).quarantine is None && view.entry(
            token,
        ).connection is None) ==> install_retained(view, token, resources) == view,
{
}

/// What is left of an installation that failed is destroyed as a whole or stays: a queue
/// pair that the provider keeps keeps its identifier.
pub proof fn a_failed_installation_is_destroyed_as_a_whole(
    token: ConnectionToken,
    poster: ConnectionPoster,
    reservation: ConnectionReservation,
    reply: Result<bool, Error>,
)
    ensures
        ({
            let resources = FailedConnectionInstallResources::Unregistered { poster, reservation };
            let after = resources.after_destroy(reply);
            &&& after matches FailedConnectionInstallResources::Unregistered {
                poster: left,
                reservation: kept,
            } && kept == reservation && match poster {
                ConnectionPoster::Verbs(held) => if held.has_qp && reply is Err {
                    left == poster
                } else {
                    !left.holds_qp() && left.cm_owner() is None
                },
                ConnectionPoster::Synthetic { .. } => left == poster,
            }
            &&& match poster {
                ConnectionPoster::Verbs(held) => resources.destroyed(reply) <==> !held.has_qp
                    || reply is Ok,
                ConnectionPoster::Synthetic { .. } => resources.destroyed(reply) <==> reply is Ok,
            }
            &&& resources.poster() == poster
            &&& resources.keeps(token, reservation)
        }),
{
}

/// A connection that could not be attached counts as destroyed exactly where its queue
/// pair was, before or now.
pub proof fn a_detached_connection_is_destroyed_with_its_queue_pair(
    connection: ConnectionState,
    reply: Result<bool, Error>,
)
    ensures
        ({
            let resources = FailedConnectionInstallResources::Detached(connection);
            &&& resources.poster() == connection.poster
            &&& connection.qp_destroyed ==> resources.destroyed(reply)
            &&& !connection.qp_destroyed ==> match connection.poster {
                ConnectionPoster::Verbs(held) => resources.destroyed(reply) <==> held.has_qp
                    && reply is Ok,
                ConnectionPoster::Synthetic { .. } => resources.destroyed(reply) <==> reply == Ok::<
                    bool,
                    Error,
                >(true),
            }
            &&& resources.after_destroy(reply) matches FailedConnectionInstallResources::Detached(
                left,
            ) && left.io_closed && (resources.destroyed(reply) ==> left.qp_destroyed)
        }),
{
}

/// A connection that is registered without a route is active, found by its queue pair
/// and new; the registry has room for it exactly while its slots, those that can never
/// be used again among them, are fewer than its capacity.
pub proof fn a_lone_connection_is_active(
    before: RegistryView,
    after: RegistryView,
    token: ConnectionToken,
    poster: ConnectionPoster,
    local_addr: Option<String>,
    peer_addr: Option<String>,
    reservation: ConnectionReservation,
)
    requires
        registered_alone(before, after, token, poster, local_addr, peer_addr, reservation),
    ensures
        after.connected(token),
        after.entry(token).lifecycle == Lifecycle::Active,
        after.entry(token).quarantine is None,
        after.entry(token).route is Unrouted,
        after.connection(token).token == token,
        after.connection(token).poster == poster,
        after.connection(token).io_ledger.accepted@.len() == 0,
        !after.connection(token).io_closed,
        after.qp_index =~= before.qp_index.insert(after.connection(token).qp_num, token),
        match poster {
            ConnectionPoster::Synthetic { qp_num, .. } => after.connection(token).qp_num == qp_num,
            ConnectionPoster::Verbs(resources) => after.connection(token).qp_num
                == resources.qp_num,
        },
        after.slots.entries.remove(token) =~= before.slots.entries.remove(token),
        !before.slots.tabled() || !before.has(token),
        registry_has_room(before) <==> before.slots.entries.dom().len() + before.spent
            < before.slots.capacity,
{
}

} // verus!
