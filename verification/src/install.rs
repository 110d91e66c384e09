//! Installation of connections whose queue pair was built, and the setup that runs
//! before they are established.

use vstd::prelude::*;
use vstd::pervasive::unreached;
use vstd::string::StringExecFns;

use crate::admission::ConnectionReservation;
use crate::config::RdmaConnectionConfig;
use crate::connection::{CmId, ConnectionPoster, ConnectionState};
use crate::connection::VerbsConnectionResources;
use crate::error::Error;
use crate::registry::{ConnectionEntry, SetupOwner};
use crate::registry::{ConnectionRegistry, Lifecycle, RegistryView};
use crate::text::{append_decimal, owned};
use crate::text::decimal;
use crate::token::ConnectionToken;

verus! {

/// What an installation that failed still owns.
pub enum FailedConnectionInstallResources {
    /// A queue pair that was never registered.
    Unregistered { poster: ConnectionPoster, reservation: ConnectionReservation },
    /// A connection that could not be attached to its route.
    Detached(ConnectionState),
}

/// Why an installation failed, with what it still owns.
pub struct ConnectionInstallFailure {
    pub error: Error,
    pub resources: FailedConnectionInstallResources,
}

impl ConnectionInstallFailure {
    fn unregistered(
        error: Error,
        poster: ConnectionPoster,
        reservation: ConnectionReservation,
    ) -> (failure: Self)
        ensures
            failure == (ConnectionInstallFailure {
                error,
                resources: FailedConnectionInstallResources::Unregistered { poster, reservation },
            }),
    {
        ConnectionInstallFailure {
            error,
            resources: FailedConnectionInstallResources::Unregistered { poster, reservation },
        }
    }

    pub fn into_parts(self) -> (parts: (Error, FailedConnectionInstallResources))
        ensures
            parts == (self.error, self.resources),
    {
        (self.error, self.resources)
    }
}

/// Whether the provider granted less than the configuration asks for.
pub open spec fn granted_too_little(poster: ConnectionPoster, config: RdmaConnectionConfig) -> bool {
    poster.granted() matches Some(capabilities) && !capabilities.covers(config)
}

/// Whether an installation without a route finds a free place in the registry.
pub open spec fn registry_has_room(view: RegistryView) -> bool {
    view.slots.entries.dom().len() + view.spent < view.slots.capacity
}

/// Installs a connection whose place was reserved: on the route it was set up for,
/// or on its own.
///
/// `config_check` says whether the engine takes the configuration. Nothing is
/// registered on failure, and everything comes back that was to be installed.
pub fn install_reserved_connection(
    connections: &mut ConnectionRegistry,
    route_token: Option<ConnectionToken>,
    poster: ConnectionPoster,
    config: &RdmaConnectionConfig,
    config_check: Result<(), Error>,
    local_addr: Option<String>,
    peer_addr: Option<String>,
    reservation: ConnectionReservation,
) -> (result: Result<ConnectionToken, ConnectionInstallFailure>)
    requires
        old(connections).wf(),
    ensures
        final(connections).wf(),
        result is Err ==> final(connections)@ == old(connections)@,
        ({
            let before = old(connections)@;
            let qp_num = poster.queue_pair();
            let unregistered = FailedConnectionInstallResources::Unregistered {
                poster,
                reservation,
            };
            match config_check {
                Err(error) => result == Err::<ConnectionToken, ConnectionInstallFailure>(
                    ConnectionInstallFailure { error, resources: unregistered },
                ),
                Ok(()) => if granted_too_little(poster, *config) {
                    result matches Err(failure) && failure.resources == unregistered
                        && failure.error.is_invalid_config(
                        poster.granted()->0.shortfall(*config),
                    )
                } else if ConnectionRegistry::qp_refusal(before, qp_num) is Some {
                    result matches Err(failure) && failure.resources == unregistered
                        && failure.error.is_invalid_config(
                        ConnectionRegistry::qp_refusal(before, qp_num)->0,
                    )
                } else {
                    match route_token {
                        Some(token) => match ConnectionRegistry::attach_refusal(
                            before,
                            token,
                            qp_num,
                        ) {
                            Some(text) => {
                                &&& result is Err
                                &&& result->Err_0.error.is_invalid_config(text)
                                &&& result->Err_0.resources matches
                                    FailedConnectionInstallResources::Detached(connection)
                                    && connection.is_fresh(
                                    token,
                                    poster,
                                    local_addr,
                                    peer_addr,
                                    Some(reservation),
                                )
                            },
                            None => {
                                &&& result == Ok::<ConnectionToken, ConnectionInstallFailure>(token)
                                &&& final(connections)@.connection(token).is_fresh(
                                    token,
                                    poster,
                                    local_addr,
                                    peer_addr,
                                    Some(reservation),
                                )
                                &&& final(connections)@ == (RegistryView {
                                    qp_index: before.qp_index.insert(qp_num, token),
                                    ..before.set_connection(
                                        token,
                                        final(connections)@.connection(token),
                                    )
                                })
                            },
                        },
                        None => if registry_has_room(before) {
                            &&& result is Ok
                            &&& registered_alone(
                                before,
                                final(connections)@,
                                result->Ok_0,
                                poster,
                                local_addr,
                                peer_addr,
                                reservation,
                            )
                        } else {
                            result == Err::<ConnectionToken, ConnectionInstallFailure>(
                                ConnectionInstallFailure {
                                    error: Error::CapacityExhausted,
                                    resources: unregistered,
                                },
                            )
                        },
                    }
                },
            }
        }),
{
    if let Err(error) = config_check {
        return Err(ConnectionInstallFailure::unregistered(error, poster, reservation));
    }
    if let Some(capabilities) = poster.capabilities() {
        if let Err(error) = capabilities.require(config) {
            return Err(ConnectionInstallFailure::unregistered(error, poster, reservation));
        }
    }
    let qp_num: u32 = poster.qp_num();
    if let Err(error) = connections.validate_qp_registration(qp_num) {
        return Err(ConnectionInstallFailure::unregistered(error, poster, reservation));
    }
    match route_token {
        Some(token) => {
            let connection = ConnectionState::new(
                token,
                poster,
                local_addr,
                peer_addr,
                Some(reservation),
            );
            match connections.attach_registered(token, connection) {
                Ok(()) => Ok(token),
                Err((error, connection)) => Err(
                    ConnectionInstallFailure {
                        error,
                        resources: FailedConnectionInstallResources::Detached(connection),
                    },
                ),
            }
        },
        None => match connections.register(poster, local_addr, peer_addr, Some(reservation)) {
            Ok(token) => Ok(token),
            Err((error, poster, returned)) => match returned {
                Some(reservation) => Err(
                    ConnectionInstallFailure::unregistered(error, poster, reservation),
                ),
                None => unreached(),
            },
        },
    }
}

/// Whether `after` is the registry once an established connection without a route
/// was registered under `token`.
pub open spec fn registered_alone(
    before: RegistryView,
    after: RegistryView,
    token: ConnectionToken,
    poster: ConnectionPoster,
    local_addr: Option<String>,
    peer_addr: Option<String>,
    reservation: ConnectionReservation,
) -> bool {
    let entry = after.entry(token);
    &&& before.slots.may_issue(token)
    &&& entry.is_live(Lifecycle::Active)
    &&& entry.route is Unrouted
    &&& entry.setup is None
    &&& entry.connection is Some
    &&& entry.connection->0.is_fresh(token, poster, local_addr, peer_addr, Some(reservation))
    &&& after == (RegistryView {
        slots: before.slots.added(token, entry),
        qp_index: before.qp_index.insert(poster.queue_pair(), token),
        ..before
    })
}

impl ConnectionPoster {
    /// The poster once its identifier was given up.
    pub open spec fn without_cm_owner(self) -> ConnectionPoster {
        match self {
            ConnectionPoster::Verbs(resources) => ConnectionPoster::Verbs(
                VerbsConnectionResources { cm_owner: None, ..resources },
            ),
            other => other,
        }
    }

    /// Gives up queue pair and identifier, the provider answering the destruction
    /// of a queue pair that is still there with `reply`.
    pub fn destroy_connection(&mut self, reply: Result<bool, Error>) -> (result: Result<
        Option<CmId>,
        Error,
    >)
        ensures
            match old(self).destroyed(reply) {
                Ok(_) => {
                    &&& result == Ok::<Option<CmId>, Error>(old(self).cm_owner())
                    &&& *final(self) == (if old(self).holds_qp() {
                        old(self).after_destroy(reply)
                    } else {
                        *old(self)
                    }).without_cm_owner()
                },
                Err(error) => {
                    &&& result == Err::<Option<CmId>, Error>(error)
                    &&& *final(self) == *old(self)
                },
            },
    {
        match self.destroy_qp(reply) {
            Ok(_) => Ok(self.take_cm_owner()),
            Err(error) => Err(error),
        }
    }
}

impl FailedConnectionInstallResources {
    pub open spec fn poster(self) -> ConnectionPoster {
        match self {
            FailedConnectionInstallResources::Unregistered { poster, .. } => poster,
            FailedConnectionInstallResources::Detached(connection) => connection.poster,
        }
    }

    /// Whether these resources keep what was reserved for a route.
    pub open spec fn keeps(self, token: ConnectionToken, reservation: ConnectionReservation) -> bool {
        match self {
            FailedConnectionInstallResources::Unregistered { reservation: kept, .. } => kept
                == reservation,
            FailedConnectionInstallResources::Detached(connection) => connection.token == token
                && connection.admission == Some(reservation.registered()),
        }
    }

    /// The identifier on which the peer is turned away, or why it cannot be.
    pub fn reject_for_session(&self) -> (target: Result<u64, Error>)
        ensures
            match self.poster() {
                ConnectionPoster::Synthetic { .. } => target matches Err(error)
                    && error.is_invalid_config(
                    "synthetic connection cannot reject an RDMA-CM child"@,
                ),
                ConnectionPoster::Verbs(resources) => match resources.cm_owner {
                    Some(cm_id) => target == Ok::<u64, Error>(cm_id.raw_id),
                    None => target == Err::<u64, Error>(Error::TransportClosed),
                },
            },
    {
        match self {
            FailedConnectionInstallResources::Unregistered { poster, .. } => poster.reject(),
            FailedConnectionInstallResources::Detached(connection) => connection.poster.reject(),
        }
    }

    /// Whether giving up what the installation owned succeeds.
    pub open spec fn destroyed(self, reply: Result<bool, Error>) -> bool {
        match self {
            FailedConnectionInstallResources::Unregistered { poster, .. } => poster.destroyed(
                reply,
            ) is Ok,
            FailedConnectionInstallResources::Detached(connection) => connection.qp_destroyed
                || connection.poster.destroyed(reply) == Ok::<bool, Error>(true),
        }
    }

    /// The resources after they were given up, or kept where that failed.
    pub open spec fn after_destroy(self, reply: Result<bool, Error>) -> FailedConnectionInstallResources {
        match self {
            FailedConnectionInstallResources::Unregistered { poster, reservation } =>
            FailedConnectionInstallResources::Unregistered {
                poster: if poster.destroyed(reply) is Err {
                    poster
                } else if poster.holds_qp() {
                    poster.after_destroy(reply).without_cm_owner()
                } else {
                    poster.without_cm_owner()
                },
                reservation,
            },
            FailedConnectionInstallResources::Detached(connection) =>
            FailedConnectionInstallResources::Detached(connection.after_resource_destroy(reply)),
        }
    }

    /// Gives up what the installation owned, the provider answering the destruction
    /// of a queue pair that is still there with `reply`.
    pub fn destroy_for_session(&mut self, reply: Result<bool, Error>) -> (result: Result<
        Option<CmId>,
        Error,
    >)
        ensures
            *final(self) == old(self).after_destroy(reply),
            if old(self).destroyed(reply) {
                result == Ok::<Option<CmId>, Error>(old(self).poster().cm_owner())
            } else {
                match old(self).poster().destroyed(reply) {
                    Err(error) => result == Err::<Option<CmId>, Error>(error),
                    Ok(_) => result matches Err(error) && error.is_invalid_config(
                        "connection resources lost QP ownership without a destruction boundary"@,
                    ),
                }
            },
    {
        match self {
            FailedConnectionInstallResources::Unregistered { poster, .. } => {
                poster.destroy_connection(reply)
            },
            FailedConnectionInstallResources::Detached(connection) => {
                connection.destroy_connection_resources(0, reply)
            },
        }
    }
}

/// The registry once a failed installation that could not be undone was kept under
/// the route it was meant for.
pub open spec fn install_retained(
    view: RegistryView,
    token: ConnectionToken,
    resources: FailedConnectionInstallResources,
) -> RegistryView {
    if view.has(token) && view.entry(token).is_establishing() {
        match resources {
            FailedConnectionInstallResources::Unregistered { poster, reservation } => view.set(
                token,
                ConnectionEntry {
                    quarantine: Some(true),
                    setup: Some(SetupOwner { poster, reservation: reservation.quarantined() }),
                    ..view.entry(token)
                },
            ),
            FailedConnectionInstallResources::Detached(connection) => view.set(
                token,
                ConnectionEntry {
                    quarantine: Some(true),
                    connection: Some(connection.reservation_quarantined()),
                    ..view.entry(token)
                },
            ),
        }
    } else {
        view
    }
}

/// Keeps a failed installation that could not be undone.
pub fn retain_failed_install(
    connections: &mut ConnectionRegistry,
    token: ConnectionToken,
    resources: FailedConnectionInstallResources,
)
    requires
        old(connections).wf(),
    ensures
        final(connections).wf(),
        final(connections)@ == install_retained(old(connections)@, token, resources),
{
    match resources {
        FailedConnectionInstallResources::Unregistered { poster, reservation } => {
            let _ = connections.retain_setup_quarantine(token, poster, reservation);
        },
        FailedConnectionInstallResources::Detached(connection) => {
            let _ = connections.retain_detached_quarantine(token, connection);
        },
    }
}

/// What a setup reports.
#[derive(Clone, Copy, Debug, PartialEq, Eq, Structural)]
pub struct SetupSummary {
    pub posted_wrs: usize,
}

/// The words for a setup whose report differs from what was registered.
pub open spec fn setup_mismatch_text(reported: nat, registered: nat) -> Seq<char> {
    "pre-establishment setup reported "@ + decimal(reported) + " posted WRs but registered "@
        + decimal(registered)
}

/// What the setup of a connection leads to.
///
/// The setup must report exactly the operations that were accepted meanwhile, and
/// `gate` says whether anything has since ended the attempt.
pub open spec fn setup_outcome(
    view: RegistryView,
    token: ConnectionToken,
    accepted_before: usize,
    setup: Result<usize, Error>,
    gate: Result<(), Error>,
    result: Result<SetupSummary, Error>,
) -> bool {
    let accepted = ConnectionRegistry::accepted_of(view, token);
    if !view.connected(token) {
        result == Err::<SetupSummary, Error>(Error::TransportClosed)
    } else {
        match setup {
            Err(error) => result == Err::<SetupSummary, Error>(error),
            Ok(reported) => if accepted < accepted_before {
                result matches Err(error) && error.is_invalid_config(
                    "pre-establishment setup reduced the accepted WR set"@,
                )
            } else if accepted - accepted_before != reported {
                result matches Err(error) && error.is_invalid_config(
                    setup_mismatch_text(reported as nat, (accepted - accepted_before) as nat),
                )
            } else {
                match gate {
                    Err(error) => result == Err::<SetupSummary, Error>(error),
                    Ok(()) => result == Ok::<SetupSummary, Error>(
                        SetupSummary { posted_wrs: reported },
                    ),
                }
            },
        }
    }
}

/// Decides whether a connection may be established after its setup ran.
pub fn run_setup_before_establish(
    connections: &ConnectionRegistry,
    token: ConnectionToken,
    accepted_before: usize,
    setup: Result<usize, Error>,
    gate: Result<(), Error>,
) -> (result: Result<SetupSummary, Error>)
    requires
        connections.wf(),
    ensures
        setup_outcome(connections@, token, accepted_before, setup, gate, result),
{
    if connections.connection(token).is_none() {
        return Err(Error::TransportClosed);
    }
    let reported: usize = match setup {
        Ok(posted) => posted,
        Err(error) => {
            return Err(error);
        },
    };
    let accepted: usize = connections.accepted_count(token);
    if accepted < accepted_before {
        return Err(Error::invalid("pre-establishment setup reduced the accepted WR set"));
    }
    let registered: usize = accepted - accepted_before;
    if registered != reported {
        let mut text: String = owned("pre-establishment setup reported ");
        append_decimal(&mut text, reported as u64);
        text.append(" posted WRs but registered ");
        append_decimal(&mut text, registered as u64);
        assert(text@ =~= setup_mismatch_text(reported as nat, registered as nat));
        return Err(Error::InvalidConfig(text));
    }
    match gate {
        Ok(()) => Ok(SetupSummary { posted_wrs: reported }),
        Err(error) => Err(error),
    }
}

} // verus!
