use rdma_session::actions::{Action, IoTerminalEvent, ReactorActions};
use rdma_session::config::{build_qp, QpCapabilities, RdmaConnectionConfig};
use rdma_session::connection::{
    CmId, ConnectionPoster, ConnectionState, QpDestroyStatus, RdmaConnectionIdentity,
    VerbsConnectionResources,
};
use rdma_session::error::{Error, IoError, IoErrorKind};
use rdma_session::install::{
    install_reserved_connection, run_setup_before_establish, FailedConnectionInstallResources,
};
use rdma_session::registry::ConnectionRegistry;
use rdma_session::session::RdmaConnection;
use rdma_session::slots::Lookup;
use rdma_session::terminal::MemoizedTerminalResult;
use rdma_session::token::{ConnectionToken, OperationToken};

fn synthetic(qp_num: u32) -> ConnectionPoster {
    ConnectionPoster::Synthetic { qp_num, capabilities: None }
}

fn capabilities(max_send_wr: u32) -> QpCapabilities {
    QpCapabilities { max_send_wr, max_recv_wr: 34, max_send_sge: 1, max_recv_sge: 1 }
}

fn verbs(qp_num: u32) -> ConnectionPoster {
    ConnectionPoster::Verbs(VerbsConnectionResources::new_shared(
        qp_num,
        capabilities(19),
        CmId { raw_id: 71, context_key: 72, context_token: Some(73) },
    ))
}

fn state(slot: u32, poster: ConnectionPoster) -> ConnectionState {
    ConnectionState::new(ConnectionToken { slot, generation: 1 }, poster, None, None, None)
}

fn register(registry: &mut ConnectionRegistry, qp_num: u32) -> ConnectionToken {
    match registry.register(synthetic(qp_num), None, None, None) {
        Ok(token) => token,
        Err((error, _, _)) => panic!("connection registration failed: {}", error.to_string()),
    }
}

#[test]
fn posting_authority_is_borrowed_from_the_entry_owned_poster() {
    let authority = synthetic(1);
    assert_eq!(authority.qp_num(), 1);
    let mut registry = ConnectionRegistry::new(1);
    let token = registry.register(authority, None, None, None).ok().unwrap();
    assert_eq!(registry.connection(token).unwrap().poster.qp_num(), 1);
    let connection = registry.release_unindexed(token).expect(
        "the connection entry is the sole owning poster",
    );
    assert_eq!(connection.poster.qp_num(), 1);
    drop(connection);
    assert!(registry.connection(token).is_none());
}

#[test]
fn live_io_proofs_require_exact_identity() {
    let mut registry = ConnectionRegistry::new(1);
    let token = register(&mut registry, 1);

    let live = registry.prove_live_io(token, 1).expect("exact live proof");
    assert!(live.proves(token, 1));
    assert!(registry.prove_live_io(token, 2).is_none());
    let identity = registry.connection(token).unwrap().identity();
    assert_eq!(identity.session_token(), token);
    assert_eq!(identity.qp_num(), 1);

    let wrong_generation = ConnectionToken { slot: token.slot, generation: token.generation + 1 };
    registry.set_qp_mapping(1, wrong_generation);
    assert!(registry.prove_live_io(token, 1).is_none());

    registry.set_qp_mapping(1, token);
    assert!(registry.begin_close(token));
    registry.connection_mut(token).unwrap().transition_to_error_once(Ok(())).unwrap();
    assert!(registry.request_retirement(token));
    assert!(registry.begin_retirement(token));
    let retained =
        registry.release(token, 1).expect("the exact live generation remains registered");
    registry.set_qp_mapping(1, token);
    assert!(
        registry.prove_live_io(token, 1).is_none(),
        "a released generation cannot mint a live I/O proof even when its QP mapping remains"
    );
    assert!(registry.detach_qp_index(token, 1));

    let replacement = register(&mut registry, 1);
    assert_eq!(replacement.slot, token.slot);
    assert_ne!(replacement.generation, token.generation);
    assert!(registry.prove_live_io(token, 1).is_none());
    assert!(
        registry.prove_live_io(replacement, 1).is_some_and(|proof| proof.proves(replacement, 1))
    );
    drop(retained);
}

#[test]
fn terminal_events_are_pending_until_backend_state_is_committed() {
    let mut connection = state(0, synthetic(1));
    assert!(connection.install_io_event_sender(false).is_none());

    let mut actions = ReactorActions::new();
    let disconnected = connection.mark_disconnected();
    assert!(!connection.io_is_open());
    assert!(actions.queue.is_empty());
    actions.push(Action::IoEvent { connection: connection.token, event: disconnected });
    let failed = connection.mark_cm_failure_into(Error::DriverShutdown, &mut actions);
    assert!(matches!(failed, IoTerminalEvent::Terminal(Error::DriverShutdown)));
    let closed = connection.finish_retirement_into(&mut actions);
    assert!(matches!(closed, IoTerminalEvent::Closed));
    assert!(matches!(actions.queue[0], Action::IoEvent { event: IoTerminalEvent::Disconnected, .. }));
    assert!(matches!(actions.queue[1], Action::WakeClose { .. }));
    assert!(matches!(actions.queue[2], Action::WakeClose { .. }));
}

#[test]
fn returned_qp_capabilities_must_not_be_reduced() {
    let config = RdmaConnectionConfig::default();
    QpCapabilities { max_send_wr: 19, max_recv_wr: 34, max_send_sge: 1, max_recv_sge: 1 }
        .require(&config)
        .unwrap();
    assert!(
        QpCapabilities { max_send_wr: 18, max_recv_wr: 34, max_send_sge: 1, max_recv_sge: 1 }
            .require(&config)
            .is_err()
    );
}

#[test]
fn the_first_reduced_capability_is_named() {
    let error = capabilities(18).require(&RdmaConnectionConfig::default()).unwrap_err();
    assert!(matches!(
        error,
        Error::InvalidConfig(message)
            if message == "provider returned maximum send WRs 18, below requested 19"
    ));
}

#[test]
fn public_connection_surface_is_send_sync_without_raw_accessors() {
    fn assert_send_sync<T: Send + Sync + 'static>() {}
    assert_send_sync::<RdmaConnection>();
    let _: fn(&RdmaConnection) -> RdmaConnectionIdentity = RdmaConnection::identity;
    let _: fn(&RdmaConnection) -> Result<String, Error> = RdmaConnection::local_addr;
    let _: fn(&RdmaConnection) -> Result<String, Error> = RdmaConnection::peer_addr;
}

#[test]
fn memoized_close_failure_preserves_its_typed_error() {
    let outcome =
        MemoizedTerminalResult::from_error(Error::InvalidConfig("typed close failure".into()));
    for result in [outcome.clone().into_result(), outcome.into_result()] {
        assert!(
            matches!(result, Err(Error::InvalidConfig(ref message)) if message == "typed close failure")
        );
    }
}

#[test]
fn destroy_quarantine_publishes_event_and_outcome_once() {
    let mut connection = state(0, synthetic(1));
    let mut actions = ReactorActions::new();
    let mut publications = 0;

    for (failure, first) in [("first destroy failure", true), ("repeated destroy failure", false)] {
        let event = connection
            .publish_destroy_quarantine_into(&Error::InvalidConfig(failure.into()), &mut actions);
        assert_eq!(event.is_some(), first);
        publications += event.iter().count();
    }

    assert_eq!(publications, 1);
    assert!(matches!(
        connection.close.outcome().unwrap().into_result(),
        Err(Error::ConnectionDestroyQuarantined { cause })
            if cause.contains("first destroy failure")
    ));
}

#[test]
fn destroy_with_accepted_work_fails_closed_without_destroying() {
    let mut connection = state(1, synthetic(7));
    let error = match connection.destroy_connection_resources(1, Ok(true)) {
        Ok(_) => panic!("accepted work must prevent connection destruction"),
        Err(error) => error,
    };
    assert!(matches!(
        error,
        Error::EngineWedged { retained_bundles: 1, outstanding_operations: 1, cq_debt: 1 }
    ));
    assert!(!connection.qp_destroyed);
    assert!(connection.poster.has_qp());
}

#[test]
fn missing_qp_returns_typed_post_errors() {
    let resources = VerbsConnectionResources {
        has_qp: false,
        qp_num: 9,
        capabilities: QpCapabilities {
            max_send_wr: 1,
            max_recv_wr: 1,
            max_send_sge: 1,
            max_recv_sge: 1,
        },
        cm_owner: None,
    };

    assert!(matches!(resources.post_send_owned(), Err(Error::TransportClosed)));
    assert!(matches!(resources.post_recv_owned(), Err(Error::TransportClosed)));
}

#[test]
fn connection_close_observer_waits_for_retirement_after_cm_failure() {
    let mut registry = ConnectionRegistry::new(1);
    let token = register(&mut registry, 18);
    let mut actions = ReactorActions::new();
    let connection = registry.connection_mut(token).unwrap();
    let _pending = connection.mark_cm_failure_into(Error::TransportClosed, &mut actions);
    assert!(
        connection.close.outcome().is_none(),
        "ordinary close errors remain hidden until QP/CmId retirement"
    );
    assert!(RdmaConnection::observe_close(&connection.close, None).is_none());
    let _pending = connection.finish_retirement_into(&mut actions);
    assert!(matches!(
        connection.close.outcome().unwrap().into_result(),
        Err(Error::TransportClosed)
    ));
}

#[test]
fn qp_destroy_mints_one_exact_non_replayable_proof() {
    let mut registry = ConnectionRegistry::new(1);
    let token = register(&mut registry, 19);
    let identity = registry.connection(token).unwrap().identity();
    let proof = registry
        .establish_qp_destruction_proof(token, Ok(true))
        .expect("first successful destroy mints proof");
    assert_eq!(proof.connection(), token);
    assert_eq!(proof.qp_num(), identity.qp_num());
    assert!(matches!(
        registry.establish_qp_destruction_proof(token, Ok(true)),
        Err(Error::InvalidConfig(message)) if message.contains("cannot be replayed")
    ));
    let error = rdma_session::drain::reclamation_error(&registry, token, &proof);
    assert!(matches!(error, Some(Error::TransportClosed)));
    let other = ConnectionToken { slot: token.slot, generation: token.generation + 1 };
    assert!(rdma_session::drain::reclamation_error(&registry, other, &proof).is_none());
}

#[test]
fn a_failed_destruction_keeps_the_queue_pair() {
    let mut connection = state(0, verbs(5));
    let refused = Error::Verbs(IoError::other("busy".into()));
    assert!(connection.destroy_qp_for_session(Err(refused)).is_err());
    assert!(connection.poster.has_qp());
    assert!(matches!(
        connection.destroy_qp_for_session(Ok(true)),
        Ok(QpDestroyStatus::DestroyedNow)
    ));
    assert!(!connection.poster.has_qp());
    assert!(matches!(
        connection.destroy_qp_for_session(Ok(true)),
        Ok(QpDestroyStatus::AlreadyDestroyed)
    ));
    let cm_id = connection.destroy_connection_resources(0, Ok(true)).unwrap().unwrap();
    assert_eq!(cm_id.raw_id, 71);
}

#[test]
fn synthetic_posters_have_no_identifier_to_act_on() {
    let poster = synthetic(3);
    assert!(matches!(
        poster.connect(),
        Err(Error::InvalidConfig(message))
            if message == "synthetic connection cannot initiate RDMA-CM connect"
    ));
    assert!(matches!(
        poster.accept(),
        Err(Error::InvalidConfig(message))
            if message == "synthetic connection cannot initiate RDMA-CM accept"
    ));
    assert_eq!(verbs(3).connect().unwrap(), 71);
}

#[test]
fn a_second_accept_is_refused() {
    let mut connection = state(0, synthetic(1));
    connection.accept_inbound(Ok(())).unwrap();
    assert!(matches!(
        connection.accept_inbound(Ok(())),
        Err(Error::InvalidConfig(message))
            if message == "inbound provider accept was requested more than once"
    ));
}

#[test]
fn queue_pair_requests_carry_the_configured_limits() {
    let request = build_qp(&RdmaConnectionConfig::default().max_send_wr(64)).unwrap();
    assert_eq!(request.max_send_wr, 64);
    assert_eq!(request.max_recv_wr, 34);
    assert!(request.sq_sig_all);
    let too_many = RdmaConnectionConfig::default().max_send_wr(1 << 33);
    assert!(matches!(
        build_qp(&too_many),
        Err(Error::InvalidConfig(message)) if message == "maximum send WRs do not fit u32"
    ));
}

#[test]
fn installation_hands_back_what_it_cannot_install() {
    let mut registry = ConnectionRegistry::new(2);
    let config = RdmaConnectionConfig::default();
    let reservation = registry.try_reserve().unwrap();
    let failure = install_reserved_connection(
        &mut registry,
        None,
        verbs(0),
        &config,
        Ok(()),
        None,
        None,
        reservation,
    )
    .err()
    .unwrap();
    let (error, resources) = failure.into_parts();
    assert!(matches!(error, Error::InvalidConfig(message) if message == "provider returned zero qp_num"));
    let FailedConnectionInstallResources::Unregistered { poster, reservation } = resources else {
        panic!("an unregistered queue pair comes back");
    };
    assert_eq!(poster.reject().unwrap(), 71);

    let token = ConnectionToken { slot: 0, generation: 1 };
    let failure = install_reserved_connection(
        &mut registry,
        Some(token),
        verbs(8),
        &config,
        Ok(()),
        None,
        None,
        reservation,
    )
    .err()
    .unwrap();
    let (error, mut resources) = failure.into_parts();
    assert!(matches!(
        error,
        Error::InvalidConfig(message)
            if message == "connection route generation disappeared before QP registration"
    ));
    assert!(matches!(resources, FailedConnectionInstallResources::Detached(_)));
    let cm_id = resources.destroy_for_session(Ok(true)).unwrap().unwrap();
    assert_eq!(cm_id.context_key, 72);
}

#[test]
fn a_refused_configuration_installs_nothing() {
    let mut registry = ConnectionRegistry::new(1);
    let reservation = registry.try_reserve().unwrap();
    let failure = install_reserved_connection(
        &mut registry,
        None,
        verbs(8),
        &RdmaConnectionConfig::default(),
        Err(Error::InvalidConfig("too deep".into())),
        None,
        None,
        reservation,
    )
    .err()
    .unwrap();
    assert!(matches!(failure.error, Error::InvalidConfig(message) if message == "too deep"));
    assert_eq!(registry.live(), 0);
    assert!(registry.lookup_qp(8).is_none());
}

#[test]
fn an_installed_connection_shows_its_addresses() {
    let mut registry = ConnectionRegistry::new(1);
    let reservation = registry.try_reserve().unwrap();
    assert!(registry.try_reserve().is_none());
    let token = install_reserved_connection(
        &mut registry,
        None,
        verbs(8),
        &RdmaConnectionConfig::default(),
        Ok(()),
        Some("10.0.0.1:1".into()),
        None,
        reservation,
    )
    .ok()
    .unwrap();
    assert!(matches!(registry.lookup(token), Lookup::Occupied(found) if found.qp_num == 8));
    let handle = RdmaConnection::from_registered(registry.connection(token).unwrap(), None);
    assert_eq!(handle.local_addr().unwrap(), "10.0.0.1:1");
    assert!(matches!(
        handle.peer_addr(),
        Err(Error::InvalidConfig(message)) if message == "connection peer address is unavailable"
    ));
    assert_eq!(handle.clone().session_token(), token);
    assert_eq!(handle.identity().qp_num(), 8);
}

#[test]
fn setups_must_report_what_they_posted() {
    let mut registry = ConnectionRegistry::new(1);
    let token = register(&mut registry, 4);
    let ledger = &mut registry.connection_mut(token).unwrap().io_ledger;
    for slot in 0..3 {
        ledger.add_accepted(OperationToken { slot, generation: 1 });
    }
    let summary = run_setup_before_establish(&registry, token, 1, Ok(2), Ok(())).unwrap();
    assert_eq!(summary.posted_wrs, 2);
    assert!(matches!(
        run_setup_before_establish(&registry, token, 1, Ok(1), Ok(())),
        Err(Error::InvalidConfig(message))
            if message == "pre-establishment setup reported 1 posted WRs but registered 2"
    ));
    assert!(matches!(
        run_setup_before_establish(&registry, token, 4, Ok(0), Ok(())),
        Err(Error::InvalidConfig(message))
            if message == "pre-establishment setup reduced the accepted WR set"
    ));
    assert!(matches!(
        run_setup_before_establish(&registry, token, 1, Ok(2), Err(Error::DriverShutdown)),
        Err(Error::DriverShutdown)
    ));
    let unknown = ConnectionToken { slot: 9, generation: 1 };
    assert!(matches!(
        run_setup_before_establish(&registry, unknown, 0, Ok(0), Ok(())),
        Err(Error::TransportClosed)
    ));
}

#[test]
fn quarantine_reports_outlive_ordinary_outcomes() {
    let mut connection = state(0, synthetic(1));
    let mut actions = ReactorActions::new();
    let event = connection.publish_quarantine_into(3, 2, &mut actions);
    assert!(matches!(
        event,
        IoTerminalEvent::Terminal(Error::ConnectionQuarantined {
            outstanding_operations: 3,
            cq_debt: 2
        })
    ));
    assert!(matches!(
        connection.close.outcome().unwrap().into_result(),
        Err(Error::ConnectionQuarantined { outstanding_operations: 3, cq_debt: 2 })
    ));
    let aborted = Error::Verbs(IoError::new(IoErrorKind::ConnectionAborted, "late".into()));
    connection.record_cm_failure(aborted);
    assert!(matches!(
        connection.close.outcome().unwrap().into_result(),
        Err(Error::ConnectionQuarantined { .. })
    ));
}

#[test]
fn identities_can_be_hashed() {
    let first = state(1, synthetic(7)).identity();
    let same = state(1, synthetic(7)).identity();
    let other = state(2, synthetic(7)).identity();
    let known: std::collections::HashSet<_> = [first, same, other].into_iter().collect();
    assert_eq!(known.len(), 2);
}
