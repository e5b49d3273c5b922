use mz_cluster::attempt::{Attempt, Phase};
use mz_cluster::dial::DialStep;
use mz_cluster::epoch::Epoch;
use mz_cluster::error::CreateSocketsError;

/// One end of a connection: (this process, the peer, a generation tag).
type End = (usize, usize, u64);

fn addrs(n: usize) -> Vec<String> {
    (0..n).map(|i| format!("a{i}:7000")).collect()
}

fn start(i: usize, n: usize, fresh: Epoch) -> Attempt<End> {
    let mut a = Attempt::new(i, addrs(n));
    assert_eq!(a.phase(), Phase::Binding);
    a.on_bound_with(fresh);
    a
}

/// Runs the handshake of `d` dialing its next peer `l`, as the two
/// processes would over one connection. Returns what each side decided; the
/// listener's side is `None` when it dropped the connection on the index.
fn connect(
    d: &mut Attempt<End>,
    l: &mut Attempt<End>,
    tag: u64,
) -> (
    Result<DialStep, CreateSocketsError>,
    Option<Result<bool, CreateSocketsError>>,
) {
    let di = d.my_index();
    let li = l.my_index();
    assert_eq!(d.next_dial(), Some(li));
    assert_eq!(l.phase(), Phase::Accepting);
    match l.check_index(di as u64) {
        Ok(true) => {}
        other => return (Ok(DialStep::Redial), Some(other)),
    }
    let listener_epoch = l.epoch().unwrap();
    let reply = d.reply_epoch(listener_epoch);
    let dialed = d.on_dialed(listener_epoch, (di, li, tag));
    let accepted = l.on_accepted(di as u64, reply, (li, di, tag));
    (dialed, Some(accepted))
}

fn check_mesh(a: Attempt<End>, n: usize, tag: u64) -> usize {
    let me = a.my_index();
    assert_eq!(a.phase(), Phase::Done);
    let mesh = a.into_mesh();
    assert_eq!(mesh.len(), n);
    let mut count = 0;
    for (i, s) in mesh.iter().enumerate() {
        if i == me {
            assert!(s.is_none());
        } else {
            assert_eq!(*s, Some((me, i, tag)));
            count += 1;
        }
    }
    count
}

#[test]
fn three_process_clean_bring_up() {
    let e0 = Epoch::new(1_000, 17);
    let mut p0 = start(0, 3, e0);
    let mut p1 = start(1, 3, Epoch::new(0, 0));
    let mut p2 = start(2, 3, Epoch::new(0, 0));
    assert_eq!(p0.epoch(), Some(e0));
    assert_eq!(p1.phase(), Phase::Dialing);
    assert_eq!(p1.epoch(), None);

    assert_eq!(connect(&mut p1, &mut p0, 0), (Ok(DialStep::Connected), Some(Ok(true))));
    assert_eq!(p1.epoch(), Some(e0));
    assert_eq!(connect(&mut p2, &mut p0, 0), (Ok(DialStep::Connected), Some(Ok(true))));
    assert_eq!(connect(&mut p2, &mut p1, 0), (Ok(DialStep::Connected), Some(Ok(true))));
    assert_eq!(p2.epoch(), Some(e0));

    let total = check_mesh(p0, 3, 0) + check_mesh(p1, 3, 0) + check_mesh(p2, 3, 0);
    assert_eq!(total, 6);
}

#[test]
fn single_process_needs_no_peer() {
    let p0 = start(0, 1, Epoch::new(3, 3));
    assert_eq!(p0.phase(), Phase::Done);
    assert_eq!(p0.next_dial(), None);
    assert_eq!(p0.into_mesh(), vec![None]);
}

#[test]
fn minted_generation_on_bind() {
    let mut p0: Attempt<End> = Attempt::new(0, addrs(2));
    assert_eq!(p0.listen_address(), "0.0.0.0:7000");
    p0.on_bound();
    assert_eq!(p0.phase(), Phase::Accepting);
    assert!(p0.epoch().is_some());
    let mut p1: Attempt<End> = Attempt::new(1, addrs(2));
    p1.on_bound();
    assert_eq!(p1.phase(), Phase::Dialing);
    assert_eq!(p1.epoch(), None);
    assert_eq!(p1.address(0), "a0:7000");
}

#[test]
fn crash_during_bootstrap() {
    // Four processes, so that process 0 is still accepting when the
    // restarted process 1 reaches it.
    let e0 = Epoch::new(1_000, 5);
    let mut p0 = start(0, 4, e0);
    let mut p1 = start(1, 4, Epoch::new(0, 0));
    let mut p2 = start(2, 4, Epoch::new(0, 0));
    assert_eq!(connect(&mut p1, &mut p0, 0).0, Ok(DialStep::Connected));
    assert_eq!(connect(&mut p2, &mut p0, 0).0, Ok(DialStep::Connected));
    assert_eq!(connect(&mut p2, &mut p1, 0).0, Ok(DialStep::Connected));
    // Process 1 crashes after process 2 connected to it, and restarts; its
    // new instance dials process 0, which sees peer 1 a second time.
    drop(p1);
    let mut p1 = start(1, 4, Epoch::new(0, 0));
    let (_, listener) = connect(&mut p1, &mut p0, 1);
    assert_eq!(listener, Some(Err(CreateSocketsError::Reconnect { peer_index: 1 })));
    // Process 0 restarts into a new generation; process 1 joins it.
    let e1 = Epoch::new(2_000, 1);
    let mut p0 = start(0, 4, e1);
    assert_eq!(connect(&mut p1, &mut p0, 1), (Ok(DialStep::Connected), Some(Ok(true))));
    // Process 3 joins the new generation and turns process 2, still of the
    // old one, away; process 2 learns it is doomed.
    let mut p3 = start(3, 4, Epoch::new(0, 0));
    assert_eq!(connect(&mut p3, &mut p0, 1).0, Ok(DialStep::Connected));
    assert_eq!(connect(&mut p3, &mut p1, 1).0, Ok(DialStep::Connected));
    let (dialed, accepted) = connect(&mut p3, &mut p2, 1);
    assert_eq!(dialed, Ok(DialStep::Redial));
    assert_eq!(
        accepted,
        Some(Err(CreateSocketsError::EpochMismatch {
            peer_index: 3,
            peer_epoch: e1,
            my_epoch: e0
        }))
    );
    // Process 2 restarts and joins; process 3 dials it again.
    let mut p2 = start(2, 4, Epoch::new(0, 0));
    assert_eq!(connect(&mut p2, &mut p0, 1).0, Ok(DialStep::Connected));
    assert_eq!(connect(&mut p2, &mut p1, 1).0, Ok(DialStep::Connected));
    assert_eq!(connect(&mut p3, &mut p2, 1), (Ok(DialStep::Connected), Some(Ok(true))));
    for p in [&p0, &p1, &p2, &p3] {
        assert_eq!(p.epoch(), Some(e1));
    }
    let total = check_mesh(p0, 4, 1) + check_mesh(p1, 4, 1) + check_mesh(p2, 4, 1)
        + check_mesh(p3, 4, 1);
    assert_eq!(total, 12);
}

#[test]
fn split_epochs_converge_to_newer() {
    let ea = Epoch::new(1_000, 1);
    let eb = Epoch::new(2_000, 1);
    // Process 1 joined the older generation of a process 0 that since
    // restarted with `eb`; process 2 joined `eb`.
    let mut old0 = start(0, 3, ea);
    let mut p1 = start(1, 3, Epoch::new(0, 0));
    assert_eq!(connect(&mut p1, &mut old0, 0).0, Ok(DialStep::Connected));
    let mut p0 = start(0, 3, eb);
    let mut p2 = start(2, 3, Epoch::new(0, 0));
    assert_eq!(connect(&mut p2, &mut p0, 0).0, Ok(DialStep::Connected));
    // Cross-group handshake: process 1 holds `ea`, process 2 holds `eb`.
    let (dialed, accepted) = connect(&mut p2, &mut p1, 0);
    assert_eq!(dialed, Ok(DialStep::Redial));
    assert_eq!(
        accepted,
        Some(Err(CreateSocketsError::EpochMismatch {
            peer_index: 2,
            peer_epoch: eb,
            my_epoch: ea
        }))
    );
    // Process 1 restarts and joins `eb`; process 2 dials it again.
    let mut p1 = start(1, 3, Epoch::new(0, 0));
    assert_eq!(connect(&mut p1, &mut p0, 0).0, Ok(DialStep::Connected));
    assert_eq!(connect(&mut p2, &mut p1, 0), (Ok(DialStep::Connected), Some(Ok(true))));
    for p in [&p0, &p1, &p2] {
        assert_eq!(p.epoch(), Some(eb));
    }
    let total = check_mesh(p0, 3, 0) + check_mesh(p1, 3, 0) + check_mesh(p2, 3, 0);
    assert_eq!(total, 6);
}

#[test]
fn port_flapping() {
    let mut p: Attempt<End> = Attempt::new(2, addrs(3));
    let mut tries = 0;
    for _ in 0..5 {
        tries += 1;
        assert_eq!(p.on_bind_failure("address in use".to_string()), Ok(1000));
        assert_eq!(p.phase(), Phase::Binding);
    }
    tries += 1;
    p.on_bound();
    assert!(tries >= 6);
    assert_eq!(p.phase(), Phase::Dialing);
    assert_eq!(p.next_dial(), Some(0));
}

#[test]
fn persistent_bind_failure() {
    let mut p: Attempt<End> = Attempt::new(2, addrs(3));
    for _ in 0..9 {
        assert_eq!(p.on_bind_failure("address in use".to_string()), Ok(1000));
    }
    let err = p.on_bind_failure("address in use".to_string()).unwrap_err();
    assert_eq!(
        err,
        CreateSocketsError::Bind {
            address: "0.0.0.0:7000".to_string(),
            error: "address in use".to_string()
        }
    );
    assert!(err.is_fatal());
}

#[test]
fn doomed_predecessor() {
    let e0 = Epoch::new(1_000, 3);
    let mut old0 = start(0, 3, e0);
    let mut p1 = start(1, 3, Epoch::new(0, 0));
    assert_eq!(connect(&mut p1, &mut old0, 0).0, Ok(DialStep::Connected));
    // Process 0 restarts with a new epoch while process 1 still waits for
    // process 2 in the old generation.
    let e1 = Epoch::new(1_500, 9);
    let mut p0 = start(0, 3, e1);
    let mut p2 = start(2, 3, Epoch::new(0, 0));
    assert_eq!(connect(&mut p2, &mut p0, 1).0, Ok(DialStep::Connected));
    let (dialed, accepted) = connect(&mut p2, &mut p1, 1);
    assert_eq!(dialed, Ok(DialStep::Redial));
    assert!(matches!(
        accepted,
        Some(Err(CreateSocketsError::EpochMismatch { .. }))
    ));
    let mut p1 = start(1, 3, Epoch::new(0, 0));
    assert_eq!(connect(&mut p1, &mut p0, 1).0, Ok(DialStep::Connected));
    assert_eq!(connect(&mut p2, &mut p1, 1), (Ok(DialStep::Connected), Some(Ok(true))));
    let total = check_mesh(p0, 3, 1) + check_mesh(p1, 3, 1) + check_mesh(p2, 3, 1);
    assert_eq!(total, 6);
}

#[test]
fn late_peer_of_older_epoch_is_dropped() {
    let mut p0 = start(0, 2, Epoch::new(5_000, 0));
    // A stale instance of process 1 still holds an older epoch; its
    // handshake reaches process 0, which drops it and goes on.
    assert_eq!(p0.check_index(1), Ok(true));
    assert_eq!(p0.on_accepted(1, Epoch::new(4_000, 0), (0, 1, 9)), Ok(false));
    assert_eq!(p0.phase(), Phase::Accepting);
    assert_eq!(p0.epoch(), Some(Epoch::new(5_000, 0)));
    // The current instance connects afterwards.
    let mut p1 = start(1, 2, Epoch::new(0, 0));
    assert_eq!(connect(&mut p1, &mut p0, 2), (Ok(DialStep::Connected), Some(Ok(true))));
    assert_eq!(check_mesh(p0, 2, 2) + check_mesh(p1, 2, 2), 2);
}
