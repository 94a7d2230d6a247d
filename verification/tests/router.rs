//! The routing table.
use brick_channel::frames::OutboundFrame;
use brick_channel::router::Router;
use tokio::sync::mpsc;

fn handle() -> (mpsc::Sender<OutboundFrame>, mpsc::Receiver<OutboundFrame>) {
    mpsc::channel(4)
}

#[test]
fn ids_are_given_out_in_order() {
    let mut router = Router::new();
    let (tx, _rx) = handle();
    assert_eq!(router.register(tx.clone()), 0);
    assert_eq!(router.register(tx.clone()), 1);
    router.drop_conn(0);
    assert_eq!(router.register(tx), 2);
}

#[test]
fn handles_lead_to_their_connections() {
    let mut router = Router::new();
    let (tx1, mut rx1) = handle();
    let (tx2, mut rx2) = handle();
    let a = router.register(tx1);
    let b = router.register(tx2);
    router.associate(a, "u:a".to_string());
    router.outlet(b).unwrap().try_send(OutboundFrame::Pong).unwrap();
    assert!(rx1.try_recv().is_err());
    assert!(rx2.try_recv().is_ok());
    assert!(router.outlet(99).is_none());
    assert_eq!(router.senders_for("u:a").len(), 2);
    for tx in router.senders_for("anyone") {
        tx.try_send(OutboundFrame::Pong).unwrap();
    }
    assert!(rx1.try_recv().is_ok());
    assert!(rx2.try_recv().is_ok());
}

#[test]
fn a_dropped_connection_lets_go_of_its_handle() {
    let mut router = Router::new();
    let (tx, mut rx) = handle();
    let (other, _other_rx) = handle();
    let id = router.register(tx);
    let stays = router.register(other);
    router.associate(id, "u:a".to_string());
    router.associate(id, "u:a".to_string());
    router.associate(id, "u:b".to_string());
    router.associate(stays, "u:b".to_string());
    router.drop_conn(id);
    router.drop_conn(id);
    router.drop_conn(12345);
    assert!(router.outlet(id).is_none());
    assert!(router.outlet(stays).is_some());
    assert_eq!(router.senders_for("u:a").len(), 1);
    // No sender is left, so the channel is closed.
    assert!(matches!(rx.try_recv(), Err(mpsc::error::TryRecvError::Disconnected)));
}

#[test]
fn an_unknown_connection_can_speak_without_harm() {
    let mut router = Router::new();
    router.associate(7, "u:a".to_string());
    assert!(router.outlet(7).is_none());
    assert!(router.senders_for("u:a").is_empty());
}
