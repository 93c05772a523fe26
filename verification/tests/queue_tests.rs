use std::time::Duration;

use globed_game_server::crypto::{KEY_SIZE, NONCE_SIZE};
use globed_game_server::packets::Packet;
use globed_game_server::server_thread::{
    GameServerThread, PeerAddress, QueueEvent, Response, ServerContext, ServerThreadMessage,
    ThreadState, QUEUE_CAPACITY,
};
use tokio::sync::mpsc;
use tokio::sync::mpsc::error::{TryRecvError, TrySendError};

fn ping(id: u8) -> ServerThreadMessage {
    ServerThreadMessage::Packet(vec![0x27, 0x10, 0x00, 0, 0, 0, id])
}

fn ctx() -> ServerContext {
    ServerContext { player_count: 0, secret_key: [1u8; 32], now: 0, chat_blocked: false }
}

#[test]
fn key_and_nonce_sizes() {
    assert_eq!(KEY_SIZE, 32);
    assert_eq!(NONCE_SIZE, 24);
}

#[test]
fn queue_delivers_in_the_order_of_sending() {
    let (tx, mut rx) = mpsc::channel::<ServerThreadMessage>(QUEUE_CAPACITY);
    for id in [b'A', b'B', b'C'] {
        tx.try_send(ping(id)).unwrap();
    }
    let mut thread = GameServerThread::new(PeerAddress { ip: [10, 0, 0, 1], port: 1 }, 0);
    let mut seen = Vec::new();
    while let Ok(message) = rx.try_recv() {
        match thread.handle_event(QueueEvent::Message(message), &ctx()) {
            Ok(Response { reply: Some(Packet::PingResponse { id, .. }), .. }) => seen.push(id),
            other => panic!("unexpected answer {:?}", other),
        }
    }
    assert_eq!(seen, vec![u32::from(b'A'), u32::from(b'B'), u32::from(b'C')]);
}

#[test]
fn queue_holds_eight_messages() {
    let (tx, mut rx) = mpsc::channel::<ServerThreadMessage>(QUEUE_CAPACITY);
    for id in 0u8..8 {
        tx.try_send(ping(id)).unwrap();
    }
    assert!(matches!(tx.try_send(ping(8)), Err(TrySendError::Full(_))));
    assert_eq!(rx.try_recv(), Ok(ping(0)));
    tx.try_send(ping(8)).unwrap();
    assert!(matches!(tx.try_send(ping(9)), Err(TrySendError::Full(_))));
}

#[test]
fn sender_waits_while_the_queue_is_full() {
    let runtime = tokio::runtime::Builder::new_current_thread().enable_time().build().unwrap();
    runtime.block_on(async {
        let (tx, mut rx) = mpsc::channel::<ServerThreadMessage>(QUEUE_CAPACITY);
        for id in 0u8..8 {
            tx.send(ping(id)).await.unwrap();
        }
        let blocked = tokio::time::timeout(Duration::from_millis(100), tx.send(ping(8))).await;
        assert!(blocked.is_err());
        assert_eq!(rx.recv().await, Some(ping(0)));
        let passed = tokio::time::timeout(Duration::from_millis(100), tx.send(ping(8))).await;
        assert_eq!(passed.map(|sent| sent.is_ok()), Ok(true));
        for id in 1u8..9 {
            assert_eq!(rx.recv().await, Some(ping(id)));
        }
        assert_eq!(rx.try_recv(), Err(TryRecvError::Empty));
    });
}

#[test]
fn closed_queue_ends_the_thread() {
    let (tx, mut rx) = mpsc::channel::<ServerThreadMessage>(QUEUE_CAPACITY);
    tx.try_send(ping(1)).unwrap();
    drop(tx);
    let mut thread = GameServerThread::new(PeerAddress { ip: [10, 0, 0, 1], port: 1 }, 0);
    let first = match rx.try_recv() {
        Ok(message) => QueueEvent::Message(message),
        Err(_) => QueueEvent::Closed,
    };
    assert!(thread.handle_event(first, &ctx()).is_ok());
    assert_eq!(thread.state(), ThreadState::Running);
    let second = match rx.try_recv() {
        Ok(message) => QueueEvent::Message(message),
        Err(TryRecvError::Disconnected) => QueueEvent::Closed,
        Err(TryRecvError::Empty) => panic!("the queue is closed, not empty"),
    };
    assert_eq!(second, QueueEvent::Closed);
    assert!(thread.handle_event(second, &ctx()).is_ok());
    assert_eq!(thread.state(), ThreadState::Terminated);
}
