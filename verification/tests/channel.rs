use zcore::error::ZxError;
use zcore::ipc::channel::{Channel, MessagePacket};
use zcore::object::object_imp::KoidAllocator;
use zcore::object::KernelObject;

#[test]
fn test_basics() {
    let mut ids = KoidAllocator::new();
    let (mut end0, mut end1) = Channel::create(&mut ids);
    assert_eq!(end0.related_koid(), end1.id());
    assert_eq!(end1.related_koid(), end0.id());
    assert!(!end0.peer_closed());
    assert!(!end1.peer_closed());

    end1.close(&mut end0);
    assert!(end0.peer_closed());
    assert_eq!(end0.read().unwrap_err(), ZxError::PEER_CLOSED);
    assert_eq!(end0.related_koid(), 0);
}

#[test]
fn read_write() {
    let mut ids = KoidAllocator::new();
    let (mut channel0, mut channel1) = Channel::create(&mut ids);
    channel0
        .write(
            &mut channel1,
            MessagePacket {
                data: Vec::from("hello 1"),
                handles: Vec::new(),
            },
        )
        .unwrap();

    channel1
        .write(
            &mut channel0,
            MessagePacket {
                data: Vec::from("hello 0"),
                handles: Vec::new(),
            },
        )
        .unwrap();

    let recv_msg = channel1.read().unwrap();
    assert_eq!(recv_msg.data.as_slice(), b"hello 1");
    assert!(recv_msg.handles.is_empty());

    let recv_msg = channel0.read().unwrap();
    assert_eq!(recv_msg.data.as_slice(), b"hello 0");
    assert!(recv_msg.handles.is_empty());

    assert_eq!(channel0.read().err(), Some(ZxError::SHOULD_WAIT));
    assert_eq!(channel1.read().err(), Some(ZxError::SHOULD_WAIT));
}

#[test]
fn delivery_is_exactly_once() {
    let mut ids = KoidAllocator::new();
    let (mut channel0, mut channel1) = Channel::create(&mut ids);
    channel0
        .write(
            &mut channel1,
            MessagePacket {
                data: Vec::from("only once"),
                handles: Vec::new(),
            },
        )
        .unwrap();
    let msg = channel1.read().unwrap();
    assert_eq!(msg.data.as_slice(), b"only once");
    assert_eq!(msg.handles.len(), 0);
    // the peer is still alive, so a further read only asks the caller to wait
    assert_eq!(channel1.read().unwrap_err(), ZxError::SHOULD_WAIT);
    // once the peer is gone, the same read reports the closed link
    channel0.close(&mut channel1);
    assert_eq!(channel1.read().unwrap_err(), ZxError::PEER_CLOSED);
}

#[test]
fn delivery_keeps_order() {
    let mut ids = KoidAllocator::new();
    let (channel0, mut channel1) = Channel::create(&mut ids);
    let m1 = MessagePacket {
        data: vec![1u8, 2, 3],
        handles: Vec::new(),
    };
    let m2 = MessagePacket {
        data: vec![4u8, 5],
        handles: Vec::new(),
    };
    channel0.write(&mut channel1, m1).unwrap();
    channel0.write(&mut channel1, m2).unwrap();
    let first = channel1.read().unwrap();
    let second = channel1.read().unwrap();
    assert_eq!(first.data, vec![1u8, 2, 3]);
    assert_eq!(second.data, vec![4u8, 5]);
    assert_eq!(channel1.read().unwrap_err(), ZxError::SHOULD_WAIT);
}

#[test]
fn write_to_closed_peer_drops_message() {
    let mut ids = KoidAllocator::new();
    let (mut end0, mut end1) = Channel::create(&mut ids);
    // queue one message, then let the reader's peer go away
    end0.write(
        &mut end1,
        MessagePacket {
            data: Vec::from("kept"),
            handles: Vec::new(),
        },
    )
    .unwrap();
    end0.close(&mut end1);
    // the write fails and the message is dropped, not queued
    let failed = end1.write(
        &mut end0,
        MessagePacket {
            data: Vec::from("lost"),
            handles: Vec::new(),
        },
    );
    assert_eq!(failed.unwrap_err(), ZxError::PEER_CLOSED);
    // the queued message survived the close and is still delivered
    let msg = end1.read().unwrap();
    assert_eq!(msg.data.as_slice(), b"kept");
    assert_eq!(end1.read().unwrap_err(), ZxError::PEER_CLOSED);
}

#[test]
fn default_message_is_empty() {
    let m = MessagePacket::default();
    assert!(m.data.is_empty());
    assert!(m.handles.is_empty());
}

#[test]
fn endpoint_names_are_independent() {
    let mut ids = KoidAllocator::new();
    let (mut end0, end1) = Channel::create(&mut ids);
    assert_eq!(end0.type_tag(), "Channel");
    assert_eq!(end0.name(), "");
    end0.set_name("left");
    assert_eq!(end0.name(), "left");
    assert_eq!(end1.name(), "");
    assert_ne!(end0.id(), end1.id());
}
