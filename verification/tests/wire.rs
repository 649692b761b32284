use mdcore::service::{Reliability, Service, ServiceId};
use mdcore::services::av::AvService;
use mdcore::services::remotecontrol::RemoteControlService;
use mdcore::wire::be::{push_be16, push_be32, read_be16, read_be32, starts_with};
use mdcore::wire::frame::{Frame, FLAG_DATAGRAM};
use mdcore::wire::mux::ChannelAllocator;

#[test]
fn round_trip() {
    let f = Frame { service: 4, channel: 7, flags: FLAG_DATAGRAM, seq: 42, payload: vec![1, 2, 3] };
    assert_eq!(Frame::decode(&f.encode()), Some(f));
}

#[test]
fn frame_bytes_are_exact() {
    let f = Frame { service: 4, channel: 0x0107, flags: FLAG_DATAGRAM, seq: 0x0a0b0c0d, payload: vec![9] };
    let bytes = f.encode();
    assert_eq!(bytes, vec![2, 4, 0x01, 0x07, 0x01, 0x0a, 0x0b, 0x0c, 0x0d, 9]);
    assert_eq!(Frame::decode(&bytes).map(|g| g.seq), Some(0x0a0b0c0d));
    assert!(f.is_datagram());
    let reliable = Frame { service: 0, channel: 1, flags: 0, seq: 0, payload: vec![] };
    assert!(!reliable.is_datagram());
    assert_eq!(reliable.encode(), vec![2, 0, 0, 1, 0, 0, 0, 0, 0]);
    assert_eq!(Frame::decode(&reliable.encode()), Some(reliable));
}

#[test]
fn frame_that_is_too_short_is_refused() {
    let f = Frame { service: 1, channel: 2, flags: 0, seq: 3, payload: vec![] };
    let bytes = f.encode();
    assert_eq!(Frame::decode(&bytes[..bytes.len() - 1]), None);
    assert_eq!(Frame::decode(&[]), None);
}

#[test]
fn encoding_what_was_decoded_gives_the_bytes_back() {
    let f = Frame { service: 200, channel: 65535, flags: 255, seq: u32::MAX, payload: vec![0; 40] };
    let bytes = f.encode();
    assert_eq!(Frame::decode(&bytes).unwrap().encode(), bytes);
}

#[test]
fn channels_follow_one_another() {
    let mut m = ChannelAllocator::new();
    let a = m.allocate(Reliability::Reliable);
    let b = m.allocate(Reliability::Datagram);
    let c = m.allocate(Reliability::Reliable);
    assert_eq!(b, a + 1);
    assert_eq!(c, b + 1);
    assert_eq!(ChannelAllocator::default().allocate(Reliability::Reliable), a);
}

#[test]
fn big_endian_words() {
    let mut out = vec![];
    push_be16(&mut out, 0x1234);
    push_be32(&mut out, 0x89abcdef);
    assert_eq!(out, vec![0x12, 0x34, 0x89, 0xab, 0xcd, 0xef]);
    assert_eq!(read_be16(0x12, 0x34), 0x1234);
    assert_eq!(read_be32(0x89, 0xab, 0xcd, 0xef), 0x89abcdef);
    assert!(starts_with(&[1, 2, 3], &[1, 2]));
    assert!(!starts_with(&[1], &[1, 2]));
    assert!(!starts_with(&[1, 3], &[1, 2]));
}

#[test]
fn services_have_their_codes() {
    assert_eq!(ServiceId::Messaging.code(), 0);
    assert_eq!(ServiceId::Clipboard.code(), 1);
    assert_eq!(ServiceId::Notification.code(), 2);
    assert_eq!(ServiceId::CallHistory.code(), 3);
    assert_eq!(ServiceId::Av.code(), 4);
    assert_eq!(ServiceId::RemoteControl.code(), 5);
    assert_eq!(AvService.id(), ServiceId::Av);
    assert_eq!(RemoteControlService.id(), ServiceId::RemoteControl);
}
