use humon::bounded::{BoundedString, IpAddr, MAX_STRING_LEN};
use humon::codec::{decode, encode};
use humon::event::{Event, EventData, EventType, FileCloseEvent, FileUnlinkEvent};

#[test]
fn from_bytes_truncates_to_capacity() {
    let s = BoundedString::<4>::from_bytes(b"abcdef");
    assert_eq!(s.len, 4);
    assert_eq!(s.as_bytes(), b"abcd");
    assert_eq!(s.to_vec(), b"abcd".to_vec());
}

#[test]
fn from_bytes_keeps_shorter_input() {
    let s = BoundedString::<8>::from_bytes(b"abc");
    assert_eq!(s.len, 3);
    assert_eq!(s.as_bytes(), b"abc");
    assert_eq!(s.data[3..], [0u8; 5]);
}

#[test]
fn from_bytes_at_exactly_capacity() {
    let input = vec![7u8; MAX_STRING_LEN];
    let s = BoundedString::<MAX_STRING_LEN>::from_bytes(&input);
    assert_eq!(s.len, MAX_STRING_LEN);
    assert_eq!(s.as_bytes(), &input[..]);
    let longer = vec![9u8; MAX_STRING_LEN + 100];
    let t = BoundedString::<MAX_STRING_LEN>::from_bytes(&longer);
    assert_eq!(t.len, MAX_STRING_LEN);
    assert_eq!(t.as_bytes(), &longer[..MAX_STRING_LEN]);
}

#[test]
fn empty_and_default_strings() {
    let a = BoundedString::<16>::new();
    let b: BoundedString<16> = Default::default();
    assert_eq!(a.len, 0);
    assert_eq!(a, b);
    assert_eq!(BoundedString::<16>::from_bytes(b""), a);
}

#[test]
fn oversized_length_counts_as_capacity() {
    let mut s = BoundedString::<4>::from_bytes(b"wxyz");
    s.len = 10;
    assert_eq!(s.as_bytes(), b"wxyz");
}

#[test]
fn ipv4_is_mapped_into_ipv6() {
    let a = IpAddr::from_v4([192, 168, 1, 20]);
    assert_eq!(a.v6, [0, 0, 0, 0, 0, 0, 0, 0, 0, 0, 0xff, 0xff, 192, 168, 1, 20]);
    let b = IpAddr::from_v6([1; 16]);
    assert_eq!(b.v6, [1; 16]);
}

fn close_event(fd: i32) -> Event {
    Event {
        event_type: EventType::FileClose,
        timestamp_ns: 0x0102030405060708,
        pid: 7,
        tid: 8,
        uid: 1000,
        gid: 100,
        data: EventData::FileClose(FileCloseEvent { fd }),
    }
}

#[test]
fn encoding_is_fixed_width_little_endian() {
    let bytes = encode(&close_event(-2));
    assert_eq!(
        bytes,
        vec![
            13, 8, 7, 6, 5, 4, 3, 2, 1, 7, 0, 0, 0, 8, 0, 0, 0, 0xe8, 3, 0, 0, 100, 0, 0, 0, 0xfe,
            0xff, 0xff, 0xff
        ]
    );
}

#[test]
fn strings_are_length_prefixed() {
    let e = Event {
        event_type: EventType::FileUnlink,
        timestamp_ns: 1,
        pid: 2,
        tid: 3,
        uid: 4,
        gid: 5,
        data: EventData::FileUnlink(FileUnlinkEvent { path: BoundedString::from_bytes(b"/tmp/x") }),
    };
    let bytes = encode(&e);
    assert_eq!(bytes.len(), 1 + 24 + 4 + 6);
    assert_eq!(&bytes[25..29], &[6, 0, 0, 0]);
    assert_eq!(&bytes[29..], b"/tmp/x");
    assert_eq!(decode(&bytes), Some(e));
}

#[test]
fn malformed_bytes_do_not_decode() {
    let good = encode(&close_event(3));
    assert_eq!(decode(&[]), None);
    let mut bad_code = good.clone();
    bad_code[0] = 200;
    assert_eq!(decode(&bad_code), None);
    assert_eq!(decode(&good[..good.len() - 1]), None);
    let mut trailing = good.clone();
    trailing.push(0);
    assert_eq!(decode(&trailing), None);
    assert_eq!(decode(&good), Some(close_event(3)));
}

#[test]
fn string_longer_than_its_bound_does_not_decode() {
    let e = Event {
        event_type: EventType::FileUnlink,
        timestamp_ns: 0,
        pid: 0,
        tid: 0,
        uid: 0,
        gid: 0,
        data: EventData::FileUnlink(FileUnlinkEvent { path: BoundedString::from_bytes(b"") }),
    };
    let mut bytes = encode(&e);
    bytes.truncate(25);
    let n = MAX_STRING_LEN as u32 + 1;
    bytes.extend_from_slice(&n.to_le_bytes());
    bytes.extend(std::iter::repeat(b'a').take(n as usize));
    assert_eq!(decode(&bytes), None);
}

#[test]
fn decoded_event_kind_agrees_with_payload() {
    let mut e = close_event(4);
    e.event_type = EventType::ProcessExec;
    let back = decode(&encode(&e)).unwrap();
    assert_eq!(back.event_type, EventType::FileClose);
}
