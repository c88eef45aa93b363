use iobench::buffers::{create_1gb_bytes, payload_len, transfer_into_new_buffer, zero_payload, zeroed_bytes};
use iobench::heap_profile::{dump_outcome, require_profiling_activated, HeapProfileError};

#[test]
fn zero_buffers_have_the_size_asked() {
    let b = zeroed_bytes(1000);
    assert_eq!(payload_len(&b), 1000);
    assert!(b.iter().all(|&x| x == 0));
    let p = zero_payload(17);
    assert_eq!(&p[..], &[0u8; 17][..]);
    assert_eq!(payload_len(&zero_payload(0)), 0);
}

#[test]
fn gibibyte_buffer() {
    let b = create_1gb_bytes();
    assert_eq!(b.len(), 1 << 30);
    assert_eq!(b[0], 0);
    assert_eq!(b[(1 << 30) - 1], 0);
}

#[test]
fn transfer_keeps_content() {
    let src = bytes::Bytes::from(vec![1u8, 2, 3, 4]);
    let moved = transfer_into_new_buffer(src, 16);
    assert_eq!(&moved[..], &[1, 2, 3, 4]);
    let moved = transfer_into_new_buffer(bytes::Bytes::from(vec![9u8; 5]), 0);
    assert_eq!(&moved[..], &[9u8; 5]);
}

#[test]
fn heap_profile_gate() {
    assert_eq!(require_profiling_activated(true), Ok(()));
    let err = require_profiling_activated(false).unwrap_err();
    assert_eq!(err, HeapProfileError::NotActivated);
    assert_eq!(err.status_code(), 403);
    assert_eq!(err.message(), "heap profiling not activated");
    let failed = dump_outcome(Err("no profile".to_string())).unwrap_err();
    assert_eq!(failed.status_code(), 500);
    assert_eq!(failed.message(), "no profile");
    assert_eq!(dump_outcome(Ok(vec![1, 2])), Ok(vec![1, 2]));
}
