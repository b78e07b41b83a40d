use shim_lock::{Context, Error, ShimLock, Status, BAD_BUFFER_SIZE, ERROR_BIT, SUCCESS};
use std::cell::{Cell, RefCell};

const SECURITY_VIOLATION: usize = ERROR_BIT | 26;
const ACCESS_DENIED: usize = ERROR_BIT | 15;

fn pattern() -> Vec<u8> {
    vec![0xde, 0xad, 0xbe, 0xef, 0x00, 0x01, 0x02, 0x03, 0x04, 0x05]
}

fn idle_hash(
    _buffer: &[u8],
    _size: u32,
    _context: Context,
    sha256: [u8; 32],
    sha1: [u8; 20],
) -> (Status, [u8; 32], [u8; 20]) {
    (Status(SUCCESS), sha256, sha1)
}

fn idle_context(_buffer: &[u8], _size: u32, context: Context) -> (Status, Context) {
    (Status(SUCCESS), context)
}

#[test]
fn verify_returns_success_when_firmware_does() {
    let shim = ShimLock::new(|_: &[u8], _: u32| Status(SUCCESS), idle_hash, idle_context);
    assert_eq!(shim.verify(&pattern()), Ok(()));
}

#[test]
fn verify_returns_the_status_that_firmware_reported() {
    let shim =
        ShimLock::new(|_: &[u8], _: u32| Status(SECURITY_VIOLATION), idle_hash, idle_context);
    let r = shim.verify(&pattern());
    assert_eq!(r, Err(Error::new(Status(SECURITY_VIOLATION))));
    assert_eq!(r.unwrap_err().status().0, SECURITY_VIOLATION);
}

#[test]
fn verify_keeps_every_failing_status_unchanged() {
    let codes = [
        1usize,
        2,
        5,
        ERROR_BIT,
        ERROR_BIT | 1,
        ERROR_BIT | 2,
        ACCESS_DENIED,
        SECURITY_VIOLATION,
        BAD_BUFFER_SIZE,
        usize::MAX,
    ];
    for code in codes {
        let shim = ShimLock::new(move |_: &[u8], _: u32| Status(code), idle_hash, idle_context);
        assert_eq!(shim.verify(&pattern()), Err(Error { status: Status(code) }));
    }
}

#[test]
fn verify_treats_a_warning_as_failure() {
    let shim = ShimLock::new(|_: &[u8], _: u32| Status(1), idle_hash, idle_context);
    assert_eq!(shim.verify(&pattern()), Err(Error::new(Status(1))));
}

#[test]
fn verify_hands_over_the_buffer_and_its_length() {
    let seen: RefCell<Vec<(Vec<u8>, u32)>> = RefCell::new(Vec::new());
    let shim = ShimLock::new(
        |buffer: &[u8], size: u32| {
            seen.borrow_mut().push((buffer.to_vec(), size));
            Status(SUCCESS)
        },
        idle_hash,
        idle_context,
    );
    assert_eq!(shim.verify(&pattern()), Ok(()));
    assert_eq!(*seen.borrow(), vec![(pattern(), 10u32)]);
}

#[test]
fn verify_calls_firmware_once_and_nothing_else() {
    let verify_calls = Cell::new(0u32);
    let hash_calls = Cell::new(0u32);
    let context_calls = Cell::new(0u32);
    let shim = ShimLock::new(
        |_: &[u8], _: u32| {
            verify_calls.set(verify_calls.get() + 1);
            Status(SUCCESS)
        },
        |_: &[u8], _: u32, _: Context, a: [u8; 32], b: [u8; 20]| {
            hash_calls.set(hash_calls.get() + 1);
            (Status(SUCCESS), a, b)
        },
        |_: &[u8], _: u32, c: Context| {
            context_calls.set(context_calls.get() + 1);
            (Status(SUCCESS), c)
        },
    );
    assert_eq!(shim.verify(&pattern()), Ok(()));
    assert_eq!(verify_calls.get(), 1);
    assert_eq!(hash_calls.get(), 0);
    assert_eq!(context_calls.get(), 0);
}

#[test]
fn verify_accepts_an_empty_buffer() {
    let sizes: RefCell<Vec<u32>> = RefCell::new(Vec::new());
    let shim = ShimLock::new(
        |buffer: &[u8], size: u32| {
            assert!(buffer.is_empty());
            sizes.borrow_mut().push(size);
            Status(SUCCESS)
        },
        idle_hash,
        idle_context,
    );
    assert_eq!(shim.verify(&[]), Ok(()));
    assert_eq!(*sizes.borrow(), vec![0u32]);
}

#[test]
fn verify_twice_gives_the_same_result() {
    let calls = Cell::new(0u32);
    let shim = ShimLock::new(
        |buffer: &[u8], _: u32| {
            calls.set(calls.get() + 1);
            if buffer[0] == 0xde {
                Status(SUCCESS)
            } else {
                Status(SECURITY_VIOLATION)
            }
        },
        idle_hash,
        idle_context,
    );
    let signed = pattern();
    let first = shim.verify(&signed);
    let second = shim.verify(&signed);
    assert_eq!(first, Ok(()));
    assert_eq!(first, second);
    assert_eq!(signed, pattern());

    let unsigned = vec![0u8; 10];
    let first = shim.verify(&unsigned);
    let second = shim.verify(&unsigned);
    assert_eq!(first, Err(Error::new(Status(SECURITY_VIOLATION))));
    assert_eq!(first, second);
    assert_eq!(calls.get(), 4);
}

#[test]
fn verify_result_follows_each_call_of_the_firmware() {
    // A firmware that changes its mind: the binding adds no memory of its own.
    let calls = Cell::new(0usize);
    let shim = ShimLock::new(
        |_: &[u8], _: u32| {
            calls.set(calls.get() + 1);
            if calls.get() % 2 == 1 {
                Status(SUCCESS)
            } else {
                Status(ACCESS_DENIED)
            }
        },
        idle_hash,
        idle_context,
    );
    assert_eq!(shim.verify(&pattern()), Ok(()));
    assert_eq!(shim.verify(&pattern()), Err(Error::new(Status(ACCESS_DENIED))));
    assert_eq!(shim.verify(&pattern()), Ok(()));
}
