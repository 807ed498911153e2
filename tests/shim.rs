use rust_hello::message::Message;
use rust_hello::shim::{grub_rust_hello_fini, grub_rust_hello_init, panicker, HostCall, Primitive};

/// A stand-in for the host: records each call with a copy of its payload.
struct RecordingHost {
    calls: Vec<(Primitive, Vec<u8>)>,
}

impl RecordingHost {
    fn new() -> RecordingHost {
        RecordingHost { calls: Vec::new() }
    }

    fn run(&mut self, call: Option<HostCall>) {
        if let Some(c) = call {
            self.calls.push((c.primitive, c.payload().to_vec()));
        }
    }
}

#[test]
fn init_records_one_greeting_call() {
    let mut host = RecordingHost::new();
    host.run(Some(grub_rust_hello_init()));
    assert_eq!(host.calls.len(), 1);
    assert_eq!(host.calls[0].0, Primitive::Print);
    assert_eq!(host.calls[0].1, b"Hello from Rust\0".to_vec());
}

#[test]
fn init_payload_is_zero_terminated_once() {
    let call = grub_rust_hello_init();
    let bytes = call.payload();
    assert_eq!(bytes.len(), 16);
    assert_eq!(bytes[bytes.len() - 1], 0);
    assert_eq!(bytes.iter().filter(|b| **b == 0).count(), 1);
    assert_eq!(&bytes[..15], "Hello from Rust".as_bytes());
}

#[test]
fn fini_makes_no_call_however_often() {
    let mut host = RecordingHost::new();
    for _ in 0..100 {
        host.run(grub_rust_hello_fini());
    }
    assert!(host.calls.is_empty());
}

#[test]
fn fini_after_init_adds_nothing() {
    let mut host = RecordingHost::new();
    host.run(Some(grub_rust_hello_init()));
    host.run(grub_rust_hello_fini());
    host.run(grub_rust_hello_fini());
    assert_eq!(host.calls.len(), 1);
    assert_eq!(host.calls[0].0, Primitive::Print);
}

#[test]
fn fault_makes_one_fatal_call() {
    let mut host = RecordingHost::new();
    host.run(Some(panicker()));
    assert_eq!(host.calls.len(), 1);
    assert_eq!(host.calls[0].0, Primitive::Fatal);
    let payload = &host.calls[0].1;
    assert!(payload.len() > 1);
    assert_eq!(payload[payload.len() - 1], 0);
    assert_eq!(payload.iter().filter(|b| **b == 0).count(), 1);
}

#[test]
fn fault_notice_bytes() {
    assert_eq!(Message::FaultNotice.bytes(), b"Panic in Rust\0");
    assert_eq!(panicker().message, Message::FaultNotice);
}

#[test]
fn greeting_bytes() {
    assert_eq!(Message::Greeting.bytes(), b"Hello from Rust\0");
    assert_eq!(grub_rust_hello_init().message, Message::Greeting);
}

#[test]
fn payload_is_static_and_shared() {
    // Each call hands out the same static bytes: nothing is allocated.
    let a = grub_rust_hello_init().payload();
    let b = grub_rust_hello_init().payload();
    assert!(std::ptr::eq(a, b));
    let f = panicker().payload();
    let g = panicker().payload();
    assert!(std::ptr::eq(f, g));
}
