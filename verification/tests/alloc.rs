//! Allocation requests against the bootstrapped arena.

use boot_core::runtime::HEAP_SIZE;
use boot_core::Runtime;

#[test]
fn small_request_succeeds_after_bootstrap() {
    let mut rt = Runtime::new();
    rt.init(0, 5);
    assert!(rt.allocate(1024, 1));
    assert!(rt.allocate(64, 8));
    assert!(rt.allocate(4096, 4096));
    // No diagnostic, no halt: the requests were satisfied.
    assert_eq!(rt.output_len(), 0);
    assert!(!rt.halted());
}

#[test]
fn first_request_within_margin_succeeds() {
    // The first request after bootstrap is guaranteed satisfied when it asks
    // for at most word alignment and leaves a 32-byte margin in the arena;
    // the arena itself may be trimmed by up to 16 bytes for alignment.
    let mut rt = Runtime::new();
    rt.init(0, 5);
    let size = rt.arena_bytes() - 32;
    assert!(size + 32 <= rt.arena_bytes());
    assert!(rt.allocate(size, 8));
    assert_eq!(rt.output_len(), 0);
    assert!(!rt.halted());
}

#[test]
fn request_before_bootstrap_is_out_of_memory() {
    let mut rt = Runtime::new();
    // The empty allocator manages no memory, so any request takes the
    // out-of-memory path.
    assert!(!rt.allocate(16, 1));
    assert_eq!(rt.output_len(), 1);
    assert_eq!(
        rt.output_line(0).as_str(),
        "out of memory: size 0x10, align 0x1"
    );
    assert!(rt.halted());
}

#[test]
fn arena_capacity_is_stable_across_requests() {
    let mut rt = Runtime::new();
    rt.init(0, 5);
    let before = rt.arena_bytes();
    assert!(rt.allocate(512, 1));
    assert!(rt.allocate(512, 1));
    assert_eq!(rt.arena_bytes(), before);
}

#[test]
fn exhausting_requests_eventually_fail() {
    let mut rt = Runtime::new();
    rt.init(0, 5);
    // Half-arena requests: the second may still fit, the third cannot.
    assert!(rt.allocate(HEAP_SIZE / 2, 1));
    let mut failed = false;
    for _ in 0..2 {
        if rt.halted() {
            break;
        }
        if !rt.allocate(HEAP_SIZE / 2, 1) {
            failed = true;
        }
    }
    assert!(failed);
    assert_eq!(rt.output_len(), 1);
    assert!(rt.halted());
}
