//! The fatal handlers: panic, abort, out-of-memory, and the halt loop.

use boot_core::runtime::HEAP_SIZE;
use boot_core::Runtime;

#[test]
fn panic_emits_message_then_halts() {
    let mut rt = Runtime::new();
    rt.init(0, 9);
    rt.panic("stack guard breached");
    assert_eq!(rt.output_len(), 1);
    assert_eq!(rt.output_line(0).as_str(), "stack guard breached");
    assert!(rt.halted());
}

#[test]
fn halt_makes_no_further_progress() {
    let mut rt = Runtime::new();
    rt.panic("wedged");
    assert!(rt.halted());
    // Poll the halt loop a bounded number of times: no observable state may
    // move.
    for _ in 0..64 {
        rt.halt_step();
        assert!(rt.halted());
        assert_eq!(rt.output_len(), 1);
        assert_eq!(rt.output_line(0).as_str(), "wedged");
        assert_eq!(rt.entry_count(), 0);
        assert_eq!(rt.shutdown_requests(), 0);
        assert!(!rt.powered_off());
    }
}

#[test]
fn abort_is_fixed_and_terminal() {
    let mut first = Runtime::new();
    first.abort();
    let mut second = Runtime::new();
    second.init(0, 1);
    second.abort();
    // Abort always produces the same fixed diagnostic and always reaches
    // the halt state.
    assert_eq!(first.output_line(0).as_str(), "abort!");
    assert_eq!(second.output_line(0).as_str(), "abort!");
    assert_eq!(first.output_line(0), second.output_line(0));
    assert!(first.halted());
    assert!(second.halted());
}

#[test]
fn halt_without_diagnostic() {
    let mut rt = Runtime::new();
    rt.init(0, 1);
    rt.shutdown();
    // If the platform ever returned from the power-off request, the core
    // parks in the low-power wait.
    rt.halt();
    assert!(rt.halted());
    assert_eq!(rt.output_len(), 0);
    for _ in 0..8 {
        rt.halt_step();
        assert!(rt.halted());
    }
}

#[test]
fn oom_reports_size_and_alignment() {
    let mut rt = Runtime::new();
    rt.init(0, 3);
    rt.oom(0x100001, 8);
    assert_eq!(rt.output_len(), 1);
    assert_eq!(
        rt.output_line(0).as_str(),
        "out of memory: size 0x100001, align 0x8"
    );
    assert!(rt.halted());
}

#[test]
fn oversized_request_reports_once_then_stops() {
    let mut rt = Runtime::new();
    rt.init(0, 3);
    // One byte more than the arena can never be satisfied.
    let ok = rt.allocate(HEAP_SIZE + 1, 1);
    assert!(!ok);
    // Exactly one out-of-memory report, containing the requested size.
    assert_eq!(rt.output_len(), 1);
    let line = rt.output_line(0).clone();
    assert!(line.contains("100001"));
    assert_eq!(line.as_str(), "out of memory: size 0x100001, align 0x1");
    // No further observable progress.
    assert!(rt.halted());
    for _ in 0..32 {
        rt.halt_step();
        assert_eq!(rt.output_len(), 1);
        assert!(rt.halted());
    }
}
