//! The boot coordinator: the per-core initialization path, the boot barrier,
//! the heap bootstrap, the fatal handlers, and the shutdown and halt
//! primitives.
//!
//! On the machine this state is process-wide (an atomic readiness flag, a
//! lock-guarded global allocator, a console); here it is gathered into one
//! [`Runtime`] value that every core's entry path works on, so that the
//! decisions of the boot layer can be stated and proved. The embedder owns
//! the loops that the hardware runs — a secondary core re-polls the barrier,
//! a halted core re-issues the low-power wait — and drives them by calling
//! back into this module.

use vstd::prelude::*;
use vstd::string::StringExecFns;

use crate::heap::{alloc_ok, heap_alloc, heap_bootstrap, heap_capacity, heap_empty, heap_size};
use crate::hexfmt::{hex_seq, hex_string};

verus! {

/// Size in bytes of the statically reserved heap arena.
pub const HEAP_SIZE: usize = 0x100000;

/// Size in bytes of the boot stack the entry trampoline establishes before
/// any managed code runs.
pub const BOOT_STACK_SIZE: usize = 4096 * 16;

/// The core index that performs one-time setup.
pub const PRIMARY_CORE: u64 = 0;

/// What a core must do next after presenting itself at the boot barrier.
#[derive(Clone, Copy, PartialEq, Eq, Structural, Debug)]
pub enum BootStep {
    /// Boot synchronization is complete for this core: call the application
    /// entry point with these boot parameters, forwarded unchanged.
    EnterMain { hartid: u64, dtb: u64 },
    /// Readiness has not been published yet: issue a spin hint and present
    /// the same core at the barrier again.
    Wait,
}

/// The boot-and-runtime-services state of one machine.
pub struct Runtime {
    /// The global allocator, empty until the primary core bootstraps it.
    heap: linked_list_allocator::Heap,
    /// The readiness flag: published once by the primary core after one-time
    /// setup, observed by every other core.
    ready: bool,
    /// Whether no allocation request has been served since the bootstrap,
    /// so the arena is still one free block.
    arena_untouched: bool,
    /// Whether the output channel has been initialized (part of setup).
    output_ready: bool,
    /// How many times one-time setup has run.
    setup_runs: u64,
    /// The lines emitted on the output channel, oldest first.
    output: Vec<String>,
    /// Whether a core has entered the terminal low-power wait.
    halted: bool,
    /// Whether the platform has been asked to power off.
    powered_off: bool,
    /// How many power-off requests have been issued to the platform.
    shutdown_requests: u64,
    /// The cores that were handed to the application entry point, in order.
    entries: Vec<u64>,
}

/// The fixed diagnostic the abort path reports.
pub open spec fn abort_message() -> Seq<char> {
    "abort!"@
}

/// The diagnostic the out-of-memory path reports for a request of `size`
/// bytes aligned to `align`.
pub open spec fn oom_message(size: usize, align: usize) -> Seq<char> {
    "out of memory: size 0x"@ + hex_seq(size as nat) + ", align 0x"@ + hex_seq(align as nat)
}

impl Runtime {
    /// The readiness flag.
    pub closed spec fn ready_state(self) -> bool {
        self.ready
    }

    /// Whether the output channel is initialized.
    pub closed spec fn output_ready_state(self) -> bool {
        self.output_ready
    }

    /// Whether no allocation request has been served since the bootstrap.
    pub closed spec fn arena_untouched_state(self) -> bool {
        self.arena_untouched
    }

    /// How many times one-time setup has run.
    pub closed spec fn setup_count(self) -> u64 {
        self.setup_runs
    }

    /// The lines emitted on the output channel, oldest first.
    pub closed spec fn log(self) -> Seq<Seq<char>> {
        Seq::new(self.output@.len(), |i: int| self.output@[i]@)
    }

    /// Whether a core has entered the terminal low-power wait.
    pub closed spec fn is_halted(self) -> bool {
        self.halted
    }

    /// Whether the platform has been asked to power off.
    pub closed spec fn power_off_state(self) -> bool {
        self.powered_off
    }

    /// How many power-off requests have been issued.
    pub closed spec fn shutdown_count(self) -> u64 {
        self.shutdown_requests
    }

    /// The cores handed to the application entry point, in order.
    pub closed spec fn entry_log(self) -> Seq<u64> {
        self.entries@
    }

    /// Bytes of arena the allocator manages: zero before the heap bootstrap,
    /// the arena size (less at most two machine words of alignment trim)
    /// afterwards.
    pub closed spec fn arena(self) -> nat {
        heap_capacity(self.heap)
    }

    /// The allocator value itself, for spec-level statements about it.
    pub closed spec fn heap_value(self) -> linked_list_allocator::Heap {
        self.heap
    }

    /// Well-formedness: the state is one the boot protocol can reach.
    /// One-time setup runs at most once and is exactly what publishing
    /// readiness reports; the allocator manages the arena exactly when setup
    /// has run; while the arena is untouched it serves every request that
    /// leaves a 32-byte margin with word alignment; power-off has been
    /// requested at most once.
    pub closed spec fn wf(self) -> bool {
        &&& self.setup_runs <= 1
        &&& (self.ready <==> self.setup_runs == 1)
        &&& (self.ready ==> self.output_ready)
        &&& (self.ready ==> heap_capacity(self.heap) <= HEAP_SIZE && HEAP_SIZE <= heap_capacity(
            self.heap,
        ) + 16)
        &&& (!self.ready ==> heap_capacity(self.heap) == 0)
        &&& (self.ready && self.arena_untouched ==> forall|sz: usize, al: usize|
            1 <= sz && (al == 1 || al == 2 || al == 4 || al == 8) && sz + 32 <= heap_capacity(
                self.heap,
            ) ==> #[trigger] alloc_ok(self.heap, sz, al))
        &&& self.shutdown_requests <= 1
        &&& (self.powered_off <==> self.shutdown_requests == 1)
    }

    /// The state the machine is in when firmware releases the cores: nothing
    /// set up, nothing emitted, nothing halted.
    pub fn new() -> (rt: Runtime)
        ensures
            rt.wf(),
            !rt.ready_state(),
            !rt.output_ready_state(),
            rt.arena_untouched_state(),
            rt.setup_count() == 0,
            rt.log().len() == 0,
            !rt.is_halted(),
            !rt.power_off_state(),
            rt.shutdown_count() == 0,
            rt.entry_log().len() == 0,
            rt.arena() == 0,
    {
        Runtime {
            heap: heap_empty(),
            ready: false,
            arena_untouched: true,
            output_ready: false,
            setup_runs: 0,
            output: Vec::new(),
            halted: false,
            powered_off: false,
            shutdown_requests: 0,
            entries: Vec::new(),
        }
    }

    /// The per-core initialization routine the entry trampoline jumps to.
    ///
    /// The primary core performs one-time setup — output channel, then heap
    /// bootstrap — unless readiness is already published, then proceeds to
    /// the application entry point. Every other core proceeds only once it
    /// observes readiness; until then it is told to wait, with the state
    /// untouched. Boot parameters are forwarded unchanged.
    pub fn init(&mut self, hartid: u64, dtb: u64) -> (step: BootStep)
        requires
            old(self).wf(),
        ensures
            final(self).wf(),
            final(self).ready_state() == (old(self).ready_state() || hartid == PRIMARY_CORE),
            final(self).setup_count() == old(self).setup_count() + (if !old(self).ready_state()
                && hartid == PRIMARY_CORE {
                1int
            } else {
                0int
            }),
            step == (if old(self).ready_state() || hartid == PRIMARY_CORE {
                BootStep::EnterMain { hartid, dtb }
            } else {
                BootStep::Wait
            }),
            final(self).entry_log() == (if old(self).ready_state() || hartid == PRIMARY_CORE {
                old(self).entry_log().push(hartid)
            } else {
                old(self).entry_log()
            }),
            final(self).ready_state() ==> final(self).output_ready_state(),
            final(self).arena_untouched_state() == old(self).arena_untouched_state(),
            old(self).ready_state() || hartid != PRIMARY_CORE ==> final(self).arena() == old(
                self,
            ).arena(),
            hartid != PRIMARY_CORE && !old(self).ready_state() ==> *final(self) == *old(self),
            final(self).log() == old(self).log(),
            final(self).is_halted() == old(self).is_halted(),
            final(self).power_off_state() == old(self).power_off_state(),
            final(self).shutdown_count() == old(self).shutdown_count(),
    {
        if hartid == PRIMARY_CORE {
            if !self.ready {
                self.output_ready = true;
                heap_bootstrap(&mut self.heap, HEAP_SIZE);
                self.setup_runs = self.setup_runs + 1;
                self.ready = true;
            }
            self.entries.push(hartid);
            BootStep::EnterMain { hartid, dtb }
        } else if self.ready {
            self.entries.push(hartid);
            BootStep::EnterMain { hartid, dtb }
        } else {
            BootStep::Wait
        }
    }

    /// Serves one allocation request of `size` bytes aligned to `align`.
    ///
    /// Returns whether the request was satisfied: exactly the allocator's
    /// answer for the request against the current heap. The first request
    /// after the bootstrap is guaranteed satisfied whenever it asks for at
    /// most word alignment and leaves a 32-byte margin within the arena. An
    /// unsatisfiable request — in particular any request larger than the
    /// arena — takes the out-of-memory path instead of returning to its
    /// caller: exactly one diagnostic naming the size and alignment is
    /// emitted and the core halts.
    pub fn allocate(&mut self, size: usize, align: usize) -> (r: bool)
        requires
            old(self).wf(),
            !old(self).is_halted(),
            1 <= size,
            vstd::layout::valid_layout(size, align),
        ensures
            final(self).wf(),
            final(self).ready_state() == old(self).ready_state(),
            final(self).output_ready_state() == old(self).output_ready_state(),
            !final(self).arena_untouched_state(),
            final(self).setup_count() == old(self).setup_count(),
            final(self).arena() == old(self).arena(),
            final(self).entry_log() == old(self).entry_log(),
            final(self).power_off_state() == old(self).power_off_state(),
            final(self).shutdown_count() == old(self).shutdown_count(),
            r == alloc_ok_state(*old(self), size, align),
            old(self).ready_state() && old(self).arena_untouched_state() && (align == 1 || align
                == 2 || align == 4 || align == 8) && size + 32 <= old(self).arena() ==> r == true,
            size > old(self).arena() ==> r == false,
            size > HEAP_SIZE ==> r == false,
            r ==> !final(self).is_halted() && final(self).log() == old(self).log(),
            !r ==> final(self).is_halted() && final(self).log() == old(self).log().push(
                oom_message(size, align),
            ),
    {
        let ok = heap_alloc(&mut self.heap, size, align);
        self.arena_untouched = false;
        if ok {
            true
        } else {
            self.oom(size, align);
            false
        }
    }

    /// The panic path: any detected invariant violation lands here. Emits
    /// the panic's descriptive payload through the output channel, then
    /// halts, in one indivisible step: the state in which the core is halted
    /// already carries the diagnostic, so the message is never observed
    /// after the halt. Control never continues past it.
    pub fn panic(&mut self, msg: &str)
        requires
            !old(self).is_halted(),
        ensures
            final(self).is_halted(),
            final(self).log() == old(self).log().push(msg@),
            old(self).wf() ==> final(self).wf(),
            final(self).ready_state() == old(self).ready_state(),
            final(self).output_ready_state() == old(self).output_ready_state(),
            final(self).arena_untouched_state() == old(self).arena_untouched_state(),
            final(self).setup_count() == old(self).setup_count(),
            final(self).arena() == old(self).arena(),
            final(self).entry_log() == old(self).entry_log(),
            final(self).power_off_state() == old(self).power_off_state(),
            final(self).shutdown_count() == old(self).shutdown_count(),
    {
        let ghost prior = self.log();
        let line = msg.to_owned();
        self.output.push(line);
        self.halted = true;
        proof {
            assert(self.log() =~= prior.push(msg@));
        }
    }

    /// The abort path: an external "cannot continue" signal with no payload.
    /// Raises a panic with the fixed diagnostic, so it emits exactly that
    /// text and halts; control never continues past it.
    pub fn abort(&mut self)
        requires
            !old(self).is_halted(),
        ensures
            final(self).is_halted(),
            final(self).log() == old(self).log().push(abort_message()),
            old(self).wf() ==> final(self).wf(),
            final(self).ready_state() == old(self).ready_state(),
            final(self).output_ready_state() == old(self).output_ready_state(),
            final(self).arena_untouched_state() == old(self).arena_untouched_state(),
            final(self).setup_count() == old(self).setup_count(),
            final(self).arena() == old(self).arena(),
            final(self).entry_log() == old(self).entry_log(),
            final(self).power_off_state() == old(self).power_off_state(),
            final(self).shutdown_count() == old(self).shutdown_count(),
    {
        self.panic("abort!");
    }

    /// The out-of-memory path: the allocator could not satisfy a request of
    /// `size` bytes aligned to `align`. Raises a panic reporting both, so it
    /// emits exactly that diagnostic and halts; control never continues past
    /// it.
    pub fn oom(&mut self, size: usize, align: usize)
        requires
            !old(self).is_halted(),
        ensures
            final(self).is_halted(),
            final(self).log() == old(self).log().push(oom_message(size, align)),
            old(self).wf() ==> final(self).wf(),
            final(self).ready_state() == old(self).ready_state(),
            final(self).output_ready_state() == old(self).output_ready_state(),
            final(self).arena_untouched_state() == old(self).arena_untouched_state(),
            final(self).setup_count() == old(self).setup_count(),
            final(self).arena() == old(self).arena(),
            final(self).entry_log() == old(self).entry_log(),
            final(self).power_off_state() == old(self).power_off_state(),
            final(self).shutdown_count() == old(self).shutdown_count(),
    {
        let mut line = String::from_str("out of memory: size 0x");
        let size_hex = hex_string(size);
        line.append(size_hex.as_str());
        line.append(", align 0x");
        let align_hex = hex_string(align);
        line.append(align_hex.as_str());
        proof {
            assert(line@ =~= oom_message(size, align));
        }
        self.panic(line.as_str());
    }

    /// Requests the platform to power off; invoked only once a core has
    /// returned from the application entry point, so some core must have
    /// been handed to it. After the platform honors the first request no
    /// instruction executes anywhere, so no later request is ever issued; if
    /// the request is not honored the caller falls back to
    /// [`Runtime::halt`].
    pub fn shutdown(&mut self)
        requires
            old(self).wf(),
            old(self).entry_log().len() > 0,
            !old(self).power_off_state(),
        ensures
            final(self).wf(),
            final(self).power_off_state(),
            final(self).shutdown_count() == old(self).shutdown_count() + 1,
            final(self).ready_state() == old(self).ready_state(),
            final(self).output_ready_state() == old(self).output_ready_state(),
            final(self).arena_untouched_state() == old(self).arena_untouched_state(),
            final(self).setup_count() == old(self).setup_count(),
            final(self).arena() == old(self).arena(),
            final(self).entry_log() == old(self).entry_log(),
            final(self).log() == old(self).log(),
            final(self).is_halted() == old(self).is_halted(),
    {
        self.powered_off = true;
        self.shutdown_requests = self.shutdown_requests + 1;
    }

    /// Enters the terminal low-power wait: the unconditional terminus of
    /// every fatal handler and the fallback if shutdown returns.
    pub fn halt(&mut self)
        ensures
            final(self).is_halted(),
            old(self).wf() ==> final(self).wf(),
            final(self).ready_state() == old(self).ready_state(),
            final(self).output_ready_state() == old(self).output_ready_state(),
            final(self).arena_untouched_state() == old(self).arena_untouched_state(),
            final(self).setup_count() == old(self).setup_count(),
            final(self).arena() == old(self).arena(),
            final(self).entry_log() == old(self).entry_log(),
            final(self).log() == old(self).log(),
            final(self).power_off_state() == old(self).power_off_state(),
            final(self).shutdown_count() == old(self).shutdown_count(),
    {
        self.halted = true;
    }

    /// One iteration of the halt loop: issue the low-power wait hint and
    /// change nothing. Once halted the machine makes no further observable
    /// progress, however often this is polled.
    pub fn halt_step(&mut self)
        requires
            old(self).is_halted(),
        ensures
            *final(self) == *old(self),
    {
        low_power_wait();
    }

    /// The readiness flag, as a secondary core's acquire-ordered load
    /// observes it.
    pub fn ready(&self) -> (b: bool)
        ensures
            b == self.ready_state(),
    {
        self.ready
    }

    /// Whether the output channel is initialized.
    pub fn output_ready(&self) -> (b: bool)
        ensures
            b == self.output_ready_state(),
    {
        self.output_ready
    }

    /// How many times one-time setup has run.
    pub fn setup_runs(&self) -> (n: u64)
        ensures
            n == self.setup_count(),
    {
        self.setup_runs
    }

    /// How many lines have been emitted on the output channel.
    pub fn output_len(&self) -> (n: usize)
        ensures
            n == self.log().len(),
    {
        self.output.len()
    }

    /// The `i`th line emitted on the output channel, oldest first.
    pub fn output_line(&self, i: usize) -> (line: &String)
        requires
            i < self.log().len(),
        ensures
            line@ == self.log()[i as int],
    {
        &self.output[i]
    }

    /// Whether a core has entered the terminal low-power wait.
    pub fn halted(&self) -> (b: bool)
        ensures
            b == self.is_halted(),
    {
        self.halted
    }

    /// Whether the platform has been asked to power off.
    pub fn powered_off(&self) -> (b: bool)
        ensures
            b == self.power_off_state(),
    {
        self.powered_off
    }

    /// How many power-off requests have been issued.
    pub fn shutdown_requests(&self) -> (n: u64)
        ensures
            n == self.shutdown_count(),
    {
        self.shutdown_requests
    }

    /// How many times the application entry point has been entered.
    pub fn entry_count(&self) -> (n: usize)
        ensures
            n == self.entry_log().len(),
    {
        self.entries.len()
    }

    /// The core handed to the application entry point `i`th, in entry order.
    pub fn entry(&self, i: usize) -> (hartid: u64)
        requires
            i < self.entry_log().len(),
        ensures
            hartid == self.entry_log()[i as int],
    {
        self.entries[i]
    }

    /// Bytes of arena the allocator currently manages.
    pub fn arena_bytes(&self) -> (n: usize)
        ensures
            n == self.arena(),
    {
        heap_size(&self.heap)
    }
}

/// Relies on `core::hint::spin_loop`: a power-saving wait hint to the
/// processor with no observable effect on any state.
#[verifier::external_body]
fn low_power_wait() {
    core::hint::spin_loop()
}

/// One-time setup runs at most once per process lifetime, and readiness is
/// published exactly when it has run: the readiness flag can only ever move
/// from false to true, once.
pub proof fn lemma_setup_at_most_once(rt: Runtime)
    requires
        rt.wf(),
    ensures
        rt.setup_count() <= 1,
        rt.ready_state() <==> rt.setup_count() == 1,
{
}

/// Once a secondary core observes readiness, one-time setup has logically
/// completed: the output channel is initialized and the allocator manages
/// the whole arena, up to the alignment trim of at most two machine words.
pub proof fn lemma_ready_implies_setup_complete(rt: Runtime)
    requires
        rt.wf(),
        rt.ready_state(),
    ensures
        rt.output_ready_state(),
        rt.setup_count() == 1,
        rt.arena() <= HEAP_SIZE,
        HEAP_SIZE <= rt.arena() + 16,
{
}

/// After the heap bootstrap, while no request has been served yet, every
/// allocation request of at most word alignment that leaves a 32-byte margin
/// within the arena is satisfied. The margin is necessary: right at the
/// boundary the allocator's metadata rounding can defeat a request that is
/// still smaller than the arena.
pub proof fn lemma_fresh_arena_serves_small_requests(rt: Runtime, size: usize, align: usize)
    requires
        rt.wf(),
        rt.ready_state(),
        rt.arena_untouched_state(),
        1 <= size,
        align == 1 || align == 2 || align == 4 || align == 8,
        size + 32 <= rt.arena(),
    ensures
        alloc_ok_state(rt, size, align),
{
}

/// Whether the allocator, in the runtime's current state, satisfies a
/// request of `size` bytes aligned to `align`: exactly what
/// [`Runtime::allocate`] returns for it.
pub open spec fn alloc_ok_state(rt: Runtime, size: usize, align: usize) -> bool {
    alloc_ok(rt.heap_value(), size, align)
}

/// The platform is asked to power off at most once per process lifetime.
pub proof fn lemma_shutdown_at_most_once(rt: Runtime)
    requires
        rt.wf(),
    ensures
        rt.shutdown_count() <= 1,
        rt.power_off_state() <==> rt.shutdown_count() == 1,
{
}

} // verus!
