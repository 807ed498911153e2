use vstd::prelude::*;

use crate::message::{c_string_of, is_c_string, Message};

verus! {

/// A routine of the host that the module calls.
#[derive(Clone, Copy, Debug, PartialEq, Eq, Structural)]
pub enum Primitive {
    /// Writes a zero-terminated string to the host's console.
    Print,
    /// Ends normal execution with a zero-terminated diagnostic; never returns.
    Fatal,
}

/// One call into the host: the routine, and the message handed to it.
#[derive(Clone, Copy, Debug, PartialEq, Eq, Structural)]
pub struct HostCall {
    pub primitive: Primitive,
    pub message: Message,
}

impl HostCall {
    /// The bytes handed to the host routine.
    pub fn payload(&self) -> (r: &'static [u8])
        ensures
            r@ == self.message.spec_bytes(),
            is_c_string(r@),
    {
        self.message.bytes()
    }
}

/// The call made when the host loads the module: print the greeting.
pub open spec fn load_call() -> HostCall {
    HostCall { primitive: Primitive::Print, message: Message::Greeting }
}

/// The call made on an unrecoverable fault: hand the diagnostic to the
/// host's fatal-error routine.
pub open spec fn fault_call() -> HostCall {
    HostCall { primitive: Primitive::Fatal, message: Message::FaultNotice }
}

/// Whether the host has been told to stop: a fatal call was made.
pub open spec fn halted(trace: Seq<HostCall>) -> bool {
    exists|i: int| 0 <= i < trace.len() && #[trigger] trace[i].primitive == Primitive::Fatal
}

/// The calls seen by the host after one more call is made. Since the fatal
/// routine does not return, nothing is made after it.
pub open spec fn perform(trace: Seq<HostCall>, call: Option<HostCall>) -> Seq<HostCall> {
    if halted(trace) {
        trace
    } else {
        match call {
            Some(c) => trace.push(c),
            None => trace,
        }
    }
}

/// The calls seen by the host after the module is unloaded `n` times.
pub open spec fn after_unloads(trace: Seq<HostCall>, n: nat) -> Seq<HostCall>
    decreases n,
{
    if n == 0 {
        trace
    } else {
        perform(after_unloads(trace, (n - 1) as nat), None)
    }
}

/// The number of fatal calls among the calls seen by the host.
pub open spec fn fatal_count(trace: Seq<HostCall>) -> nat {
    trace.filter(|c: HostCall| c.primitive == Primitive::Fatal).len()
}

/// Entry point the host runs when it loads the module: the call to make is
/// one print of the greeting.
pub fn grub_rust_hello_init() -> (r: HostCall)
    ensures
        r == load_call(),
{
    HostCall { primitive: Primitive::Print, message: Message::Greeting }
}

/// Entry point the host runs when it unloads the module: there is nothing
/// to tear down, so no call is made.
pub fn grub_rust_hello_fini() -> (r: Option<HostCall>)
    ensures
        r is None,
{
    None
}

/// The policy for an unrecoverable fault: the one call to make is to the
/// host's fatal-error routine, with the diagnostic.
pub fn panicker() -> (r: HostCall)
    ensures
        r == fault_call(),
{
    HostCall { primitive: Primitive::Fatal, message: Message::FaultNotice }
}

proof fn lemma_fatal_count_zero(trace: Seq<HostCall>)
    requires
        !halted(trace),
    ensures
        fatal_count(trace) == 0,
    decreases trace.len(),
{
    if trace.len() > 0 {
        let rest = trace.drop_last();
        assert(trace == rest.push(trace.last()));
        assert forall|i: int| 0 <= i < rest.len() implies rest[i].primitive != Primitive::Fatal by {
            assert(trace[i] == rest[i]);
        }
        lemma_fatal_count_zero(rest);
        rest.lemma_filter_len_push(|c: HostCall| c.primitive == Primitive::Fatal, trace.last());
        assert(trace[trace.len() - 1].primitive != Primitive::Fatal);
    }
}

/// Loading the module once, on a host that has seen no call yet, makes
/// exactly one call: a print of "Hello from Rust" followed by a zero byte.
pub proof fn law_load_prints_greeting_once()
    ensures
        perform(Seq::empty(), Some(load_call())) == seq![load_call()],
        load_call().primitive == Primitive::Print,
        load_call().message.spec_bytes() == c_string_of("Hello from Rust"@),
        is_c_string(load_call().message.spec_bytes()),
{
    reveal_strlit("Hello from Rust");
    let t = perform(Seq::empty(), Some(load_call()));
    assert(t =~= seq![load_call()]);
    let b = load_call().message.spec_bytes();
    assert(b.len() == 16);
    assert(forall|i: int| 0 <= i < 15 ==> b[i] != 0u8);
}

/// Unloading the module any number of times changes nothing the host sees:
/// no call is made.
pub proof fn law_unload_is_inert(trace: Seq<HostCall>, n: nat)
    ensures
        after_unloads(trace, n) == trace,
    decreases n,
{
    if n > 0 {
        law_unload_is_inert(trace, (n - 1) as nat);
    }
}

/// A fault on a running host makes exactly one fatal call, with a
/// non-empty zero-terminated diagnostic, and nothing is made after it.
pub proof fn law_fault_halts(trace: Seq<HostCall>)
    requires
        !halted(trace),
    ensures
        perform(trace, Some(fault_call())) == trace.push(fault_call()),
        fatal_count(perform(trace, Some(fault_call()))) == 1,
        is_c_string(fault_call().message.spec_bytes()),
        fault_call().message.spec_bytes().len() > 1,
        halted(perform(trace, Some(fault_call()))),
        forall|c: Option<HostCall>|
            #[trigger] perform(perform(trace, Some(fault_call())), c) == perform(
                trace,
                Some(fault_call()),
            ),
{
    reveal_strlit("Panic in Rust");
    let t = trace.push(fault_call());
    lemma_fatal_count_zero(trace);
    trace.lemma_filter_len_push(|c: HostCall| c.primitive == Primitive::Fatal, fault_call());
    assert(t[t.len() - 1].primitive == Primitive::Fatal);
    let b = fault_call().message.spec_bytes();
    assert(b.len() == 14);
    assert(forall|i: int| 0 <= i < 13 ==> b[i] != 0u8);
}

} // verus!
