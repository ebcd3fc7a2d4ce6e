//! The delivery of a signal: from the number that the operating system hands
//! over to the one call of the handler installed for that signal.

use crate::registry::Registry;
use crate::signal::Signal;
use vstd::prelude::*;

verus! {

/// What the delivery of signal number `code` calls: the handler installed for
/// the signal with that number, with the signal as its argument. A delivery
/// calls nothing where the slot of the signal is empty, or where the number
/// stands for no signal.
pub open spec fn target<H>(handlers: Map<Signal, H>, code: int) -> Option<(Signal, H)> {
    match Signal::from_code(code) {
        Some(sig) => if handlers.contains_key(sig) {
            Some((sig, handlers[sig]))
        } else {
            None
        },
        None => None,
    }
}

/// The calls that a run of deliveries makes, in their order: one call for each
/// delivered number that has a target.
pub open spec fn calls<H>(handlers: Map<Signal, H>, codes: Seq<int>) -> Seq<(Signal, H)>
    decreases codes.len(),
{
    if codes.len() == 0 {
        Seq::empty()
    } else {
        let earlier = calls(handlers, codes.drop_last());
        match target(handlers, codes.last()) {
            Some(call) => earlier.push(call),
            None => earlier,
        }
    }
}

/// Delivers the signal with number `sig`: calls the handler installed for it,
/// once, with the signal as its argument, and does nothing where no handler is
/// installed. The registry is left as it was.
///
/// The number must be that of a signal, and the handler must accept the call.
pub fn rust_signal_handler<H: FnMut(Signal)>(registry: &mut Registry<H>, sig: i32)
    requires
        0 <= sig <= 31,
        target(old(registry)@, sig as int) matches Some((s, h)) ==> call_requires(h, (s,)),
    ensures
        final(registry)@ == old(registry)@,
        target(old(registry)@, sig as int) matches Some((s, h)) ==> call_ensures(h, (s,), ()),
{
    let s = Signal::from_i32(sig).unwrap();
    match registry.lookup_mut(s) {
        Some(handler) => handler(s),
        None => {},
    }
}

/// A handler that was installed for a signal is the target of that signal's
/// delivery, with the signal itself as the argument.
pub proof fn lemma_installed_handler_is_called<H>(handlers: Map<Signal, H>, sig: Signal, h: H)
    ensures
        target(handlers.insert(sig, h), sig.code()) == Some((sig, h)),
{
}

/// The delivery of a signal whose slot is empty calls nothing.
pub proof fn lemma_empty_slot_calls_nothing<H>(handlers: Map<Signal, H>, sig: Signal)
    requires
        !handlers.contains_key(sig),
    ensures
        target(handlers, sig.code()) is None,
{
}

/// Of two handlers installed for one signal the second replaces the first:
/// the registry is as if the first had never been installed, and the delivery
/// of the signal calls the second.
pub proof fn lemma_second_handler_replaces_first<H>(
    handlers: Map<Signal, H>,
    sig: Signal,
    first: H,
    second: H,
)
    ensures
        handlers.insert(sig, first).insert(sig, second) == handlers.insert(sig, second),
        target(handlers.insert(sig, first).insert(sig, second), sig.code()) == Some(
            (sig, second),
        ),
{
}

/// A signal delivered `n` times in a row calls its handler `n` times, each
/// time with the signal as the argument.
pub proof fn lemma_one_call_for_each_delivery<H>(handlers: Map<Signal, H>, sig: Signal, n: nat)
    requires
        handlers.contains_key(sig),
    ensures
        calls(handlers, Seq::new(n, |i: int| sig.code())) == Seq::new(
            n,
            |i: int| (sig, handlers[sig]),
        ),
    decreases n,
{
    if n > 0 {
        let fewer = (n - 1) as nat;
        lemma_one_call_for_each_delivery(handlers, sig, fewer);
        assert(Seq::new(n, |i: int| sig.code()).drop_last() =~= Seq::new(
            fewer,
            |i: int| sig.code(),
        ));
    }
}

/// To install a handler for one signal changes the delivery of no other.
pub proof fn lemma_other_slots_are_untouched<H>(
    handlers: Map<Signal, H>,
    sig: Signal,
    h: H,
    code: int,
)
    requires
        code != sig.code(),
    ensures
        target(handlers.insert(sig, h), code) == target(handlers, code),
{
}

} // verus!
