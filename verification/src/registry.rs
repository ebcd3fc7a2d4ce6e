//! The handlers installed for the signals: one slot for each signal, empty or
//! holding the one handler that is called when the signal is delivered.

use crate::signal::Signal;
use vstd::prelude::*;

verus! {

/// One slot for each signal. A slot is empty until a handler is installed in
/// it, and then holds the handler that was installed last.
pub struct Registry<H> {
    slots: [Option<H>; 32],
}

impl<H> Registry<H> {
    /// The installed handlers, each under the signal it was installed for.
    pub closed spec fn view(&self) -> Map<Signal, H> {
        Map::new(
            |sig: Signal| self.slots@[sig.code()] is Some,
            |sig: Signal| self.slots@[sig.code()]->0,
        )
    }

    /// A registry with every slot empty.
    pub fn new() -> (registry: Self)
        ensures
            registry@ == Map::<Signal, H>::empty(),
    {
        Registry {
            slots: [
                None, None, None, None, None, None, None, None,
                None, None, None, None, None, None, None, None,
                None, None, None, None, None, None, None, None,
                None, None, None, None, None, None, None, None,
            ],
        }
    }

    /// The handler installed for `sig`, and `None` where its slot is empty.
    pub fn lookup(&self, sig: Signal) -> (handler: Option<&H>)
        ensures
            handler == (if self@.contains_key(sig) {
                Some(&self@[sig])
            } else {
                None
            }),
    {
        self.slots[sig.to_i32() as usize].as_ref()
    }

    /// The handler installed for `sig`, to be called or changed in place, and
    /// `None` where the slot of `sig` is empty. The other slots stay as they
    /// are.
    pub(crate) fn lookup_mut(&mut self, sig: Signal) -> (handler: Option<&mut H>)
        ensures
            match handler {
                Some(h) => old(self)@.contains_key(sig) && *h == old(self)@[sig]
                    && final(self)@ == old(self)@.insert(sig, *final(h)),
                None => !old(self)@.contains_key(sig) && final(self)@ == old(self)@,
            },
    {
        self.slots[sig.to_i32() as usize].as_mut()
    }
}

/// Installs `f` as the handler for `sig`. A handler that was installed for
/// `sig` before is dropped; the handlers of the other signals stay.
pub fn set_handler<H>(registry: &mut Registry<H>, sig: Signal, f: H)
    ensures
        final(registry)@ == old(registry)@.insert(sig, f),
{
    registry.slots[sig.to_i32() as usize] = Some(f);
}

/// The handler that does nothing.
pub fn null_handler(_sig: Signal) {
}

} // verus!
