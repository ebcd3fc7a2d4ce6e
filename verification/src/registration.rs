//! Registration: a handler is adopted for a signal once the operating system
//! has agreed to route the signal to the trampoline.

use crate::outcome::{is_error_code, last_error};
use crate::registry::{set_handler, Registry};
use crate::signal::Signal;
use vstd::prelude::*;

verus! {

/// What the operating system answers where it refuses to route a signal.
pub const REFUSED: isize = -1;

impl Signal {
    /// Completes the registration of `handler` for this signal. `previous` is
    /// what the operating system answered to the request to route the signal
    /// to the trampoline: the handler that it had before, or `REFUSED`.
    ///
    /// Where the system refused, the error code of the thread is returned and
    /// the registry stays as it was. Otherwise `handler` is installed for
    /// this signal, in place of any handler that was installed for it before.
    pub fn handle<H>(self, registry: &mut Registry<H>, handler: H, previous: isize) -> (r: Result<
        (),
        usize,
    >)
        ensures
            previous == REFUSED ==> r is Err && final(registry)@ == old(registry)@,
            previous != REFUSED ==> r == Ok::<(), usize>(()) && final(registry)@ == old(
                registry,
            )@.insert(self, handler),
            r matches Err(code) ==> is_error_code(code),
    {
        if previous == REFUSED {
            Err(last_error())
        } else {
            set_handler(registry, self, handler);
            Ok(())
        }
    }
}

} // verus!
