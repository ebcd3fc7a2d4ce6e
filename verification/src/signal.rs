//! The identity of a signal: a name for each number from 0 to 31.

use vstd::prelude::*;

verus! {

/// A signal, one for each number from 0 to 31, in the order of their numbers.
#[derive(Hash, Eq, PartialEq, Ord, Clone, Copy, Debug, Structural)]
pub enum Signal {
    /// Number 0, which stands for no signal.
    Null,
    /// Hangup.
    Hup,
    /// Interrupt.
    Int,
    /// Quit.
    Quit,
    /// Illegal instruction.
    Ill,
    /// Trace trap.
    Trap,
    /// Abort.
    Abrt,
    /// Bus error.
    Bus,
    /// Arithmetic exception.
    Fpe,
    /// Kill.
    Kill,
    /// First signal left to the user.
    Usr1,
    /// Segmentation fault.
    Segv,
    /// Second signal left to the user.
    Usr2,
    /// Broken pipe.
    Pipe,
    /// Alarm clock.
    Alrm,
    /// Termination.
    Term,
    /// Stack fault.
    StkFlt,
    /// A child stopped or terminated.
    Chld,
    /// Continue.
    Cont,
    /// Stop.
    Stop,
    /// Stop typed at the terminal.
    Tstp,
    /// Terminal input for a background process.
    Ttin,
    /// Terminal output for a background process.
    Ttou,
    /// Urgent condition on a socket.
    Urg,
    /// Limit of processor time exceeded.
    XCpu,
    /// Limit of file size exceeded.
    Xfsz,
    /// Virtual alarm clock.
    Vtalrm,
    /// Profiling timer expired.
    Prof,
    /// Window size changed.
    Winch,
    /// Input or output is possible.
    Io,
    /// Power failure.
    Pwr,
    /// Bad system call.
    Sys,
}

impl Signal {
    /// The number of a signal.
    pub open spec fn code(self) -> int {
        match self {
            Signal::Null => 0,
            Signal::Hup => 1,
            Signal::Int => 2,
            Signal::Quit => 3,
            Signal::Ill => 4,
            Signal::Trap => 5,
            Signal::Abrt => 6,
            Signal::Bus => 7,
            Signal::Fpe => 8,
            Signal::Kill => 9,
            Signal::Usr1 => 10,
            Signal::Segv => 11,
            Signal::Usr2 => 12,
            Signal::Pipe => 13,
            Signal::Alrm => 14,
            Signal::Term => 15,
            Signal::StkFlt => 16,
            Signal::Chld => 17,
            Signal::Cont => 18,
            Signal::Stop => 19,
            Signal::Tstp => 20,
            Signal::Ttin => 21,
            Signal::Ttou => 22,
            Signal::Urg => 23,
            Signal::XCpu => 24,
            Signal::Xfsz => 25,
            Signal::Vtalrm => 26,
            Signal::Prof => 27,
            Signal::Winch => 28,
            Signal::Io => 29,
            Signal::Pwr => 30,
            Signal::Sys => 31,
        }
    }

    /// The signal that a number stands for, and none for a number below 0 or
    /// above 31.
    pub open spec fn from_code(n: int) -> Option<Signal> {
        if n == 0 {
            Some(Signal::Null)
        } else if n == 1 {
            Some(Signal::Hup)
        } else if n == 2 {
            Some(Signal::Int)
        } else if n == 3 {
            Some(Signal::Quit)
        } else if n == 4 {
            Some(Signal::Ill)
        } else if n == 5 {
            Some(Signal::Trap)
        } else if n == 6 {
            Some(Signal::Abrt)
        } else if n == 7 {
            Some(Signal::Bus)
        } else if n == 8 {
            Some(Signal::Fpe)
        } else if n == 9 {
            Some(Signal::Kill)
        } else if n == 10 {
            Some(Signal::Usr1)
        } else if n == 11 {
            Some(Signal::Segv)
        } else if n == 12 {
            Some(Signal::Usr2)
        } else if n == 13 {
            Some(Signal::Pipe)
        } else if n == 14 {
            Some(Signal::Alrm)
        } else if n == 15 {
            Some(Signal::Term)
        } else if n == 16 {
            Some(Signal::StkFlt)
        } else if n == 17 {
            Some(Signal::Chld)
        } else if n == 18 {
            Some(Signal::Cont)
        } else if n == 19 {
            Some(Signal::Stop)
        } else if n == 20 {
            Some(Signal::Tstp)
        } else if n == 21 {
            Some(Signal::Ttin)
        } else if n == 22 {
            Some(Signal::Ttou)
        } else if n == 23 {
            Some(Signal::Urg)
        } else if n == 24 {
            Some(Signal::XCpu)
        } else if n == 25 {
            Some(Signal::Xfsz)
        } else if n == 26 {
            Some(Signal::Vtalrm)
        } else if n == 27 {
            Some(Signal::Prof)
        } else if n == 28 {
            Some(Signal::Winch)
        } else if n == 29 {
            Some(Signal::Io)
        } else if n == 30 {
            Some(Signal::Pwr)
        } else if n == 31 {
            Some(Signal::Sys)
        } else {
            None
        }
    }

    /// The signal with number `n`, and `None` where `n` is the number of no
    /// signal.
    pub fn from_i32(n: i32) -> (r: Option<Signal>)
        ensures
            r == Signal::from_code(n as int),
            r is Some <==> 0 <= n <= 31,
            r matches Some(s) ==> s.code() == n,
    {
        match n {
            0 => Some(Signal::Null),
            1 => Some(Signal::Hup),
            2 => Some(Signal::Int),
            3 => Some(Signal::Quit),
            4 => Some(Signal::Ill),
            5 => Some(Signal::Trap),
            6 => Some(Signal::Abrt),
            7 => Some(Signal::Bus),
            8 => Some(Signal::Fpe),
            9 => Some(Signal::Kill),
            10 => Some(Signal::Usr1),
            11 => Some(Signal::Segv),
            12 => Some(Signal::Usr2),
            13 => Some(Signal::Pipe),
            14 => Some(Signal::Alrm),
            15 => Some(Signal::Term),
            16 => Some(Signal::StkFlt),
            17 => Some(Signal::Chld),
            18 => Some(Signal::Cont),
            19 => Some(Signal::Stop),
            20 => Some(Signal::Tstp),
            21 => Some(Signal::Ttin),
            22 => Some(Signal::Ttou),
            23 => Some(Signal::Urg),
            24 => Some(Signal::XCpu),
            25 => Some(Signal::Xfsz),
            26 => Some(Signal::Vtalrm),
            27 => Some(Signal::Prof),
            28 => Some(Signal::Winch),
            29 => Some(Signal::Io),
            30 => Some(Signal::Pwr),
            31 => Some(Signal::Sys),
            _ => None,
        }
    }

    /// The number of this signal.
    pub fn to_i32(self) -> (n: i32)
        ensures
            n == self.code(),
    {
        match self {
            Signal::Null => 0,
            Signal::Hup => 1,
            Signal::Int => 2,
            Signal::Quit => 3,
            Signal::Ill => 4,
            Signal::Trap => 5,
            Signal::Abrt => 6,
            Signal::Bus => 7,
            Signal::Fpe => 8,
            Signal::Kill => 9,
            Signal::Usr1 => 10,
            Signal::Segv => 11,
            Signal::Usr2 => 12,
            Signal::Pipe => 13,
            Signal::Alrm => 14,
            Signal::Term => 15,
            Signal::StkFlt => 16,
            Signal::Chld => 17,
            Signal::Cont => 18,
            Signal::Stop => 19,
            Signal::Tstp => 20,
            Signal::Ttin => 21,
            Signal::Ttou => 22,
            Signal::Urg => 23,
            Signal::XCpu => 24,
            Signal::Xfsz => 25,
            Signal::Vtalrm => 26,
            Signal::Prof => 27,
            Signal::Winch => 28,
            Signal::Io => 29,
            Signal::Pwr => 30,
            Signal::Sys => 31,
        }
    }

    /// A number from 0 to 31 stands for a signal, and the number of that
    /// signal is the number it came from.
    pub proof fn lemma_number_round_trip(n: int)
        requires
            0 <= n <= 31,
        ensures
            Signal::from_code(n) is Some,
            Signal::from_code(n)->0.code() == n,
    {
    }

    /// A number below 0 or above 31 stands for no signal.
    pub proof fn lemma_number_out_of_range(n: int)
        requires
            n < 0 || n > 31,
        ensures
            Signal::from_code(n) is None,
    {
    }

    /// The number of a signal lies between 0 and 31 and stands for that
    /// signal, so that no two signals share a number.
    pub proof fn lemma_signal_round_trip(s: Signal)
        ensures
            0 <= s.code() <= 31,
            Signal::from_code(s.code()) == Some(s),
    {
    }
}

} // verus!
