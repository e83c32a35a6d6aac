//! The three transport configurations, each owning the parameter strings its
//! listener runs with, and the Serial Stub's log report.

use vstd::prelude::*;

verus! {

/// Configuration of the UDP Echo Receiver: the `host:port` text it binds.
pub struct UdpParser {
    pub socket: String,
}

impl UdpParser {
    /// Builds a UDP receiver configuration for the given bind address.
    pub fn new(socket: &str) -> (p: UdpParser)
        ensures
            p.socket@ == socket@,
    {
        UdpParser { socket: socket.to_owned() }
    }
}

/// Configuration of the TCP Echo Listener: the `host:port` text it binds.
pub struct TcpParser {
    pub socket: String,
}

impl TcpParser {
    /// Builds a TCP listener configuration for the given bind address.
    pub fn new(socket: &str) -> (p: TcpParser)
        ensures
            p.socket@ == socket@,
    {
        TcpParser { socket: socket.to_owned() }
    }
}

/// Configuration of the Serial Stub: a device path and the baud-rate
/// parameter exactly as the user supplied it.
pub struct SerialParser {
    pub device_path: String,
    pub baud_rate: String,
}

impl SerialParser {
    /// Builds a serial configuration for the given device path and baud-rate
    /// string.
    pub fn new(device_path: &str, baud_rate: &str) -> (p: SerialParser)
        ensures
            p.device_path@ == device_path@,
            p.baud_rate@ == baud_rate@,
    {
        SerialParser { device_path: device_path.to_owned(), baud_rate: baud_rate.to_owned() }
    }

    /// Everything the Serial Stub does: it reports its configuration, with
    /// the baud value parsed when the string is a plain decimal (a parse
    /// failure is only reported, never fatal), and states that serial
    /// transport is not implemented. It performs no I/O of any kind.
    pub fn report(&self) -> (r: SerialReport)
        ensures
            r.device_path@ == self.device_path@,
            r.baud_rate@ == self.baud_rate@,
            r.baud_value is Some <==> (self.baud_rate@.len() > 0 && all_digits(self.baud_rate@)
                && digits_value(self.baud_rate@) <= u64::MAX),
            r.baud_value matches Some(n) ==> n == digits_value(self.baud_rate@),
            !r.implemented,
    {
        SerialReport {
            device_path: self.device_path.clone(),
            baud_rate: self.baud_rate.clone(),
            baud_value: parse_baud(self.baud_rate.as_str()),
            implemented: false,
        }
    }
}

/// The Serial Stub's whole observable behavior: the configuration it logs
/// and the explicit notice that serial transport is not implemented.
pub struct SerialReport {
    pub device_path: String,
    pub baud_rate: String,
    pub baud_value: Option<u64>,
    pub implemented: bool,
}

/// True for the ten decimal digit characters.
pub open spec fn is_ascii_digit(c: char) -> bool {
    48 <= c as u32 && c as u32 <= 57
}

/// Numeric value of one decimal digit character.
pub open spec fn digit_val(c: char) -> nat
    recommends
        is_ascii_digit(c),
{
    (c as u32 - 48) as nat
}

/// True when every character of `s` is a decimal digit.
pub open spec fn all_digits(s: Seq<char>) -> bool {
    forall|k: int| 0 <= k < s.len() ==> is_ascii_digit(#[trigger] s[k])
}

/// Value of `s` read as a decimal numeral.
pub open spec fn digits_value(s: Seq<char>) -> nat
    recommends
        all_digits(s),
    decreases s.len(),
{
    if s.len() == 0 {
        0
    } else {
        digits_value(s.drop_last()) * 10 + digit_val(s.last())
    }
}

/// A numeral's value is at least the value of any of its prefixes: appending
/// digits never decreases the value.
proof fn lemma_digits_prefix_le(s: Seq<char>, i: int)
    requires
        0 <= i <= s.len(),
    ensures
        digits_value(s.take(i)) <= digits_value(s),
    decreases s.len() - i,
{
    if i < s.len() {
        assert(s.take(i + 1).drop_last() =~= s.take(i));
        assert(s.take(i + 1).last() == s[i]);
        lemma_digits_prefix_le(s, i + 1);
    } else {
        assert(s.take(i) =~= s);
    }
}

/// Reads the baud-rate string as a decimal number, for logging. Returns the
/// value exactly when the string is nonempty, all digits, and within range;
/// anything else is a reported (non-fatal) parse failure.
pub fn parse_baud(s: &str) -> (r: Option<u64>)
    ensures
        r is Some <==> (s@.len() > 0 && all_digits(s@) && digits_value(s@) <= u64::MAX),
        r matches Some(n) ==> n == digits_value(s@),
{
    let n = s.unicode_len();
    if n == 0 {
        return None;
    }
    let mut acc: u64 = 0;
    let mut i: usize = 0;
    while i < n
        invariant
            n == s@.len(),
            0 < n,
            i <= n,
            all_digits(s@.take(i as int)),
            acc == digits_value(s@.take(i as int)),
        decreases n - i,
    {
        let c = s.get_char(i);
        let u = c as u32;
        if !(48 <= u && u <= 57) {
            assert(!is_ascii_digit(s@[i as int]));
            return None;
        }
        let d = (u - 48) as u64;
        proof {
            assert(s@.take(i as int + 1).drop_last() =~= s@.take(i as int));
            assert(s@.take(i as int + 1).last() == s@[i as int]);
        }
        let scaled = acc.checked_mul(10);
        match scaled {
            None => {
                proof {
                    assert(digits_value(s@.take(i as int + 1)) > u64::MAX);
                    if all_digits(s@) {
                        lemma_digits_prefix_le(s@, i as int + 1);
                    }
                }
                return None;
            },
            Some(base) => {
                let next = base.checked_add(d);
                match next {
                    None => {
                        proof {
                            assert(digits_value(s@.take(i as int + 1)) > u64::MAX);
                            if all_digits(s@) {
                                lemma_digits_prefix_le(s@, i as int + 1);
                            }
                        }
                        return None;
                    },
                    Some(v) => {
                        acc = v;
                    },
                }
            },
        }
        i += 1;
    }
    proof {
        assert(s@.take(i as int) =~= s@);
    }
    Some(acc)
}

} // verus!
