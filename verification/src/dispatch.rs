//! Dispatcher: composes the Transport Selector with the three transport
//! configurations. Exactly one listener is chosen per process run; an
//! unrecognized connection type chooses none, so no socket is ever bound
//! for it.

use vstd::prelude::*;

use crate::parser::{SerialParser, TcpParser, UdpParser};
use crate::select::{
    lower_chars, select_connection_type, spec_connection_type, ConnectionTypes,
};

verus! {

/// The one listener a process run executes, as a tagged variant over the
/// three transport kinds, matched exhaustively at the single dispatch point.
pub enum DispatchPlan {
    /// Run the TCP Echo Listener on this configuration; it never returns.
    Tcp(TcpParser),
    /// Run the UDP Echo Receiver on this configuration; it never returns.
    Udp(UdpParser),
    /// Run the Serial Stub on this configuration; it returns immediately.
    Serial(SerialParser),
    /// Log the unknown connection type and exit normally, starting nothing.
    Unknown,
}

/// Maps the raw connection-type argument (any letter casing) and the raw
/// parameter string to the one listener to run: `parameters` is the bind
/// address for TCP and UDP, and the baud-rate string — joined with the fixed
/// default device path — for serial.
pub fn dispatch(connection_type_arg: &str, parameters: &str) -> (plan: DispatchPlan)
    ensures
        spec_connection_type(lower_chars(connection_type_arg@)) == ConnectionTypes::TCP ==> (plan
            matches DispatchPlan::Tcp(p) && p.socket@ == parameters@),
        spec_connection_type(lower_chars(connection_type_arg@)) == ConnectionTypes::UDP ==> (plan
            matches DispatchPlan::Udp(p) && p.socket@ == parameters@),
        spec_connection_type(lower_chars(connection_type_arg@)) == ConnectionTypes::SERIAL ==> (
        plan matches DispatchPlan::Serial(p) && p.device_path@ == "/dev/ttyS0"@ && p.baud_rate@
            == parameters@),
        spec_connection_type(lower_chars(connection_type_arg@)) == ConnectionTypes::UNKNOWN ==> plan
            is Unknown,
{
    match select_connection_type(connection_type_arg) {
        ConnectionTypes::TCP => DispatchPlan::Tcp(TcpParser::new(parameters)),
        ConnectionTypes::UDP => DispatchPlan::Udp(UdpParser::new(parameters)),
        ConnectionTypes::SERIAL => DispatchPlan::Serial(
            SerialParser::new("/dev/ttyS0", parameters),
        ),
        ConnectionTypes::UNKNOWN => DispatchPlan::Unknown,
    }
}

} // verus!
