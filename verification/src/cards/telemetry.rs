//! The whole-number readings of the Monitor and Network cards: uptime in hours and traffic in
//! whole mebibytes.

use crate::text::{append_decimal, decimal_text};
use vstd::prelude::*;

verus! {

/// How long the host has been up, in whole hours.
pub open spec fn uptime_text(seconds: nat) -> Seq<char> {
    decimal_text(seconds / 3600) + " hours"@
}

/// How long the host has been up.
pub fn uptime_line(seconds: u64) -> (r: String)
    ensures
        r@ == uptime_text(seconds as nat),
{
    let mut s = String::new();
    append_decimal(&mut s, seconds / 3600);
    s.append(" hours");
    s
}

/// How many whole mebibytes `bytes` holds.
pub open spec fn mebibytes(bytes: nat) -> nat {
    bytes / 1048576
}

/// What an interface received and sent, in whole mebibytes, as the Monitor shows it.
pub fn interface_traffic(rx_bytes: u64, tx_bytes: u64) -> (r: (String, String))
    ensures
        r.0@ == "RX: "@ + decimal_text(mebibytes(rx_bytes as nat)) + " MB"@,
        r.1@ == "TX: "@ + decimal_text(mebibytes(tx_bytes as nat)) + " MB"@,
{
    let mut rx = String::from_str("RX: ");
    append_decimal(&mut rx, rx_bytes / 1048576);
    rx.append(" MB");
    let mut tx = String::from_str("TX: ");
    append_decimal(&mut tx, tx_bytes / 1048576);
    tx.append(" MB");
    (rx, tx)
}

/// What a connection received and sent, in whole mebibytes, as the Network card shows it.
pub fn connection_traffic(rx_bytes: u64, tx_bytes: u64) -> (r: String)
    ensures
        r@ == "↓ "@ + decimal_text(mebibytes(rx_bytes as nat)) + " MB  ↑ "@ + decimal_text(
            mebibytes(tx_bytes as nat),
        ) + " MB"@,
{
    let mut s = String::from_str("↓ ");
    append_decimal(&mut s, rx_bytes / 1048576);
    s.append(" MB  ↑ ");
    append_decimal(&mut s, tx_bytes / 1048576);
    s.append(" MB");
    s
}

} // verus!
