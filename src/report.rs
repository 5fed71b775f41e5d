use vstd::prelude::*;

use crate::text::{append_str, decimal, push_decimal};

verus! {

/// How a flag is printed.
pub open spec fn bool_text(b: bool) -> Seq<char> {
    if b {
        "true"@
    } else {
        "false"@
    }
}

/// `address:port`, the form in which a host and a port are written together.
pub open spec fn endpoint_text(address: Seq<char>, port: u16) -> Seq<char> {
    address + ":"@ + decimal(port as nat)
}

/// The line printed once a socket is bound and its broadcast flag is set.
pub open spec fn status_text(broadcast: bool, local_addr: Seq<char>) -> Seq<char> {
    "broadcast: "@ + bool_text(broadcast) + ", local addr: "@ + local_addr
}

/// The line the client prints after its datagram went out.
pub open spec fn sent_text(n: nat, address: Seq<char>, port: u16) -> Seq<char> {
    "Sent "@ + decimal(n) + " bytes to "@ + endpoint_text(address, port)
}

/// The line the server prints for each datagram it receives.
pub open spec fn received_text(n: nat, from: Seq<char>) -> Seq<char> {
    decimal(n) + " bytes from "@ + from
}

fn push_endpoint(s: &mut String, address: &str, port: u16)
    ensures
        final(s)@ == old(s)@ + endpoint_text(address@, port),
{
    append_str(s, address);
    append_str(s, ":");
    push_decimal(s, port as u64);
    assert(s@ =~= old(s)@ + endpoint_text(address@, port));
}

/// The address a server binds to, written as `address:port`.
pub fn bind_target(address: &str, port: u16) -> (r: String)
    ensures
        r@ == endpoint_text(address@, port),
{
    let mut s = String::new();
    push_endpoint(&mut s, address, port);
    assert(s@ =~= endpoint_text(address@, port));
    s
}

/// The status line: the broadcast flag as the socket reports it, and the bound
/// local address as text.
pub fn status_line(broadcast: bool, local_addr: &str) -> (r: String)
    ensures
        r@ == status_text(broadcast, local_addr@),
{
    let mut s = String::new();
    append_str(&mut s, "broadcast: ");
    if broadcast {
        append_str(&mut s, "true");
    } else {
        append_str(&mut s, "false");
    }
    append_str(&mut s, ", local addr: ");
    append_str(&mut s, local_addr);
    assert(s@ =~= status_text(broadcast, local_addr@));
    s
}

/// The client's report: `n` bytes went to `address:port`.
pub fn sent_line(n: usize, address: &str, port: u16) -> (r: String)
    ensures
        r@ == sent_text(n as nat, address@, port),
{
    let mut s = String::new();
    append_str(&mut s, "Sent ");
    push_decimal(&mut s, n as u64);
    append_str(&mut s, " bytes to ");
    push_endpoint(&mut s, address, port);
    assert(s@ =~= sent_text(n as nat, address@, port));
    s
}

/// The server's report: `n` bytes came from the peer written as `from`.
pub fn received_line(n: usize, from: &str) -> (r: String)
    ensures
        r@ == received_text(n as nat, from@),
{
    let mut s = String::new();
    push_decimal(&mut s, n as u64);
    append_str(&mut s, " bytes from ");
    append_str(&mut s, from);
    assert(s@ =~= received_text(n as nat, from@));
    s
}

} // verus!
