use vstd::prelude::*;

use crate::report::{endpoint_text, received_line, received_text, sent_text};
use crate::text::decimal;

verus! {

/// Port that both modes use when none is given.
pub const DEFAULT_PORT: u16 = 5555;

/// Where the client sends when no address is given: the limited broadcast address.
pub const DEFAULT_CLIENT_ADDRESS: &'static str = "255.255.255.255";

/// Where the server binds when no address is given: every local interface.
pub const DEFAULT_SERVER_ADDRESS: &'static str = "0.0.0.0";

/// The client's local endpoint: every interface, on a port the system picks.
pub const CLIENT_BIND_ADDRESS: &'static str = "0.0.0.0:0";

/// Number of bytes the client sends.
pub const PAYLOAD_LEN: usize = 5;

/// Size of the server's receive buffer; longer datagrams are cut to it.
pub const RECV_BUF_LEN: usize = 64;

/// The client's datagram.
pub open spec fn payload() -> Seq<u8> {
    seq![1u8, 2u8, 3u8, 4u8, 5u8]
}

/// One invocation of the tool: which side runs, whether the socket may send to
/// broadcast addresses, the address (destination for the client, local for the
/// server) and the port.
pub enum Command {
    Client { broadcast: bool, address: String, port: u16 },
    Server { broadcast: bool, address: String, port: u16 },
}

/// The text of an optional address, or the given default.
pub open spec fn address_or(address: Option<String>, default: Seq<char>) -> Seq<char> {
    match address {
        Some(a) => a@,
        None => default,
    }
}

impl Command {
    pub open spec fn spec_broadcast(&self) -> bool {
        match self {
            Command::Client { broadcast, .. } => *broadcast,
            Command::Server { broadcast, .. } => *broadcast,
        }
    }

    pub open spec fn spec_address(&self) -> Seq<char> {
        match self {
            Command::Client { address, .. } => address@,
            Command::Server { address, .. } => address@,
        }
    }

    pub open spec fn spec_port(&self) -> u16 {
        match self {
            Command::Client { port, .. } => *port,
            Command::Server { port, .. } => *port,
        }
    }

    /// A client invocation; a missing address or port takes its default.
    pub fn client(broadcast: bool, address: Option<String>, port: Option<u16>) -> (r: Command)
        ensures
            r is Client,
            r.spec_broadcast() == broadcast,
            r.spec_address() == address_or(address, DEFAULT_CLIENT_ADDRESS@),
            r.spec_port() == port.unwrap_or(DEFAULT_PORT),
    {
        let address = match address {
            Some(a) => a,
            None => DEFAULT_CLIENT_ADDRESS.to_owned(),
        };
        Command::Client { broadcast, address, port: port.unwrap_or(DEFAULT_PORT) }
    }

    /// A server invocation; a missing address or port takes its default.
    pub fn server(broadcast: bool, address: Option<String>, port: Option<u16>) -> (r: Command)
        ensures
            r is Server,
            r.spec_broadcast() == broadcast,
            r.spec_address() == address_or(address, DEFAULT_SERVER_ADDRESS@),
            r.spec_port() == port.unwrap_or(DEFAULT_PORT),
    {
        let address = match address {
            Some(a) => a,
            None => DEFAULT_SERVER_ADDRESS.to_owned(),
        };
        Command::Server { broadcast, address, port: port.unwrap_or(DEFAULT_PORT) }
    }

    pub fn broadcast(&self) -> (r: bool)
        ensures
            r == self.spec_broadcast(),
    {
        match self {
            Command::Client { broadcast, .. } => *broadcast,
            Command::Server { broadcast, .. } => *broadcast,
        }
    }

    pub fn address(&self) -> (r: &str)
        ensures
            r@ == self.spec_address(),
    {
        match self {
            Command::Client { address, .. } => address.as_str(),
            Command::Server { address, .. } => address.as_str(),
        }
    }

    pub fn port(&self) -> (r: u16)
        ensures
            r == self.spec_port(),
    {
        match self {
            Command::Client { port, .. } => *port,
            Command::Server { port, .. } => *port,
        }
    }
}

/// The bytes the client sends: 1, 2, 3, 4, 5.
pub fn client_payload() -> (r: Vec<u8>)
    ensures
        r@ == payload(),
        r@.len() == PAYLOAD_LEN,
{
    let r: Vec<u8> = vec![1u8, 2u8, 3u8, 4u8, 5u8];
    assert(r@ =~= payload());
    r
}

/// Whatever the destination, the client's report of a complete send says that
/// five bytes went out: the report for the payload's length reads
/// `Sent 5 bytes to address:port`.
pub proof fn lemma_client_reports_five_bytes(address: Seq<char>, port: u16)
    ensures
        payload().len() == 5,
        sent_text(payload().len(), address, port) == "Sent 5 bytes to "@ + endpoint_text(
            address,
            port,
        ),
{
    reveal_strlit("Sent ");
    reveal_strlit(" bytes to ");
    reveal_strlit("Sent 5 bytes to ");
    assert(decimal(5) =~= seq!['5']);
    assert(sent_text(payload().len(), address, port) =~= "Sent 5 bytes to "@ + endpoint_text(
        address,
        port,
    ));
}

/// A zeroed buffer of the server's receive size.
pub fn receive_buffer() -> (r: Vec<u8>)
    ensures
        r@.len() == RECV_BUF_LEN,
        forall|i: int| 0 <= i < r@.len() ==> r@[i] == 0u8,
{
    let mut r: Vec<u8> = Vec::new();
    while r.len() < RECV_BUF_LEN
        invariant
            r@.len() <= RECV_BUF_LEN,
            forall|i: int| 0 <= i < r@.len() ==> r@[i] == 0u8,
        decreases RECV_BUF_LEN - r@.len(),
    {
        r.push(0u8);
    }
    r
}

/// What the server's receive loop observed: a datagram of `len` bytes from the
/// peer written as `from`, or a failed receive.
pub enum ServerEvent {
    Received { len: usize, from: String },
    Failed,
}

/// What the server's receive loop does next: print a line and receive again,
/// or stop and hand the failure to its caller.
pub enum ServerAction {
    Print(String),
    Stop,
}

/// The server's decision after one receive. Every datagram is reported and the
/// loop goes on; only a failed receive ends it.
pub fn server_step(event: &ServerEvent) -> (r: ServerAction)
    ensures
        match *event {
            ServerEvent::Received { len, from } => r matches ServerAction::Print(line)
                && line@ == received_text(len as nat, from@),
            ServerEvent::Failed => r is Stop,
        },
{
    match event {
        ServerEvent::Received { len, from } => ServerAction::Print(received_line(*len, from.as_str())),
        ServerEvent::Failed => ServerAction::Stop,
    }
}

} // verus!
