use crate::text::{chars_of, parse_u32, parse_u32_spec, split_chars, split_on, str_eq, string_from_chars};
use vstd::prelude::*;

verus! {

/// The transport protocol of a forwarded port.
#[derive(Clone, Copy, Debug, PartialEq, Eq, Structural)]
pub enum PortProtocol {
    Tcp,
    Udp,
}

/// What a port number text reads as: a decimal `u16`.
pub open spec fn port_parse(text: Seq<char>) -> Option<u16> {
    match parse_u32_spec(text) {
        Some(n) => if n <= u16::MAX {
            Some(n as u16)
        } else {
            None
        },
        None => None,
    }
}

/// What a protocol name reads as.
pub open spec fn protocol_parse(text: Seq<char>) -> Option<PortProtocol> {
    if text == "tcp"@ {
        Some(PortProtocol::Tcp)
    } else if text == "udp"@ {
        Some(PortProtocol::Udp)
    } else {
        None
    }
}

/// What `host_port:guest_port[/protocol]` reads as; the protocol is TCP when
/// it is not written.
pub open spec fn port_forward_parse(text: Seq<char>) -> Option<(u16, u16, PortProtocol)> {
    let parts = split_on(text, ':');
    let guest = split_on(parts[1], '/');
    let protocol = if guest.len() == 1 {
        Some(PortProtocol::Tcp)
    } else if guest.len() == 2 {
        protocol_parse(guest[1])
    } else {
        None
    };
    if parts.len() != 2 {
        None
    } else {
        match (port_parse(parts[0]), port_parse(guest[0]), protocol) {
            (Some(host), Some(port), Some(p)) => Some((host, port, p)),
            _ => None,
        }
    }
}

/// The reason given for a text that is not a port forwarding.
pub open spec fn port_forward_rejection() -> Seq<char> {
    "Port forwarding must have the format: host_port:guest_port[/tcp|/udp] (e.g. 8000:80)"@
}

/// A port of the host forwarded to a port of a VM instance.
#[derive(Clone, Copy, Debug, PartialEq, Eq, Structural)]
pub struct PortForward {
    host_port: u16,
    guest_port: u16,
    protocol: PortProtocol,
}

impl View for PortForward {
    type V = (u16, u16, PortProtocol);

    closed spec fn view(&self) -> (u16, u16, PortProtocol) {
        (self.host_port, self.guest_port, self.protocol)
    }
}

fn port_exec(v: &[char]) -> (r: Option<u16>)
    ensures
        r == port_parse(v@),
{
    let text = string_from_chars(v);
    match parse_u32(text.as_str()) {
        Some(n) => if n <= 0xffff {
            Some(n as u16)
        } else {
            None
        },
        None => None,
    }
}

fn protocol_exec(v: &[char]) -> (r: Option<PortProtocol>)
    ensures
        r == protocol_parse(v@),
{
    let text = string_from_chars(v);
    proof {
        reveal_strlit("tcp");
        reveal_strlit("udp");
    }
    if str_eq(text.as_str(), "tcp") {
        Some(PortProtocol::Tcp)
    } else if str_eq(text.as_str(), "udp") {
        Some(PortProtocol::Udp)
    } else {
        None
    }
}

impl PortForward {
    /// Reads `host_port:guest_port[/protocol]`, such as `8000:80` or
    /// `5353:53/udp`.
    pub fn from_str(text: &str) -> (r: Result<PortForward, String>)
        ensures
            r is Ok <==> port_forward_parse(text@) is Some,
            r matches Ok(p) ==> port_forward_parse(text@) == Some(p@),
            r matches Err(e) ==> e@ == port_forward_rejection(),
    {
        let v = chars_of(text);
        let parts = split_chars(v.as_slice(), ':');
        proof {
            crate::text::lemma_split_on_nonempty(text@, ':');
            assert forall|i: int| 0 <= i < parts@.len() implies parts.deep_view()[i] =~= parts@[i]@ by {}
        }
        if parts.len() != 2 {
            return Err(PortForward::rejection());
        }
        let guest = split_chars(parts[1].as_slice(), '/');
        proof {
            crate::text::lemma_split_on_nonempty(parts@[1]@, '/');
            assert forall|i: int| 0 <= i < guest@.len() implies guest.deep_view()[i] =~= guest@[i]@ by {}
        }
        let protocol = if guest.len() == 1 {
            Some(PortProtocol::Tcp)
        } else if guest.len() == 2 {
            protocol_exec(guest[1].as_slice())
        } else {
            None
        };
        match (port_exec(parts[0].as_slice()), port_exec(guest[0].as_slice()), protocol) {
            (Some(host_port), Some(guest_port), Some(protocol)) => Ok(
                PortForward { host_port, guest_port, protocol },
            ),
            _ => Err(PortForward::rejection()),
        }
    }

    fn rejection() -> (r: String)
        ensures
            r@ == port_forward_rejection(),
    {
        "Port forwarding must have the format: host_port:guest_port[/tcp|/udp] (e.g. 8000:80)".to_owned()
    }

    /// The port on the host.
    pub fn get_host_port(&self) -> (r: u16)
        ensures
            r == self@.0,
    {
        self.host_port
    }

    /// The port in the VM instance.
    pub fn get_guest_port(&self) -> (r: u16)
        ensures
            r == self@.1,
    {
        self.guest_port
    }

    /// The transport protocol.
    pub fn get_protocol(&self) -> (r: PortProtocol)
        ensures
            r == self@.2,
    {
        self.protocol
    }
}

} // verus!
