//! The connection descriptor: the ports, transport and key material a
//! kernel needs to dial its channels, and its serialization to the
//! handshake file the remote process reads.

use vstd::prelude::*;
use vstd::string::StringExecFns;

use crate::json::{escape_char, json_escape, spec_escape};
use crate::ports::{ports_distinct, PortSet};
use crate::text::{spec_decimal, u64_to_string};

verus! {

/// The transport the channels are dialed over; these sessions use TCP.
#[derive(Clone, Copy, Debug, PartialEq, Eq, Structural)]
pub enum Transport {
    Tcp,
}

/// Everything the remote kernel process needs to dial the session's five
/// channels: transport, bind address, the five port roles, the signature
/// scheme and symmetric key, and the logical kernel name. Built once per
/// launch and immutable afterwards.
pub struct ConnectionDescriptor {
    pub ip: String,
    pub transport: Transport,
    pub shell_port: u16,
    pub iopub_port: u16,
    pub stdin_port: u16,
    pub control_port: u16,
    pub hb_port: u16,
    pub key: String,
    pub signature_scheme: String,
    pub kernel_name: String,
}

/// The five channel ports of the descriptor are pairwise distinct.
pub open spec fn descriptor_ports_distinct(d: ConnectionDescriptor) -> bool {
    &&& d.stdin_port != d.control_port
    &&& d.stdin_port != d.hb_port
    &&& d.stdin_port != d.shell_port
    &&& d.stdin_port != d.iopub_port
    &&& d.control_port != d.hb_port
    &&& d.control_port != d.shell_port
    &&& d.control_port != d.iopub_port
    &&& d.hb_port != d.shell_port
    &&& d.hb_port != d.iopub_port
    &&& d.shell_port != d.iopub_port
}

impl ConnectionDescriptor {
    /// Assembles the descriptor for one launch: TCP transport, the given
    /// bind address, the allocated ports by role, the generated key under
    /// the `hmac-sha256` signature scheme, and the kernel's display name.
    pub fn new(ip: String, ports: PortSet, key: String, kernel_name: String) -> (d:
        ConnectionDescriptor)
        ensures
            d.ip == ip,
            d.transport == Transport::Tcp,
            d.stdin_port == ports.stdin_port,
            d.control_port == ports.control_port,
            d.hb_port == ports.hb_port,
            d.shell_port == ports.shell_port,
            d.iopub_port == ports.iopub_port,
            d.key == key,
            d.signature_scheme@ == "hmac-sha256"@,
            d.kernel_name == kernel_name,
            ports_distinct(ports) ==> descriptor_ports_distinct(d),
    {
        ConnectionDescriptor {
            ip,
            transport: Transport::Tcp,
            shell_port: ports.shell_port,
            iopub_port: ports.iopub_port,
            stdin_port: ports.stdin_port,
            control_port: ports.control_port,
            hb_port: ports.hb_port,
            key,
            signature_scheme: "hmac-sha256".to_owned(),
            kernel_name,
        }
    }

    /// Serializes the descriptor as the JSON object the remote process
    /// reads, field for field, with every string field escaped.
    pub fn to_json(&self) -> (r: String)
        ensures
            r@ == spec_descriptor_json(*self),
    {
        let mut out = "{\"ip\":\"".to_owned();
        out.append(json_escape(self.ip.as_str()).as_str());
        out.append("\",\"transport\":\"tcp\",\"shell_port\":");
        out.append(u64_to_string(self.shell_port as u64).as_str());
        out.append(",\"iopub_port\":");
        out.append(u64_to_string(self.iopub_port as u64).as_str());
        out.append(",\"stdin_port\":");
        out.append(u64_to_string(self.stdin_port as u64).as_str());
        out.append(",\"control_port\":");
        out.append(u64_to_string(self.control_port as u64).as_str());
        out.append(",\"hb_port\":");
        out.append(u64_to_string(self.hb_port as u64).as_str());
        out.append(",\"key\":\"");
        out.append(json_escape(self.key.as_str()).as_str());
        out.append("\",\"signature_scheme\":\"");
        out.append(json_escape(self.signature_scheme.as_str()).as_str());
        out.append("\",\"kernel_name\":\"");
        out.append(json_escape(self.kernel_name.as_str()).as_str());
        out.append("\"}");
        proof {
            assert(out@ =~= spec_descriptor_json(*self));
        }
        out
    }
}

/// The JSON text of a descriptor: one flat object whose fields mirror the
/// descriptor's, string values escaped, ports in decimal.
pub open spec fn spec_descriptor_json(d: ConnectionDescriptor) -> Seq<char> {
    "{\"ip\":\""@ + spec_escape(d.ip@) + "\",\"transport\":\"tcp\",\"shell_port\":"@ + spec_decimal(
        d.shell_port as nat,
    ) + ",\"iopub_port\":"@ + spec_decimal(d.iopub_port as nat) + ",\"stdin_port\":"@
        + spec_decimal(d.stdin_port as nat) + ",\"control_port\":"@ + spec_decimal(
        d.control_port as nat,
    ) + ",\"hb_port\":"@ + spec_decimal(d.hb_port as nat) + ",\"key\":\""@ + spec_escape(d.key@)
        + "\",\"signature_scheme\":\""@ + spec_escape(d.signature_scheme@)
        + "\",\"kernel_name\":\""@ + spec_escape(d.kernel_name@) + "\"}"@
}

/// A string of plain characters (no quote, no backslash, nothing below
/// space) is its own escape: such a field appears verbatim in the file.
pub proof fn lemma_escape_plain_identity(s: Seq<char>)
    requires
        forall|i: int|
            0 <= i < s.len() ==> (#[trigger] s[i]) != '"' && s[i] != '\\' && s[i] as u32 >= 32,
    ensures
        spec_escape(s) == s,
    decreases s.len(),
{
    if s.len() == 0 {
        assert(spec_escape(s) =~= s);
    } else {
        lemma_escape_plain_identity(s.drop_last());
        assert(escape_char(s.last()) == seq![s.last()]);
        assert(spec_escape(s) =~= s.drop_last().push(s.last()));
        assert(s.drop_last().push(s.last()) =~= s);
    }
}

/// The display name a launched kernel is registered under.
pub fn kernel_display_name(name: &str) -> (r: String)
    ensures
        r@ == "wsl-"@ + name@,
{
    let mut r = "wsl-".to_owned();
    r.append(name);
    r
}

/// The file name the descriptor is written under in the runtime
/// directory, keyed by the session's entity identifier.
pub fn connection_file_name(entity_id: u64) -> (r: String)
    ensures
        r@ == "kernel-wsl-"@ + spec_decimal(entity_id as nat) + ".json"@,
{
    let mut r = "kernel-wsl-".to_owned();
    r.append(u64_to_string(entity_id).as_str());
    r.append(".json");
    r
}

} // verus!
