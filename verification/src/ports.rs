//! Port selection: turning the ports observed free by the shell's transient
//! listeners into the five distinct channel ports of a connection handshake.
//!
//! Binding a listener to port zero and reading the assigned port back is
//! I/O and stays outside the library; what is verified is that a launch
//! only proceeds with five pairwise-distinct ports, and that a clash is
//! surfaced rather than silently retried. The window between releasing a
//! listener and the remote side binding the port is inherent to the
//! handshake protocol and deliberately not papered over.

use vstd::prelude::*;

verus! {

/// The five channel ports of one session, by role.
#[derive(Clone, Copy, Debug, PartialEq, Eq, Structural)]
pub struct PortSet {
    pub stdin_port: u16,
    pub control_port: u16,
    pub hb_port: u16,
    pub shell_port: u16,
    pub iopub_port: u16,
}

/// Why a set of observed ports was rejected.
#[derive(Clone, Copy, Debug, PartialEq, Eq, Structural)]
pub enum PortSelectionError {
    /// The shell did not hand over exactly five observations.
    WrongCount,
    /// Two observations clashed on the same port.
    Clash,
}

/// No two elements of `s` are equal.
pub open spec fn distinct_seq(s: Seq<u16>) -> bool {
    forall|i: int, j: int| 0 <= i < j < s.len() ==> s[i] != s[j]
}

/// The five ports of `p` are pairwise distinct.
pub open spec fn ports_distinct(p: PortSet) -> bool {
    &&& p.stdin_port != p.control_port
    &&& p.stdin_port != p.hb_port
    &&& p.stdin_port != p.shell_port
    &&& p.stdin_port != p.iopub_port
    &&& p.control_port != p.hb_port
    &&& p.control_port != p.shell_port
    &&& p.control_port != p.iopub_port
    &&& p.hb_port != p.shell_port
    &&& p.hb_port != p.iopub_port
    &&& p.shell_port != p.iopub_port
}

/// The role each observation index takes, in the order the listeners were
/// bound: stdin, control, heartbeat, shell, iopub.
pub open spec fn port_set_of(s: Seq<u16>) -> PortSet {
    PortSet {
        stdin_port: s[0],
        control_port: s[1],
        hb_port: s[2],
        shell_port: s[3],
        iopub_port: s[4],
    }
}

impl PortSet {
    /// Builds the channel port set from the ports the shell observed free,
    /// in binding order. Exactly five distinct observations are accepted;
    /// a clash is an error for the caller to surface, not to retry here.
    pub fn from_observed(observed: &Vec<u16>) -> (r: Result<PortSet, PortSelectionError>)
        ensures
            observed@.len() != 5 ==> r == Result::<PortSet, PortSelectionError>::Err(
                PortSelectionError::WrongCount,
            ),
            observed@.len() == 5 && !distinct_seq(observed@) ==> r == Result::<
                PortSet,
                PortSelectionError,
            >::Err(PortSelectionError::Clash),
            observed@.len() == 5 && distinct_seq(observed@) ==> r == Result::<
                PortSet,
                PortSelectionError,
            >::Ok(port_set_of(observed@)),
            r matches Ok(p) ==> ports_distinct(p),
    {
        if observed.len() != 5 {
            return Err(PortSelectionError::WrongCount);
        }
        let mut i: usize = 0;
        while i < 5
            invariant
                observed@.len() == 5,
                0 <= i <= 5,
                forall|a: int, b: int| 0 <= a < b < observed@.len() && a < i ==> observed@[a] != observed@[b],
            decreases 5 - i,
        {
            let mut j: usize = i + 1;
            while j < 5
                invariant
                    observed@.len() == 5,
                    0 <= i < 5,
                    i < j <= 5,
                    forall|b: int| i < b < j ==> observed@[i as int] != observed@[b],
                decreases 5 - j,
            {
                if observed[i] == observed[j] {
                    return Err(PortSelectionError::Clash);
                }
                j = j + 1;
            }
            i = i + 1;
        }
        let p = PortSet {
            stdin_port: observed[0],
            control_port: observed[1],
            hb_port: observed[2],
            shell_port: observed[3],
            iopub_port: observed[4],
        };
        Ok(p)
    }
}

/// For every launch that proceeds, the five allocated ports are pairwise
/// distinct: all ten pairs differ.
pub proof fn lemma_ports_pairwise_distinct(observed: Seq<u16>, p: PortSet)
    requires
        observed.len() == 5,
        distinct_seq(observed),
        p == port_set_of(observed),
    ensures
        p.stdin_port != p.control_port,
        p.stdin_port != p.hb_port,
        p.stdin_port != p.shell_port,
        p.stdin_port != p.iopub_port,
        p.control_port != p.hb_port,
        p.control_port != p.shell_port,
        p.control_port != p.iopub_port,
        p.hb_port != p.shell_port,
        p.hb_port != p.iopub_port,
        p.shell_port != p.iopub_port,
{
}

} // verus!
