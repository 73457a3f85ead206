//! The launch pipeline's decisions: from observed ports to a descriptor
//! and its serialized form, and from translation outcomes to the spawn
//! command. The shell binds listeners, writes the file, runs the
//! translation helper and spawns the process; each step's inputs and
//! outputs pass through here.

use vstd::prelude::*;

use crate::command::{
    build_launch_args, opt_env_view, opt_view, spec_launch_args, LaunchError,
};
use crate::descriptor::{
    connection_file_name, descriptor_ports_distinct, kernel_display_name, spec_descriptor_json,
    ConnectionDescriptor, Transport,
};
use crate::discovery::WslKernelSpecification;
use crate::outside::generate_session_key;
use crate::ports::{distinct_seq, PortSelectionError, PortSet};
use crate::text::spec_decimal;

verus! {

/// Everything the shell needs before it can write the handshake file:
/// the descriptor, its JSON text, and the file name it belongs under.
pub struct LaunchPreparation {
    pub descriptor: ConnectionDescriptor,
    pub json: String,
    pub file_name: String,
}

/// Builds the descriptor for one launch from the five observed ports, the
/// session's entity identifier and the kernelspec's name, with a fresh
/// random key. Fails exactly when the observations do not yield five
/// distinct ports; on success the descriptor's ports are the observed
/// ones by role, pairwise distinct, the JSON text is the descriptor's
/// serialization, and the file name is keyed by the entity identifier.
pub fn prepare_launch(observed_ports: &Vec<u16>, ip: String, entity_id: u64, spec_name: &str) -> (r:
    Result<LaunchPreparation, PortSelectionError>)
    ensures
        observed_ports@.len() != 5 ==> (r matches Err(e) && e == PortSelectionError::WrongCount),
        observed_ports@.len() == 5 && !distinct_seq(observed_ports@) ==> (r matches Err(e) && e
            == PortSelectionError::Clash),
        observed_ports@.len() == 5 && distinct_seq(observed_ports@) ==> (r matches Ok(p) && {
            let d = p.descriptor;
            &&& d.ip == ip
            &&& d.transport == Transport::Tcp
            &&& d.stdin_port == observed_ports@[0]
            &&& d.control_port == observed_ports@[1]
            &&& d.hb_port == observed_ports@[2]
            &&& d.shell_port == observed_ports@[3]
            &&& d.iopub_port == observed_ports@[4]
            &&& descriptor_ports_distinct(d)
            &&& d.kernel_name@ == "wsl-"@ + spec_name@
            &&& d.signature_scheme@ == "hmac-sha256"@
            &&& d.key@.len() == 36
            &&& crate::json::spec_escape(d.key@) == d.key@
            &&& p.json@ == spec_descriptor_json(d)
            &&& p.file_name@ == "kernel-wsl-"@ + spec_decimal(entity_id as nat) + ".json"@
        }),
{
    let ports = match PortSet::from_observed(observed_ports) {
        Err(e) => {
            return Err(e);
        },
        Ok(p) => p,
    };
    let key = generate_session_key();
    proof {
        assert forall|i: int|
            0 <= i < key@.len() implies (#[trigger] key@[i]) != '"' && key@[i] != '\\'
            && key@[i] as u32 >= 32 by {
            if i != 8 && i != 13 && i != 18 && i != 23 {
                assert(crate::json::is_hex_lower(key@[i]));
            }
        }
        crate::descriptor::lemma_escape_plain_identity(key@);
    }
    let name = kernel_display_name(spec_name);
    let descriptor = ConnectionDescriptor::new(ip, ports, key, name);
    let json = descriptor.to_json();
    let file_name = connection_file_name(entity_id);
    Ok(LaunchPreparation { descriptor, json, file_name })
}

/// Decides the spawn command from the two translation outcomes. A failed
/// translation of the connection path is fatal: the remote process could
/// never find the handshake file. A failed translation of the working
/// directory degrades the launch: the command is built without one. An
/// empty declared argv is fatal. Otherwise the command is the full
/// front-end argument vector with the placeholder substituted.
pub fn plan_spawn(
    spec: &WslKernelSpecification,
    conn_translated: Option<String>,
    wd_translated: Option<String>,
) -> (r: Result<Vec<String>, LaunchError>)
    ensures
        conn_translated is None ==> r == Result::<Vec<String>, LaunchError>::Err(
            LaunchError::ConnectionPathUntranslatable,
        ),
        conn_translated is Some && spec.kernelspec.argv@.len() == 0 ==> r == Result::<
            Vec<String>,
            LaunchError,
        >::Err(LaunchError::EmptyArgv),
        conn_translated matches Some(conn) ==> (spec.kernelspec.argv@.len() > 0 ==> (r matches Ok(
            args,
        ) && args.deep_view() == spec_launch_args(
            spec.distro@,
            opt_view(wd_translated),
            opt_env_view(spec.kernelspec.env),
            spec.kernelspec.argv.deep_view(),
            conn@,
        ))),
{
    let conn = match conn_translated {
        None => {
            return Err(LaunchError::ConnectionPathUntranslatable);
        },
        Some(c) => c,
    };
    build_launch_args(
        spec.distro.as_str(),
        &wd_translated,
        &spec.kernelspec.env,
        &spec.kernelspec.argv,
        conn.as_str(),
    )
}

} // verus!
