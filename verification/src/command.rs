//! Command construction across the execution boundary: the translation
//! helper's argument vector, the interpretation of its output, and the
//! launch command for the kernel process itself, with the
//! `{connection_file}` placeholder substituted.

use vstd::prelude::*;
use vstd::string::StringExecFns;

use crate::outside::{bytes_to_string_lossy, utf8_lossy_of};
use crate::text::{trim_bytes, trimmed};

verus! {

/// Why a launch cannot proceed.
#[derive(Clone, Copy, Debug, PartialEq, Eq, Structural)]
pub enum LaunchError {
    /// The kernelspec declared an empty argument vector: a configuration
    /// invariant violated upstream, fatal and non-retryable.
    EmptyArgv,
    /// The connection-descriptor path could not be translated into the
    /// remote namespace, so the remote process cannot find the handshake
    /// file: fatal.
    ConnectionPathUntranslatable,
}

/// One declared environment variable of a kernelspec.
pub struct EnvVar {
    pub name: String,
    pub value: String,
}

/// The placeholder token a kernelspec argv carries where the connection
/// file's path belongs.
pub open spec fn spec_placeholder() -> Seq<char> {
    "{connection_file}"@
}

/// The `NAME=VALUE` form an environment variable is passed in.
pub open spec fn env_assignment(name: Seq<char>, value: Seq<char>) -> Seq<char> {
    name + "="@ + value
}

/// The argument vector of the translation helper: run `wslpath -u <path>`
/// inside the given distribution.
pub fn wslpath_args(distro: &str, path: &str) -> (r: Vec<String>)
    ensures
        r.deep_view() == seq!["-d"@, distro@, "wslpath"@, "-u"@, path@],
{
    let mut r: Vec<String> = Vec::new();
    r.push("-d".to_owned());
    r.push(distro.to_owned());
    r.push("wslpath".to_owned());
    r.push("-u".to_owned());
    r.push(path.to_owned());
    proof {
        assert(r.deep_view() =~~= seq!["-d"@, distro@, "wslpath"@, "-u"@, path@]);
    }
    r
}

/// Interprets the translation helper's outcome. On success the helper
/// prints the translated path followed by a newline: the output, stripped
/// of surrounding ASCII whitespace, is the path. A failed helper yields
/// no translation; the caller decides whether that is fatal.
pub fn translation_result(status_success: bool, stdout: &Vec<u8>) -> (r: Option<String>)
    ensures
        !status_success ==> r is None,
        status_success ==> (r matches Some(p) && p@ == utf8_lossy_of(trimmed(stdout@))),
{
    if status_success {
        let t = trim_bytes(stdout);
        Some(bytes_to_string_lossy(&t))
    } else {
        None
    }
}

/// The kernelspec argv with every element equal to the placeholder
/// replaced by the translated connection path.
pub open spec fn spec_argv_substituted(argv: Seq<Seq<char>>, conn: Seq<char>) -> Seq<Seq<char>> {
    Seq::new(
        argv.len(),
        |i: int|
            if argv[i] == spec_placeholder() {
                conn
            } else {
                argv[i]
            },
    )
}

/// The `env NAME=VALUE ...` prefix for declared environment variables.
pub open spec fn spec_env_args(env: Seq<EnvVar>) -> Seq<Seq<char>>
    decreases env.len(),
{
    if env.len() == 0 {
        Seq::empty()
    } else {
        spec_env_args(env.drop_last()) + seq![
            env_assignment(env.last().name@, env.last().value@),
        ]
    }
}

/// The full argument vector handed to the remote-shell front-end:
/// `-d <distro> [--cd <dir>] --exec [env K=V ...] <argv...>`, with the
/// placeholder substituted in `argv`.
pub open spec fn spec_launch_args(
    distro: Seq<char>,
    wsl_working_directory: Option<Seq<char>>,
    env: Option<Seq<EnvVar>>,
    argv: Seq<Seq<char>>,
    conn: Seq<char>,
) -> Seq<Seq<char>> {
    seq!["-d"@, distro] + (match wsl_working_directory {
        Some(w) => seq!["--cd"@, w],
        None => Seq::<Seq<char>>::empty(),
    }) + seq!["--exec"@] + (match env {
        Some(e) => seq!["env"@] + spec_env_args(e),
        None => Seq::<Seq<char>>::empty(),
    }) + spec_argv_substituted(argv, conn)
}

/// The view of an optional working directory.
pub open spec fn opt_view(w: Option<String>) -> Option<Seq<char>> {
    match w {
        Some(s) => Some(s@),
        None => None,
    }
}

/// The view of an optional environment list.
pub open spec fn opt_env_view(e: Option<Vec<EnvVar>>) -> Option<Seq<EnvVar>> {
    match e {
        Some(v) => Some(v@),
        None => None,
    }
}

/// Builds the launch command's argument vector. An empty declared argv is
/// rejected; nothing else can fail, in particular a missing working
/// directory only drops the `--cd` pair.
pub fn build_launch_args(
    distro: &str,
    wsl_working_directory: &Option<String>,
    env: &Option<Vec<EnvVar>>,
    argv: &Vec<String>,
    conn_path: &str,
) -> (r: Result<Vec<String>, LaunchError>)
    ensures
        argv@.len() == 0 <==> r == Result::<Vec<String>, LaunchError>::Err(LaunchError::EmptyArgv),
        argv@.len() > 0 ==> (r matches Ok(out) && out.deep_view() == spec_launch_args(
            distro@,
            opt_view(*wsl_working_directory),
            opt_env_view(*env),
            argv.deep_view(),
            conn_path@,
        )),
{
    if argv.len() == 0 {
        return Err(LaunchError::EmptyArgv);
    }
    let mut out: Vec<String> = Vec::new();
    out.push("-d".to_owned());
    out.push(distro.to_owned());
    match wsl_working_directory {
        Some(w) => {
            out.push("--cd".to_owned());
            out.push(w.clone());
        },
        None => {},
    }
    out.push("--exec".to_owned());
    let ghost head = out.deep_view();
    match env {
        Some(vars) => {
            out.push("env".to_owned());
            let mut i: usize = 0;
            while i < vars.len()
                invariant
                    0 <= i <= vars@.len(),
                    out.deep_view() == head + seq!["env"@] + spec_env_args(
                        vars@.subrange(0, i as int),
                    ),
                decreases vars@.len() - i,
            {
                let ghost pre = vars@.subrange(0, i as int);
                let ghost pre1 = vars@.subrange(0, i + 1);
                proof {
                    assert(pre1.drop_last() =~= pre);
                    assert(pre1.last() == vars@[i as int]);
                }
                let mut a = vars[i].name.clone();
                a.append("=");
                a.append(vars[i].value.as_str());
                let ghost aview = a@;
                out.push(a);
                proof {
                    assert(aview == env_assignment(
                        vars@[i as int].name@,
                        vars@[i as int].value@,
                    ));
                    assert(spec_env_args(pre1) == spec_env_args(pre) + seq![
                        env_assignment(pre1.last().name@, pre1.last().value@),
                    ]);
                    assert(out.deep_view() =~~= (head + seq!["env"@] + spec_env_args(pre)).push(
                        aview,
                    ));
                    assert(out.deep_view() =~~= head + seq!["env"@] + spec_env_args(pre1));
                }
                i = i + 1;
            }
            proof {
                assert(vars@.subrange(0, vars@.len() as int) =~= vars@);
            }
        },
        None => {},
    }
    let ghost mid = out.deep_view();
    let placeholder = "{connection_file}".to_owned();
    let mut j: usize = 0;
    while j < argv.len()
        invariant
            0 <= j <= argv@.len(),
            placeholder@ == spec_placeholder(),
            out.deep_view() == mid + spec_argv_substituted(
                argv.deep_view(),
                conn_path@,
            ).subrange(0, j as int),
        decreases argv@.len() - j,
    {
        let ghost subst = spec_argv_substituted(argv.deep_view(), conn_path@);
        proof {
            assert(argv.deep_view()[j as int] == argv@[j as int]@);
        }
        if argv[j] == placeholder {
            out.push(conn_path.to_owned());
            proof {
                assert(subst[j as int] == conn_path@);
            }
        } else {
            out.push(argv[j].clone());
            proof {
                assert(argv.deep_view()[j as int] != spec_placeholder());
                assert(subst[j as int] == argv@[j as int]@);
            }
        }
        proof {
            assert(subst.subrange(0, j + 1) =~= subst.subrange(0, j as int).push(
                subst[j as int],
            ));
            assert(out.deep_view() =~~= (mid + subst.subrange(0, j as int)).push(
                subst[j as int],
            ));
            assert(out.deep_view() =~~= mid + subst.subrange(0, j + 1));
        }
        j = j + 1;
    }
    proof {
        let subst = spec_argv_substituted(argv.deep_view(), conn_path@);
        assert(subst.subrange(0, subst.len() as int) =~= subst);
        assert(out.deep_view() =~~= spec_launch_args(
            distro@,
            opt_view(*wsl_working_directory),
            opt_env_view(*env),
            argv.deep_view(),
            conn_path@,
        ));
    }
    Ok(out)
}

/// After substitution no literal placeholder remains in the argv part of
/// the spawned command, as long as the translated path is not itself the
/// placeholder token.
pub proof fn lemma_no_placeholder_remains(argv: Seq<Seq<char>>, conn: Seq<char>)
    requires
        conn != spec_placeholder(),
    ensures
        forall|i: int|
            0 <= i < argv.len() ==> #[trigger] spec_argv_substituted(argv, conn)[i]
                != spec_placeholder(),
        forall|i: int|
            0 <= i < argv.len() ==> #[trigger] spec_argv_substituted(argv, conn)[i] == argv[i]
                || spec_argv_substituted(argv, conn)[i] == conn,
{
}

/// The hypothesis of `lemma_no_placeholder_remains` holds of every real
/// translation: a translated path is absolute in the remote namespace,
/// so it begins with a slash and cannot be the placeholder token.
pub proof fn lemma_translated_path_is_not_placeholder(conn: Seq<char>)
    requires
        conn.len() > 0,
        conn[0] == '/',
    ensures
        conn != spec_placeholder(),
{
    reveal_strlit("{connection_file}");
    assert(spec_placeholder()[0] == '{');
}

/// A failed working-directory translation degrades the launch instead of
/// blocking it: whether the command builds depends only on the argv, and
/// without a directory the vector goes straight from the distribution
/// selector to `--exec`, with no `--cd` pair and two fewer elements.
pub proof fn lemma_missing_working_directory_degrades(
    distro: Seq<char>,
    w: Seq<char>,
    env: Option<Seq<EnvVar>>,
    argv: Seq<Seq<char>>,
    conn: Seq<char>,
)
    ensures
        spec_launch_args(distro, None, env, argv, conn).len() == spec_launch_args(
            distro,
            Some(w),
            env,
            argv,
            conn,
        ).len() - 2,
        spec_launch_args(distro, None, env, argv, conn)[2] == "--exec"@,
        spec_launch_args(distro, Some(w), env, argv, conn)[2] == "--cd"@,
        spec_launch_args(distro, Some(w), env, argv, conn)[3] == w,
{
}

} // verus!
