//! The launch pipeline: descriptor construction and serialization, the
//! translation helper, and the spawn command with its placeholder
//! substitution.

use wsl_kernel::command::{
    build_launch_args, translation_result, wslpath_args, EnvVar, LaunchError,
};
use wsl_kernel::discovery::{KernelSpecDecl, WslKernelSpecification};
use wsl_kernel::launch::{plan_spawn, prepare_launch};
use wsl_kernel::ports::PortSelectionError;
use wsl_kernel::text::u64_to_string;

fn spec_with_argv(argv: Vec<&str>) -> WslKernelSpecification {
    WslKernelSpecification {
        name: "python3".to_string(),
        kernelspec: KernelSpecDecl {
            argv: argv.into_iter().map(|s| s.to_string()).collect(),
            env: None,
            display_name: "Python 3".to_string(),
        },
        distro: "Ubuntu".to_string(),
    }
}

#[test]
fn decimal_rendering_is_exact() {
    assert_eq!(u64_to_string(0), "0");
    assert_eq!(u64_to_string(7), "7");
    assert_eq!(u64_to_string(65535), "65535");
    assert_eq!(u64_to_string(u64::MAX), "18446744073709551615");
}

#[test]
fn descriptor_json_is_valid_and_field_exact() {
    let observed: Vec<u16> = vec![50001, 50002, 50003, 50004, 50005];
    let p = prepare_launch(&observed, "127.0.0.1".to_string(), 7, "python3").unwrap();
    assert_eq!(p.file_name, "kernel-wsl-7.json");

    let v: serde_json::Value = serde_json::from_str(&p.json).expect("descriptor must be JSON");
    assert_eq!(v["ip"], "127.0.0.1");
    assert_eq!(v["transport"], "tcp");
    assert_eq!(v["stdin_port"], 50001);
    assert_eq!(v["control_port"], 50002);
    assert_eq!(v["hb_port"], 50003);
    assert_eq!(v["shell_port"], 50004);
    assert_eq!(v["iopub_port"], 50005);
    assert_eq!(v["signature_scheme"], "hmac-sha256");
    assert_eq!(v["kernel_name"], "wsl-python3");
    assert_eq!(v["key"].as_str().unwrap(), p.descriptor.key.as_str());

    let key = p.descriptor.key.as_str();
    assert_eq!(key.len(), 36);
    for (i, c) in key.chars().enumerate() {
        if i == 8 || i == 13 || i == 18 || i == 23 {
            assert_eq!(c, '-');
        } else {
            assert!(c.is_ascii_hexdigit() && !c.is_ascii_uppercase());
        }
    }
}

#[test]
fn two_launches_use_different_keys() {
    let observed: Vec<u16> = vec![50001, 50002, 50003, 50004, 50005];
    let a = prepare_launch(&observed, "127.0.0.1".to_string(), 1, "python3").unwrap();
    let b = prepare_launch(&observed, "127.0.0.1".to_string(), 2, "python3").unwrap();
    assert_ne!(a.descriptor.key, b.descriptor.key);
    assert_eq!(a.file_name, "kernel-wsl-1.json");
    assert_eq!(b.file_name, "kernel-wsl-2.json");
}

#[test]
fn descriptor_json_escapes_awkward_names() {
    let observed: Vec<u16> = vec![1, 2, 3, 4, 5];
    let p = prepare_launch(
        &observed,
        "127.0.0.1".to_string(),
        3,
        "odd\"name\\with\nnewline\u{1}",
    )
    .unwrap();
    let v: serde_json::Value = serde_json::from_str(&p.json).expect("descriptor must be JSON");
    assert_eq!(
        v["kernel_name"].as_str().unwrap(),
        "wsl-odd\"name\\with\nnewline\u{1}"
    );
}

#[test]
fn clashing_ports_fail_the_launch() {
    let observed: Vec<u16> = vec![1, 2, 3, 2, 5];
    match prepare_launch(&observed, "127.0.0.1".to_string(), 3, "python3") {
        Err(PortSelectionError::Clash) => {}
        other => panic!("expected a clash, got {:?}", other.is_ok()),
    }
}

#[test]
fn wslpath_invocation_shape() {
    let args = wslpath_args("Ubuntu", "C:\\Users\\me\\kernel-wsl-7.json");
    assert_eq!(
        args,
        vec![
            "-d".to_string(),
            "Ubuntu".to_string(),
            "wslpath".to_string(),
            "-u".to_string(),
            "C:\\Users\\me\\kernel-wsl-7.json".to_string(),
        ]
    );
}

#[test]
fn translation_output_is_trimmed() {
    let stdout = b"/mnt/c/Users/me/kernel-wsl-7.json\n".to_vec();
    assert_eq!(
        translation_result(true, &stdout).as_deref(),
        Some("/mnt/c/Users/me/kernel-wsl-7.json")
    );
    assert_eq!(translation_result(false, &stdout), None);
}

#[test]
fn invalid_bytes_decode_to_replacement_characters() {
    // 0xFF is never valid UTF-8: the decoded path carries the
    // replacement character instead of the raw byte.
    let stdout = vec![b'/', b'a', 0xFF, b'b', b'\n'];
    let translated = translation_result(true, &stdout).unwrap();
    assert_eq!(translated, "/a\u{FFFD}b");
}

#[test]
fn placeholder_is_replaced_and_gone() {
    let spec = spec_with_argv(vec!["kernel", "-f", "{connection_file}"]);
    let args = plan_spawn(
        &spec,
        Some("/mnt/c/conn.json".to_string()),
        Some("/mnt/c/project".to_string()),
    )
    .unwrap();
    assert_eq!(
        args,
        vec![
            "-d".to_string(),
            "Ubuntu".to_string(),
            "--cd".to_string(),
            "/mnt/c/project".to_string(),
            "--exec".to_string(),
            "kernel".to_string(),
            "-f".to_string(),
            "/mnt/c/conn.json".to_string(),
        ]
    );
    for a in &args {
        assert_ne!(a, "{connection_file}");
    }
}

#[test]
fn missing_working_directory_degrades_the_command() {
    let spec = spec_with_argv(vec!["kernel", "-f", "{connection_file}"]);
    let args = plan_spawn(&spec, Some("/mnt/c/conn.json".to_string()), None).unwrap();
    assert_eq!(
        args,
        vec![
            "-d".to_string(),
            "Ubuntu".to_string(),
            "--exec".to_string(),
            "kernel".to_string(),
            "-f".to_string(),
            "/mnt/c/conn.json".to_string(),
        ]
    );
    assert!(!args.contains(&"--cd".to_string()));
}

#[test]
fn untranslatable_connection_path_is_fatal() {
    let spec = spec_with_argv(vec!["kernel", "-f", "{connection_file}"]);
    assert_eq!(
        plan_spawn(&spec, None, Some("/mnt/c/project".to_string())),
        Err(LaunchError::ConnectionPathUntranslatable)
    );
}

#[test]
fn empty_argv_is_fatal() {
    let spec = spec_with_argv(vec![]);
    assert_eq!(
        plan_spawn(&spec, Some("/mnt/c/conn.json".to_string()), None),
        Err(LaunchError::EmptyArgv)
    );
}

#[test]
fn declared_environment_is_prefixed() {
    let env = Some(vec![
        EnvVar {
            name: "PYTHONPATH".to_string(),
            value: "/opt/lib".to_string(),
        },
        EnvVar {
            name: "FLAGS".to_string(),
            value: "a=b".to_string(),
        },
    ]);
    let argv: Vec<String> = vec!["kernel".to_string(), "{connection_file}".to_string()];
    let args = build_launch_args("Debian", &None, &env, &argv, "/tmp/c.json").unwrap();
    assert_eq!(
        args,
        vec![
            "-d".to_string(),
            "Debian".to_string(),
            "--exec".to_string(),
            "env".to_string(),
            "PYTHONPATH=/opt/lib".to_string(),
            "FLAGS=a=b".to_string(),
            "kernel".to_string(),
            "/tmp/c.json".to_string(),
        ]
    );
}
