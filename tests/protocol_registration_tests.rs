use std::path::Path;

use notebooklm_runner::protocol::{
    already_registered, command_value_for, ensure_protocol_registered, plan_registration,
    protocol_command_value, to_ascii_lower, ProtocolError, ProtocolRegistrationStatus,
};

#[test]
fn protocol_command_value_wraps_exe_and_placeholder() {
    let exe = Path::new(r"D:\Snorgnote App\notebooklm_runner.exe");
    let command = protocol_command_value(exe);
    assert_eq!(
        command,
        r#""D:\Snorgnote App\notebooklm_runner.exe" deeplink "%1""#
    );
}

#[test]
fn command_value_for_quotes_the_path() {
    assert_eq!(command_value_for("/opt/app"), r#""/opt/app" deeplink "%1""#);
}

#[test]
fn registration_plan_lowercases_and_trims_scheme() {
    let plan = plan_registration("  SnorgNote ", "cmd").unwrap();
    assert_eq!(plan.scheme, "snorgnote");
    assert_eq!(plan.classes_path, r"Software\Classes\snorgnote");
    assert_eq!(plan.command_path, r"Software\Classes\snorgnote\shell\open\command");
    assert_eq!(plan.description, "URL:snorgnote Protocol");
    assert_eq!(plan.command, "cmd");
    assert_eq!(plan_registration("   ", "cmd"), Err(ProtocolError::EmptyScheme));
    assert!(already_registered(&Some("cmd".to_string()), &plan));
    assert!(!already_registered(&Some("other".to_string()), &plan));
    assert!(!already_registered(&None, &plan));
    assert_eq!(to_ascii_lower("AbC-Ä"), "abc-Ä");
}

#[test]
fn registration_is_skipped_without_registry() {
    assert_eq!(
        ensure_protocol_registered("snorgnote", Path::new("/bin/x")),
        Ok(ProtocolRegistrationStatus::Skipped)
    );
}
