//! Registration of the deep-link URI scheme with the operating system:
//! the command line the scheme opens, and the registry layout that holds it.
use vstd::prelude::*;

use crate::text::{ascii_lower, lower_ascii_char, str_equals, trim_spec, trim_str};

verus! {

#[verifier::external_type_specification]
#[verifier::external_body]
pub struct ExPath(std::path::Path);

/// What registering the scheme did.
#[derive(Debug, Clone, Copy, PartialEq, Eq, Structural)]
pub enum ProtocolRegistrationStatus {
    AlreadyRegistered,
    Updated,
    Skipped,
}

/// Why a registration could not be planned.
#[derive(Debug, Clone, Copy, PartialEq, Eq, Structural)]
pub enum ProtocolError {
    EmptyScheme,
}

/// The registry keys and values that bind a scheme to the executable.
#[derive(Debug, Clone, PartialEq, Eq)]
pub struct RegistrationPlan {
    pub scheme: String,
    pub classes_path: String,
    pub command_path: String,
    pub description: String,
    pub command: String,
}

/// The shell command for an executable shown as `exe`:
/// `"<exe>" deeplink "%1"`.
pub open spec fn command_value_spec(exe: Seq<char>) -> Seq<char> {
    seq!['"'] + exe + "\" deeplink \"%1\""@
}

/// The text that std::path::Path::display shows for a path.
pub uninterp spec fn path_text_of(p: &std::path::Path) -> Seq<char>;

/// Relies on std::path::Path::display: the path as text.
#[verifier::external_body]
fn path_text(p: &std::path::Path) -> (r: String)
    ensures
        r@ == path_text_of(p),
{
    p.display().to_string()
}

/// The command for an executable whose path reads `exe`.
pub fn command_value_for(exe: &str) -> (r: String)
    ensures
        r@ == command_value_spec(exe@),
{
    let mut out = String::new();
    crate::text::push_char(&mut out, '"');
    out.append(exe);
    out.append("\" deeplink \"%1\"");
    out
}

/// The command that opening a deep link runs: the quoted executable path,
/// `deeplink`, and the quoted URI placeholder.
pub fn protocol_command_value(exe_path: &std::path::Path) -> (r: String)
    ensures
        r@ == command_value_spec(path_text_of(exe_path)),
{
    let shown = path_text(exe_path);
    command_value_for(shown.as_str())
}

/// `s` with its ASCII letters in lower case.
pub fn to_ascii_lower(s: &str) -> (r: String)
    ensures
        r@ == ascii_lower(s@),
{
    let n = s.unicode_len();
    let mut out = String::new();
    let mut i: usize = 0;
    while i < n
        invariant
            n == s@.len(),
            i <= n,
            out@ =~= ascii_lower(s@.subrange(0, i as int)),
        decreases n - i,
    {
        crate::text::push_char(&mut out, lower_ascii_char(s.get_char(i)));
        assert(s@.subrange(0, i + 1) =~= s@.subrange(0, i as int).push(s@[i as int]));
        i = i + 1;
    }
    assert(s@.subrange(0, n as int) =~= s@);
    out
}

/// The registry layout for `scheme` bound to `command`: the scheme is
/// trimmed and lower-cased, and must not be empty.
pub fn plan_registration(scheme: &str, command: &str) -> (r: Result<RegistrationPlan, ProtocolError>)
    ensures
        trim_spec(scheme@).len() == 0 <==> r == Err::<RegistrationPlan, ProtocolError>(
            ProtocolError::EmptyScheme,
        ),
        r matches Ok(p) ==> {
            let sc = ascii_lower(trim_spec(scheme@));
            &&& p.scheme@ == sc
            &&& p.classes_path@ == "Software\\Classes\\"@ + sc
            &&& p.command_path@ == "Software\\Classes\\"@ + sc + "\\shell\\open\\command"@
            &&& p.description@ == "URL:"@ + sc + " Protocol"@
            &&& p.command@ == command@
        },
{
    let trimmed = trim_str(scheme);
    if trimmed.unicode_len() == 0 {
        return Err(ProtocolError::EmptyScheme);
    }
    let sc = to_ascii_lower(trimmed);
    let mut classes_path = String::new();
    classes_path.append("Software\\Classes\\");
    classes_path.append(sc.as_str());
    let mut command_path = classes_path.clone();
    command_path.append("\\shell\\open\\command");
    let mut description = String::new();
    description.append("URL:");
    description.append(sc.as_str());
    description.append(" Protocol");
    Ok(
        RegistrationPlan {
            scheme: sc,
            classes_path,
            command_path,
            description,
            command: command.to_string(),
        },
    )
}

/// Whether the command found under the scheme's key is already the one
/// the plan would write.
pub fn already_registered(existing: &Option<String>, plan: &RegistrationPlan) -> (r: bool)
    ensures
        r == match existing {
            Some(e) => e@ == plan.command@,
            None => false,
        },
{
    match existing {
        Some(e) => str_equals(e.as_str(), plan.command.as_str()),
        None => false,
    }
}

/// Registration where the platform has no registry of URI handlers:
/// nothing is written and the scheme is reported as skipped.
pub fn ensure_protocol_registered(_scheme: &str, _exe_path: &std::path::Path) -> (r: Result<
    ProtocolRegistrationStatus,
    ProtocolError,
>)
    ensures
        r == Ok::<ProtocolRegistrationStatus, ProtocolError>(ProtocolRegistrationStatus::Skipped),
{
    Ok(ProtocolRegistrationStatus::Skipped)
}

} // verus!
