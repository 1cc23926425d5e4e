//! Texts and small decisions around the Windows system: launch parameters, the startup command,
//! the application manifest, the helper pipe name, reconnect pacing and the results of system
//! calls, with the errors they map to.

use vstd::prelude::*;
use vstd::string::{StrSliceExecFns, StringExecFns};

use crate::bytes::{le_bytes_u16, push_u16_le};
use crate::desktop::DesktopKind;
use crate::hook::HookError;
use crate::protocol::{Message, ProtocolError, RejectReason};
use crate::win_pointer::PointerError;

verus! {

/// Returns the parameters of an elevated relaunch, keeping background mode.
pub fn elevated_parameters(background: bool) -> (parameters: &'static str)
    ensures
        background ==> parameters == "--elevated --background",
        !background ==> parameters == "--elevated",
{
    if background {
        "--elevated --background"
    } else {
        "--elevated"
    }
}

/// Why an elevated relaunch failed.
#[derive(Debug, Clone, PartialEq, Eq)]
pub enum ElevationError {
    CurrentExecutable(String),
    InvalidExecutablePath,
    ShellExecute(isize),
}

/// Interprets the result code of a shell launch: codes up to 32 are errors.
pub fn shell_execute_result(code: isize) -> (result: Result<(), ElevationError>)
    ensures
        code > 32 ==> result is Ok,
        code <= 32 ==> result == Err::<(), ElevationError>(ElevationError::ShellExecute(code)),
{
    if code <= 32 {
        Err(ElevationError::ShellExecute(code))
    } else {
        Ok(())
    }
}

/// The diagnostic label of a mandatory integrity level.
pub open spec fn integrity_label_of(rid: u32) -> &'static str {
    if rid == 0x1000 {
        "low"
    } else if rid == 0x2000 {
        "medium"
    } else if rid == 0x2100 {
        "medium-plus"
    } else if rid == 0x3000 {
        "high"
    } else if rid == 0x4000 {
        "system"
    } else if rid == 0x5000 {
        "protected"
    } else {
        "unknown"
    }
}

/// Returns the diagnostic label of a mandatory integrity level.
pub fn integrity_label(rid: u32) -> (label: &'static str)
    ensures
        label == integrity_label_of(rid),
{
    if rid == 0x1000 {
        "low"
    } else if rid == 0x2000 {
        "medium"
    } else if rid == 0x2100 {
        "medium-plus"
    } else if rid == 0x3000 {
        "high"
    } else if rid == 0x4000 {
        "system"
    } else if rid == 0x5000 {
        "protected"
    } else {
        "unknown"
    }
}

/// What diagnostics report of the foreground process.
#[derive(Debug, Clone, PartialEq, Eq)]
pub struct ForegroundProcessInfo {
    pub window: isize,
    pub process_id: u32,
    pub process_name: String,
    pub elevated: Option<bool>,
    pub integrity: Option<&'static str>,
}

/// The UTF-16 code units of a character.
pub open spec fn utf16_of_char(c: char) -> Seq<u16> {
    let v = c as u32;
    if v < 0x10000 {
        seq![v as u16]
    } else {
        let w = v - 0x10000;
        seq![(0xD800 + w / 1024) as u16, (0xDC00 + w % 1024) as u16]
    }
}

/// The UTF-16 code units of a text.
pub open spec fn utf16_of(s: Seq<char>) -> Seq<u16>
    decreases s.len(),
{
    if s.len() == 0 {
        Seq::empty()
    } else {
        utf16_of(s.drop_last()) + utf16_of_char(s.last())
    }
}

fn push_utf16(units: &mut Vec<u16>, c: char)
    ensures
        final(units)@ == old(units)@ + utf16_of_char(c),
{
    let v = c as u32;
    if v < 0x10000 {
        units.push(v as u16);
    } else {
        assert(v <= 0x10FFFF);
        let w = v - 0x10000;
        units.push((0xD800 + w / 1024) as u16);
        units.push((0xDC00 + w % 1024) as u16);
    }
    assert(units@ =~= old(units)@ + utf16_of_char(c));
}

/// The code units of the startup command: the executable path in double quotes, then a
/// terminating zero.
pub open spec fn startup_command_units_of(executable: Seq<char>) -> Seq<u16> {
    seq![34u16] + utf16_of(executable) + seq![34u16, 0u16]
}

/// Returns the code units of the startup command for an executable path.
pub fn startup_command_units(executable: &str) -> (units: Vec<u16>)
    ensures
        units@ == startup_command_units_of(executable@),
{
    let mut units: Vec<u16> = Vec::new();
    units.push(34);
    let n = executable.unicode_len();
    let mut i: usize = 0;
    while i < n
        invariant
            n == executable@.len(),
            i <= n,
            units@ == seq![34u16] + utf16_of(executable@.take(i as int)),
        decreases n - i,
    {
        let c = executable.get_char(i);
        push_utf16(&mut units, c);
        proof {
            let s = executable@.take(i as int + 1);
            assert(s.drop_last() =~= executable@.take(i as int));
            assert(s.last() == c);
        }
        i = i + 1;
    }
    assert(executable@.take(n as int) =~= executable@);
    units.push(34);
    units.push(0);
    assert(units@ =~= startup_command_units_of(executable@));
    units
}

/// The little-endian bytes of a run of code units.
pub open spec fn le_bytes_of_units(units: Seq<u16>) -> Seq<u8>
    decreases units.len(),
{
    if units.len() == 0 {
        Seq::empty()
    } else {
        le_bytes_of_units(units.drop_last()) + le_bytes_u16(units.last())
    }
}

/// Returns the bytes of the startup command as stored in the registry: its code units in
/// little-endian order.
pub fn startup_command_bytes(executable: &str) -> (bytes: Vec<u8>)
    ensures
        bytes@ == le_bytes_of_units(startup_command_units_of(executable@)),
{
    let units = startup_command_units(executable);
    let mut bytes: Vec<u8> = Vec::new();
    let mut i: usize = 0;
    while i < units.len()
        invariant
            i <= units@.len(),
            bytes@ == le_bytes_of_units(units@.take(i as int)),
        decreases units@.len() - i,
    {
        push_u16_le(&mut bytes, units[i]);
        proof {
            let s = units@.take(i as int + 1);
            assert(s.drop_last() =~= units@.take(i as int));
        }
        i = i + 1;
    }
    assert(units@.take(units@.len() as int) =~= units@);
    bytes
}

/// Why startup registration failed.
#[derive(Debug, Clone, PartialEq, Eq)]
pub enum StartupError {
    CurrentExecutable(String),
    CommandTooLarge,
    Registry(u32),
}

/// Whether a registry status says that the value or its key does not exist.
pub open spec fn status_is_missing(status: u32) -> bool {
    status == 2 || status == 3
}

/// Registration of the program to start with the user session. The registry calls are made
/// by the caller; these functions interpret their results.
pub struct StartupRegistration;

impl StartupRegistration {
    /// Interprets the status of reading the startup value: present means enabled, missing means
    /// disabled, anything else is an error.
    pub fn enabled_from_status(status: u32) -> (result: Result<bool, StartupError>)
        ensures
            status == 0 ==> result == Ok::<bool, StartupError>(true),
            status_is_missing(status) ==> result == Ok::<bool, StartupError>(false),
            status != 0 && !status_is_missing(status) ==> result == Err::<bool, StartupError>(
                StartupError::Registry(status),
            ),
    {
        if status == 0 {
            Ok(true)
        } else if status == 2 || status == 3 {
            Ok(false)
        } else {
            Err(StartupError::Registry(status))
        }
    }

    /// Interprets the status of writing (or, with `removing`, deleting) the startup value; a
    /// missing value counts as removed.
    pub fn write_result(status: u32, removing: bool) -> (result: Result<(), StartupError>)
        ensures
            (status == 0 || (removing && status_is_missing(status))) ==> result is Ok,
            !(status == 0 || (removing && status_is_missing(status))) ==> result == Err::<
                (),
                StartupError,
            >(StartupError::Registry(status)),
    {
        if status == 0 || (removing && (status == 2 || status == 3)) {
            Ok(())
        } else {
            Err(StartupError::Registry(status))
        }
    }
}

/// The byte length of a startup command as the registry takes it.
pub fn startup_command_length(length: usize) -> (result: Result<u32, StartupError>)
    ensures
        length <= u32::MAX ==> result == Ok::<u32, StartupError>(length as u32),
        length > u32::MAX ==> result == Err::<u32, StartupError>(StartupError::CommandTooLarge),
{
    if length <= 0xFFFF_FFFF {
        Ok(length as u32)
    } else {
        Err(StartupError::CommandTooLarge)
    }
}

/// The application manifest up to the UI-access flag.
pub const MANIFEST_HEAD: &'static str = "<?xml version=\"1.0\" encoding=\"UTF-8\" standalone=\"yes\"?>
<assembly xmlns=\"urn:schemas-microsoft-com:asm.v1\" manifestVersion=\"1.0\">
  <assemblyIdentity version=\"1.0.0.0\" processorArchitecture=\"*\" name=\"GendByteMaster.NumFlow\" type=\"win32\" />
  <trustInfo xmlns=\"urn:schemas-microsoft-com:asm.v3\">
    <security>
      <requestedPrivileges>
        <requestedExecutionLevel level=\"asInvoker\" uiAccess=\"";

/// The application manifest after the UI-access flag.
pub const MANIFEST_TAIL: &'static str = "\" />
      </requestedPrivileges>
    </security>
  </trustInfo>
  <compatibility xmlns=\"urn:schemas-microsoft-com:compatibility.v1\">
    <application>
      <supportedOS Id=\"{8e0f7a12-bfb3-4fe8-b9a5-48fd50a15a9a}\" />
    </application>
  </compatibility>
  <application xmlns=\"urn:schemas-microsoft-com:asm.v3\">
    <windowsSettings>
      <longPathAware xmlns=\"http://schemas.microsoft.com/SMI/2016/WindowsSettings\">true</longPathAware>
    </windowsSettings>
  </application>
</assembly>";

/// Returns the application manifest; UI access is requested only when asked for.
pub fn windows_manifest(uiaccess: bool) -> (manifest: String)
    ensures
        manifest@ == MANIFEST_HEAD@ + (if uiaccess {
            "true"@
        } else {
            "false"@
        }) + MANIFEST_TAIL@,
{
    let mut manifest = String::from_str(MANIFEST_HEAD);
    if uiaccess {
        manifest.append("true");
    } else {
        manifest.append("false");
    }
    manifest.append(MANIFEST_TAIL);
    manifest
}

/// The character of a decimal digit.
pub open spec fn digit_char(d: nat) -> char {
    (48 + d) as char
}

/// The decimal digits of a number, most significant first, without leading zeros.
pub open spec fn decimal_digits(n: nat) -> Seq<char>
    decreases n,
{
    if n < 10 {
        seq![digit_char(n)]
    } else {
        decimal_digits(n / 10).push(digit_char(n % 10))
    }
}

fn digit_text(d: u32) -> (text: &'static str)
    requires
        d < 10,
    ensures
        text@ == seq![digit_char(d as nat)],
{
    proof {
        reveal_strlit("0");
        reveal_strlit("1");
        reveal_strlit("2");
        reveal_strlit("3");
        reveal_strlit("4");
        reveal_strlit("5");
        reveal_strlit("6");
        reveal_strlit("7");
        reveal_strlit("8");
        reveal_strlit("9");
    }
    let text = if d == 0 {
        "0"
    } else if d == 1 {
        "1"
    } else if d == 2 {
        "2"
    } else if d == 3 {
        "3"
    } else if d == 4 {
        "4"
    } else if d == 5 {
        "5"
    } else if d == 6 {
        "6"
    } else if d == 7 {
        "7"
    } else if d == 8 {
        "8"
    } else {
        "9"
    };
    assert(text@ =~= seq![digit_char(d as nat)]);
    text
}

fn append_decimal(out: &mut String, n: u32)
    ensures
        final(out)@ == old(out)@ + decimal_digits(n as nat),
    decreases n,
{
    if n >= 10 {
        append_decimal(out, n / 10);
    }
    out.append(digit_text(n % 10));
    assert(out@ =~= old(out)@ + decimal_digits(n as nat));
}

/// The prefix of the helper pipe names.
pub const PIPE_NAME_PREFIX: &'static str = "\\\\.\\pipe\\numflow-input-";

/// Returns the helper pipe name of a Windows session: the prefix and the session id in decimal.
pub fn pipe_name_for_session(session_id: u32) -> (name: String)
    ensures
        name@ == PIPE_NAME_PREFIX@ + decimal_digits(session_id as nat),
{
    let mut name = String::from_str(PIPE_NAME_PREFIX);
    append_decimal(&mut name, session_id);
    name
}

/// How long to wait before another helper connection attempt, in milliseconds.
pub const RECONNECT_COOLDOWN_MS: u64 = 2_000;

/// Whether a helper connection may be attempted at `now` (milliseconds on a monotonic
/// clock): always when none was attempted, else once the cooldown has passed since the last
/// attempt; a clock that went backwards counts as no time passed.
pub fn reconnect_allowed(last_attempt: Option<u64>, now: u64, cooldown: u64) -> (allowed: bool)
    ensures
        allowed == match last_attempt {
            None => true,
            Some(previous) => (if now >= previous {
                now - previous
            } else {
                0
            }) >= cooldown,
        },
{
    match last_attempt {
        None => true,
        Some(previous) => now.saturating_sub(previous) >= cooldown,
    }
}

/// What std's `str::to_lowercase` gives for a text (Unicode lower case, independent of locale).
pub uninterp spec fn lowercase(text: Seq<char>) -> Seq<char>;

/// Lower-cases a text with std's `str::to_lowercase`; the result is `lowercase` of the text.
#[verifier::external_body]
fn to_lowercase(text: &str) -> (lower: String)
    ensures
        lower@ == lowercase(text@),
{
    text.to_lowercase()
}

/// Whether a text is a contiguous part of another.
pub open spec fn part_of(part: Seq<char>, text: Seq<char>) -> bool {
    exists|i: int, j: int| 0 <= i <= j <= text.len() && part == #[trigger] text.subrange(i, j)
}

/// The directory part of a path as std's `Path::parent` splits it, in text form. How a path
/// splits depends on the platform's separators, so of the result only this is stated: it is
/// a slice of the path, and the text of a slice of a `str` is that slice unchanged.
#[verifier::external_body]
fn path_parent(path: &str) -> (parent: Option<String>)
    ensures
        parent matches Some(p) ==> part_of(p@, path@),
{
    match std::path::Path::new(path).parent() {
        Some(parent) => Some(parent.to_string_lossy().into_owned()),
        None => None,
    }
}

/// The file part of a path as std's `Path::file_name` splits it, in text form. How a path
/// splits depends on the platform's separators, so of the result only this is stated: it is
/// a slice of the path, and the text of a slice of a `str` is that slice unchanged.
#[verifier::external_body]
fn path_file_name(path: &str) -> (file: Option<String>)
    ensures
        file matches Some(f) ==> part_of(f@, path@),
{
    match std::path::Path::new(path).file_name() {
        Some(file) => Some(file.to_string_lossy().into_owned()),
        None => None,
    }
}

/// Whether split executable paths pin the peer: our executable has a directory, the peer's
/// has a file name equal to the expected one, and the peer's directory equals ours, names
/// and directories compared lower-cased (a peer without a directory has the empty one).
pub open spec fn pinned_parts(
    own_directory: Option<Seq<char>>,
    peer_directory: Option<Seq<char>>,
    peer_file: Option<Seq<char>>,
    expected_file: Seq<char>,
) -> bool {
    &&& own_directory is Some
    &&& peer_file is Some
    &&& lowercase(peer_file->0) == lowercase(expected_file)
    &&& (match peer_directory {
        Some(directory) => lowercase(directory),
        None => Seq::empty(),
    }) == lowercase(own_directory->0)
}

/// Whether parts taken from the two executable paths pin the peer: our directory is a part of
/// our own path, the peer's directory (when it has one) and file name are parts of the peer's
/// path, and `pinned_parts` holds of them.
pub open spec fn pinned_by_parts_of(
    own: Seq<char>,
    peer: Seq<char>,
    own_directory: Seq<char>,
    peer_directory: Option<Seq<char>>,
    peer_file: Seq<char>,
    expected_file: Seq<char>,
) -> bool {
    &&& part_of(own_directory, own)
    &&& (peer_directory matches Some(directory) ==> part_of(directory, peer))
    &&& part_of(peer_file, peer)
    &&& pinned_parts(Some(own_directory), peer_directory, Some(peer_file), expected_file)
}

/// Decides, from the split executable paths, whether the peer is pinned, as `pinned_parts`
/// says.
pub fn pinned_by_parts(
    own_directory: Option<&str>,
    peer_directory: Option<&str>,
    peer_file: Option<&str>,
    expected_file: &str,
) -> (pinned: bool)
    ensures
        pinned == pinned_parts(
            match own_directory {
                Some(d) => Some(d@),
                None => None,
            },
            match peer_directory {
                Some(d) => Some(d@),
                None => None,
            },
            match peer_file {
                Some(f) => Some(f@),
                None => None,
            },
            expected_file@,
        ),
{
    let own = match own_directory {
        Some(directory) => directory,
        None => {
            return false;
        },
    };
    let file = match peer_file {
        Some(file) => file,
        None => {
            return false;
        },
    };
    let file_lower = to_lowercase(file);
    let expected_lower = to_lowercase(expected_file);
    if !crate::desktop::str_equal(file_lower.as_str(), expected_lower.as_str()) {
        return false;
    }
    let peer_lower = match peer_directory {
        Some(directory) => to_lowercase(directory),
        None => String::new(),
    };
    let own_lower = to_lowercase(own);
    crate::desktop::str_equal(peer_lower.as_str(), own_lower.as_str())
}

fn as_text(text: &Option<String>) -> (view: Option<&str>)
    ensures
        view matches Some(t) ==> text matches Some(s) && t@ == s@,
        view is None <==> text is None,
{
    match text {
        Some(text) => Some(text.as_str()),
        None => None,
    }
}

/// Whether a connecting peer's executable is the expected file in our own install directory
/// (file name and directory compared case-insensitively). Without either path it is not.
/// Our own path gives our directory, the peer's path gives its directory and file name, split
/// as std's `Path` does on this platform, and `pinned_by_parts` decides on those parts. How a
/// path splits depends on the platform, so when the peer is pinned what is stated is that
/// such parts of the right paths pin it.
pub fn peer_path_pinned(
    own_executable: Option<&str>,
    peer_executable: Option<&str>,
    expected_peer_file: &str,
) -> (pinned: bool)
    ensures
        own_executable is None ==> !pinned,
        peer_executable is None ==> !pinned,
        pinned ==> (own_executable matches Some(own) && peer_executable matches Some(peer)
            && exists|own_directory: Seq<char>, peer_directory: Option<Seq<char>>, peer_file: Seq<char>|
            #[trigger] pinned_by_parts_of(
            own@,
            peer@,
            own_directory,
            peer_directory,
            peer_file,
            expected_peer_file@,
        )),
{
    let own = match own_executable {
        Some(own) => own,
        None => {
            return false;
        },
    };
    let peer = match peer_executable {
        Some(peer) => peer,
        None => {
            return false;
        },
    };
    let own_directory = path_parent(own);
    let peer_directory = path_parent(peer);
    let peer_file = path_file_name(peer);
    let pinned = pinned_by_parts(
        as_text(&own_directory),
        as_text(&peer_directory),
        as_text(&peer_file),
        expected_peer_file,
    );
    proof {
        if pinned {
            let d = own_directory->0@;
            let pd = match peer_directory {
                Some(directory) => Some(directory@),
                None => None,
            };
            let f = peer_file->0@;
            assert(pinned_by_parts_of(own@, peer@, d, pd, f, expected_peer_file@));
        }
    }
    pinned
}

/// Why the single-instance guard could not be taken.
#[derive(Debug, Clone, PartialEq, Eq)]
pub enum SingleInstanceError {
    AlreadyRunning,
    Create(String),
}

/// Why the settings window could not be activated.
#[derive(Debug, Clone, PartialEq, Eq)]
pub enum WindowActivationError {
    Find(String),
}

/// Why the secure runtime stopped.
#[derive(Debug, Clone, PartialEq, Eq)]
pub enum SecureRuntimeError {
    UnmanagedDesktop,
    Hook(HookError),
    Pointer(PointerError),
}

/// The secure runtime only runs on a protected desktop that Ease of Access activated: the
/// assistive technology is registered, the desktop is the secure, lock or logon desktop, and
/// the thread owns the input desktop.
pub fn secure_desktop_admitted(registered: bool, desktop: DesktopKind, owns_input: bool) -> (result:
    Result<(), SecureRuntimeError>)
    ensures
        result is Ok <==> (registered && (desktop == DesktopKind::Secure || desktop
            == DesktopKind::Locked || desktop == DesktopKind::Logon) && owns_input),
        result is Err ==> result == Err::<(), SecureRuntimeError>(SecureRuntimeError::UnmanagedDesktop),
{
    let protected = match desktop {
        DesktopKind::Secure | DesktopKind::Locked | DesktopKind::Logon => true,
        _ => false,
    };
    if !registered || !protected || !owns_input {
        return Err(SecureRuntimeError::UnmanagedDesktop);
    }
    Ok(())
}

/// Failures of the helper transport and service.
#[derive(Debug, Clone, PartialEq, Eq)]
pub enum InputServiceError {
    PipeCreate(String),
    Connect(String),
    PeerVerification(String),
    HelperMissing,
    Spawn(String),
    Io(String),
    Protocol(ProtocolError),
    Rejected(RejectReason),
}

/// What the helper's reply to the handshake establishes.
#[derive(Debug, Clone, Copy, PartialEq, Eq, Structural)]
pub enum HandshakeOutcome {
    /// The helper accepted; its process id matches the pipe's server.
    Accepted { server_pid: u32, ui_access: bool },
    /// The helper accepted under a process id other than the pipe's server: refused.
    PidMismatch { server_pid: u32 },
    /// The reply is not an acceptance: refused as an unknown command.
    Unexpected,
}

/// Returns what a handshake reply establishes, given the process id of the pipe's server.
pub fn handshake_reply_outcome(reply: Message, peer_pid: u32) -> (outcome: HandshakeOutcome)
    ensures
        outcome == match reply {
            Message::HandshakeAccepted { server_pid, ui_access } => if server_pid == peer_pid {
                HandshakeOutcome::Accepted { server_pid, ui_access }
            } else {
                HandshakeOutcome::PidMismatch { server_pid }
            },
            _ => HandshakeOutcome::Unexpected,
        },
{
    match reply {
        Message::HandshakeAccepted { server_pid, ui_access } => {
            if server_pid == peer_pid {
                HandshakeOutcome::Accepted { server_pid, ui_access }
            } else {
                HandshakeOutcome::PidMismatch { server_pid }
            }
        },
        _ => HandshakeOutcome::Unexpected,
    }
}

/// Returns what the helper's reply to a request means: an accepting acknowledgement without
/// a reason is success, a refusing one is refused with its reason, and anything else is
/// refused as an invalid payload.
pub fn request_reply_outcome(reply: Message) -> (result: Result<(), InputServiceError>)
    ensures
        reply == (Message::Ack { accepted: true, detail: RejectReason::Accepted }) ==> result is Ok,
        (reply matches Message::Ack { accepted: false, detail }) ==> result == Err::<(), InputServiceError>(
            InputServiceError::Rejected(reply->detail),
        ),
        !(reply matches Message::Ack { accepted: false, .. }) && reply != (Message::Ack {
            accepted: true,
            detail: RejectReason::Accepted,
        }) ==> result == Err::<(), InputServiceError>(
            InputServiceError::Rejected(RejectReason::InvalidPayload),
        ),
{
    match reply {
        Message::Ack { accepted: true, detail: RejectReason::Accepted } => Ok(()),
        Message::Ack { accepted: false, detail } => Err(InputServiceError::Rejected(detail)),
        _ => Err(InputServiceError::Rejected(RejectReason::InvalidPayload)),
    }
}

/// Once a reconnect is allowed it stays allowed as time goes on, and a first attempt is
/// always allowed.
pub proof fn lemma_reconnect_allowance_is_monotonic(previous: u64, now: u64, later: u64, cooldown: u64)
    requires
        now <= later,
    ensures
        ({
            let waited = |t: u64| if t >= previous {
                t - previous
            } else {
                0
            };
            waited(now) >= cooldown ==> waited(later) >= cooldown
        }),
{
}

/// The startup command is the executable path in double quotes followed by a terminating
/// zero, and its registry bytes are exactly two little-endian bytes per code unit.
pub proof fn lemma_startup_command_shape(executable: Seq<char>)
    ensures
        startup_command_units_of(executable).len() == utf16_of(executable).len() + 3,
        startup_command_units_of(executable)[0] == 34,
        startup_command_units_of(executable).last() == 0,
        startup_command_units_of(executable)[startup_command_units_of(executable).len() - 2] == 34,
        le_bytes_of_units(startup_command_units_of(executable)).len() == 2 * startup_command_units_of(
            executable,
        ).len(),
{
    lemma_le_bytes_length(startup_command_units_of(executable));
}

proof fn lemma_le_bytes_length(units: Seq<u16>)
    ensures
        le_bytes_of_units(units).len() == 2 * units.len(),
    decreases units.len(),
{
    if units.len() > 0 {
        lemma_le_bytes_length(units.drop_last());
    }
}

} // verus!
