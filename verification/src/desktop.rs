//! Which desktop the process runs on and in which runtime role, decided from names and flags
//! that the system reports.

use vstd::prelude::*;
use vstd::string::StrSliceExecFns;

verus! {

/// The code of a character with ASCII capitals folded to lower case.
pub open spec fn folded(c: char) -> u32 {
    let v = c as u32;
    if 65 <= v <= 90 {
        (v + 32) as u32
    } else {
        v
    }
}

/// Two texts are equal when ASCII letters are compared without regard to case.
pub open spec fn equal_ignoring_ascii_case(a: Seq<char>, b: Seq<char>) -> bool {
    &&& a.len() == b.len()
    &&& forall|i: int| 0 <= i < a.len() ==> #[trigger] folded(a[i]) == folded(b[i])
}

fn fold(c: char) -> (v: u32)
    ensures
        v == folded(c),
{
    let v = c as u32;
    if 65 <= v && v <= 90 {
        v + 32
    } else {
        v
    }
}

/// Compares two texts, folding ASCII capitals to lower case.
pub fn eq_ignore_ascii_case(a: &str, b: &str) -> (equal: bool)
    ensures
        equal == equal_ignoring_ascii_case(a@, b@),
{
    let n = a.unicode_len();
    if n != b.unicode_len() {
        return false;
    }
    let mut i: usize = 0;
    while i < n
        invariant
            n == a@.len(),
            n == b@.len(),
            i <= n,
            forall|j: int| 0 <= j < i ==> #[trigger] folded(a@[j]) == folded(b@[j]),
        decreases n - i,
    {
        if fold(a.get_char(i)) != fold(b.get_char(i)) {
            return false;
        }
        i = i + 1;
    }
    true
}

/// Compares two texts exactly.
pub fn str_equal(a: &str, b: &str) -> (equal: bool)
    ensures
        equal == (a@ == b@),
{
    let n = a.unicode_len();
    if n != b.unicode_len() {
        return false;
    }
    let mut i: usize = 0;
    while i < n
        invariant
            n == a@.len(),
            n == b@.len(),
            i <= n,
            forall|j: int| 0 <= j < i ==> a@[j] == b@[j],
        decreases n - i,
    {
        if a.get_char(i) != b.get_char(i) {
            return false;
        }
        i = i + 1;
    }
    assert(a@ =~= b@);
    true
}

/// The kind of desktop a thread is attached to.
#[derive(Debug, Clone, Copy, PartialEq, Eq, Structural)]
pub enum DesktopKind {
    Default,
    Secure,
    Locked,
    Logon,
    Unknown,
}

/// The diagnostic label of a desktop kind.
pub open spec fn desktop_kind_label(kind: DesktopKind) -> &'static str {
    match kind {
        DesktopKind::Default => "default",
        DesktopKind::Secure => "secure",
        DesktopKind::Locked => "locked",
        DesktopKind::Logon => "logon",
        DesktopKind::Unknown => "unknown",
    }
}

impl DesktopKind {
    /// Returns the diagnostic label of this desktop kind.
    pub fn label(self) -> (label: &'static str)
        ensures
            label == desktop_kind_label(self),
    {
        match self {
            DesktopKind::Default => "default",
            DesktopKind::Secure => "secure",
            DesktopKind::Locked => "locked",
            DesktopKind::Logon => "logon",
            DesktopKind::Unknown => "unknown",
        }
    }
}

/// The role in which the process runs.
#[derive(Debug, Clone, Copy, PartialEq, Eq, Structural)]
pub enum RuntimeKind {
    Normal,
    Elevated,
    Secure,
}

/// The diagnostic label of a runtime kind.
pub open spec fn runtime_kind_label(kind: RuntimeKind) -> &'static str {
    match kind {
        RuntimeKind::Normal => "normal",
        RuntimeKind::Elevated => "elevated",
        RuntimeKind::Secure => "secure",
    }
}

impl RuntimeKind {
    /// Returns the diagnostic label of this runtime kind.
    pub fn label(self) -> (label: &'static str)
        ensures
            label == runtime_kind_label(self),
    {
        match self {
            RuntimeKind::Normal => "normal",
            RuntimeKind::Elevated => "elevated",
            RuntimeKind::Secure => "secure",
        }
    }
}

/// The runtime kind that command-line arguments ask for: secure if any argument is
/// `--secure-runtime`, else elevated if any is `--elevated`, else normal.
pub open spec fn runtime_kind_of(arguments: Seq<Seq<char>>) -> RuntimeKind {
    if exists|i: int| 0 <= i < arguments.len() && arguments[i] == "--secure-runtime"@ {
        RuntimeKind::Secure
    } else if exists|i: int| 0 <= i < arguments.len() && arguments[i] == "--elevated"@ {
        RuntimeKind::Elevated
    } else {
        RuntimeKind::Normal
    }
}

/// Returns the runtime kind that the command-line arguments (the program name left out) ask
/// for, as `runtime_kind_of` says.
pub fn runtime_kind_for_arguments(arguments: &[String]) -> (kind: RuntimeKind)
    ensures
        kind == runtime_kind_of(arguments@.map_values(|a: String| a@)),
{
    let ghost args = arguments@.map_values(|a: String| a@);
    let mut secure = false;
    let mut elevated = false;
    let mut i: usize = 0;
    while i < arguments.len()
        invariant
            i <= arguments@.len(),
            args == arguments@.map_values(|a: String| a@),
            secure == exists|j: int| 0 <= j < i && args[j] == "--secure-runtime"@,
            elevated == exists|j: int| 0 <= j < i && args[j] == "--elevated"@,
        decreases arguments@.len() - i,
    {
        let argument = arguments[i].as_str();
        let is_secure = str_equal(argument, "--secure-runtime");
        let is_elevated = str_equal(argument, "--elevated");
        proof {
            assert(args[i as int] == argument@);
            if is_secure {
                assert(args[i as int] == "--secure-runtime"@);
            }
            if is_elevated {
                assert(args[i as int] == "--elevated"@);
            }
        }
        secure = secure || is_secure;
        elevated = elevated || is_elevated;
        i = i + 1;
    }
    if secure {
        RuntimeKind::Secure
    } else if elevated {
        RuntimeKind::Elevated
    } else {
        RuntimeKind::Normal
    }
}

/// Whether arguments are those Ease of Access launches the secure runtime with: at least one,
/// and every one `--secure-runtime`.
pub open spec fn secure_launch_of(arguments: Seq<Seq<char>>) -> bool {
    &&& arguments.len() > 0
    &&& forall|i: int| 0 <= i < arguments.len() ==> #[trigger] arguments[i] == "--secure-runtime"@
}

/// Returns whether the command-line arguments (the program name left out) authorize the
/// secure runtime, as `secure_launch_of` says.
pub fn secure_launch_authorized(arguments: &[String]) -> (authorized: bool)
    ensures
        authorized == secure_launch_of(arguments@.map_values(|a: String| a@)),
{
    let ghost args = arguments@.map_values(|a: String| a@);
    if arguments.len() == 0 {
        return false;
    }
    let mut i: usize = 0;
    while i < arguments.len()
        invariant
            i <= arguments@.len(),
            arguments@.len() > 0,
            args == arguments@.map_values(|a: String| a@),
            forall|j: int| 0 <= j < i ==> #[trigger] args[j] == "--secure-runtime"@,
        decreases arguments@.len() - i,
    {
        let argument = arguments[i].as_str();
        assert(args[i as int] == argument@);
        if !str_equal(argument, "--secure-runtime") {
            return false;
        }
        i = i + 1;
    }
    true
}

/// What the session reports of itself.
#[derive(Debug, Clone, Copy, PartialEq, Eq, Structural)]
pub struct SessionSurface {
    pub locked: bool,
    pub has_user: bool,
}

/// The kind of a desktop from its name and the session state: "Default" is the user's
/// desktop; "Winlogon" is the logon screen without a user, the lock screen of a locked
/// session, and the secure desktop otherwise; any other name is unknown. Names compare
/// without regard to ASCII case.
pub open spec fn desktop_kind_of(name: Seq<char>, session: Option<SessionSurface>) -> DesktopKind {
    if equal_ignoring_ascii_case(name, "default"@) {
        DesktopKind::Default
    } else if !equal_ignoring_ascii_case(name, "winlogon"@) {
        DesktopKind::Unknown
    } else {
        match session {
            Some(surface) => if !surface.has_user {
                DesktopKind::Logon
            } else if surface.locked {
                DesktopKind::Locked
            } else {
                DesktopKind::Secure
            },
            None => DesktopKind::Secure,
        }
    }
}

/// Classifies a desktop from its name and the session state, as `desktop_kind_of` says.
pub fn classify_desktop(name: &str, session: Option<SessionSurface>) -> (kind: DesktopKind)
    ensures
        kind == desktop_kind_of(name@, session),
{
    if eq_ignore_ascii_case(name, "default") {
        return DesktopKind::Default;
    }
    if !eq_ignore_ascii_case(name, "winlogon") {
        return DesktopKind::Unknown;
    }
    match session {
        Some(surface) => {
            if !surface.has_user {
                DesktopKind::Logon
            } else if surface.locked {
                DesktopKind::Locked
            } else {
                DesktopKind::Secure
            }
        },
        None => DesktopKind::Secure,
    }
}

/// Whether the calling thread's desktop is the input desktop: both names are known and equal
/// without regard to ASCII case. An unknown name counts as not owning input.
pub fn owns_input_desktop(thread_desktop: Option<&str>, input_desktop: Option<&str>) -> (owns: bool)
    ensures
        owns == (thread_desktop is Some && input_desktop is Some && equal_ignoring_ascii_case(
            input_desktop->0@,
            thread_desktop->0@,
        )),
{
    match (thread_desktop, input_desktop) {
        (Some(thread), Some(input)) => eq_ignore_ascii_case(input, thread),
        _ => false,
    }
}

proof fn lemma_folding_transfers(a: Seq<char>, b: Seq<char>, d: Seq<char>)
    ensures
        equal_ignoring_ascii_case(a, b) ==> (equal_ignoring_ascii_case(a, d)
            == equal_ignoring_ascii_case(b, d)),
{
    if equal_ignoring_ascii_case(a, b) {
        if equal_ignoring_ascii_case(a, d) {
            assert forall|i: int| 0 <= i < b.len() implies #[trigger] folded(b[i]) == folded(d[i]) by {
                assert(folded(a[i]) == folded(b[i]));
                assert(folded(a[i]) == folded(d[i]));
            }
        }
        if equal_ignoring_ascii_case(b, d) {
            assert forall|i: int| 0 <= i < a.len() implies #[trigger] folded(a[i]) == folded(d[i]) by {
                assert(folded(a[i]) == folded(b[i]));
                assert(folded(b[i]) == folded(d[i]));
            }
        }
    }
}

/// Desktop names are classified without regard to ASCII case: names that are equal when
/// capitals are folded get the same kind, and the comparison is an equivalence.
pub proof fn lemma_classification_ignores_ascii_case(
    a: Seq<char>,
    b: Seq<char>,
    c: Seq<char>,
    session: Option<SessionSurface>,
)
    ensures
        equal_ignoring_ascii_case(a, a),
        equal_ignoring_ascii_case(a, b) ==> equal_ignoring_ascii_case(b, a),
        equal_ignoring_ascii_case(a, b) && equal_ignoring_ascii_case(b, c)
            ==> equal_ignoring_ascii_case(a, c),
        equal_ignoring_ascii_case(a, b) ==> desktop_kind_of(a, session) == desktop_kind_of(b, session),
{
    lemma_folding_transfers(a, b, "default"@);
    lemma_folding_transfers(a, b, "winlogon"@);
}

} // verus!
