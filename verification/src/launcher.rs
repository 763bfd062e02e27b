//! Starting the game: choosing Java, building the classpath and the
//! command line, and deciding whether an event may be launched.

use vstd::prelude::*;
use crate::auth::UserProfile;
use crate::config::LauncherConfig;
use crate::error::LauncherError;
use crate::event_store::{Event, EventDTO, EventStatus};
use crate::client_provisioner::{spec_instance_path, TargetOs};
use crate::text::{concat2, concat3, decimal_string, join, owned, spec_decimal, spec_join, views};

verus! {

/// Errors of launching.
#[derive(Clone, Debug, PartialEq, Eq)]
pub enum LaunchError {
    NotReady,
    JavaNotFound,
    ProcessFailed(String),
}

impl LaunchError {
    /// The text that describes the error.
    pub open spec fn spec_message(&self) -> Seq<char> {
        match self {
            LaunchError::NotReady => "Not ready"@,
            LaunchError::JavaNotFound => "Java has not been found"@,
            LaunchError::ProcessFailed(e) => "The process has failed: "@ + e@,
        }
    }

    /// Renders the error as text.
    pub fn message(&self) -> (m: String)
        ensures
            m@ == self.spec_message(),
    {
        match self {
            LaunchError::NotReady => owned("Not ready"),
            LaunchError::JavaNotFound => owned("Java has not been found"),
            LaunchError::ProcessFailed(e) => concat2("The process has failed: ", e.as_str()),
        }
    }
}


/// Starts the game as a separate process.
pub struct ProcessLauncher;

impl ProcessLauncher {
    /// A launcher.
    pub fn new() -> (l: ProcessLauncher)
        ensures
            l == ProcessLauncher,
    {
        ProcessLauncher
    }
}

/// The Java executable to run, and whether it must be checked to exist
/// (it must when it was configured or found under `JAVA_HOME`; the bare
/// `java` is left to the system search path).
#[derive(Clone, Debug, PartialEq, Eq)]
pub struct JavaChoice {
    pub path: String,
    pub must_exist: bool,
}

/// Picks Java: the configured path, else `<JAVA_HOME>/bin/java`, else `java`.
pub fn choose_java(java_path: Option<String>, java_home: Option<String>) -> (c: JavaChoice)
    ensures
        java_path matches Some(p) ==> c.path@ == p@,
        java_path is None ==> (java_home matches Some(h) ==> c.path@ == h@ + "/bin/java"@),
        java_path is None && java_home is None ==> c.path@ == "java"@,
        c.must_exist == (java_path is Some || java_home is Some),
{
    let must_exist = java_path.is_some() || java_home.is_some();
    match java_path {
        Some(p) => JavaChoice { path: p, must_exist },
        None => match java_home {
            Some(h) => JavaChoice { path: concat2(h.as_str(), "/bin/java"), must_exist },
            None => JavaChoice { path: owned("java"), must_exist },
        },
    }
}

/// Accepts the chosen Java, or rejects one that must exist and does not.
pub fn check_java(choice: JavaChoice, exists: bool) -> (r: Result<String, LauncherError>)
    ensures
        r is Err <==> (choice.must_exist && !exists),
        r matches Ok(p) ==> p == choice.path,
        r matches Err(e) ==> e == LauncherError::Launcher(LaunchError::JavaNotFound),
{
    if choice.must_exist && !exists {
        Err(LauncherError::Launcher(LaunchError::JavaNotFound))
    } else {
        Ok(choice.path)
    }
}

/// The classpath separator of `os`.
pub open spec fn spec_separator(os: TargetOs) -> Seq<char> {
    if os == TargetOs::Windows { ";"@ } else { ":"@ }
}

/// The classpath separator is `;` exactly when the target is Windows, and
/// `:` on every other system (macOS and Linux alike).
pub proof fn lemma_classpath_separator(os: TargetOs)
    ensures
        spec_separator(os).len() == 1,
        spec_separator(os) == ";"@ <==> os == TargetOs::Windows,
        os != TargetOs::Windows ==> spec_separator(os) == ":"@,
        spec_separator(TargetOs::MacOs) == ":"@,
        spec_separator(TargetOs::Linux) == ":"@,
{
    reveal_strlit(";");
    reveal_strlit(":");
    assert(";"@[0] != ":"@[0]);
}

/// The classpath separator of `os`: `;` on Windows, `:` elsewhere.
pub fn classpath_separator(os: TargetOs) -> (s: &'static str)
    ensures
        s@ == spec_separator(os),
        s@ == ";"@ <==> os == TargetOs::Windows,
        os != TargetOs::Windows ==> s@ == ":"@,
{
    proof {
        lemma_classpath_separator(os);
    }
    match os {
        TargetOs::Windows => ";",
        _ => ":",
    }
}

/// Whether a file name has the extension `jar`.
pub open spec fn jar_file_name(name: Seq<char>) -> bool {
    name.len() > 4 && name.subrange(name.len() - 4, name.len() as int) == ".jar"@
}

/// Whether a file name has the extension `jar` (a bare `.jar` has none).
pub fn is_jar_file_name(name: &str) -> (b: bool)
    ensures
        b == jar_file_name(name@),
{
    let n = name.unicode_len();
    if n <= 4 {
        return false;
    }
    let tail = name.substring_char(n - 4, n);
    proof {
        reveal_strlit(".jar");
    }
    let b = tail.get_char(0) == '.' && tail.get_char(1) == 'j' && tail.get_char(2) == 'a' && tail.get_char(3) == 'r';
    assert(b == (tail@ =~= ".jar"@));
    b
}

/// The classpath: the library jars, then the client jar, separated by `sep`.
pub fn classpath(libraries: &Vec<String>, client_jar: String, sep: &str) -> (c: String)
    ensures
        c@ == spec_join(views(libraries@).push(client_jar@), sep@),
{
    let mut entries: Vec<String> = Vec::new();
    let mut i: usize = 0;
    while i < libraries.len()
        invariant
            0 <= i <= libraries@.len(),
            entries@.len() == i,
            views(entries@) =~= views(libraries@.take(i as int)),
        decreases libraries@.len() - i,
    {
        let ghost before = entries@;
        let item = libraries[i].clone();
        entries.push(item);
        assert(entries@ == before.push(libraries@[i as int]));
        assert(libraries@.take(i + 1) =~= libraries@.take(i as int).push(libraries@[i as int]));
        assert forall|k: int| 0 <= k < i + 1 implies #[trigger] views(entries@)[k] == views(libraries@.take(i + 1))[k] by {
            if k < i {
                assert(views(before)[k] == views(libraries@.take(i as int))[k]);
            }
        }
        assert(views(entries@) =~= views(libraries@.take(i + 1)));
        i = i + 1;
    }
    assert(libraries@.take(i as int) =~= libraries@);
    let ghost before = entries@;
    entries.push(client_jar);
    assert(views(entries@) =~= views(before).push(client_jar@));
    join(&entries, sep)
}

/// The process to start.
#[derive(Clone, Debug, PartialEq, Eq)]
pub struct LaunchCommand {
    pub program: String,
    pub args: Vec<String>,
}

/// The process arguments for `event`, `user` and `config`, with the given
/// classpath: first the JVM options (natives directory, initial and maximum
/// heap in MB, classpath), then the main class, then the game's own
/// arguments.
pub open spec fn spec_launch_args(
    event: Event,
    user: UserProfile,
    config: LauncherConfig,
    classpath: Seq<char>,
) -> Seq<Seq<char>> {
    seq![
        "-Djava.library.path="@ + spec_instance_path(config.install_dir@, event, "natives"@),
        "-Xms"@ + spec_decimal(config.min_memory_mb as nat) + "m"@,
        "-Xmx"@ + spec_decimal(config.max_memory_mb as nat) + "m"@,
        "-cp"@,
        classpath,
        "net.minecraft.client.main.Main"@,
        "--username"@,
        user.username@,
        "--uuid"@,
        user.uuid@,
        "--accessToken"@,
        "0"@,
        "--userType"@,
        "legacy"@,
        "--gameDir"@,
        config.install_dir@ + "/"@ + event.id@,
        "--version"@,
        event.minecraft_version@,
    ]
}

fn memory_flag(prefix: &str, mb: u32) -> (s: String)
    ensures
        s@ == prefix@ + spec_decimal(mb as nat) + "m"@,
{
    let d = decimal_string(mb as u64);
    concat3(prefix, d.as_str(), "m")
}

fn push_owned(v: &mut Vec<String>, s: &str)
    ensures
        views(final(v)@) == views(old(v)@).push(s@),
{
    let ghost before = v@;
    v.push(owned(s));
    assert(views(v@) =~= views(before).push(s@));
}

fn push_string(v: &mut Vec<String>, s: String)
    ensures
        views(final(v)@) == views(old(v)@).push(s@),
{
    let ghost before = v@;
    let ghost sv = s@;
    v.push(s);
    assert(views(v@) =~= views(before).push(sv));
}

/// The command that starts the game: `java` with the JVM options (the
/// natives directory, the initial and maximum heap sizes, the classpath of
/// the event's library jars then its client jar), the main class, and then
/// the game's arguments (the player's identity, the game directory and the
/// version).
pub fn launch_command(
    java: String,
    event: &Event,
    user: &UserProfile,
    config: &LauncherConfig,
    libraries: &Vec<String>,
    os: TargetOs,
) -> (c: LaunchCommand)
    ensures
        c.program == java,
        views(c.args@) == spec_launch_args(
            *event,
            *user,
            *config,
            spec_join(
                views(libraries@).push(spec_instance_path(config.install_dir@, *event, "client.jar"@)),
                spec_separator(os),
            ),
        ),
{
    let install_dir = config.install_dir.as_str();
    let game_dir = concat3(install_dir, "/", event.id.as_str());
    let natives = crate::client_provisioner::natives_dir(install_dir, event);
    let client_jar = crate::client_provisioner::client_jar_path(install_dir, event);
    let cp = classpath(libraries, client_jar, classpath_separator(os));
    let mut args: Vec<String> = Vec::new();
    push_string(&mut args, concat2("-Djava.library.path=", natives.as_str()));
    push_string(&mut args, memory_flag("-Xms", config.min_memory_mb));
    push_string(&mut args, memory_flag("-Xmx", config.max_memory_mb));
    push_owned(&mut args, "-cp");
    push_string(&mut args, cp);
    push_owned(&mut args, "net.minecraft.client.main.Main");
    push_owned(&mut args, "--username");
    push_string(&mut args, user.username.clone());
    push_owned(&mut args, "--uuid");
    push_string(&mut args, user.uuid.clone());
    push_owned(&mut args, "--accessToken");
    push_owned(&mut args, "0");
    push_owned(&mut args, "--userType");
    push_owned(&mut args, "legacy");
    push_owned(&mut args, "--gameDir");
    push_string(&mut args, game_dir);
    push_owned(&mut args, "--version");
    push_string(&mut args, event.minecraft_version.clone());
    LaunchCommand { program: java, args }
}

/// Whether `i` is the first event of `events` with the id `id`.
pub open spec fn first_event(events: Seq<EventDTO>, id: Seq<char>, i: int) -> bool {
    &&& 0 <= i < events.len()
    &&& events[i].event.id@ == id
    &&& forall|j: int| 0 <= j < i ==> (#[trigger] events[j]).event.id@ != id
}

/// Whether some event of `events` has the id `id`.
pub open spec fn has_event(events: Seq<EventDTO>, id: Seq<char>) -> bool {
    exists|i: int| 0 <= i < events.len() && (#[trigger] events[i]).event.id@ == id
}

/// The event to launch: the first with the id `event_id`, provided it is
/// ready; any other case is `NotReady`.
pub fn select_launch_event(events: Vec<EventDTO>, event_id: &String) -> (r: Result<EventDTO, LauncherError>)
    ensures
        r is Ok <==> exists|i: int| first_event(events@, event_id@, i) && events@[i].status == EventStatus::Ready,
        r matches Ok(d) ==> exists|i: int| first_event(events@, event_id@, i) && d == events@[i],
        r matches Err(e) ==> e == LauncherError::Launcher(LaunchError::NotReady),
{
    let ghost orig = events@;
    let total = events.len();
    let mut rest = events;
    let mut k: usize = 0;
    while rest.len() > 0
        invariant
            k + rest@.len() == orig.len(),
            orig.len() == total,
            orig == events@,
            rest@ == orig.skip(k as int),
            forall|j: int| 0 <= j < k ==> (#[trigger] orig[j]).event.id@ != event_id@,
        decreases rest@.len(),
    {
        let d = rest.remove(0);
        proof {
            assert(d == orig[k as int]);
            assert(orig.skip(k + 1) =~= orig.skip(k as int).drop_first());
        }
        if d.event.id == *event_id {
            assert(first_event(orig, event_id@, k as int));
            proof {
                assert forall|i: int| first_event(orig, event_id@, i) implies i == k by {
                    if i < k {
                        assert(orig[i].event.id@ != event_id@);
                    } else if i > k {
                        assert(orig[k as int].event.id@ != event_id@);
                    }
                }
            }
            if d.status == EventStatus::Ready {
                return Ok(d);
            } else {
                return Err(LauncherError::Launcher(LaunchError::NotReady));
            }
        }
        k = k + 1;
    }
    Err(LauncherError::Launcher(LaunchError::NotReady))
}

/// The signed-in player, required to launch.
pub fn require_session(session: Option<UserProfile>) -> (r: Result<UserProfile, LauncherError>)
    ensures
        session matches Some(p) ==> r == Ok::<UserProfile, LauncherError>(p),
        session is None ==> r == Err::<UserProfile, LauncherError>(LauncherError::Launcher(LaunchError::NotReady)),
{
    match session {
        Some(p) => Ok(p),
        None => Err(LauncherError::Launcher(LaunchError::NotReady)),
    }
}

} // verus!
