//! Lifecycle of a self-hosted ntfy server: provision, version bump, and
//! backup/restore of its state tree.
//!
//! Each lifecycle tool is a state machine. The host performs the outside work
//! each step asks for (running a command, asking whether a path is a
//! directory or a file) and feeds back what came of it; the machine decides
//! what happens next, down to the tool's output or its error.

use vstd::prelude::*;
use vstd::string::*;

use crate::clock::{read_clock, ClockReading};
use crate::text::{
    from_utf8_lossy, has_prefix, lemma_trim_end_prefix, lossy_utf8, starts_with, trim,
    trim_end_char, trim_end_matches_char, trim_ws,
};

verus! {

// ---------------------------------------------------------------------------
// Channels and defaults
// ---------------------------------------------------------------------------

/// Release channel for an upgrade. Maps to an image tag on `binwiederhier/ntfy`.
#[derive(Clone, Copy, Debug, PartialEq, Eq, Structural)]
pub enum Channel {
    /// Newest published ntfy release.
    Latest,
    /// Pinned stable line (ntfy publishes `stable` as an alias for latest GA).
    Stable,
}

/// The image tag a channel resolves to.
pub open spec fn channel_tag(c: Channel) -> Seq<char> {
    match c {
        Channel::Latest => "latest"@,
        Channel::Stable => "stable"@,
    }
}

/// The image a channel resolves to.
pub open spec fn channel_image(c: Channel) -> Seq<char> {
    "binwiederhier/ntfy:"@ + channel_tag(c)
}

impl Channel {
    /// The container image tag this channel resolves to.
    pub fn image_tag(self) -> (tag: &'static str)
        ensures
            tag@ == channel_tag(self),
    {
        match self {
            Channel::Latest => "latest",
            Channel::Stable => "stable",
        }
    }

    /// The container image this channel resolves to: `binwiederhier/ntfy:<tag>`.
    pub fn image(self) -> (image: String)
        ensures
            image@ == channel_image(self),
            image@ == "binwiederhier/ntfy:"@ + channel_tag(self),
    {
        let mut image = String::from_str("binwiederhier/ntfy:");
        image.append(self.image_tag());
        image
    }
}

impl Default for Channel {
    fn default() -> (c: Channel)
        ensures
            c == Channel::Latest,
    {
        Channel::Latest
    }
}

/// Law: distinct channels resolve to distinct image tags.
pub proof fn lemma_channel_tags_distinct(a: Channel, b: Channel)
    ensures
        channel_tag(a) == channel_tag(b) <==> a == b,
{
    reveal_strlit("latest");
    reveal_strlit("stable");
    if a != b {
        assert(channel_tag(a)[0] != channel_tag(b)[0]);
    }
}

/// Compose file brought up when none is named.
pub fn default_compose() -> (f: String)
    ensures
        f@ == "compose.yml"@,
{
    String::from_str("compose.yml")
}

/// State tree archived and restored when none is named.
pub fn default_state_path() -> (p: String)
    ensures
        p@ == "/opt/ntfy"@,
{
    String::from_str("/opt/ntfy")
}

// ---------------------------------------------------------------------------
// Tool arguments and outputs
// ---------------------------------------------------------------------------

/// Arguments of `ntfy.install`.
#[derive(Debug)]
pub struct NtfyInstallArgs {
    /// Compose file to bring up.
    pub compose_file: String,
}

/// Output of `ntfy.install`.
#[derive(Debug)]
pub struct NtfyInstallOutput {
    /// True when the provisioning command completed successfully.
    pub provisioned: bool,
    /// Standard output of the provisioning step.
    pub log: String,
}

/// Arguments of `ntfy.upgrade`.
#[derive(Debug)]
pub struct NtfyUpdateArgs {
    /// Release channel to move to.
    pub channel: Channel,
    /// Compose file to recreate the container from.
    pub compose_file: String,
}

/// Output of `ntfy.upgrade`.
#[derive(Debug)]
pub struct NtfyUpdateOutput {
    /// True when the update command completed.
    pub updated: bool,
    /// Image tag the channel resolved to.
    pub image_tag: String,
    /// Standard output of the update step.
    pub log: String,
}

/// Arguments of `ntfy.backup`.
#[derive(Debug)]
pub struct NtfyBackupArgs {
    /// Host path of the ntfy config + db tree to archive.
    pub state_path: String,
    /// Directory to write the `.tar.gz` into. Created if missing.
    pub destination: String,
}

/// Output of `ntfy.backup`.
#[derive(Debug)]
pub struct NtfyBackupOutput {
    /// Absolute path of the archive written.
    pub archive: String,
}

/// Arguments of `ntfy.restore`.
#[derive(Debug)]
pub struct NtfyRestoreArgs {
    /// The backup tarball to restore from.
    pub from: String,
    /// Host path of the state tree to restore into. Created if missing.
    pub state_path: String,
}

/// Output of `ntfy.restore`.
#[derive(Debug)]
pub struct NtfyRestoreOutput {
    /// True when extraction completed.
    pub restored: bool,
    /// Where the state was restored to.
    pub state_path: String,
}

/// What a lifecycle tool returns.
#[derive(Debug)]
pub enum ToolOutput {
    Install(NtfyInstallOutput),
    Update(NtfyUpdateOutput),
    Backup(NtfyBackupOutput),
    Restore(NtfyRestoreOutput),
}

/// A tool's output, with its text as character sequences.
pub enum OutputView {
    Install { provisioned: bool, log: Seq<char> },
    Update { updated: bool, image_tag: Seq<char>, log: Seq<char> },
    Backup { archive: Seq<char> },
    Restore { restored: bool, state_path: Seq<char> },
}

impl View for ToolOutput {
    type V = OutputView;

    open spec fn view(&self) -> OutputView {
        match self {
            ToolOutput::Install(o) => OutputView::Install { provisioned: o.provisioned, log: o.log@ },
            ToolOutput::Update(o) => OutputView::Update {
                updated: o.updated,
                image_tag: o.image_tag@,
                log: o.log@,
            },
            ToolOutput::Backup(o) => OutputView::Backup { archive: o.archive@ },
            ToolOutput::Restore(o) => OutputView::Restore {
                restored: o.restored,
                state_path: o.state_path@,
            },
        }
    }
}

// ---------------------------------------------------------------------------
// Commands and their outcomes
// ---------------------------------------------------------------------------

/// A command line: the program, then its arguments.
#[derive(Debug)]
pub struct Command {
    /// The program followed by its arguments.
    pub argv: Vec<String>,
}

impl View for Command {
    type V = Seq<Seq<char>>;

    open spec fn view(&self) -> Seq<Seq<char>> {
        self.argv.deep_view()
    }
}

/// `docker compose -f <file> up -d`.
pub open spec fn compose_up(file: Seq<char>) -> Seq<Seq<char>> {
    seq!["docker"@, "compose"@, "-f"@, file, "up"@, "-d"@]
}

/// `docker pull <image>`.
pub open spec fn docker_pull(image: Seq<char>) -> Seq<Seq<char>> {
    seq!["docker"@, "pull"@, image]
}

/// `mkdir -p <dir>`.
pub open spec fn mkdir_p(dir: Seq<char>) -> Seq<Seq<char>> {
    seq!["mkdir"@, "-p"@, dir]
}

/// `tar -czf <archive> -C <state> .`: archive the contents of `state`.
pub open spec fn tar_create(archive: Seq<char>, state: Seq<char>) -> Seq<Seq<char>> {
    seq!["tar"@, "-czf"@, archive, "-C"@, state, "."@]
}

/// `tar -xzf <archive> -C <state>`: extract `archive` into `state`.
pub open spec fn tar_extract(archive: Seq<char>, state: Seq<char>) -> Seq<Seq<char>> {
    seq!["tar"@, "-xzf"@, archive, "-C"@, state]
}

/// The archive written into `destination` at time `stamp`:
/// `<destination without trailing '/'>/ntfy-state-<stamp>.tar.gz`.
pub open spec fn archive_path_spec(destination: Seq<char>, stamp: Seq<char>) -> Seq<char> {
    trim_end_char(destination, '/') + "/ntfy-state-"@ + stamp + ".tar.gz"@
}

fn owned(s: &str) -> (r: String)
    ensures
        r@ == s@,
{
    String::from_str(s)
}

/// `docker compose -f <file> up -d`.
pub fn compose_up_command(file: &str) -> (c: Command)
    ensures
        c@ == compose_up(file@),
        c@ == seq!["docker"@, "compose"@, "-f"@, file@, "up"@, "-d"@],
{
    let mut argv: Vec<String> = Vec::new();
    argv.push(owned("docker"));
    argv.push(owned("compose"));
    argv.push(owned("-f"));
    argv.push(owned(file));
    argv.push(owned("up"));
    argv.push(owned("-d"));
    let c = Command { argv };
    assert(c@ =~= compose_up(file@));
    c
}

/// `docker pull <image>`.
pub fn docker_pull_command(image: &str) -> (c: Command)
    ensures
        c@ == docker_pull(image@),
        c@ == seq!["docker"@, "pull"@, image@],
{
    let mut argv: Vec<String> = Vec::new();
    argv.push(owned("docker"));
    argv.push(owned("pull"));
    argv.push(owned(image));
    let c = Command { argv };
    assert(c@ =~= docker_pull(image@));
    c
}

/// `mkdir -p <dir>`.
pub fn mkdir_p_command(dir: &str) -> (c: Command)
    ensures
        c@ == mkdir_p(dir@),
{
    let mut argv: Vec<String> = Vec::new();
    argv.push(owned("mkdir"));
    argv.push(owned("-p"));
    argv.push(owned(dir));
    let c = Command { argv };
    assert(c@ =~= mkdir_p(dir@));
    c
}

/// `tar -czf <archive> -C <state> .`.
pub fn tar_create_command(archive: &str, state: &str) -> (c: Command)
    ensures
        c@ == tar_create(archive@, state@),
{
    let mut argv: Vec<String> = Vec::new();
    argv.push(owned("tar"));
    argv.push(owned("-czf"));
    argv.push(owned(archive));
    argv.push(owned("-C"));
    argv.push(owned(state));
    argv.push(owned("."));
    let c = Command { argv };
    assert(c@ =~= tar_create(archive@, state@));
    c
}

/// `tar -xzf <archive> -C <state>`.
pub fn tar_extract_command(archive: &str, state: &str) -> (c: Command)
    ensures
        c@ == tar_extract(archive@, state@),
{
    let mut argv: Vec<String> = Vec::new();
    argv.push(owned("tar"));
    argv.push(owned("-xzf"));
    argv.push(owned(archive));
    argv.push(owned("-C"));
    argv.push(owned(state));
    let c = Command { argv };
    assert(c@ =~= tar_extract(archive@, state@));
    c
}

/// The destination names a place relative to the working directory: it is
/// neither empty nor absolute.
pub open spec fn is_relative_destination(destination: Seq<char>) -> bool {
    destination.len() > 0 && !has_prefix(destination, "/"@)
}

/// The working directory is given and absolute.
pub open spec fn is_absolute_dir(working_dir: Option<Seq<char>>) -> bool {
    working_dir matches Some(w) && has_prefix(w, "/"@)
}

/// The view of an optional string slice.
pub open spec fn opt_str_view(s: Option<&str>) -> Option<Seq<char>> {
    match s {
        Some(t) => Some(t@),
        None => None,
    }
}

/// A backup destination resolved against the working directory: a relative
/// destination is taken inside `working_dir` (when given); an absolute or
/// empty one stays as it is.
pub open spec fn resolve_destination(
    destination: Seq<char>,
    working_dir: Option<Seq<char>>,
) -> Seq<char> {
    if is_relative_destination(destination) {
        match working_dir {
            Some(w) => trim_end_char(w, '/') + "/"@ + destination,
            None => destination,
        }
    } else {
        destination
    }
}

/// A destination resolved against an absolute working directory, when it
/// needs one, is absolute or empty.
pub proof fn lemma_resolved_destination_absolute(
    destination: Seq<char>,
    working_dir: Option<Seq<char>>,
)
    requires
        is_relative_destination(destination) ==> is_absolute_dir(working_dir),
    ensures
        ({
            let p = resolve_destination(destination, working_dir);
            p.len() == 0 || has_prefix(p, "/"@)
        }),
{
    reveal_strlit("/");
    if is_relative_destination(destination) {
        let wd = working_dir->Some_0;
        let w = trim_end_char(wd, '/');
        let p = w + "/"@ + destination;
        lemma_trim_end_prefix(wd, '/');
        assert(wd.subrange(0, 1)[0] == wd[0]);
        if w.len() > 0 {
            assert(w[0] == wd[0]);
            assert(p[0] == w[0]);
        } else {
            assert(p[0] == '/');
        }
        assert(p.subrange(0, 1) =~= "/"@);
    }
}

/// An archive named in an absolute (or empty) destination is absolute.
pub proof fn lemma_archive_absolute(destination: Seq<char>, stamp: Seq<char>)
    requires
        destination.len() == 0 || has_prefix(destination, "/"@),
    ensures
        has_prefix(archive_path_spec(destination, stamp), "/"@),
{
    reveal_strlit("/ntfy-state-");
    reveal_strlit("/");
    let d = trim_end_char(destination, '/');
    let p = archive_path_spec(destination, stamp);
    lemma_trim_end_prefix(destination, '/');
    if d.len() > 0 {
        assert(destination.subrange(0, 1)[0] == destination[0]);
        assert(p[0] == d[0]);
        assert(d[0] == destination[0]);
    } else {
        assert(p[0] == '/');
    }
    assert(p.subrange(0, 1) =~= "/"@);
}

/// Law: the archive a backup reports is an absolute path, whatever the
/// destination it was given, when a relative destination is resolved against
/// an absolute working directory.
pub proof fn lemma_backup_archive_absolute(
    destination: Seq<char>,
    working_dir: Option<Seq<char>>,
    stamp: Seq<char>,
)
    requires
        is_relative_destination(destination) ==> is_absolute_dir(working_dir),
    ensures
        has_prefix(archive_path_spec(resolve_destination(destination, working_dir), stamp), "/"@),
{
    lemma_resolved_destination_absolute(destination, working_dir);
    lemma_archive_absolute(resolve_destination(destination, working_dir), stamp);
}

/// Whether a backup destination is relative, and so needs the working
/// directory to be resolved.
pub fn needs_working_dir(destination: &str) -> (b: bool)
    ensures
        b == is_relative_destination(destination@),
{
    destination.unicode_len() > 0 && !starts_with(destination, "/")
}

/// Resolve a backup destination against the working directory. With an
/// absolute working directory for a relative destination, the result is
/// absolute or empty.
pub fn resolve_destination_path(destination: &str, working_dir: Option<&str>) -> (p: String)
    ensures
        p@ == resolve_destination(destination@, opt_str_view(working_dir)),
        is_relative_destination(destination@) ==> is_absolute_dir(opt_str_view(working_dir)) ==> (
        p@.len() == 0 || has_prefix(p@, "/"@)),
{
    if !needs_working_dir(destination) {
        return String::from_str(destination);
    }
    match working_dir {
        None => String::from_str(destination),
        Some(w) => {
            let mut p = String::from_str(trim_end_matches_char(w, '/'));
            p.append("/");
            p.append(destination);
            proof {
                if is_absolute_dir(opt_str_view(working_dir)) {
                    lemma_resolved_destination_absolute(destination@, opt_str_view(working_dir));
                }
            }
            p
        },
    }
}

/// The archive path for a backup into `destination` taken at `stamp`. It lies
/// directly in `destination` (trailing slashes of it dropped), and it is
/// absolute when `destination` is absolute or empty.
pub fn archive_path(destination: &str, stamp: &str) -> (p: String)
    ensures
        p@ == archive_path_spec(destination@, stamp@),
        has_prefix(p@, trim_end_char(destination@, '/') + "/"@),
        destination@.len() == 0 || has_prefix(destination@, "/"@) ==> has_prefix(p@, "/"@),
{
    let mut p = String::from_str(trim_end_matches_char(destination, '/'));
    p.append("/ntfy-state-");
    p.append(stamp);
    p.append(".tar.gz");
    proof {
        reveal_strlit("/ntfy-state-");
        reveal_strlit("/");
        let d = trim_end_char(destination@, '/');
        assert(p@.subrange(0, d.len() as int + 1) =~= d + "/"@);
        if destination@.len() == 0 || has_prefix(destination@, "/"@) {
            lemma_archive_absolute(destination@, stamp@);
        }
    }
    p
}

/// What came of running a command.
#[derive(Debug)]
pub enum CommandOutcome {
    /// The command could not be started.
    SpawnFailed { detail: String },
    /// The command ran to its end.
    Exited { success: bool, status: String, stdout: Vec<u8>, stderr: Vec<u8> },
}

/// A command's outcome, as sequences.
pub enum OutcomeView {
    SpawnFailed { detail: Seq<char> },
    Exited { success: bool, status: Seq<char>, stdout: Seq<u8>, stderr: Seq<u8> },
}

impl View for CommandOutcome {
    type V = OutcomeView;

    open spec fn view(&self) -> OutcomeView {
        match self {
            CommandOutcome::SpawnFailed { detail } => OutcomeView::SpawnFailed { detail: detail@ },
            CommandOutcome::Exited { success, status, stdout, stderr } => OutcomeView::Exited {
                success: *success,
                status: status@,
                stdout: stdout@,
                stderr: stderr@,
            },
        }
    }
}

/// Why a lifecycle tool failed.
#[derive(Debug)]
pub enum LifecycleError {
    /// A command could not be started.
    SpawnFailed { detail: String },
    /// A command exited unsuccessfully; `stderr` is its trimmed error output.
    CommandFailed { status: String, stderr: String },
    /// The state path to back up is not a directory.
    NotADirectory { path: String },
    /// The tarball to restore from does not exist.
    TarballNotFound { path: String },
    /// The system clock reads a time before the Unix epoch.
    ClockBeforeEpoch,
    /// The system clock reads a time an archive name cannot hold.
    ClockOutOfRange,
}

/// A lifecycle error, as sequences.
pub enum ErrorView {
    SpawnFailed { detail: Seq<char> },
    CommandFailed { status: Seq<char>, stderr: Seq<char> },
    NotADirectory { path: Seq<char> },
    TarballNotFound { path: Seq<char> },
    ClockBeforeEpoch,
    ClockOutOfRange,
}

impl View for LifecycleError {
    type V = ErrorView;

    open spec fn view(&self) -> ErrorView {
        match self {
            LifecycleError::SpawnFailed { detail } => ErrorView::SpawnFailed { detail: detail@ },
            LifecycleError::CommandFailed { status, stderr } => ErrorView::CommandFailed {
                status: status@,
                stderr: stderr@,
            },
            LifecycleError::NotADirectory { path } => ErrorView::NotADirectory { path: path@ },
            LifecycleError::TarballNotFound { path } => ErrorView::TarballNotFound { path: path@ },
            LifecycleError::ClockBeforeEpoch => ErrorView::ClockBeforeEpoch,
            LifecycleError::ClockOutOfRange => ErrorView::ClockOutOfRange,
        }
    }
}

/// The text of an error.
pub open spec fn error_message(e: ErrorView) -> Seq<char> {
    match e {
        ErrorView::SpawnFailed { .. } => "failed to spawn command"@,
        ErrorView::CommandFailed { status, stderr } => "command failed ("@ + status + "): "@
            + stderr,
        ErrorView::NotADirectory { path } => "state path '"@ + path + "' is not a directory"@,
        ErrorView::TarballNotFound { path } => "backup tarball '"@ + path + "' not found"@,
        ErrorView::ClockBeforeEpoch => "system clock reads a time before the Unix epoch"@,
        ErrorView::ClockOutOfRange => "system clock reads a time out of the range of archive names"@,
    }
}

/// The text of an error followed by its causes.
pub open spec fn error_chain(e: ErrorView) -> Seq<char> {
    match e {
        ErrorView::SpawnFailed { detail } => "failed to spawn command: "@ + detail,
        _ => error_message(e),
    }
}

impl LifecycleError {
    /// The text of the error.
    pub fn message(&self) -> (m: String)
        ensures
            m@ == error_message(self@),
    {
        match self {
            LifecycleError::SpawnFailed { .. } => String::from_str("failed to spawn command"),
            LifecycleError::CommandFailed { status, stderr } => {
                let mut m = String::from_str("command failed (");
                m.append(status.as_str());
                m.append("): ");
                m.append(stderr.as_str());
                m
            },
            LifecycleError::NotADirectory { path } => {
                let mut m = String::from_str("state path '");
                m.append(path.as_str());
                m.append("' is not a directory");
                m
            },
            LifecycleError::TarballNotFound { path } => {
                let mut m = String::from_str("backup tarball '");
                m.append(path.as_str());
                m.append("' not found");
                m
            },
            LifecycleError::ClockBeforeEpoch => String::from_str(
                "system clock reads a time before the Unix epoch",
            ),
            LifecycleError::ClockOutOfRange => String::from_str(
                "system clock reads a time out of the range of archive names",
            ),
        }
    }

    /// The text of the error followed by its causes.
    pub fn message_chain(&self) -> (m: String)
        ensures
            m@ == error_chain(self@),
    {
        match self {
            LifecycleError::SpawnFailed { detail } => {
                let mut m = String::from_str("failed to spawn command: ");
                m.append(detail.as_str());
                m
            },
            _ => self.message(),
        }
    }
}

/// What a command's outcome comes to: its standard output when it succeeded,
/// else the error that carries the runtime's own message.
pub open spec fn run_outcome(o: OutcomeView) -> Result<Seq<u8>, ErrorView> {
    match o {
        OutcomeView::SpawnFailed { detail } => Err(ErrorView::SpawnFailed { detail }),
        OutcomeView::Exited { success, status, stdout, stderr } => if success {
            Ok(stdout)
        } else {
            Err(ErrorView::CommandFailed { status, stderr: trim_ws(lossy_utf8(stderr)) })
        },
    }
}

/// What a command that exited successfully left behind.
#[derive(Debug)]
pub struct CommandOutput {
    /// Its exit status, as the runtime describes it.
    pub status: String,
    /// Its standard output.
    pub stdout: Vec<u8>,
    /// Its error output.
    pub stderr: Vec<u8>,
}

/// Map a command's outcome to what it left behind, unaltered, when it
/// succeeded; else to an error that carries its status and trimmed error
/// output, or the reason it could not be started.
pub fn run(outcome: CommandOutcome) -> (r: Result<CommandOutput, LifecycleError>)
    ensures
        match (r, run_outcome(outcome@)) {
            (Ok(out), Ok(o)) => out.stdout@ == o,
            (Err(e), Err(ev)) => e@ == ev,
            _ => false,
        },
        r matches Ok(out) ==> (outcome@ matches OutcomeView::Exited {
            success,
            status,
            stdout,
            stderr,
        } && success && out.status@ == status && out.stdout@ == stdout && out.stderr@ == stderr),
{
    match outcome {
        CommandOutcome::SpawnFailed { detail } => Err(LifecycleError::SpawnFailed { detail }),
        CommandOutcome::Exited { success, status, stdout, stderr } => {
            if success {
                Ok(CommandOutput { status, stdout, stderr })
            } else {
                let text = from_utf8_lossy(stderr.as_slice());
                let trimmed = String::from_str(trim(text.as_str()));
                Err(LifecycleError::CommandFailed { status, stderr: trimmed })
            }
        },
    }
}

// ---------------------------------------------------------------------------
// The lifecycle state machine
// ---------------------------------------------------------------------------

/// Outside work a lifecycle step asks the host to do.
#[derive(Debug)]
pub enum Action {
    /// Run this command to its end and report its outcome.
    Run(Command),
    /// Report whether this path is a directory.
    CheckDir { path: String },
    /// Report whether this path is a file.
    CheckFile { path: String },
}

/// An action, as sequences.
pub enum ActionView {
    Run(Seq<Seq<char>>),
    CheckDir(Seq<char>),
    CheckFile(Seq<char>),
}

impl View for Action {
    type V = ActionView;

    open spec fn view(&self) -> ActionView {
        match self {
            Action::Run(c) => ActionView::Run(c@),
            Action::CheckDir { path } => ActionView::CheckDir(path@),
            Action::CheckFile { path } => ActionView::CheckFile(path@),
        }
    }
}

/// The view of an optional action.
pub open spec fn action_view(a: Option<Action>) -> Option<ActionView> {
    match a {
        Some(a) => Some(a@),
        None => None,
    }
}

/// What the host reports back after doing an action.
#[derive(Debug)]
pub enum Event {
    /// The command ran (or could not be started).
    Ran(CommandOutcome),
    /// The answer to a path check.
    Checked(bool),
}

/// An event, as sequences.
pub enum EventView {
    Ran(OutcomeView),
    Checked(bool),
}

impl View for Event {
    type V = EventView;

    open spec fn view(&self) -> EventView {
        match self {
            Event::Ran(o) => EventView::Ran(o@),
            Event::Checked(b) => EventView::Checked(*b),
        }
    }
}

/// Where a lifecycle tool stands.
#[derive(Debug)]
pub enum Stage {
    /// `ntfy.install`: bringing the Compose stack up.
    Installing { compose_file: String },
    /// `ntfy.upgrade`: pulling the channel's image.
    Pulling { channel: Channel, compose_file: String },
    /// `ntfy.upgrade`: recreating the container from Compose.
    Recreating { channel: Channel, compose_file: String },
    /// `ntfy.backup`: asking whether the state path is a directory.
    CheckingState { state_path: String, destination: String },
    /// `ntfy.backup`: creating the destination directory.
    MakingDestination { state_path: String, destination: String },
    /// `ntfy.backup`: writing the archive.
    Archiving { state_path: String, archive: String },
    /// `ntfy.restore`: asking whether the tarball exists.
    CheckingTarball { from: String, state_path: String },
    /// `ntfy.restore`: creating the state directory.
    MakingStateDir { from: String, state_path: String },
    /// `ntfy.restore`: extracting the tarball.
    Extracting { from: String, state_path: String },
    /// The tool finished with this output.
    Finished(ToolOutput),
    /// The tool failed with this error.
    Failed(LifecycleError),
}

/// A stage, as sequences.
pub enum StageView {
    Installing { compose_file: Seq<char> },
    Pulling { channel: Channel, compose_file: Seq<char> },
    Recreating { channel: Channel, compose_file: Seq<char> },
    CheckingState { state_path: Seq<char>, destination: Seq<char> },
    MakingDestination { state_path: Seq<char>, destination: Seq<char> },
    Archiving { state_path: Seq<char>, archive: Seq<char> },
    CheckingTarball { from: Seq<char>, state_path: Seq<char> },
    MakingStateDir { from: Seq<char>, state_path: Seq<char> },
    Extracting { from: Seq<char>, state_path: Seq<char> },
    Finished(OutputView),
    Failed(ErrorView),
}

impl View for Stage {
    type V = StageView;

    open spec fn view(&self) -> StageView {
        match self {
            Stage::Installing { compose_file } => StageView::Installing {
                compose_file: compose_file@,
            },
            Stage::Pulling { channel, compose_file } => StageView::Pulling {
                channel: *channel,
                compose_file: compose_file@,
            },
            Stage::Recreating { channel, compose_file } => StageView::Recreating {
                channel: *channel,
                compose_file: compose_file@,
            },
            Stage::CheckingState { state_path, destination } => StageView::CheckingState {
                state_path: state_path@,
                destination: destination@,
            },
            Stage::MakingDestination { state_path, destination } => StageView::MakingDestination {
                state_path: state_path@,
                destination: destination@,
            },
            Stage::Archiving { state_path, archive } => StageView::Archiving {
                state_path: state_path@,
                archive: archive@,
            },
            Stage::CheckingTarball { from, state_path } => StageView::CheckingTarball {
                from: from@,
                state_path: state_path@,
            },
            Stage::MakingStateDir { from, state_path } => StageView::MakingStateDir {
                from: from@,
                state_path: state_path@,
            },
            Stage::Extracting { from, state_path } => StageView::Extracting {
                from: from@,
                state_path: state_path@,
            },
            Stage::Finished(o) => StageView::Finished(o@),
            Stage::Failed(e) => StageView::Failed(e@),
        }
    }
}

/// The outside work a stage waits on; none once the tool has ended.
pub open spec fn pending(s: StageView) -> Option<ActionView> {
    match s {
        StageView::Installing { compose_file } => Some(ActionView::Run(compose_up(compose_file))),
        StageView::Pulling { channel, .. } => Some(ActionView::Run(docker_pull(channel_image(channel)))),
        StageView::Recreating { compose_file, .. } => Some(ActionView::Run(compose_up(compose_file))),
        StageView::CheckingState { state_path, .. } => Some(ActionView::CheckDir(state_path)),
        StageView::MakingDestination { destination, .. } => Some(ActionView::Run(mkdir_p(destination))),
        StageView::Archiving { state_path, archive } => Some(ActionView::Run(tar_create(archive, state_path))),
        StageView::CheckingTarball { from, .. } => Some(ActionView::CheckFile(from)),
        StageView::MakingStateDir { state_path, .. } => Some(ActionView::Run(mkdir_p(state_path))),
        StageView::Extracting { from, state_path } => Some(ActionView::Run(tar_extract(from, state_path))),
        StageView::Finished(_) => None,
        StageView::Failed(_) => None,
    }
}

/// A stage together with the outside work it waits on.
pub open spec fn waiting(s: StageView) -> (StageView, Option<ActionView>) {
    (s, pending(s))
}

/// After a command of stage `s` produced `o`: fail with its error, or go on as `ok` says.
pub open spec fn after_run(
    s: StageView,
    e: EventView,
    ok: spec_fn(Seq<u8>) -> StageView,
) -> (StageView, Option<ActionView>) {
    match e {
        EventView::Ran(o) => match run_outcome(o) {
            Err(err) => (StageView::Failed(err), None),
            Ok(out) => waiting(ok(out)),
        },
        EventView::Checked(_) => waiting(s),
    }
}

/// After a path check of stage `s`: go on to `yes` or fail with `no`.
pub open spec fn after_check(
    s: StageView,
    e: EventView,
    yes: StageView,
    no: ErrorView,
) -> (StageView, Option<ActionView>) {
    match e {
        EventView::Checked(found) => if found {
            waiting(yes)
        } else {
            (StageView::Failed(no), None)
        },
        EventView::Ran(_) => waiting(s),
    }
}

/// The next stage of a lifecycle tool, and the outside work it waits on,
/// after event `e` in stage `s`; `clock` is what reading the clock for an
/// archive's name gave: its stamp, or why there is none. An event that does
/// not answer what the stage waits on leaves the stage as it is.
pub open spec fn next_stage(s: StageView, e: EventView, clock: Result<Seq<char>, ErrorView>) -> (
    StageView,
    Option<ActionView>,
) {
    match s {
        StageView::Installing { compose_file } => after_run(
            s,
            e,
            |out: Seq<u8>| StageView::Finished(OutputView::Install { provisioned: true, log: lossy_utf8(out) }),
        ),
        StageView::Pulling { channel, compose_file } => after_run(
            s,
            e,
            |out: Seq<u8>| StageView::Recreating { channel, compose_file },
        ),
        StageView::Recreating { channel, compose_file } => after_run(
            s,
            e,
            |out: Seq<u8>|
                StageView::Finished(
                    OutputView::Update {
                        updated: true,
                        image_tag: channel_tag(channel),
                        log: lossy_utf8(out),
                    },
                ),
        ),
        StageView::CheckingState { state_path, destination } => after_check(
            s,
            e,
            StageView::MakingDestination { state_path, destination },
            ErrorView::NotADirectory { path: state_path },
        ),
        StageView::MakingDestination { state_path, destination } => after_run(
            s,
            e,
            |out: Seq<u8>|
                match clock {
                    Ok(stamp) => StageView::Archiving {
                        state_path,
                        archive: archive_path_spec(destination, stamp),
                    },
                    Err(err) => StageView::Failed(err),
                },
        ),
        StageView::Archiving { state_path, archive } => after_run(
            s,
            e,
            |out: Seq<u8>| StageView::Finished(OutputView::Backup { archive }),
        ),
        StageView::CheckingTarball { from, state_path } => after_check(
            s,
            e,
            StageView::MakingStateDir { from, state_path },
            ErrorView::TarballNotFound { path: from },
        ),
        StageView::MakingStateDir { from, state_path } => after_run(
            s,
            e,
            |out: Seq<u8>| StageView::Extracting { from, state_path },
        ),
        StageView::Extracting { from, state_path } => after_run(
            s,
            e,
            |out: Seq<u8>| StageView::Finished(OutputView::Restore { restored: true, state_path }),
        ),
        StageView::Finished(_) => (s, None),
        StageView::Failed(_) => (s, None),
    }
}

/// Whether the step from `s` on `e` names an archive (and so reads the clock).
pub open spec fn reads_clock(s: StageView, e: EventView) -> bool {
    &&& s is MakingDestination
    &&& e matches EventView::Ran(o)
    &&& run_outcome(o) is Ok
}

/// The character is an ASCII decimal digit.
pub open spec fn is_ascii_digit(c: char) -> bool {
    '0' <= c <= '9'
}

/// The shape of a `%Y%m%d-%H%M%S` stamp: the year (at least four digits,
/// signed when outside 0..=9999), then month, day, `-`, hour, minute and
/// second, two digits each. It holds no `/`.
pub open spec fn stamp_shape(s: Seq<char>) -> bool {
    &&& s.len() >= 15
    &&& s[s.len() - 7] == '-'
    &&& forall|i: int|
        0 <= i < s.len() && i != s.len() - 7 ==> is_ascii_digit(#[trigger] s[i]) || (i == 0 && (
        s[i] == '+' || s[i] == '-'))
}

/// The pattern archive stamps are formatted with: `YYYYMMDD-HHMMSS`.
pub const STAMP_PATTERN: &'static str = "%Y%m%d-%H%M%S";

/// The last second (UTC) of the year 9999, counted from the Unix epoch.
pub open spec fn last_second_of_9999() -> int {
    253402300799
}

/// Whole seconds from the epoch up to the end of the year 9999.
pub open spec fn in_four_digit_years(secs: int) -> bool {
    0 <= secs <= last_second_of_9999()
}

/// The `YYYYMMDD-HHMMSS` shape: fifteen characters, `-` between the date and
/// the time, digits everywhere else.
pub open spec fn short_stamp_shape(s: Seq<char>) -> bool {
    &&& s.len() == 15
    &&& s[8] == '-'
    &&& forall|i: int| 0 <= i < 15 && i != 8 ==> is_ascii_digit(#[trigger] s[i])
}

/// What chrono's `DateTime::<Utc>::from_timestamp(secs, 0)`, formatted with
/// `pattern`, gives: `None` for seconds out of chrono's range.
pub uninterp spec fn utc_stamp(secs: i64, pattern: Seq<char>) -> Option<Seq<char>>;

/// Calls chrono's `DateTime::from_timestamp(secs, 0)` and, when it gives a
/// time, formats it with `pattern`, which must be the archive pattern
/// `%Y%m%d-%H%M%S` (an unknown specifier would make `to_string` panic).
/// Claimed: the result is the name `utc_stamp(secs, pattern)`; a stamp has the
/// shape chrono's formatting code gives these fields (`write_year`,
/// `write_two`): a zero-padded, four-or-more-digit year, signed outside
/// 0..=9999, then two zero-padded digits each for month, day, hour, minute and
/// second, with `-` before the time. For seconds from the epoch up to the end
/// of the year 9999 chrono gives a time, and its year takes chrono's
/// four-digit path, so the stamp is `YYYYMMDD-HHMMSS`. Which other seconds are
/// in range, and the calendar arithmetic behind the digits, are left to the
/// name.
#[verifier::external_body]
fn format_utc_stamp(secs: i64, pattern: &str) -> (r: Option<String>)
    requires
        pattern@ == STAMP_PATTERN@,
    ensures
        match r {
            Some(s) => utc_stamp(secs, pattern@) == Some(s@) && stamp_shape(s@),
            None => utc_stamp(secs, pattern@) is None,
        },
        in_four_digit_years(secs as int) ==> r is Some,
        r matches Some(s) ==> (in_four_digit_years(secs as int) ==> short_stamp_shape(s@)),
{
    match chrono::DateTime::from_timestamp(secs, 0) {
        Some(t) => Some(t.format(pattern).to_string()),
        None => None,
    }
}

/// The archive stamp for a clock reading of `secs` whole seconds since the
/// epoch (`None`: the clock reads before the epoch).
pub open spec fn stamp_for_spec(secs: Option<u64>) -> Result<Seq<char>, ErrorView> {
    match secs {
        None => Err(ErrorView::ClockBeforeEpoch),
        Some(s) => if s > i64::MAX {
            Err(ErrorView::ClockOutOfRange)
        } else {
            match utc_stamp(s as i64, STAMP_PATTERN@) {
                Some(t) => Ok(t),
                None => Err(ErrorView::ClockOutOfRange),
            }
        },
    }
}

/// The view of a stamp or of the reason there is none.
pub open spec fn stamp_result_view(r: Result<String, LifecycleError>) -> Result<
    Seq<char>,
    ErrorView,
> {
    match r {
        Ok(s) => Ok(s@),
        Err(e) => Err(e@),
    }
}

/// The archive stamp for a clock reading of `secs` whole seconds since the
/// epoch: `YYYYMMDD-HHMMSS` up to the end of the year 9999.
pub fn stamp_for(secs: Option<u64>) -> (r: Result<String, LifecycleError>)
    ensures
        stamp_result_view(r) == stamp_for_spec(secs),
        r matches Ok(s) ==> stamp_shape(s@),
        secs matches Some(t) && in_four_digit_years(t as int) ==> (r matches Ok(s)
            && short_stamp_shape(s@)),
{
    match secs {
        None => Err(LifecycleError::ClockBeforeEpoch),
        Some(t) => {
            if t > i64::MAX as u64 {
                return Err(LifecycleError::ClockOutOfRange);
            }
            match format_utc_stamp(t as i64, STAMP_PATTERN) {
                Some(s) => Ok(s),
                None => Err(LifecycleError::ClockOutOfRange),
            }
        },
    }
}

/// What reading the clock for an archive name can give: the stamp for some
/// clock reading, or the reason there is none.
pub open spec fn possible_clock(c: Result<Seq<char>, ErrorView>) -> bool {
    &&& exists|secs: Option<u64>| #[trigger] stamp_for_spec(secs) == c
    &&& c matches Ok(s) ==> stamp_shape(s)
}

/// UTC timestamp `YYYYMMDD-HHMMSS` for archive names, by the system clock:
/// the stamp for the reading the clock gave.
pub fn now_stamp() -> (r: Result<String, LifecycleError>)
    ensures
        possible_clock(stamp_result_view(r)),
        exists|c: ClockReading| #[trigger] stamp_for_spec(c@) == stamp_result_view(r),
{
    let c = read_clock();
    let r = stamp_for(c.seconds());
    assert(stamp_for_spec(c@) == stamp_result_view(r));
    r
}

/// Law: the stamp for a clock reading is chrono's UTC formatting of the
/// reading's seconds with `%Y%m%d-%H%M%S`; a reading before the epoch, or
/// past what that formatting covers, gives the matching clock error.
pub proof fn lemma_stamp_is_utc_format_of_reading(secs: u64)
    ensures
        stamp_for_spec(None) == Err::<Seq<char>, ErrorView>(ErrorView::ClockBeforeEpoch),
        secs <= i64::MAX ==> stamp_for_spec(Some(secs)) == match utc_stamp(
            secs as i64,
            "%Y%m%d-%H%M%S"@,
        ) {
            Some(t) => Ok::<Seq<char>, ErrorView>(t),
            None => Err(ErrorView::ClockOutOfRange),
        },
        secs > i64::MAX ==> stamp_for_spec(Some(secs)) == Err::<Seq<char>, ErrorView>(
            ErrorView::ClockOutOfRange,
        ),
{
}

impl Stage {
    /// The outside work this stage waits on; none once the tool has ended.
    pub fn pending_action(&self) -> (a: Option<Action>)
        ensures
            action_view(a) == pending(self@),
    {
        match self {
            Stage::Installing { compose_file } => Some(
                Action::Run(compose_up_command(compose_file.as_str())),
            ),
            Stage::Pulling { channel, .. } => {
                let image = channel.image();
                Some(Action::Run(docker_pull_command(image.as_str())))
            },
            Stage::Recreating { compose_file, .. } => Some(
                Action::Run(compose_up_command(compose_file.as_str())),
            ),
            Stage::CheckingState { state_path, .. } => Some(
                Action::CheckDir { path: state_path.clone() },
            ),
            Stage::MakingDestination { destination, .. } => Some(
                Action::Run(mkdir_p_command(destination.as_str())),
            ),
            Stage::Archiving { state_path, archive } => Some(
                Action::Run(tar_create_command(archive.as_str(), state_path.as_str())),
            ),
            Stage::CheckingTarball { from, .. } => Some(Action::CheckFile { path: from.clone() }),
            Stage::MakingStateDir { state_path, .. } => Some(
                Action::Run(mkdir_p_command(state_path.as_str())),
            ),
            Stage::Extracting { from, state_path } => Some(
                Action::Run(tar_extract_command(from.as_str(), state_path.as_str())),
            ),
            Stage::Finished(_) => None,
            Stage::Failed(_) => None,
        }
    }

    /// This stage with the outside work it waits on.
    fn waiting(self) -> (r: (Stage, Option<Action>))
        ensures
            (r.0@, action_view(r.1)) == waiting(self@),
    {
        let a = self.pending_action();
        (self, a)
    }

    /// Whether the tool has ended, with an output or an error.
    pub fn is_done(&self) -> (b: bool)
        ensures
            b <==> pending(self@) is None,
    {
        match self {
            Stage::Finished(_) | Stage::Failed(_) => true,
            _ => false,
        }
    }

    /// Take one step: decide, from what came of the outside work this stage
    /// waited on, the next stage and the outside work it waits on.
    pub fn step(self, event: Event) -> (r: (Stage, Option<Action>))
        ensures
            exists|clock: Result<Seq<char>, ErrorView>|
                possible_clock(clock) && #[trigger] next_stage(self@, event@, clock) == (
                    r.0@,
                    action_view(r.1),
                ),
            reads_clock(self@, event@) ==> exists|c: ClockReading|
                #[trigger] next_stage(self@, event@, stamp_for_spec(c@)) == (r.0@, action_view(r.1)),
            !reads_clock(self@, event@) ==> next_stage(self@, event@, Ok(Seq::empty())) == (
                r.0@,
                action_view(r.1),
            ),
    {
        let ghost s0 = self@;
        let ghost e0 = event@;
        let r = match self {
            Stage::Installing { compose_file } => match event {
                Event::Ran(o) => match run(o) {
                    Err(err) => (Stage::Failed(err), None),
                    Ok(out) => {
                        let log = from_utf8_lossy(out.stdout.as_slice());
                        Stage::Finished(
                            ToolOutput::Install(NtfyInstallOutput { provisioned: true, log }),
                        ).waiting()
                    },
                },
                Event::Checked(_) => Stage::Installing { compose_file }.waiting(),
            },
            Stage::Pulling { channel, compose_file } => match event {
                Event::Ran(o) => match run(o) {
                    Err(err) => (Stage::Failed(err), None),
                    Ok(_) => Stage::Recreating { channel, compose_file }.waiting(),
                },
                Event::Checked(_) => Stage::Pulling { channel, compose_file }.waiting(),
            },
            Stage::Recreating { channel, compose_file } => match event {
                Event::Ran(o) => match run(o) {
                    Err(err) => (Stage::Failed(err), None),
                    Ok(out) => {
                        let log = from_utf8_lossy(out.stdout.as_slice());
                        let image_tag = owned(channel.image_tag());
                        Stage::Finished(
                            ToolOutput::Update(NtfyUpdateOutput { updated: true, image_tag, log }),
                        ).waiting()
                    },
                },
                Event::Checked(_) => Stage::Recreating { channel, compose_file }.waiting(),
            },
            Stage::CheckingState { state_path, destination } => match event {
                Event::Checked(found) => {
                    if found {
                        Stage::MakingDestination { state_path, destination }.waiting()
                    } else {
                        (Stage::Failed(LifecycleError::NotADirectory { path: state_path }), None)
                    }
                },
                Event::Ran(_) => Stage::CheckingState { state_path, destination }.waiting(),
            },
            Stage::MakingDestination { state_path, destination } => match event {
                Event::Ran(o) => match run(o) {
                    Err(err) => (Stage::Failed(err), None),
                    Ok(_) => {
                        let stamp_r = now_stamp();
                        let ghost c0 = choose|c: ClockReading|
                            stamp_for_spec(c@) == stamp_result_view(stamp_r);
                        assert(stamp_for_spec(c0@) == stamp_result_view(stamp_r));
                        match stamp_r {
                            Ok(stamp) => {
                                let archive = archive_path(destination.as_str(), stamp.as_str());
                                let r = Stage::Archiving { state_path, archive }.waiting();
                                assert(stamp_result_view(Ok(stamp)) == Ok::<Seq<char>, ErrorView>(stamp@));
                                assert(next_stage(s0, e0, Ok(stamp@)) == (r.0@, action_view(r.1)));
                                assert(next_stage(s0, e0, stamp_for_spec(c0@)) == (
                                    r.0@,
                                    action_view(r.1),
                                ));
                                r
                            },
                            Err(err) => {
                                let r = (Stage::Failed(err), None);
                                assert(next_stage(s0, e0, Err(err@)) == (r.0@, action_view(r.1)));
                                assert(next_stage(s0, e0, stamp_for_spec(c0@)) == (
                                    r.0@,
                                    action_view(r.1),
                                ));
                                r
                            },
                        }
                    },
                },
                Event::Checked(_) => Stage::MakingDestination { state_path, destination }.waiting(),
            },
            Stage::Archiving { state_path, archive } => match event {
                Event::Ran(o) => match run(o) {
                    Err(err) => (Stage::Failed(err), None),
                    Ok(_) => Stage::Finished(ToolOutput::Backup(NtfyBackupOutput { archive })).waiting(),
                },
                Event::Checked(_) => Stage::Archiving { state_path, archive }.waiting(),
            },
            Stage::CheckingTarball { from, state_path } => match event {
                Event::Checked(found) => {
                    if found {
                        Stage::MakingStateDir { from, state_path }.waiting()
                    } else {
                        (Stage::Failed(LifecycleError::TarballNotFound { path: from }), None)
                    }
                },
                Event::Ran(_) => Stage::CheckingTarball { from, state_path }.waiting(),
            },
            Stage::MakingStateDir { from, state_path } => match event {
                Event::Ran(o) => match run(o) {
                    Err(err) => (Stage::Failed(err), None),
                    Ok(_) => Stage::Extracting { from, state_path }.waiting(),
                },
                Event::Checked(_) => Stage::MakingStateDir { from, state_path }.waiting(),
            },
            Stage::Extracting { from, state_path } => match event {
                Event::Ran(o) => match run(o) {
                    Err(err) => (Stage::Failed(err), None),
                    Ok(_) => Stage::Finished(
                        ToolOutput::Restore(NtfyRestoreOutput { restored: true, state_path }),
                    ).waiting(),
                },
                Event::Checked(_) => Stage::Extracting { from, state_path }.waiting(),
            },
            Stage::Finished(o) => (Stage::Finished(o), None),
            Stage::Failed(e) => (Stage::Failed(e), None),
        };
        proof {
            if !reads_clock(s0, e0) {
                assert(stamp_for_spec(None) == Err::<Seq<char>, ErrorView>(ErrorView::ClockBeforeEpoch));
                assert(possible_clock(Err(ErrorView::ClockBeforeEpoch)));
                assert(next_stage(s0, e0, Err(ErrorView::ClockBeforeEpoch)) == (
                    r.0@,
                    action_view(r.1),
                ));
                assert(next_stage(s0, e0, Ok(Seq::empty())) == (r.0@, action_view(r.1)));
            }
        }
        r
    }
}


/// **Provision a self-hosted ntfy server** by bringing up the Compose stack:
/// the first stage, and the command it runs.
pub fn ntfy_install(args: NtfyInstallArgs) -> (r: (Stage, Action))
    ensures
        r.0@ == (StageView::Installing { compose_file: args.compose_file@ }),
        pending(r.0@) == Some(r.1@),
{
    let c = compose_up_command(args.compose_file.as_str());
    (Stage::Installing { compose_file: args.compose_file }, Action::Run(c))
}

/// **Update a self-hosted ntfy server** to the head of a release channel:
/// re-pull the channel's image, then recreate the container from Compose.
pub fn ntfy_update(args: NtfyUpdateArgs) -> (r: (Stage, Action))
    ensures
        r.0@ == (StageView::Pulling { channel: args.channel, compose_file: args.compose_file@ }),
        pending(r.0@) == Some(r.1@),
{
    let image = args.channel.image();
    let c = docker_pull_command(image.as_str());
    (Stage::Pulling { channel: args.channel, compose_file: args.compose_file }, Action::Run(c))
}

/// **Back up the ntfy server state** (config + message db) to a `.tar.gz`
/// in the destination directory; a relative destination is resolved against
/// the (absolute) working directory, so that the archive reported is
/// absolute. First ask whether the state path is a directory.
pub fn backup_state(args: &NtfyBackupArgs, working_dir: Option<&str>) -> (r: (Stage, Action))
    requires
        is_relative_destination(args.destination@) ==> is_absolute_dir(opt_str_view(working_dir)),
    ensures
        r.0@ == (StageView::CheckingState {
            state_path: args.state_path@,
            destination: resolve_destination(args.destination@, opt_str_view(working_dir)),
        }),
        pending(r.0@) == Some(r.1@),
{
    (
        Stage::CheckingState {
            state_path: args.state_path.clone(),
            destination: resolve_destination_path(args.destination.as_str(), working_dir),
        },
        Action::CheckDir { path: args.state_path.clone() },
    )
}

/// **Restore the ntfy server state** from a `.tar.gz` produced by a backup:
/// first ask whether the tarball exists. Only extracts the archive over the
/// state directory.
pub fn restore_state(args: NtfyRestoreArgs) -> (r: (Stage, Action))
    ensures
        r.0@ == (StageView::CheckingTarball { from: args.from@, state_path: args.state_path@ }),
        pending(r.0@) == Some(r.1@),
{
    let a = Action::CheckFile { path: args.from.clone() };
    (Stage::CheckingTarball { from: args.from, state_path: args.state_path }, a)
}

// ---------------------------------------------------------------------------
// Laws of the lifecycle machine
// ---------------------------------------------------------------------------

/// The event answers the action: a command outcome for a command, a yes or no
/// for a path check.
pub open spec fn answers(a: ActionView, e: EventView) -> bool {
    match a {
        ActionView::Run(_) => e is Ran,
        ActionView::CheckDir(_) => e is Checked,
        ActionView::CheckFile(_) => e is Checked,
    }
}

/// How many answered actions a stage is at most away from its tool's end.
pub open spec fn remaining_steps(s: StageView) -> nat {
    match s {
        StageView::Installing { .. } => 1,
        StageView::Pulling { .. } => 2,
        StageView::Recreating { .. } => 1,
        StageView::CheckingState { .. } => 3,
        StageView::MakingDestination { .. } => 2,
        StageView::Archiving { .. } => 1,
        StageView::CheckingTarball { .. } => 3,
        StageView::MakingStateDir { .. } => 2,
        StageView::Extracting { .. } => 1,
        StageView::Finished(_) => 0,
        StageView::Failed(_) => 0,
    }
}

/// Law: every step issues exactly the outside work its new stage waits on;
/// an ended tool stays ended and asks for nothing; an answered action brings
/// the tool strictly closer to its end (so every tool ends after at most
/// three answered actions); an event that answers nothing changes nothing.
pub proof fn lemma_step_progress(s: StageView, e: EventView, clock: Result<Seq<char>, ErrorView>)
    ensures
        next_stage(s, e, clock).1 == pending(next_stage(s, e, clock).0),
        pending(s) is None <==> remaining_steps(s) == 0,
        pending(s) is None ==> next_stage(s, e, clock) == (s, None::<ActionView>),
        pending(s) matches Some(a) && answers(a, e) ==> remaining_steps(next_stage(s, e, clock).0)
            < remaining_steps(s),
        pending(s) matches Some(a) && !answers(a, e) ==> next_stage(s, e, clock) == waiting(s),
{
}

/// Law: a command that fails ends its tool, with that command's error.
pub proof fn lemma_failed_command_ends_tool(
    s: StageView,
    o: OutcomeView,
    clock: Result<Seq<char>, ErrorView>,
)
    requires
        pending(s) matches Some(ActionView::Run(_)),
        run_outcome(o) is Err,
    ensures
        next_stage(s, EventView::Ran(o), clock) == (
            StageView::Failed(run_outcome(o)->Err_0),
            None::<ActionView>,
        ),
{
}

/// Law: a check that comes back negative ends the backup or the restore with
/// the error that names the path.
pub proof fn lemma_failed_check_ends_tool(s: StageView, clock: Result<Seq<char>, ErrorView>)
    ensures
        s matches StageView::CheckingState { state_path, .. } ==> next_stage(
            s,
            EventView::Checked(false),
            clock,
        ) == (StageView::Failed(ErrorView::NotADirectory { path: state_path }), None::<ActionView>),
        s matches StageView::CheckingTarball { from, .. } ==> next_stage(
            s,
            EventView::Checked(false),
            clock,
        ) == (StageView::Failed(ErrorView::TarballNotFound { path: from }), None::<ActionView>),
{
}

/// Law: an install whose Compose command succeeds is provisioned, and logs
/// that command's output.
pub proof fn lemma_install_run(
    compose_file: Seq<char>,
    o: OutcomeView,
    clock: Result<Seq<char>, ErrorView>,
)
    requires
        run_outcome(o) is Ok,
    ensures
        pending(StageView::Installing { compose_file }) == Some(
            ActionView::Run(compose_up(compose_file)),
        ),
        next_stage(StageView::Installing { compose_file }, EventView::Ran(o), clock) == (
            StageView::Finished(
                OutputView::Install { provisioned: true, log: lossy_utf8(run_outcome(o)->Ok_0) },
            ),
            None::<ActionView>,
        ),
{
}

/// Law: an update pulls the channel's image, then recreates the container
/// from the Compose file; when both succeed it reports the tag it pulled.
pub proof fn lemma_update_run(
    channel: Channel,
    compose_file: Seq<char>,
    pulled: OutcomeView,
    recreated: OutcomeView,
    clock: Result<Seq<char>, ErrorView>,
)
    requires
        run_outcome(pulled) is Ok,
        run_outcome(recreated) is Ok,
    ensures
        ({
            let s0 = StageView::Pulling { channel, compose_file };
            let (s1, a1) = next_stage(s0, EventView::Ran(pulled), clock);
            let (s2, a2) = next_stage(s1, EventView::Ran(recreated), clock);
            &&& pending(s0) == Some(ActionView::Run(docker_pull("binwiederhier/ntfy:"@ + channel_tag(channel))))
            &&& a1 == Some(ActionView::Run(compose_up(compose_file)))
            &&& s2 == StageView::Finished(
                OutputView::Update {
                    updated: true,
                    image_tag: channel_tag(channel),
                    log: lossy_utf8(run_outcome(recreated)->Ok_0),
                },
            )
            &&& a2 is None
        }),
{
}

/// Law (backup, then restore): a backup of a state directory archives it with
/// `tar` into `<destination>/ntfy-state-<stamp>.tar.gz` and reports that
/// archive; a restore from the reported archive into a target directory
/// creates the target and extracts that same archive into it, and reports
/// the target.
pub proof fn lemma_backup_then_restore(
    state_path: Seq<char>,
    destination: Seq<char>,
    stamp: Seq<char>,
    made_destination: OutcomeView,
    archived: OutcomeView,
    target: Seq<char>,
    made_target: OutcomeView,
    extracted: OutcomeView,
)
    requires
        run_outcome(made_destination) is Ok,
        run_outcome(archived) is Ok,
        run_outcome(made_target) is Ok,
        run_outcome(extracted) is Ok,
    ensures
        ({
            let archive = archive_path_spec(destination, stamp);
            let b0 = StageView::CheckingState { state_path, destination };
            let (b1, x1) = next_stage(b0, EventView::Checked(true), Ok(stamp));
            let (b2, x2) = next_stage(b1, EventView::Ran(made_destination), Ok(stamp));
            let (b3, x3) = next_stage(b2, EventView::Ran(archived), Ok(stamp));
            let r0 = StageView::CheckingTarball { from: archive, state_path: target };
            let (r1, y1) = next_stage(r0, EventView::Checked(true), Ok(stamp));
            let (r2, y2) = next_stage(r1, EventView::Ran(made_target), Ok(stamp));
            let (r3, y3) = next_stage(r2, EventView::Ran(extracted), Ok(stamp));
            &&& pending(b0) == Some(ActionView::CheckDir(state_path))
            &&& x1 == Some(ActionView::Run(mkdir_p(destination)))
            &&& x2 == Some(ActionView::Run(tar_create(archive, state_path)))
            &&& b3 == StageView::Finished(OutputView::Backup { archive })
            &&& x3 is None
            &&& pending(r0) == Some(ActionView::CheckFile(archive))
            &&& y1 == Some(ActionView::Run(mkdir_p(target)))
            &&& y2 == Some(ActionView::Run(tar_extract(archive, target)))
            &&& r3 == StageView::Finished(OutputView::Restore { restored: true, state_path: target })
            &&& y3 is None
        }),
{
}

/// Law: the Compose command brings up exactly the compose file it is given,
/// `docker compose -f <file> up -d`, so distinct files give distinct commands;
/// an install and an upgrade's recreate run it on the tool's own compose file.
pub proof fn lemma_compose_command_names_file(file: Seq<char>, other: Seq<char>, channel: Channel)
    ensures
        compose_up(file).len() == 6,
        compose_up(file)[3] == file,
        compose_up(file) == compose_up(other) ==> file == other,
        pending(StageView::Installing { compose_file: file }) == Some(
            ActionView::Run(seq!["docker"@, "compose"@, "-f"@, file, "up"@, "-d"@]),
        ),
        pending(StageView::Recreating { channel, compose_file: file }) == Some(
            ActionView::Run(seq!["docker"@, "compose"@, "-f"@, file, "up"@, "-d"@]),
        ),
{
    if compose_up(file) == compose_up(other) {
        assert(compose_up(file)[3] == compose_up(other)[3]);
    }
}

/// Law: a pull names exactly the image it is given, and an upgrade pulls
/// `binwiederhier/ntfy:` followed by the very tag it then reports, for every
/// channel.
pub proof fn lemma_update_pulls_reported_tag(
    image: Seq<char>,
    channel: Channel,
    compose_file: Seq<char>,
    recreated: OutcomeView,
    clock: Result<Seq<char>, ErrorView>,
)
    requires
        run_outcome(recreated) is Ok,
    ensures
        docker_pull(image) == seq!["docker"@, "pull"@, image],
        pending(StageView::Pulling { channel, compose_file }) == Some(
            ActionView::Run(seq!["docker"@, "pull"@, "binwiederhier/ntfy:"@ + channel_tag(channel)]),
        ),
        next_stage(StageView::Recreating { channel, compose_file }, EventView::Ran(recreated), clock).0
            matches StageView::Finished(OutputView::Update { image_tag, .. }) && image_tag
            == channel_tag(channel),
{
}

} // verus!
