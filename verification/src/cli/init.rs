//! `init`: prepares the configs, the node binary and the systemd services.
//!
//! The command itself talks to the user, the file system and `systemctl`.
//! What it computes and decides on the way stands here.

use vstd::prelude::*;
use vstd::slice::slice_subrange;
use vstd::string::{StringExecFns, StringSliceAdditionalSpecFns};
use vstd::utf8::valid_utf8;

pub mod adnl;
pub mod completion;
pub mod control;
pub mod keys;
pub mod services;

verus! {

/// Prepares configs and binaries.
#[derive(Debug, Clone, Copy, PartialEq, Eq, Structural)]
pub struct Cmd {
    /// The part of the preparation that was asked for, or `None` for all of
    /// it.
    pub subcommand: Option<SubCmd>,
}

/// The parts of the preparation that can be run alone.
#[derive(Debug, Clone, Copy, PartialEq, Eq, Structural)]
pub enum SubCmd {
    Systemd(CmdInitSystemd),
    Contracts(CmdInitContracts),
}

/// Prepares the configs and the node binary, and as root the systemd
/// services too.
#[derive(Debug, Clone, Copy, PartialEq, Eq, Structural)]
pub struct CmdInit;

/// Creates systemd services (`ever-validator` and `ever-validator-manager`).
#[derive(Debug, Clone, Copy, PartialEq, Eq, Structural)]
pub struct CmdInitSystemd {}

/// Deploys contracts required for validation.
#[derive(Debug, Clone, Copy, PartialEq, Eq, Structural)]
pub struct CmdInitContracts {}

/// The command that one invocation of `init` runs.
#[derive(Debug, Clone, Copy, PartialEq, Eq, Structural)]
pub enum InitCommand {
    Init(CmdInit),
    Systemd(CmdInitSystemd),
    Contracts(CmdInitContracts),
}

impl Cmd {
    /// Picks the command to run: the subcommand that was given, and the
    /// whole preparation where none was.
    pub fn run(self) -> (command: InitCommand)
        ensures
            command == match self.subcommand {
                None => InitCommand::Init(CmdInit),
                Some(SubCmd::Systemd(cmd)) => InitCommand::Systemd(cmd),
                Some(SubCmd::Contracts(cmd)) => InitCommand::Contracts(cmd),
            },
    {
        match self.subcommand {
            None => InitCommand::Init(CmdInit),
            Some(SubCmd::Systemd(cmd)) => InitCommand::Systemd(cmd),
            Some(SubCmd::Contracts(cmd)) => InitCommand::Contracts(cmd),
        }
    }
}

/// One stage of a command. A command goes through its stages in order and
/// ends early, without an error, where a stage is declined.
#[derive(Debug, Clone, Copy, PartialEq, Eq)]
pub enum Stage {
    /// Announce the next step with this text.
    Announce(&'static str),
    /// Make sure that the root directory is there.
    PrepareRootDir,
    /// Get the global config, from the network that the user selects where
    /// none is stored.
    LoadGlobalConfig,
    /// Get the node config with [`load_node_config`].
    LoadNodeConfig,
    /// Get the app config with [`load_app_config`].
    LoadAppConfig,
    /// Set up the control server with
    /// [`setup_control_server`](control::setup_control_server).
    SetupControlServer,
    /// Set up ADNL with [`setup_adnl`](adnl::setup_adnl).
    SetupAdnl,
    /// Set the paths of the node config.
    SetupNodeConfigPaths,
    /// Make sure that the node binary is there.
    SetupBinary,
    /// Write the systemd units.
    PrepareServices,
    /// Have systemd read its units again.
    ReloadDaemon,
    /// Enable and restart the services as the user wishes.
    StartServices,
    /// Tell how to create the systemd services where they are missing.
    CheckSystemdService,
}

impl Stage {
    /// Whether the stage can be declined, which ends the command.
    pub open spec fn spec_can_decline(&self) -> bool {
        self is PrepareRootDir || self is SetupControlServer || self is SetupAdnl
            || self is SetupBinary
    }

    /// Whether the stage can be declined, which ends the command.
    #[verifier::when_used_as_spec(spec_can_decline)]
    pub fn can_decline(&self) -> (can: bool)
        ensures
            can == self.spec_can_decline(),
    {
        match self {
            Stage::PrepareRootDir | Stage::SetupControlServer | Stage::SetupAdnl
            | Stage::SetupBinary => true,
            _ => false,
        }
    }
}

/// How many of the stages announce a step.
pub open spec fn announcements(stages: Seq<Stage>) -> nat
    decreases stages.len(),
{
    if stages.len() == 0 {
        0
    } else if stages.last() is Announce {
        announcements(stages.drop_last()) + 1
    } else {
        announcements(stages.drop_last())
    }
}

/// The stages of the creation of the systemd services.
pub open spec fn systemd_stages() -> Seq<Stage> {
    seq![
        Stage::Announce("Preparing services"),
        Stage::PrepareServices,
        Stage::Announce("Reloading systemd configs"),
        Stage::ReloadDaemon,
        Stage::Announce("Systemd services are configured now. Great!"),
        Stage::StartServices,
    ]
}

/// The stages of the whole preparation: the configs, the binary, and then as
/// root the systemd services, and otherwise a hint at how to create them.
pub open spec fn init_stages(is_root: bool) -> Seq<Stage> {
    seq![
        Stage::Announce("Preparing configs"),
        Stage::PrepareRootDir,
        Stage::LoadGlobalConfig,
        Stage::LoadNodeConfig,
        Stage::LoadAppConfig,
        Stage::SetupControlServer,
        Stage::SetupAdnl,
        Stage::SetupNodeConfigPaths,
        Stage::Announce("Preparing binary"),
        Stage::SetupBinary,
    ] + if is_root {
        seq![
            Stage::Announce("Preparing services"),
            Stage::PrepareServices,
            Stage::Announce("Reloading systemd configs"),
            Stage::ReloadDaemon,
            Stage::Announce("Validator node is configured now. Great!"),
            Stage::StartServices,
        ]
    } else {
        seq![
            Stage::Announce("Validator node is configured now. Great!"),
            Stage::CheckSystemdService,
        ]
    }
}

/// A command announces one step more than it counts: the first step is
/// shown as step zero, and the last as the full count.
pub proof fn lemma_announcements(is_root: bool)
    ensures
        announcements(init_stages(is_root)) == 1 + if is_root {
            CmdInit::STEPS + CmdInitSystemd::STEPS
        } else {
            CmdInit::STEPS as int
        },
        announcements(systemd_stages()) == 1 + CmdInitSystemd::STEPS,
{
    reveal_with_fuel(announcements, 17);
}

impl CmdInit {
    /// The steps that the preparation announces before the systemd services.
    pub const STEPS: usize = 2;

    /// The stages of the preparation, in order.
    pub fn stages(&self, is_root: bool) -> (stages: Vec<Stage>)
        ensures
            stages@ == init_stages(is_root),
    {
        let mut stages = vec![
            Stage::Announce("Preparing configs"),
            Stage::PrepareRootDir,
            Stage::LoadGlobalConfig,
            Stage::LoadNodeConfig,
            Stage::LoadAppConfig,
            Stage::SetupControlServer,
            Stage::SetupAdnl,
            Stage::SetupNodeConfigPaths,
            Stage::Announce("Preparing binary"),
            Stage::SetupBinary,
        ];
        if is_root {
            stages.push(Stage::Announce("Preparing services"));
            stages.push(Stage::PrepareServices);
            stages.push(Stage::Announce("Reloading systemd configs"));
            stages.push(Stage::ReloadDaemon);
            stages.push(Stage::Announce("Validator node is configured now. Great!"));
            stages.push(Stage::StartServices);
        } else {
            stages.push(Stage::Announce("Validator node is configured now. Great!"));
            stages.push(Stage::CheckSystemdService);
        }
        stages
    }

    /// The counter of the steps that the preparation announces: as root the
    /// steps of [`CmdInitSystemd`] come on top of its own.
    pub fn steps(&self, is_root: bool) -> (steps: Steps)
        ensures
            steps.current() == 0,
            is_root ==> steps.total() == CmdInit::STEPS + CmdInitSystemd::STEPS,
            !is_root ==> steps.total() == CmdInit::STEPS,
    {
        if is_root {
            Steps::new(CmdInit::STEPS + CmdInitSystemd::STEPS)
        } else {
            Steps::new(CmdInit::STEPS)
        }
    }
}

impl CmdInitSystemd {
    /// The steps that the creation of the services announces.
    pub const STEPS: usize = 2;

    /// The stages of the creation of the services, in order.
    pub fn stages(&self) -> (stages: Vec<Stage>)
        ensures
            stages@ == systemd_stages(),
    {
        let stages = vec![
            Stage::Announce("Preparing services"),
            Stage::PrepareServices,
            Stage::Announce("Reloading systemd configs"),
            Stage::ReloadDaemon,
            Stage::Announce("Systemd services are configured now. Great!"),
            Stage::StartServices,
        ];
        stages
    }
}

/// What the node prints in front of its version.
pub const VERSION_PREFIX: &'static str = "TON Node, version ";

/// The line feed that ends the line of the version.
pub const LINE_FEED: u8 = 0x0a;

/// `core::str::Utf8Error`, which says why bytes are no UTF-8. Verus sees
/// nothing inside it.
#[verifier::external_type_specification]
#[verifier::external_body]
pub struct ExUtf8Error(core::str::Utf8Error);

/// `core::str::from_utf8`: succeeds exactly on bytes that are UTF-8, with the
/// string that these bytes encode.
#[verifier::external_body]
fn str_from_utf8<'a>(bytes: &'a [u8]) -> (text: Result<&'a str, core::str::Utf8Error>)
    ensures
        text is Ok <==> valid_utf8(bytes@),
        text matches Ok(decoded) ==> decoded.spec_bytes() == bytes@,
{
    core::str::from_utf8(bytes)
}

/// The first line of `bytes`: what stands before the first line feed, or all
/// of `bytes` when they hold none.
pub open spec fn first_line(bytes: Seq<u8>) -> Seq<u8> {
    match bytes.index_of_first(LINE_FEED) {
        Some(end) => bytes.take(end),
        None => bytes,
    }
}

/// The bytes of the version in what the node printed: the rest of the first
/// line after [`VERSION_PREFIX`], if the output starts with that.
pub open spec fn version_bytes(output: Seq<u8>) -> Option<Seq<u8>> {
    let prefix = VERSION_PREFIX.spec_bytes();
    if prefix.is_prefix_of(output) {
        Some(first_line(output.skip(prefix.len() as int)))
    } else {
        None
    }
}

/// Whether `bytes` start with `prefix`.
pub(crate) fn starts_with(bytes: &[u8], prefix: &[u8]) -> (found: bool)
    ensures
        found == prefix@.is_prefix_of(bytes@),
{
    if bytes.len() < prefix.len() {
        return false;
    }
    let mut at: usize = 0;
    while at < prefix.len()
        invariant
            at <= prefix.len() <= bytes.len(),
            forall|i: int| 0 <= i < at ==> bytes[i] == prefix[i],
        decreases prefix.len() - at,
    {
        if bytes[at] != prefix[at] {
            return false;
        }
        at += 1;
    }
    true
}

/// Where the first line of `bytes` ends, counted from `from`.
fn line_end(bytes: &[u8], from: usize) -> (end: usize)
    requires
        from <= bytes.len(),
    ensures
        from <= end <= bytes.len(),
        bytes@.subrange(from as int, end as int) == first_line(bytes@.skip(from as int)),
{
    let mut end: usize = from;
    while end < bytes.len() && bytes[end] != LINE_FEED
        invariant
            from <= end <= bytes.len(),
            forall|i: int| from <= i < end ==> bytes[i] != LINE_FEED,
        decreases bytes.len() - end,
    {
        end += 1;
    }
    proof {
        let rest = bytes@.skip(from as int);
        rest.index_of_first_ensures(LINE_FEED);
        if end < bytes.len() {
            assert(rest[end - from] == LINE_FEED);
        }
        assert(first_line(rest) =~= bytes@.subrange(from as int, end as int));
    }
    end
}

/// Reads the version out of what the node printed for `--version`.
///
/// The output starts with `TON Node, version `, and the version is the rest
/// of that line. `None` is returned when the output starts otherwise, or when
/// the rest of the line is no UTF-8.
pub fn parse_node_version(output: &[u8]) -> (version: Option<&str>)
    ensures
        match version {
            Some(text) => version_bytes(output@) == Some(text.spec_bytes()),
            None => version_bytes(output@) matches Some(line) ==> !valid_utf8(line),
        },
{
    let prefix = VERSION_PREFIX.as_bytes();
    if !starts_with(output, prefix) {
        return None;
    }
    let end = line_end(output, prefix.len());
    match str_from_utf8(slice_subrange(output, prefix.len(), end)) {
        Ok(text) => Some(text),
        Err(_) => None,
    }
}

/// Makes sure that the root directory is there, and says whether the
/// preparation can go on.
///
/// `exists` says whether the directory is there already. Where it is not,
/// `confirm` asks the user whether to create it, and `create` creates it only
/// after the user agreed. A failure of either is returned as it is.
pub fn prepare_root_dir<E, A, M>(exists: bool, confirm: A, create: M) -> (proceed: Result<bool, E>) where
    A: FnOnce() -> Result<bool, E>,
    M: FnOnce() -> Result<(), E>,

    requires
        !exists ==> confirm.requires(()),
        !exists ==> create.requires(()),
    ensures
        exists ==> proceed == Ok::<bool, E>(true),
        !exists ==> match proceed {
            Ok(true) => confirm.ensures((), Ok(true)) && create.ensures((), Ok(())),
            Ok(false) => confirm.ensures((), Ok(false)),
            Err(error) => confirm.ensures((), Err(error)) || (confirm.ensures((), Ok(true))
                && create.ensures((), Err(error))),
        },
{
    if exists {
        return Ok(true);
    }
    match confirm() {
        Ok(true) => {},
        Ok(false) => return Ok(false),
        Err(error) => return Err(error),
    }
    let created = create();
    match created {
        Ok(()) => {
            // `()` has one value, so `create` returned `Ok(())`.
            assert(created->Ok_0 == ());
            Ok(true)
        },
        Err(error) => Err(error),
    }
}

/// Gets the node config: loads the stored one where there is one, and
/// otherwise generates a config, stores it and returns it.
///
/// `exists` says whether a config is stored. `load`, `generate` and `store`
/// do the work on the files; at most one of the first two is called, and
/// `store` only with what `generate` made. The first failure is returned as
/// it is.
pub fn load_node_config<C, E, L, G, S>(exists: bool, load: L, generate: G, store: S) -> (config:
    Result<C, E>) where
    L: FnOnce() -> Result<C, E>,
    G: FnOnce() -> Result<C, E>,
    S: FnOnce(&C) -> Result<(), E>,

    requires
        exists ==> load.requires(()),
        !exists ==> generate.requires(()),
        !exists ==> forall|made: C| generate.ensures((), Ok(made)) ==> store.requires((&made,)),
    ensures
        exists ==> load.ensures((), config),
        !exists ==> match config {
            Ok(made) => generate.ensures((), Ok(made)) && store.ensures((&made,), Ok(())),
            Err(error) => generate.ensures((), Err(error)) || exists|made: C|
                generate.ensures((), Ok(made)) && store.ensures((&made,), Err(error)),
        },
{
    if exists {
        return load();
    }
    let node_config = match generate() {
        Ok(made) => made,
        Err(error) => return Err(error),
    };
    let stored = store(&node_config);
    match stored {
        Ok(()) => {
            // `()` has one value, so `store` returned `Ok(())`.
            assert(stored->Ok_0 == ());
            Ok(node_config)
        },
        Err(error) => Err(error),
    }
}

/// Gets the app config: loads the stored one where there is one, and
/// otherwise stores the default config and returns it.
///
/// `exists` says whether a config is stored. `load` and `store` do the work
/// on the files; `load` is called only where a config is stored, and `store`
/// only with `default`. A failure is returned as it is.
pub fn load_app_config<C, E, L, S>(exists: bool, load: L, default: C, store: S) -> (config: Result<
    C,
    E,
>) where L: FnOnce() -> Result<C, E>, S: FnOnce(&C) -> Result<(), E>
    requires
        exists ==> load.requires(()),
        !exists ==> store.requires((&default,)),
    ensures
        exists ==> load.ensures((), config),
        !exists ==> match config {
            Ok(stored) => stored == default && store.ensures((&default,), Ok(())),
            Err(error) => store.ensures((&default,), Err(error)),
        },
{
    if exists {
        return load();
    }
    let stored = store(&default);
    match stored {
        Ok(()) => {
            // `()` has one value, so `store` returned `Ok(())`.
            assert(stored->Ok_0 == ());
            Ok(default)
        },
        Err(error) => Err(error),
    }
}

/// The decimal digits of `n`, without leading zeros.
pub open spec fn decimal(n: nat) -> Seq<char>
    decreases n,
{
    if n < 10 {
        seq![digit(n)]
    } else {
        decimal(n / 10).push(digit(n % 10))
    }
}

/// The character of one decimal digit.
pub open spec fn digit(d: nat) -> char {
    if d == 0 {
        '0'
    } else if d == 1 {
        '1'
    } else if d == 2 {
        '2'
    } else if d == 3 {
        '3'
    } else if d == 4 {
        '4'
    } else if d == 5 {
        '5'
    } else if d == 6 {
        '6'
    } else if d == 7 {
        '7'
    } else if d == 8 {
        '8'
    } else {
        '9'
    }
}

/// One decimal digit as text.
fn digit_text(d: usize) -> (text: &'static str)
    requires
        d < 10,
    ensures
        text@ == seq![digit(d as nat)],
{
    proof {
        reveal_strlit("0");
        reveal_strlit("1");
        reveal_strlit("2");
        reveal_strlit("3");
        reveal_strlit("4");
        reveal_strlit("5");
        reveal_strlit("6");
        reveal_strlit("7");
        reveal_strlit("8");
        reveal_strlit("9");
    }
    if d == 0 {
        "0"
    } else if d == 1 {
        "1"
    } else if d == 2 {
        "2"
    } else if d == 3 {
        "3"
    } else if d == 4 {
        "4"
    } else if d == 5 {
        "5"
    } else if d == 6 {
        "6"
    } else if d == 7 {
        "7"
    } else if d == 8 {
        "8"
    } else {
        "9"
    }
}

/// Writes `n` in decimal digits at the end of `text`.
fn append_decimal(text: &mut String, n: usize)
    ensures
        final(text)@ == old(text)@ + decimal(n as nat),
    decreases n,
{
    if n >= 10 {
        append_decimal(text, n / 10);
    }
    text.append(digit_text(n % 10));
}

/// What is shown in front of the step at position `current` of `total`:
/// both numbers in decimal, as `[current/total]`.
pub open spec fn step_label(current: nat, total: nat) -> Seq<char> {
    seq!['['] + decimal(current) + seq!['/'] + decimal(total) + seq![']']
}

/// Counts the steps of a command while it announces them.
pub struct Steps {
    total: usize,
    current: usize,
}

impl Steps {
    /// How many steps the command has.
    pub closed spec fn spec_total(&self) -> usize {
        self.total
    }

    /// How many steps were announced so far.
    pub closed spec fn spec_current(&self) -> usize {
        self.current
    }

    /// How many steps the command has.
    #[verifier::when_used_as_spec(spec_total)]
    pub fn total(&self) -> (total: usize)
        ensures
            total == self.spec_total(),
    {
        self.total
    }

    /// How many steps were announced so far.
    #[verifier::when_used_as_spec(spec_current)]
    pub fn current(&self) -> (current: usize)
        ensures
            current == self.spec_current(),
    {
        self.current
    }

    /// Starts counting the steps of a command that has `total` of them.
    pub fn new(total: usize) -> (steps: Self)
        ensures
            steps.total() == total,
            steps.current() == 0,
    {
        Self { total, current: 0 }
    }

    /// Announces the next step: returns the label that is shown in front of
    /// its text, and counts the step.
    pub fn next(&mut self) -> (label: String)
        requires
            old(self).current() < usize::MAX,
        ensures
            label@ == step_label(old(self).current() as nat, old(self).total() as nat),
            final(self).current() == old(self).current() + 1,
            final(self).total() == old(self).total(),
    {
        proof {
            reveal_strlit("[");
            reveal_strlit("/");
            reveal_strlit("]");
        }
        let mut label = String::from_str("[");
        append_decimal(&mut label, self.current);
        label.append("/");
        append_decimal(&mut label, self.total);
        label.append("]");
        self.current += 1;
        label
    }
}

} // verus!
