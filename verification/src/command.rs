//! What each command needs before it can run.
//!
//! The dispatcher of the program asks here which account a command works on,
//! whether it needs a signer, the chain id or a network, and under which
//! label its result is shown. Going to the network and printing are the
//! program's part.

use vstd::prelude::*;
use vstd::string::*;
use crate::config::{CastConfig, CastConfigView};
use crate::text::opt_chars;
use crate::signer::{SignerError, is_ambiguous};

verus! {

/// How numbers are shown.
#[derive(Clone, Copy, Debug, PartialEq, Eq, Structural)]
pub enum ValueFormat {
    Default,
    Int,
    Hex,
}

/// The format asked for by the two flags. The command line does not accept
/// both; were both set, hexadecimal would win.
pub fn value_format(hex_format: bool, int_format: bool) -> (r: ValueFormat)
    ensures
        r == (if hex_format {
            ValueFormat::Hex
        } else if int_format {
            ValueFormat::Int
        } else {
            ValueFormat::Default
        }),
{
    if hex_format {
        ValueFormat::Hex
    } else if int_format {
        ValueFormat::Int
    } else {
        ValueFormat::Default
    }
}

/// How results are shown.
#[derive(Clone, Copy, Debug, PartialEq, Eq, Structural)]
pub struct OutputPreferences {
    pub format: ValueFormat,
    /// Whether results are shown as JSON.
    pub json: bool,
}

/// The output preferences asked for by the flags of the command line.
pub fn output_preferences(hex_format: bool, int_format: bool, json: bool) -> (r: OutputPreferences)
    ensures
        r == (OutputPreferences {
            format: if hex_format {
                ValueFormat::Hex
            } else if int_format {
                ValueFormat::Int
            } else {
                ValueFormat::Default
            },
            json,
        }),
{
    OutputPreferences { format: value_format(hex_format, int_format), json }
}

/// The commands, with what the command line gave that decides how they start.
#[derive(Clone, Debug, PartialEq, Eq)]
pub enum Command {
    Declare,
    Deploy,
    Call,
    Invoke,
    MulticallNew { output_path: Option<String> },
    MulticallRun,
    AccountAdd { name: String },
    AccountCreate { name: Option<String>, network: Option<String> },
    AccountDeploy { name: Option<String> },
    AccountDelete { name: Option<String>, network: Option<String> },
    ShowConfig,
    Script,
}

pub enum CommandView {
    Declare,
    Deploy,
    Call,
    Invoke,
    MulticallNew { output_path: Option<Seq<char>> },
    MulticallRun,
    AccountAdd { name: Seq<char> },
    AccountCreate { name: Option<Seq<char>>, network: Option<Seq<char>> },
    AccountDeploy { name: Option<Seq<char>> },
    AccountDelete { name: Option<Seq<char>>, network: Option<Seq<char>> },
    ShowConfig,
    Script,
}

impl View for Command {
    type V = CommandView;

    open spec fn view(&self) -> CommandView {
        match self {
            Command::Declare => CommandView::Declare,
            Command::Deploy => CommandView::Deploy,
            Command::Call => CommandView::Call,
            Command::Invoke => CommandView::Invoke,
            Command::MulticallNew { output_path } => CommandView::MulticallNew {
                output_path: opt_chars(*output_path),
            },
            Command::MulticallRun => CommandView::MulticallRun,
            Command::AccountAdd { name } => CommandView::AccountAdd { name: name@ },
            Command::AccountCreate { name, network } => CommandView::AccountCreate {
                name: opt_chars(*name),
                network: opt_chars(*network),
            },
            Command::AccountDeploy { name } => CommandView::AccountDeploy { name: opt_chars(*name) },
            Command::AccountDelete { name, network } => CommandView::AccountDelete {
                name: opt_chars(*name),
                network: opt_chars(*network),
            },
            Command::ShowConfig => CommandView::ShowConfig,
            Command::Script => CommandView::Script,
        }
    }
}

#[derive(Clone, Copy, Debug, PartialEq, Eq, Structural)]
pub enum CommandError {
    /// The command works on a named account and no name was given.
    MissingName,
    /// The command writes a record for a network and no network was given.
    MissingNetwork,
    /// The signer cannot be settled.
    Signer(SignerError),
}

/// What a command needs before it runs.
#[derive(Clone, Debug, PartialEq, Eq)]
pub struct CommandPlan {
    /// The label under which the result is shown.
    pub label: String,
    /// The account the command works on or signs with.
    pub account: String,
    /// Whether a signing identity has to be resolved.
    pub needs_signer: bool,
    /// Whether the chain id has to be fetched from the node before the
    /// command runs, to name the network of the account it works on.
    pub needs_chain_id: bool,
    /// Whether the command shows a result under its label; the one that does
    /// not prints the batch template as it is.
    pub reports: bool,
    /// The keystore path, for the command that deploys an account, if set.
    pub keystore_path: Option<String>,
    /// The path of the account descriptor, for the command that deploys an
    /// account, if the configuration names one.
    pub account_path: Option<String>,
    /// The network, where the command line names it.
    pub network: Option<String>,
}

pub struct CommandPlanView {
    pub label: Seq<char>,
    pub account: Seq<char>,
    pub needs_signer: bool,
    pub needs_chain_id: bool,
    pub reports: bool,
    pub keystore_path: Option<Seq<char>>,
    pub account_path: Option<Seq<char>>,
    pub network: Option<Seq<char>>,
}

impl View for CommandPlan {
    type V = CommandPlanView;

    open spec fn view(&self) -> CommandPlanView {
        CommandPlanView {
            label: self.label@,
            account: self.account@,
            needs_signer: self.needs_signer,
            needs_chain_id: self.needs_chain_id,
            reports: self.reports,
            keystore_path: opt_chars(self.keystore_path),
            account_path: opt_chars(self.account_path),
            network: opt_chars(self.network),
        }
    }
}

/// The label under which the result of a command is shown.
pub open spec fn label_of(c: CommandView) -> Seq<char> {
    match c {
        CommandView::Declare => "declare"@,
        CommandView::Deploy => "deploy"@,
        CommandView::Call => "call"@,
        CommandView::Invoke => "invoke"@,
        CommandView::MulticallNew { .. } => "multicall new"@,
        CommandView::MulticallRun => "multicall run"@,
        CommandView::AccountAdd { .. } => "account add"@,
        CommandView::AccountCreate { .. } => "account create"@,
        CommandView::AccountDeploy { .. } => "account deploy"@,
        CommandView::AccountDelete { .. } => "account delete"@,
        CommandView::ShowConfig => "show-config"@,
        CommandView::Script => "script"@,
    }
}

/// A path, if it is not empty.
pub open spec fn non_empty(s: Seq<char>) -> Option<Seq<char>> {
    if s.len() > 0 {
        Some(s)
    } else {
        None
    }
}

/// What is shown for an error that stops a command before it starts.
pub open spec fn error_text(e: CommandError) -> Seq<char> {
    match e {
        CommandError::MissingName => "required argument --name not provided"@,
        CommandError::MissingNetwork => "required argument --network not provided"@,
        CommandError::Signer(SignerError::AmbiguousSignerSource) =>
            "both a keystore and an account name were given"@,
        CommandError::Signer(SignerError::SignerNotFound) =>
            "no account of that name on this network"@,
    }
}

impl CommandError {
    /// The message shown for the error.
    pub fn message(&self) -> (r: String)
        ensures
            r@ == error_text(*self),
    {
        match self {
            CommandError::MissingName => "required argument --name not provided".to_owned(),
            CommandError::MissingNetwork => "required argument --network not provided".to_owned(),
            CommandError::Signer(SignerError::AmbiguousSignerSource) =>
                "both a keystore and an account name were given".to_owned(),
            CommandError::Signer(SignerError::SignerNotFound) =>
                "no account of that name on this network".to_owned(),
        }
    }
}

/// The account that a command on an account itself works on: with a
/// keystore, the configured one; without, the name given, which must be there.
/// A keystore together with a name is ambiguous.
pub open spec fn account_for(config: CastConfigView, name: Option<Seq<char>>) -> Result<
    Seq<char>,
    CommandError,
> {
    if is_ambiguous(config.keystore, name) {
        Err(CommandError::Signer(SignerError::AmbiguousSignerSource))
    } else if config.keystore.len() > 0 {
        Ok(config.account)
    } else {
        match name {
            Some(n) => Ok(n),
            None => Err(CommandError::MissingName),
        }
    }
}

/// A plan that needs nothing beyond its label and account.
pub open spec fn plain_plan(c: CommandView, account: Seq<char>) -> CommandPlanView {
    CommandPlanView {
        label: label_of(c),
        account,
        needs_signer: false,
        needs_chain_id: false,
        reports: true,
        keystore_path: None,
        account_path: None,
        network: None,
    }
}

/// The plan of a command under a configuration, or the error that stops it
/// before anything is sent.
pub open spec fn planned(c: CommandView, config: CastConfigView) -> Result<
    CommandPlanView,
    CommandError,
> {
    match c {
        CommandView::Declare | CommandView::Deploy | CommandView::Invoke | CommandView::MulticallRun => Ok(
            CommandPlanView { needs_signer: true, ..plain_plan(c, config.account) },
        ),
        CommandView::Call | CommandView::ShowConfig | CommandView::Script => Ok(
            plain_plan(c, config.account),
        ),
        CommandView::MulticallNew { output_path } => Ok(
            CommandPlanView { reports: output_path is Some, ..plain_plan(c, config.account) },
        ),
        CommandView::AccountAdd { name } => Ok(
            CommandPlanView { needs_chain_id: true, ..plain_plan(c, name) },
        ),
        CommandView::AccountCreate { name, network } => match account_for(config, name) {
            Ok(account) => match network {
                Some(n) => Ok(CommandPlanView { network: Some(n), ..plain_plan(c, account) }),
                None => Err(CommandError::MissingNetwork),
            },
            Err(e) => Err(e),
        },
        CommandView::AccountDeploy { name } => match account_for(config, name) {
            Ok(account) => Ok(
                CommandPlanView {
                    needs_chain_id: true,
                    keystore_path: non_empty(config.keystore),
                    account_path: non_empty(config.account),
                    ..plain_plan(c, account)
                },
            ),
            Err(e) => Err(e),
        },
        CommandView::AccountDelete { name, network } => match name {
            Some(n) => Ok(
                CommandPlanView { needs_chain_id: network is None, network, ..plain_plan(c, n) },
            ),
            None => Err(CommandError::MissingName),
        },
    }
}

/// Creating an account asks nothing of the node: whenever its plan is made,
/// neither the chain id nor a signer is needed, and the network is the one
/// that was named.
pub proof fn lemma_create_asks_nothing_of_the_node(
    name: Option<Seq<char>>,
    network: Option<Seq<char>>,
    config: CastConfigView,
)
    ensures
        planned(CommandView::AccountCreate { name, network }, config) matches Ok(p) ==> {
            &&& !p.needs_chain_id
            &&& !p.needs_signer
            &&& network is Some
            &&& p.network == network
        },
        network is None ==> planned(CommandView::AccountCreate { name, network }, config) is Err,
{
}

/// Whether a result of `plan_command` is the one the model gives.
pub open spec fn plan_agrees(
    r: Result<CommandPlan, CommandError>,
    model: Result<CommandPlanView, CommandError>,
) -> bool {
    match r {
        Ok(p) => model == Ok::<CommandPlanView, CommandError>(p@),
        Err(e) => model == Err::<CommandPlanView, CommandError>(e),
    }
}

fn label(command: &Command) -> (r: String)
    ensures
        r@ == label_of(command@),
{
    match command {
        Command::Declare => "declare".to_owned(),
        Command::Deploy => "deploy".to_owned(),
        Command::Call => "call".to_owned(),
        Command::Invoke => "invoke".to_owned(),
        Command::MulticallNew { .. } => "multicall new".to_owned(),
        Command::MulticallRun => "multicall run".to_owned(),
        Command::AccountAdd { .. } => "account add".to_owned(),
        Command::AccountCreate { .. } => "account create".to_owned(),
        Command::AccountDeploy { .. } => "account deploy".to_owned(),
        Command::AccountDelete { .. } => "account delete".to_owned(),
        Command::ShowConfig => "show-config".to_owned(),
        Command::Script => "script".to_owned(),
    }
}

fn non_empty_copy(s: &String) -> (r: Option<String>)
    ensures
        opt_chars(r) == non_empty(s@),
{
    if s.as_str().is_empty() {
        None
    } else {
        Some(s.clone())
    }
}

fn copy_option(s: &Option<String>) -> (r: Option<String>)
    ensures
        opt_chars(r) == opt_chars(*s),
{
    match s {
        Some(v) => Some(v.clone()),
        None => None,
    }
}

/// Settles the account for a command that works on an account itself.
pub fn account_for_command(config: &CastConfig, name: &Option<String>) -> (r: Result<
    String,
    CommandError,
>)
    ensures
        match r {
            Ok(a) => account_for(config@, opt_chars(*name)) == Ok::<Seq<char>, CommandError>(a@),
            Err(e) => account_for(config@, opt_chars(*name)) == Err::<Seq<char>, CommandError>(e),
        },
{
    let keystore_set = !config.keystore.as_str().is_empty();
    match name {
        Some(n) => {
            if keystore_set && !n.as_str().is_empty() {
                Err(CommandError::Signer(SignerError::AmbiguousSignerSource))
            } else if keystore_set {
                Ok(config.account.clone())
            } else {
                Ok(n.clone())
            }
        },
        None => {
            if keystore_set {
                Ok(config.account.clone())
            } else {
                Err(CommandError::MissingName)
            }
        },
    }
}

/// Plans a command: which account it works on, what has to be fetched or
/// resolved first, and under which label the result is shown. Every error
/// comes before anything is sent or written. Creating an account asks
/// nothing of the node: its network is the one named on the command line.
pub fn plan_command(command: &Command, config: &CastConfig) -> (r: Result<CommandPlan, CommandError>)
    ensures
        plan_agrees(r, planned(command@, config@)),
{
    let plain = CommandPlan {
        label: label(command),
        account: config.account.clone(),
        needs_signer: false,
        needs_chain_id: false,
        reports: true,
        keystore_path: None,
        account_path: None,
        network: None,
    };
    match command {
        Command::Declare | Command::Deploy | Command::Invoke | Command::MulticallRun => Ok(
            CommandPlan { needs_signer: true, ..plain },
        ),
        Command::Call | Command::ShowConfig | Command::Script => Ok(plain),
        Command::MulticallNew { output_path } => Ok(
            CommandPlan { reports: output_path.is_some(), ..plain },
        ),
        Command::AccountAdd { name } => Ok(
            CommandPlan { account: name.clone(), needs_chain_id: true, ..plain },
        ),
        Command::AccountCreate { name, network } => match account_for_command(config, name) {
            Ok(account) => match network {
                Some(n) => Ok(CommandPlan { account, network: Some(n.clone()), ..plain }),
                None => Err(CommandError::MissingNetwork),
            },
            Err(e) => Err(e),
        },
        Command::AccountDeploy { name } => match account_for_command(config, name) {
            Ok(account) => Ok(
                CommandPlan {
                    account,
                    needs_chain_id: true,
                    keystore_path: non_empty_copy(&config.keystore),
                    account_path: non_empty_copy(&config.account),
                    ..plain
                },
            ),
            Err(e) => Err(e),
        },
        Command::AccountDelete { name, network } => match name {
            Some(n) => Ok(
                CommandPlan {
                    account: n.clone(),
                    needs_chain_id: network.is_none(),
                    network: copy_option(network),
                    ..plain
                },
            ),
            None => Err(CommandError::MissingName),
        },
    }
}

} // verus!
