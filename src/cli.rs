use vstd::prelude::*;

verus! {

#[verifier::external_type_specification]
#[verifier::external_body]
pub struct ExCommand(clap::Command);

#[verifier::external_type_specification]
#[verifier::external_body]
pub struct ExArg(clap::Arg);

#[verifier::external_type_specification]
#[verifier::external_body]
pub struct ExArgMatches(clap::ArgMatches);

/// Relies on `clap::Command::new`: an empty command of that name.
#[verifier::external_body]
fn command_new(name: &'static str) -> clap::Command {
    clap::Command::new(name)
}

/// Relies on `clap::Command::arg`: adds an argument definition.
#[verifier::external_body]
fn command_arg(cmd: clap::Command, arg: clap::Arg) -> clap::Command {
    cmd.arg(arg)
}

/// Relies on `clap::Arg::new`: an argument with that id.
#[verifier::external_body]
fn arg_new(id: &'static str) -> clap::Arg {
    clap::Arg::new(id)
}

/// Relies on `clap::Arg::short`: sets the one-letter flag, which may not be `-`.
#[verifier::external_body]
fn arg_short(arg: clap::Arg, c: char) -> clap::Arg
    requires
        c != '-',
{
    arg.short(c)
}

/// Relies on `clap::Arg::long`: sets the long flag.
#[verifier::external_body]
fn arg_long(arg: clap::Arg, name: &'static str) -> clap::Arg {
    arg.long(name)
}

/// Relies on `clap::Arg::required`: the argument must be given.
#[verifier::external_body]
fn arg_required(arg: clap::Arg) -> clap::Arg {
    arg.required(true)
}

/// Relies on `clap::Arg::action` with `ArgAction::SetTrue`: a switch that
/// stores `true` when present and `false` otherwise.
#[verifier::external_body]
fn arg_switch(arg: clap::Arg) -> clap::Arg {
    arg.action(clap::ArgAction::SetTrue)
}

/// Relies on `clap::ArgMatches::try_get_one::<String>`: the value given for an
/// argument, `None` when it is absent or not a string.
#[verifier::external_body]
fn matches_value(m: &clap::ArgMatches, id: &str) -> Option<String> {
    m.try_get_one::<String>(id).ok().flatten().cloned()
}

/// Relies on `clap::ArgMatches::try_get_one::<bool>`: the state of a switch,
/// `None` when it is not a switch of the command.
#[verifier::external_body]
fn matches_switch(m: &clap::ArgMatches, id: &str) -> Option<bool> {
    m.try_get_one::<bool>(id).ok().flatten().copied()
}

/// Why the command line could not be read.
#[derive(Debug, Clone, Copy, PartialEq, Eq, Structural)]
pub enum CliError {
    /// No input directory was given.
    MissingInputDir,
}

/// Options of the indexer.
#[derive(Debug, Clone)]
pub struct Cli {
    /// Input directory to index.
    pub inputdir: String,
    /// Re-run the whole pipeline when the directory changes.
    pub watch: bool,
    /// Dry run: build the batch but do not contact the index service.
    pub noindex: bool,
}

impl Cli {
    /// The command-line grammar: `-i/--inputdir <DIR>` (required),
    /// `-w/--watch` and `-n/--noindex`. Parsing with it is left to the caller
    /// (`try_get_matches_from`), whose checks of the grammar may panic.
    pub fn command() -> clap::Command {
        let input = arg_required(arg_long(arg_short(arg_new("inputdir"), 'i'), "inputdir"));
        let watch = arg_switch(arg_long(arg_short(arg_new("watch"), 'w'), "watch"));
        let noindex = arg_switch(arg_long(arg_short(arg_new("noindex"), 'n'), "noindex"));
        command_arg(command_arg(command_arg(command_new("indexer"), input), watch), noindex)
    }

    /// Options from the values read off the command line; a switch that was
    /// not read counts as off.
    pub fn from_values(inputdir: Option<String>, watch: Option<bool>, noindex: Option<bool>) -> (r:
        Result<Cli, CliError>)
        ensures
            inputdir is None ==> r == Err::<Cli, CliError>(CliError::MissingInputDir),
            inputdir is Some ==> r is Ok,
            r is Ok ==> r->Ok_0.inputdir@ == inputdir->0@ && r->Ok_0.watch == (watch == Some(
                true,
            )) && r->Ok_0.noindex == (noindex == Some(true)),
    {
        match inputdir {
            Some(dir) => Ok(
                Cli {
                    inputdir: dir,
                    watch: watch == Some(true),
                    noindex: noindex == Some(true),
                },
            ),
            None => Err(CliError::MissingInputDir),
        }
    }

    /// Options from matches parsed with `Cli::command`.
    pub fn from_matches(m: &clap::ArgMatches) -> (r: Result<Cli, CliError>) {
        Cli::from_values(
            matches_value(m, "inputdir"),
            matches_switch(m, "watch"),
            matches_switch(m, "noindex"),
        )
    }

}

} // verus!
