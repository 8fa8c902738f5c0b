//! The generators behind the completion targets.
//!
//! The scripts themselves are written by `clap_complete` and
//! `clap_complete_fig`. This module chooses between them and states what is
//! taken on trust about them: the name that each gives the completion file,
//! that a script is appended to the buffer it is generated into, and what a
//! run leaves of the command definition.

use vstd::prelude::*;

verus! {

/// The command definition of `clap`, which the generators read. Its contents
/// are not modelled: a definition is only handed on to the generators.
#[verifier::external_type_specification]
#[verifier::external_body]
pub struct ExCommand<'help>(clap::Command<'help>);

/// A shell dialect that `clap_complete` writes completions for.
#[derive(Clone, Copy, Debug, PartialEq, Eq, Structural)]
pub enum Dialect {
    /// Bourne Again SHell (bash)
    Bash,
    /// Elvish shell
    Elvish,
    /// Friendly Interactive SHell (fish)
    Fish,
    /// PowerShell
    PowerShell,
    /// Z SHell (zsh)
    Zsh,
}

/// A generator of completion scripts: one of the shell dialects, or Fig.
#[derive(Clone, Copy, Debug, PartialEq, Eq, Structural)]
pub enum Generators {
    /// The generator of `clap_complete` for a shell dialect.
    Shell(Dialect),
    /// The generator of `clap_complete_fig`.
    Fig,
}

/// The script that `clap_complete::generate` writes with the generator of a
/// shell dialect, for a command definition and the name of the program.
///
/// Taken on trust: the script depends on these three alone. The generators
/// read no clock, environment or random source; they walk the arguments and
/// subcommands of the definition in the order in which it holds them. A value
/// parser that the definition holds is asked for its possible values: one
/// that the caller wrote is part of the definition, and is taken to answer
/// from its own state alone.
pub uninterp spec fn shell_script(dialect: Dialect, command: clap::Command<'_>, bin_name: Seq<char>) -> Seq<u8>;

/// The script that `clap_complete::generate` writes with the generator of
/// `clap_complete_fig`, for a command definition and the name of the program.
///
/// Taken on trust: the script depends on these two alone, as
/// [`shell_script`] says of its three.
pub uninterp spec fn fig_script(command: clap::Command<'_>, bin_name: Seq<char>) -> Seq<u8>;

/// Whether `clap_complete::generate` returns for a command definition under a
/// program name, whichever generator it is called with.
///
/// It does not return, but panics, where `clap` rejects the definition as it
/// builds it (the generated help flag and an argument of the definition share
/// the short letter `-h`; any of its debug assertions fails, where they are
/// compiled in), or where a generator meets what it cannot handle (an
/// argument that conflicts with an id that the definition does not declare;
/// a program name with a space in it beside subcommands). Nothing short of
/// the call tests this: a definition is accepted because its author wrote it
/// so.
pub uninterp spec fn definition_accepted(command: clap::Command<'_>, bin_name: Seq<char>) -> bool;

impl Dialect {
    /// The name of the completion file of a program in this dialect.
    pub open spec fn spec_file_name(self, name: Seq<char>) -> Seq<char> {
        match self {
            Dialect::Bash => name + ".bash"@,
            Dialect::Elvish => name + ".elv"@,
            Dialect::Fish => name + ".fish"@,
            Dialect::PowerShell => "_"@ + name + ".ps1"@,
            Dialect::Zsh => "_"@ + name,
        }
    }
}

/// Whether the definition `after` gives every generator, under the program
/// name, the script that the definition `before` gives it.
pub open spec fn keeps_scripts(
    after: clap::Command<'_>,
    before: clap::Command<'_>,
    bin_name: Seq<char>,
) -> bool {
    forall|generator: Generators| #[trigger]
        generator.spec_script(after, bin_name) == generator.spec_script(before, bin_name)
}

/// Calls `Generator::file_name` of `clap_complete::Shell`.
///
/// Taken on trust: the result is the program's name inside the fixed pattern
/// of the dialect (`{name}.bash`, `{name}.elv`, `{name}.fish`, `_{name}.ps1`,
/// `_{name}`).
#[verifier::external_body]
fn shell_file_name(dialect: Dialect, name: &str) -> (file: String)
    ensures
        file@ == dialect.spec_file_name(name@),
{
    let shell = match dialect {
        Dialect::Bash => clap_complete::Shell::Bash,
        Dialect::Elvish => clap_complete::Shell::Elvish,
        Dialect::Fish => clap_complete::Shell::Fish,
        Dialect::PowerShell => clap_complete::Shell::PowerShell,
        Dialect::Zsh => clap_complete::Shell::Zsh,
    };
    clap_complete::Generator::file_name(&shell, name)
}

/// Calls `Generator::file_name` of `clap_complete_fig::Fig`.
///
/// Taken on trust: the result is the program's name followed by `.ts`.
#[verifier::external_body]
fn fig_file_name(name: &str) -> (file: String)
    ensures
        file@ == name@ + ".ts"@,
{
    clap_complete::Generator::file_name(&clap_complete_fig::Fig, name)
}

/// Calls `clap_complete::generate` with the generator of the dialect and
/// with the buffer as the destination.
///
/// Taken on trust, of a definition that is accepted under the program name:
/// the buffer keeps what it held and the script follows it (a `Vec<u8>`
/// takes every write at its end and never refuses one), and the script is
/// the one that [`shell_script`] names. The call sets the program's name in
/// the definition and builds it. `clap` builds a definition once, so a later
/// call under the same name finds nothing to do and hands every generator
/// what this call handed its own: the definition stays accepted and keeps
/// its scripts.
#[verifier::external_body]
fn shell_generate(dialect: Dialect, command: &mut clap::Command<'_>, bin_name: &str, buffer: &mut Vec<u8>)
    requires
        definition_accepted(*old(command), bin_name@),
    ensures
        final(buffer)@ == old(buffer)@ + shell_script(dialect, *old(command), bin_name@),
        definition_accepted(*final(command), bin_name@),
        keeps_scripts(*final(command), *old(command), bin_name@),
{
    let shell = match dialect {
        Dialect::Bash => clap_complete::Shell::Bash,
        Dialect::Elvish => clap_complete::Shell::Elvish,
        Dialect::Fish => clap_complete::Shell::Fish,
        Dialect::PowerShell => clap_complete::Shell::PowerShell,
        Dialect::Zsh => clap_complete::Shell::Zsh,
    };
    clap_complete::generate(shell, command, bin_name, buffer)
}

/// Calls `clap_complete::generate` with the generator of
/// `clap_complete_fig` and with the buffer as the destination.
///
/// Taken on trust, of a definition that is accepted under the program name:
/// the buffer keeps what it held and the script follows it, and the script is
/// the one that [`fig_script`] names. The definition is built as
/// [`shell_generate`] says: it stays accepted and keeps its scripts.
#[verifier::external_body]
fn fig_generate(command: &mut clap::Command<'_>, bin_name: &str, buffer: &mut Vec<u8>)
    requires
        definition_accepted(*old(command), bin_name@),
    ensures
        final(buffer)@ == old(buffer)@ + fig_script(*old(command), bin_name@),
        definition_accepted(*final(command), bin_name@),
        keeps_scripts(*final(command), *old(command), bin_name@),
{
    clap_complete::generate(clap_complete_fig::Fig, command, bin_name, buffer)
}

impl Generators {
    /// The name of the completion file that this generator gives a program.
    pub open spec fn spec_file_name(self, name: Seq<char>) -> Seq<char> {
        match self {
            Generators::Shell(dialect) => dialect.spec_file_name(name),
            Generators::Fig => name + ".ts"@,
        }
    }

    /// The completion script that this generator writes for a command
    /// definition and the name of the program.
    pub open spec fn spec_script(self, command: clap::Command<'_>, bin_name: Seq<char>) -> Seq<u8> {
        match self {
            Generators::Shell(dialect) => shell_script(dialect, command, bin_name),
            Generators::Fig => fig_script(command, bin_name),
        }
    }

    /// The name of the file that holds the completions of the program `name`.
    pub fn file_name(&self, name: &str) -> (file: String)
        ensures
            file@ == self.spec_file_name(name@),
    {
        match self {
            Generators::Shell(dialect) => shell_file_name(*dialect, name),
            Generators::Fig => fig_file_name(name),
        }
    }

    /// Appends the completion script of `command`, under the program name
    /// `bin_name`, to `buffer`. The definition is built on the way and left
    /// so: it is still accepted, and it gives every generator the script
    /// that it gave before.
    pub fn generate(&self, command: &mut clap::Command<'_>, bin_name: &str, buffer: &mut Vec<u8>)
        requires
            definition_accepted(*old(command), bin_name@),
        ensures
            final(buffer)@ == old(buffer)@ + self.spec_script(*old(command), bin_name@),
            definition_accepted(*final(command), bin_name@),
            keeps_scripts(*final(command), *old(command), bin_name@),
    {
        match self {
            Generators::Shell(dialect) => shell_generate(*dialect, command, bin_name, buffer),
            Generators::Fig => fig_generate(command, bin_name, buffer),
        }
    }
}

} // verus!
