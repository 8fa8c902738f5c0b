//! The completion targets: their canonical names, their order, and the
//! generator that each of them is bound to.

use vstd::prelude::*;
use crate::generator::Dialect;
use crate::generator::Generators;
use crate::generator::definition_accepted;
use crate::generator::keeps_scripts;
use crate::text::fold_case;
use crate::text::is_lowercase;
use crate::text::lemma_fold_case_of_lowercase;
use crate::text::precedes;
use crate::text::precedes_at;

verus! {

/// A completion target: a shell dialect or an integration format for which a
/// completion script can be generated.
#[derive(Clone, Copy, Debug, PartialEq, Eq, Structural)]
#[non_exhaustive]
pub enum Shell {
    /// Bourne Again SHell (bash)
    Bash,
    /// Elvish shell
    Elvish,
    /// Fig
    Fig,
    /// Friendly Interactive SHell (fish)
    Fish,
    /// PowerShell
    PowerShell,
    /// Z SHell (zsh)
    Zsh,
}

/// A completion file that is ready to be written: its name, and the script
/// that it is to hold.
#[derive(Debug)]
pub struct CompletionFile {
    /// The name of the file, without a directory.
    pub name: String,
    /// The completion script.
    pub contents: Vec<u8>,
}

impl Shell {
    /// The canonical name of a target.
    pub open spec fn spec_name(self) -> Seq<char> {
        match self {
            Shell::Bash => "bash"@,
            Shell::Elvish => "elvish"@,
            Shell::Fig => "fig"@,
            Shell::Fish => "fish"@,
            Shell::PowerShell => "powershell"@,
            Shell::Zsh => "zsh"@,
        }
    }

    /// Every target, in the order in which the targets are enumerated.
    pub open spec fn all() -> Seq<Shell> {
        seq![Shell::Bash, Shell::Elvish, Shell::Fig, Shell::Fish, Shell::PowerShell, Shell::Zsh]
    }

    /// Whether the targets of `variants` stand in strict lexicographic order
    /// of their canonical names, letter case set aside.
    pub open spec fn ordered_by_name(variants: Seq<Shell>) -> bool {
        forall|i: int, j: int|
            0 <= i < j < variants.len() ==> precedes(
                fold_case(#[trigger] variants[i].spec_name()),
                fold_case(#[trigger] variants[j].spec_name()),
            )
    }

    /// The generator that a target is bound to.
    pub open spec fn generator(self) -> Generators {
        match self {
            Shell::Bash => Generators::Shell(Dialect::Bash),
            Shell::Elvish => Generators::Shell(Dialect::Elvish),
            Shell::Fig => Generators::Fig,
            Shell::Fish => Generators::Shell(Dialect::Fish),
            Shell::PowerShell => Generators::Shell(Dialect::PowerShell),
            Shell::Zsh => Generators::Shell(Dialect::Zsh),
        }
    }

    /// What a buffer holds after the completion script of a command
    /// definition was generated into it: what it held before, followed by
    /// the script of the target's generator.
    pub open spec fn spec_generate(
        self,
        command: clap::Command<'_>,
        bin_name: Seq<char>,
        buffer: Seq<u8>,
    ) -> Seq<u8> {
        buffer + self.generator().spec_script(command, bin_name)
    }

    /// The canonical name of this target, by which it is displayed and
    /// selected: non-empty, and made of lowercase letters.
    pub fn name(&self) -> (name: &'static str)
        ensures
            name@ == self.spec_name(),
            name@.len() > 0,
            is_lowercase(name@),
    {
        proof {
            Shell::lemma_name_lowercase(*self);
        }
        match self {
            Shell::Bash => "bash",
            Shell::Elvish => "elvish",
            Shell::Fig => "fig",
            Shell::Fish => "fish",
            Shell::PowerShell => "powershell",
            Shell::Zsh => "zsh",
        }
    }

    /// Every target, once each, ordered by canonical name.
    pub fn value_variants() -> (variants: &'static [Shell])
        ensures
            variants@ == Shell::all(),
            Shell::ordered_by_name(variants@),
            forall|shell: Shell| variants@.contains(shell),
            variants@.no_duplicates(),
    {
        proof {
            Shell::lemma_all_ordered_by_name();
            Shell::lemma_all_complete();
        }
        &[Shell::Bash, Shell::Elvish, Shell::Fig, Shell::Fish, Shell::PowerShell, Shell::Zsh]
    }

    /// The generator that writes the completions of this target.
    pub fn to_generator(&self) -> (generator: Generators)
        ensures
            generator == self.generator(),
    {
        match self {
            Shell::Bash => Generators::Shell(Dialect::Bash),
            Shell::Elvish => Generators::Shell(Dialect::Elvish),
            Shell::Fish => Generators::Shell(Dialect::Fish),
            Shell::PowerShell => Generators::Shell(Dialect::PowerShell),
            Shell::Zsh => Generators::Shell(Dialect::Zsh),
            Shell::Fig => Generators::Fig,
        }
    }

    /// Generates the completion script of `command` for this target, under
    /// the program name `bin_name`, and appends it to `buffer`. The
    /// definition is built on the way and left so: it is still accepted, and
    /// it gives every generator the script that it gave before.
    pub fn generate(&self, command: &mut clap::Command<'_>, bin_name: &str, buffer: &mut Vec<u8>)
        requires
            definition_accepted(*old(command), bin_name@),
        ensures
            final(buffer)@ == self.spec_generate(*old(command), bin_name@, old(buffer)@),
            definition_accepted(*final(command), bin_name@),
            keeps_scripts(*final(command), *old(command), bin_name@),
    {
        self.to_generator().generate(command, bin_name, buffer)
    }

    /// Prepares the completion file of `command` for this target, under the
    /// program name `bin_name`: the file's name as the target's generator
    /// chooses it, and the completion script as its contents. The file is
    /// left for the caller to write into a directory of its choice. The
    /// definition is left as [`Shell::generate`] leaves it.
    pub fn generate_to(&self, command: &mut clap::Command<'_>, bin_name: &str) -> (file: CompletionFile)
        requires
            definition_accepted(*old(command), bin_name@),
        ensures
            file.name@ == self.generator().spec_file_name(bin_name@),
            file.contents@ == self.generator().spec_script(*old(command), bin_name@),
            definition_accepted(*final(command), bin_name@),
            keeps_scripts(*final(command), *old(command), bin_name@),
    {
        let generator = self.to_generator();
        let name = generator.file_name(bin_name);
        let mut contents: Vec<u8> = Vec::new();
        generator.generate(command, bin_name, &mut contents);
        CompletionFile { name, contents }
    }

    /// The canonical name of every target is non-empty and made of lowercase
    /// letters.
    pub proof fn lemma_name_lowercase(shell: Shell)
        ensures
            shell.spec_name().len() > 0,
            is_lowercase(shell.spec_name()),
    {
        Shell::reveal_names();
    }

    /// No two targets share a canonical name.
    pub proof fn lemma_name_unique(a: Shell, b: Shell)
        ensures
            a.spec_name() == b.spec_name() <==> a == b,
    {
        Shell::reveal_names();
        if a != b {
            assert(a.spec_name().len() != b.spec_name().len() || a.spec_name()[0]
                != b.spec_name()[0]);
        }
    }

    /// The enumeration of the targets is in strict lexicographic order of the
    /// canonical names, letter case set aside.
    pub proof fn lemma_all_ordered_by_name()
        ensures
            Shell::ordered_by_name(Shell::all()),
    {
        let all = Shell::all();
        assert forall|i: int, j: int| 0 <= i < j < all.len() implies precedes(
            fold_case(#[trigger] all[i].spec_name()),
            fold_case(#[trigger] all[j].spec_name()),
        ) by {
            let a = all[i].spec_name();
            let b = all[j].spec_name();
            Shell::reveal_names();
            Shell::lemma_name_lowercase(all[i]);
            Shell::lemma_name_lowercase(all[j]);
            lemma_fold_case_of_lowercase(a);
            lemma_fold_case_of_lowercase(b);
            if i == 2 && j == 3 {
                assert(precedes_at(a, b, 2));
            } else {
                assert(precedes_at(a, b, 0));
            }
        }
    }

    /// The enumeration holds every target, and each of them once.
    pub proof fn lemma_all_complete()
        ensures
            forall|shell: Shell| Shell::all().contains(shell),
            Shell::all().no_duplicates(),
    {
        let all = Shell::all();
        assert forall|shell: Shell| all.contains(shell) by {
            let i: int = match shell {
                Shell::Bash => 0,
                Shell::Elvish => 1,
                Shell::Fig => 2,
                Shell::Fish => 3,
                Shell::PowerShell => 4,
                Shell::Zsh => 5,
            };
            assert(all[i] == shell);
        }
    }

    /// Two runs on the same target, command definition and program name
    /// append the same bytes, whatever the two buffers held before.
    pub proof fn lemma_generate_reproducible(
        shell: Shell,
        command: clap::Command<'_>,
        bin_name: Seq<char>,
        first: Seq<u8>,
        second: Seq<u8>,
    )
        ensures
            shell.spec_generate(command, bin_name, first).skip(first.len() as int)
                == shell.spec_generate(command, bin_name, second).skip(second.len() as int),
    {
        let script = shell.generator().spec_script(command, bin_name);
        assert((first + script).skip(first.len() as int) =~= script);
        assert((second + script).skip(second.len() as int) =~= script);
    }

    /// A run on a definition as an earlier run left it, for whichever target
    /// that was, appends the bytes that a run on the definition before would
    /// have appended under the same program name.
    pub proof fn lemma_generate_again(
        shell: Shell,
        before: clap::Command<'_>,
        after: clap::Command<'_>,
        bin_name: Seq<char>,
        buffer: Seq<u8>,
    )
        requires
            keeps_scripts(after, before, bin_name),
        ensures
            shell.spec_generate(after, bin_name, buffer) == shell.spec_generate(
                before,
                bin_name,
                buffer,
            ),
    {
        assert(shell.generator().spec_script(after, bin_name) == shell.generator().spec_script(
            before,
            bin_name,
        ));
    }

    /// A definition keeps its scripts over any number of runs: what holds
    /// from one run to the next holds from the first to the last.
    pub proof fn lemma_keeps_scripts_over_runs(
        first: clap::Command<'_>,
        between: clap::Command<'_>,
        last: clap::Command<'_>,
        bin_name: Seq<char>,
    )
        requires
            keeps_scripts(between, first, bin_name),
            keeps_scripts(last, between, bin_name),
        ensures
            keeps_scripts(last, first, bin_name),
    {
        assert forall|generator: Generators| #[trigger]
            generator.spec_script(last, bin_name) == generator.spec_script(first, bin_name) by {
            assert(generator.spec_script(between, bin_name) == generator.spec_script(
                first,
                bin_name,
            ));
        }
    }

    /// A run for one target neither alters what an earlier run for another
    /// target left in the buffer, nor depends on it: what it appends is what
    /// it writes into an empty buffer.
    pub proof fn lemma_generate_independent(
        earlier: Shell,
        earlier_command: clap::Command<'_>,
        earlier_name: Seq<char>,
        later: Shell,
        later_command: clap::Command<'_>,
        later_name: Seq<char>,
        buffer: Seq<u8>,
    )
        ensures
            ({
                let between = earlier.spec_generate(earlier_command, earlier_name, buffer);
                let after = later.spec_generate(later_command, later_name, between);
                &&& after.take(between.len() as int) == between
                &&& after.skip(between.len() as int) == later.spec_generate(
                    later_command,
                    later_name,
                    Seq::empty(),
                )
            }),
    {
        let between = earlier.spec_generate(earlier_command, earlier_name, buffer);
        let script = later.generator().spec_script(later_command, later_name);
        assert((between + script).take(between.len() as int) =~= between);
        assert((between + script).skip(between.len() as int) =~= script);
        assert(Seq::<u8>::empty() + script =~= script);
    }

    /// Makes the characters of the canonical names known to the verifier.
    proof fn reveal_names()
        ensures
            "bash"@ == seq!['b', 'a', 's', 'h'],
            "elvish"@ == seq!['e', 'l', 'v', 'i', 's', 'h'],
            "fig"@ == seq!['f', 'i', 'g'],
            "fish"@ == seq!['f', 'i', 's', 'h'],
            "powershell"@ == seq!['p', 'o', 'w', 'e', 'r', 's', 'h', 'e', 'l', 'l'],
            "zsh"@ == seq!['z', 's', 'h'],
    {
        reveal_strlit("bash");
        reveal_strlit("elvish");
        reveal_strlit("fig");
        reveal_strlit("fish");
        reveal_strlit("powershell");
        reveal_strlit("zsh");
        assert("bash"@ =~= seq!['b', 'a', 's', 'h']);
        assert("elvish"@ =~= seq!['e', 'l', 'v', 'i', 's', 'h']);
        assert("fig"@ =~= seq!['f', 'i', 'g']);
        assert("fish"@ =~= seq!['f', 'i', 's', 'h']);
        assert("powershell"@ =~= seq!['p', 'o', 'w', 'e', 'r', 's', 'h', 'e', 'l', 'l']);
        assert("zsh"@ =~= seq!['z', 's', 'h']);
    }
}

} // verus!
