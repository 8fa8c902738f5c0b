use clap::{Arg, Command};
use clap_complete_command::{Dialect, Generators, Shell};

fn cli() -> Command<'static> {
    Command::new("mycli")
        .about("Tests completions")
        .arg(Arg::new("file").help("some input file"))
        .arg(
            Arg::new("verbose")
                .short('v')
                .long("verbose")
                .help("say more"),
        )
        .subcommand(
            Command::new("test").about("tests things").arg(
                Arg::new("case")
                    .long("case")
                    .takes_value(true)
                    .help("the case to test"),
            ),
        )
}

fn script(shell: Shell, bin_name: &str) -> Vec<u8> {
    let mut buffer = Vec::new();
    shell.generate(&mut cli(), bin_name, &mut buffer);
    buffer
}

fn text(shell: Shell, bin_name: &str) -> String {
    String::from_utf8(script(shell, bin_name)).unwrap()
}

#[test]
fn file_name_bash() {
    assert_eq!(Shell::Bash.to_generator().file_name("mycli"), "mycli.bash");
}

#[test]
fn file_name_elvish() {
    assert_eq!(Shell::Elvish.to_generator().file_name("mycli"), "mycli.elv");
}

#[test]
fn file_name_fig() {
    assert_eq!(Shell::Fig.to_generator().file_name("mycli"), "mycli.ts");
}

#[test]
fn file_name_fish() {
    assert_eq!(Shell::Fish.to_generator().file_name("mycli"), "mycli.fish");
}

#[test]
fn file_name_powershell() {
    assert_eq!(
        Shell::PowerShell.to_generator().file_name("mycli"),
        "_mycli.ps1"
    );
}

#[test]
fn file_name_zsh() {
    assert_eq!(Shell::Zsh.to_generator().file_name("mycli"), "_mycli");
}

#[test]
fn file_name_of_empty_program_name() {
    assert_eq!(Generators::Shell(Dialect::Bash).file_name(""), ".bash");
    assert_eq!(Generators::Shell(Dialect::Zsh).file_name(""), "_");
    assert_eq!(Generators::Fig.file_name(""), ".ts");
}

#[test]
fn file_name_is_stable_across_calls() {
    for shell in Shell::value_variants() {
        let generator = shell.to_generator();
        assert_eq!(generator.file_name("mycli"), generator.file_name("mycli"));
    }
}

#[test]
fn bash_script_defines_the_completion_function() {
    let text = text(Shell::Bash, "mycli");
    assert!(text.starts_with("_mycli() {\n"));
    assert!(text.ends_with("complete -F _mycli -o bashdefault -o default mycli\n"));
    assert!(text.contains("--verbose"));
}

#[test]
fn elvish_script_sets_the_completer() {
    let text = text(Shell::Elvish, "mycli");
    assert!(text.starts_with("\nuse builtin;\nuse str;\n"));
    assert!(text.contains("set edit:completion:arg-completer[mycli] = {|@words|"));
}

#[test]
fn fig_script_declares_the_spec() {
    let text = text(Shell::Fig, "mycli");
    assert!(text.starts_with(
        "const completion: Fig.Spec = {\n  name: \"mycli\",\n  description: \"Tests completions\",\n"
    ));
    assert!(text.ends_with("};\n\nexport default completion;\n"));
}

#[test]
fn fish_script_completes_the_program() {
    let text = text(Shell::Fish, "mycli");
    assert!(text.starts_with("complete -c mycli -n \"__fish_use_subcommand\""));
    assert!(text.lines().all(|line| line.starts_with("complete -c mycli ")));
}

#[test]
fn powershell_script_registers_the_completer() {
    let text = text(Shell::PowerShell, "mycli");
    assert!(text.starts_with("\nusing namespace System.Management.Automation\n"));
    assert!(text.contains(
        "Register-ArgumentCompleter -Native -CommandName 'mycli' -ScriptBlock {"
    ));
}

#[test]
fn zsh_script_names_the_program() {
    let text = text(Shell::Zsh, "mycli");
    assert!(text.starts_with("#compdef mycli\n"));
    assert!(text.ends_with("_mycli \"$@\"\n"));
}

#[test]
fn script_follows_the_program_name() {
    let text = text(Shell::Zsh, "other");
    assert!(text.starts_with("#compdef other\n"));
}

#[test]
fn generate_appends_to_the_buffer() {
    for shell in Shell::value_variants() {
        let mut buffer = b"# before\n".to_vec();
        shell.generate(&mut cli(), "mycli", &mut buffer);
        let mut expected = b"# before\n".to_vec();
        expected.extend(script(*shell, "mycli"));
        assert!(buffer.len() > 9);
        assert_eq!(buffer, expected);
    }
}

#[test]
fn generate_goes_through_the_bound_generator() {
    for shell in Shell::value_variants() {
        let mut buffer = Vec::new();
        shell
            .to_generator()
            .generate(&mut cli(), "mycli", &mut buffer);
        assert_eq!(buffer, script(*shell, "mycli"));
    }
}

#[test]
fn generate_twice_gives_identical_bytes() {
    for shell in Shell::value_variants() {
        let first = script(*shell, "mycli");
        let second = script(*shell, "mycli");
        assert!(!first.is_empty());
        assert_eq!(first, second);
    }
}

#[test]
fn generate_twice_on_one_command_gives_identical_bytes() {
    for shell in Shell::value_variants() {
        let mut command = cli();
        let mut first = Vec::new();
        let mut second = Vec::new();
        shell.generate(&mut command, "mycli", &mut first);
        shell.generate(&mut command, "mycli", &mut second);
        assert_eq!(first, second);
    }
}

#[test]
fn targets_give_different_scripts() {
    let variants = Shell::value_variants();
    for (i, a) in variants.iter().enumerate() {
        for (j, b) in variants.iter().enumerate() {
            assert_eq!(script(*a, "mycli") == script(*b, "mycli"), i == j);
        }
    }
}

#[test]
fn generation_is_independent_of_earlier_targets() {
    for earlier in Shell::value_variants() {
        for later in Shell::value_variants() {
            let alone = script(*later, "mycli");
            let before = script(*earlier, "mycli");
            let mut buffer = Vec::new();
            earlier.generate(&mut cli(), "mycli", &mut buffer);
            assert_eq!(buffer, before);
            later.generate(&mut cli(), "mycli", &mut buffer);
            assert_eq!(&buffer[..before.len()], &before[..]);
            assert_eq!(&buffer[before.len()..], &alone[..]);
        }
    }
}

#[test]
fn generate_to_names_the_file_after_the_program() {
    let file = Shell::Bash.generate_to(&mut cli(), "mycli");
    assert_eq!(file.name, "mycli.bash");
    let file = Shell::PowerShell.generate_to(&mut cli(), "mycli");
    assert_eq!(file.name, "_mycli.ps1");
}

#[test]
fn generate_to_uses_the_name_of_the_bound_generator() {
    for shell in Shell::value_variants() {
        let file = shell.generate_to(&mut cli(), "mycli");
        assert_eq!(file.name, shell.to_generator().file_name("mycli"));
    }
}

#[test]
fn generate_to_holds_the_generated_script() {
    for shell in Shell::value_variants() {
        let file = shell.generate_to(&mut cli(), "mycli");
        assert!(!file.contents.is_empty());
        assert_eq!(file.contents, script(*shell, "mycli"));
    }
}

#[test]
fn generate_on_one_command_after_another_target() {
    for earlier in Shell::value_variants() {
        for later in Shell::value_variants() {
            let mut command = cli();
            let mut before = Vec::new();
            earlier.generate(&mut command, "mycli", &mut before);
            let kept = before.clone();
            let mut after = Vec::new();
            later.generate(&mut command, "mycli", &mut after);
            assert_eq!(after, script(*later, "mycli"));
            assert_eq!(before, kept);
        }
    }
}

#[test]
fn generate_on_one_command_between_other_targets() {
    let mut command = cli();
    let mut first = Vec::new();
    Shell::Bash.generate(&mut command, "mycli", &mut first);
    let mut between = Vec::new();
    Shell::Fig.generate(&mut command, "mycli", &mut between);
    let file = Shell::Zsh.generate_to(&mut command, "mycli");
    let mut last = Vec::new();
    Shell::Bash.generate(&mut command, "mycli", &mut last);
    assert_eq!(first, last);
    assert_eq!(between, script(Shell::Fig, "mycli"));
    assert_eq!(file.contents, script(Shell::Zsh, "mycli"));
}

#[test]
fn generate_to_on_a_built_command() {
    for shell in Shell::value_variants() {
        let mut command = cli();
        let first = shell.generate_to(&mut command, "mycli");
        let second = shell.generate_to(&mut command, "mycli");
        assert_eq!(first.name, second.name);
        assert_eq!(first.contents, second.contents);
    }
}

#[test]
fn fish_script_may_be_empty() {
    let mut command = Command::new("mycli").disable_help_flag(true);
    let mut buffer = b"kept".to_vec();
    Shell::Fish.generate(&mut command, "mycli", &mut buffer);
    assert_eq!(buffer, b"kept".to_vec());
}
