//! The shells: the hook that passes a choice on to them, and their completions.
use crate::platform::{file_name, file_name_of, Platform};
use crate::settings::{
    lines_in, no_line, one_line, should_print_shell_tip, wants_tip, Environment, EnvironmentModel,
    Line, LineModel, Options, OptionsModel,
};
use crate::style::{paint, paint_strong, painted, strong, Style};
use crate::text::{same, text_of};
use vstd::prelude::*;

verus! {

/// A shell that can be set up.
#[derive(Debug, Clone, Copy, PartialEq, Eq)]
pub enum Shell {
    Bash,
    Zsh,
    Fish,
}

/// The hook for Bash and Zsh: after each command that may have switched, the
/// shell takes the remembered profile over and drops static credentials.
pub const POSIX_HOOK: &'static str = r#"awswap() {
  command awswap "$@"
  local awswap_status=$?
  if [ "$awswap_status" -eq 0 ]; then
    case "${1-}" in
      init|list|ls|current|status|doctor|completions|help|version|-h|--help|-V|--version) ;;
      *)
        local awswap_profile
        awswap_profile="$(env AWS_PROFILE= AWS_DEFAULT_PROFILE= awswap current 2>/dev/null)"
        if [ -n "$awswap_profile" ]; then
          export AWS_PROFILE="$awswap_profile"
          export AWS_DEFAULT_PROFILE="$awswap_profile"
          unset AWS_ACCESS_KEY_ID AWS_SECRET_ACCESS_KEY AWS_SESSION_TOKEN AWS_SECURITY_TOKEN
        fi
        ;;
    esac
  fi
  return "$awswap_status"
}
export AWSWAP_SHELL_HOOK=1
if awswap_profile="$(env AWS_PROFILE= AWS_DEFAULT_PROFILE= awswap current 2>/dev/null)" && [ -n "$awswap_profile" ]; then
  export AWS_PROFILE="$awswap_profile"
  export AWS_DEFAULT_PROFILE="$awswap_profile"
  unset AWS_ACCESS_KEY_ID AWS_SECRET_ACCESS_KEY AWS_SESSION_TOKEN AWS_SECURITY_TOKEN
fi
"#;

/// The hook for Fish.
pub const FISH_HOOK: &'static str = r#"function awswap
    command awswap $argv
    set -l awswap_status $status
    if test $awswap_status -eq 0
        switch (string join ' ' $argv)
            case init list ls current status doctor completions help version '-h' '--help' '-V' '--version'
            case '*'
                set -l awswap_profile (env AWS_PROFILE= AWS_DEFAULT_PROFILE= awswap current 2>/dev/null)
                if test -n "$awswap_profile"
                    set -gx AWS_PROFILE "$awswap_profile"
                    set -gx AWS_DEFAULT_PROFILE "$awswap_profile"
                    set -e AWS_ACCESS_KEY_ID AWS_SECRET_ACCESS_KEY AWS_SESSION_TOKEN AWS_SECURITY_TOKEN
                end
        end
    end
    return $awswap_status
end
set -gx AWSWAP_SHELL_HOOK 1
set -l awswap_profile (env AWS_PROFILE= AWS_DEFAULT_PROFILE= awswap current 2>/dev/null)
if test -n "$awswap_profile"
    set -gx AWS_PROFILE "$awswap_profile"
    set -gx AWS_DEFAULT_PROFILE "$awswap_profile"
    set -e AWS_ACCESS_KEY_ID AWS_SECRET_ACCESS_KEY AWS_SESSION_TOKEN AWS_SECURITY_TOKEN
end
"#;

pub const BASH_COMPLETIONS: &'static str = r#"_awswap() {
  local current command profiles
  current="${COMP_WORDS[COMP_CWORD]}"
  command="${COMP_WORDS[1]-}"
  profiles="$(command awswap list --quiet 2>/dev/null)"
  if [ "$COMP_CWORD" -eq 1 ]; then
    COMPREPLY=( $(compgen -W "current list status doctor login init completions help - --no-ecr --registry --quiet --json --verbose $profiles" -- "$current") )
  elif [[ "$command" == "init" || "$command" == "completions" ]]; then
    COMPREPLY=( $(compgen -W "bash zsh fish" -- "$current") )
  elif [[ "$command" == "login" || "$command" == "status" || "$command" == "doctor" ]]; then
    COMPREPLY=( $(compgen -W "$profiles" -- "$current") )
  fi
}
complete -F _awswap awswap
"#;

pub const ZSH_COMPLETIONS: &'static str = r#"#compdef awswap
_awswap() {
  local -a commands profiles
  commands=(current list status doctor login init completions help - --no-ecr --registry --quiet --json --verbose)
  profiles=("${(@f)$(command awswap list --quiet 2>/dev/null)}")
  if (( CURRENT == 2 )); then
    _describe 'command or profile' commands
    _describe 'AWS profile' profiles
  elif [[ "$words[2]" == init || "$words[2]" == completions ]]; then
    _values 'shell' bash zsh fish
  elif [[ "$words[2]" == login || "$words[2]" == status || "$words[2]" == doctor ]]; then
    _describe 'AWS profile' profiles
  fi
}
compdef _awswap awswap
"#;

pub const FISH_COMPLETIONS: &'static str = r#"complete -c awswap -f
complete -c awswap -n '__fish_use_subcommand' -a 'current list status doctor login init completions help -'
complete -c awswap -n '__fish_use_subcommand' -a '(command awswap list --quiet 2>/dev/null)'
complete -c awswap -n '__fish_seen_subcommand_from login status doctor' -a '(command awswap list --quiet 2>/dev/null)'
complete -c awswap -n '__fish_seen_subcommand_from init completions' -a 'bash zsh fish'
complete -c awswap -l no-ecr -d 'Skip ECR authentication'
complete -c awswap -s r -l registry -r -d 'ECR registry or account ID'
complete -c awswap -s q -l quiet -d 'Suppress progress output'
complete -c awswap -l json -d 'Emit JSON'
complete -c awswap -s v -l verbose -d 'Show detailed diagnostics'
"#;

/// The hook for a shell.
pub open spec fn hook_of(shell: Shell) -> Seq<char> {
    match shell {
        Shell::Bash => POSIX_HOOK@,
        Shell::Zsh => POSIX_HOOK@,
        Shell::Fish => FISH_HOOK@,
    }
}

/// The completions for a shell.
pub open spec fn completions_of(shell: Shell) -> Seq<char> {
    match shell {
        Shell::Bash => BASH_COMPLETIONS@,
        Shell::Zsh => ZSH_COMPLETIONS@,
        Shell::Fish => FISH_COMPLETIONS@,
    }
}

/// The hook for a shell.
pub fn print_shell_hook(shell: Shell) -> (result: &'static str)
    ensures
        result@ == hook_of(shell),
{
    match shell {
        Shell::Bash => POSIX_HOOK,
        Shell::Zsh => POSIX_HOOK,
        Shell::Fish => FISH_HOOK,
    }
}

/// The completions for a shell.
pub fn print_completions(shell: Shell) -> (result: &'static str)
    ensures
        result@ == completions_of(shell),
{
    match shell {
        Shell::Bash => BASH_COMPLETIONS,
        Shell::Zsh => ZSH_COMPLETIONS,
        Shell::Fish => FISH_COMPLETIONS,
    }
}

/// The command that installs the hook in a shell.
pub open spec fn setup_command(shell: Seq<char>) -> Seq<char> {
    if shell == "fish"@ {
        "awswap init fish | source"@
    } else {
        "eval \"$(awswap init "@ + shell + ")\""@
    }
}

/// The name of the shell whose path is given.
pub open spec fn shell_named(platform: Platform, path: Option<Seq<char>>) -> Option<Seq<char>> {
    match path {
        Some(path) => file_name_of(platform, path),
        None => None,
    }
}

/// The command that installs the hook in the user's shell, whose path is given;
/// where that is none of those that can be set up, the one for Zsh.
pub open spec fn setup_hint(platform: Platform, path: Option<Seq<char>>) -> Seq<char> {
    match shell_named(platform, path) {
        Some(shell) => if shell == "bash"@ || shell == "zsh"@ || shell == "fish"@ {
            setup_command(shell)
        } else {
            setup_command("zsh"@)
        },
        None => setup_command("zsh"@),
    }
}

/// The command that installs the hook in a shell.
pub fn shell_setup_command(shell: &str) -> (result: String)
    ensures
        result@ == setup_command(shell@),
{
    if same(shell, "fish") {
        "awswap init fish | source".to_owned()
    } else {
        let mut command = "eval \"$(awswap init ".to_owned();
        command.append(shell);
        command.append(")\"");
        command
    }
}

/// The name of the shell whose path is given.
pub fn shell_name(platform: Platform, path: &Option<String>) -> (result: Option<String>)
    ensures
        text_of(result) == shell_named(platform, text_of(*path)),
{
    match path {
        Some(path) => file_name(platform, path.as_str()),
        None => None,
    }
}

/// The command that installs the hook in the user's shell.
pub fn shell_setup_hint(platform: Platform, path: &Option<String>) -> (result: String)
    ensures
        result@ == setup_hint(platform, text_of(*path)),
{
    match shell_name(platform, path) {
        Some(shell) => {
            if same(shell.as_str(), "bash") || same(shell.as_str(), "zsh") || same(
                shell.as_str(),
                "fish",
            ) {
                return shell_setup_command(shell.as_str());
            }
        },
        None => {},
    }
    shell_setup_command("zsh")
}

/// Whether the hook is installed, in words.
pub open spec fn hook_label(active: bool) -> Seq<char> {
    if active {
        "active"@
    } else {
        "not installed"@
    }
}

/// Whether the hook is installed, in words.
pub fn shell_hook_label(active: bool) -> (result: &'static str)
    ensures
        result@ == hook_label(active),
{
    if active {
        "active"
    } else {
        "not installed"
    }
}

/// The advice to install the hook, where it is called for.
pub open spec fn tip_lines(options: OptionsModel, environment: EnvironmentModel) -> Seq<LineModel> {
    if wants_tip(options, environment) {
        seq![
            LineModel::Note(
                strong(Style::Cyan, "tip:"@, environment.color) + " shell unchanged; run "@ + painted(
                    Style::Cyan,
                    setup_hint(environment.places.platform, environment.shell),
                    environment.color,
                ) + " once to activate future selections"@,
            ),
        ]
    } else {
        Seq::empty()
    }
}

/// The advice to install the hook, where it is called for.
pub fn print_shell_tip(options: &Options, environment: &Environment) -> (result: Vec<Line>)
    ensures
        lines_in(result@) == tip_lines(options@, environment@),
{
    if !should_print_shell_tip(options, environment) {
        return no_line();
    }
    let hint = shell_setup_hint(environment.places.platform, &environment.shell);
    let shown = paint(Style::Cyan, hint.as_str(), environment.color);
    let mut line = paint_strong(Style::Cyan, "tip:", environment.color);
    line.append(" shell unchanged; run ");
    line.append(shown.as_str());
    line.append(" once to activate future selections");
    one_line(Line::Note(line))
}

} // verus!
