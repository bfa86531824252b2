//! What the scripts for the shells do.
use crate::shell::{BASH_COMPLETIONS, FISH_COMPLETIONS, FISH_HOOK, POSIX_HOOK, ZSH_COMPLETIONS};
use crate::text::{contains, occurs_at};
use vstd::prelude::*;

verus! {

/// The hook for Bash and Zsh runs the command as it was given and keeps its status;
/// after one that may have switched, and at the start of the shell, it exports the
/// remembered profile in both variables and removes static credentials.
pub proof fn law_posix_hook()
    ensures
        contains(POSIX_HOOK@, "awswap() {\n  command awswap \"$@\"\n  local awswap_status=$?\n  if [ \"$awswap_status\" -eq 0 ]; then\n"@),
        contains(POSIX_HOOK@, "init|list|ls|current|status|doctor|completions|help|version|-h|--help|-V|--version) ;;\n      *)\n"@),
        contains(POSIX_HOOK@, "awswap_profile=\"$(env AWS_PROFILE= AWS_DEFAULT_PROFILE= awswap current 2>/dev/null)\"\n        if [ -n \"$awswap_profile\" ]; then\n          export AWS_PROFILE=\"$awswap_profile\"\n          export AWS_DEFAULT_PROFILE=\"$awswap_profile\"\n          unset AWS_ACCESS_KEY_ID AWS_SECRET_ACCESS_KEY AWS_SESSION_TOKEN AWS_SECURITY_TOKEN\n        fi\n"@),
        contains(POSIX_HOOK@, "  return \"$awswap_status\"\n}\nexport AWSWAP_SHELL_HOOK=1\n"@),
        contains(POSIX_HOOK@, "if awswap_profile=\"$(env AWS_PROFILE= AWS_DEFAULT_PROFILE= awswap current 2>/dev/null)\" && [ -n \"$awswap_profile\" ]; then\n  export AWS_PROFILE=\"$awswap_profile\"\n  export AWS_DEFAULT_PROFILE=\"$awswap_profile\"\n  unset AWS_ACCESS_KEY_ID AWS_SECRET_ACCESS_KEY AWS_SESSION_TOKEN AWS_SECURITY_TOKEN\nfi\n"@),
{
    let script = POSIX_HOOK@;
    reveal_strlit("awswap() {\n  command awswap \"$@\"\n  local awswap_status=$?\n  if [ \"$awswap_status\" -eq 0 ]; then\n    case \"${1-}\" in\n      init|list|ls|current|status|doctor|completions|help|version|-h|--help|-V|--version) ;;\n      *)\n        local awswap_profile\n        awswap_profile=\"$(env AWS_PROFILE= AWS_DEFAULT_PROFILE= awswap current 2>/dev/null)\"\n        if [ -n \"$awswap_profile\" ]; then\n          export AWS_PROFILE=\"$awswap_profile\"\n          export AWS_DEFAULT_PROFILE=\"$awswap_profile\"\n          unset AWS_ACCESS_KEY_ID AWS_SECRET_ACCESS_KEY AWS_SESSION_TOKEN AWS_SECURITY_TOKEN\n        fi\n        ;;\n    esac\n  fi\n  return \"$awswap_status\"\n}\nexport AWSWAP_SHELL_HOOK=1\nif awswap_profile=\"$(env AWS_PROFILE= AWS_DEFAULT_PROFILE= awswap current 2>/dev/null)\" && [ -n \"$awswap_profile\" ]; then\n  export AWS_PROFILE=\"$awswap_profile\"\n  export AWS_DEFAULT_PROFILE=\"$awswap_profile\"\n  unset AWS_ACCESS_KEY_ID AWS_SECRET_ACCESS_KEY AWS_SESSION_TOKEN AWS_SECURITY_TOKEN\nfi\n");
    let part = "awswap() {\n  command awswap \"$@\"\n  local awswap_status=$?\n  if [ \"$awswap_status\" -eq 0 ]; then\n"@;
    reveal_strlit("awswap() {\n  command awswap \"$@\"\n  local awswap_status=$?\n  if [ \"$awswap_status\" -eq 0 ]; then\n");
    assert(script.subrange(0, 96) =~= part);
    assert(occurs_at(script, part, 0));
    let part = "init|list|ls|current|status|doctor|completions|help|version|-h|--help|-V|--version) ;;\n      *)\n"@;
    reveal_strlit("init|list|ls|current|status|doctor|completions|help|version|-h|--help|-V|--version) ;;\n      *)\n");
    assert(script.subrange(122, 218) =~= part);
    assert(occurs_at(script, part, 122));
    let part = "awswap_profile=\"$(env AWS_PROFILE= AWS_DEFAULT_PROFILE= awswap current 2>/dev/null)\"\n        if [ -n \"$awswap_profile\" ]; then\n          export AWS_PROFILE=\"$awswap_profile\"\n          export AWS_DEFAULT_PROFILE=\"$awswap_profile\"\n          unset AWS_ACCESS_KEY_ID AWS_SECRET_ACCESS_KEY AWS_SESSION_TOKEN AWS_SECURITY_TOKEN\n        fi\n"@;
    reveal_strlit("awswap_profile=\"$(env AWS_PROFILE= AWS_DEFAULT_PROFILE= awswap current 2>/dev/null)\"\n        if [ -n \"$awswap_profile\" ]; then\n          export AWS_PROFILE=\"$awswap_profile\"\n          export AWS_DEFAULT_PROFILE=\"$awswap_profile\"\n          unset AWS_ACCESS_KEY_ID AWS_SECRET_ACCESS_KEY AWS_SESSION_TOKEN AWS_SECURITY_TOKEN\n        fi\n");
    assert(script.subrange(255, 588) =~= part);
    assert(occurs_at(script, part, 255));
    let part = "  return \"$awswap_status\"\n}\nexport AWSWAP_SHELL_HOOK=1\n"@;
    reveal_strlit("  return \"$awswap_status\"\n}\nexport AWSWAP_SHELL_HOOK=1\n");
    assert(script.subrange(613, 668) =~= part);
    assert(occurs_at(script, part, 613));
    let part = "if awswap_profile=\"$(env AWS_PROFILE= AWS_DEFAULT_PROFILE= awswap current 2>/dev/null)\" && [ -n \"$awswap_profile\" ]; then\n  export AWS_PROFILE=\"$awswap_profile\"\n  export AWS_DEFAULT_PROFILE=\"$awswap_profile\"\n  unset AWS_ACCESS_KEY_ID AWS_SECRET_ACCESS_KEY AWS_SESSION_TOKEN AWS_SECURITY_TOKEN\nfi\n"@;
    reveal_strlit("if awswap_profile=\"$(env AWS_PROFILE= AWS_DEFAULT_PROFILE= awswap current 2>/dev/null)\" && [ -n \"$awswap_profile\" ]; then\n  export AWS_PROFILE=\"$awswap_profile\"\n  export AWS_DEFAULT_PROFILE=\"$awswap_profile\"\n  unset AWS_ACCESS_KEY_ID AWS_SECRET_ACCESS_KEY AWS_SESSION_TOKEN AWS_SECURITY_TOKEN\nfi\n");
    assert(script.subrange(668, 964) =~= part);
    assert(occurs_at(script, part, 668));
}

/// The hook for Fish does the same.
pub proof fn law_fish_hook()
    ensures
        contains(FISH_HOOK@, "function awswap\n    command awswap $argv\n    set -l awswap_status $status\n    if test $awswap_status -eq 0\n"@),
        contains(FISH_HOOK@, "case init list ls current status doctor completions help version '-h' '--help' '-V' '--version'\n            case '*'\n"@),
        contains(FISH_HOOK@, "set -l awswap_profile (env AWS_PROFILE= AWS_DEFAULT_PROFILE= awswap current 2>/dev/null)\n                if test -n \"$awswap_profile\"\n                    set -gx AWS_PROFILE \"$awswap_profile\"\n                    set -gx AWS_DEFAULT_PROFILE \"$awswap_profile\"\n                    set -e AWS_ACCESS_KEY_ID AWS_SECRET_ACCESS_KEY AWS_SESSION_TOKEN AWS_SECURITY_TOKEN\n                end\n"@),
        contains(FISH_HOOK@, "    return $awswap_status\nend\nset -gx AWSWAP_SHELL_HOOK 1\n"@),
        contains(FISH_HOOK@, "set -l awswap_profile (env AWS_PROFILE= AWS_DEFAULT_PROFILE= awswap current 2>/dev/null)\nif test -n \"$awswap_profile\"\n    set -gx AWS_PROFILE \"$awswap_profile\"\n    set -gx AWS_DEFAULT_PROFILE \"$awswap_profile\"\n    set -e AWS_ACCESS_KEY_ID AWS_SECRET_ACCESS_KEY AWS_SESSION_TOKEN AWS_SECURITY_TOKEN\nend\n"@),
{
    let script = FISH_HOOK@;
    reveal_strlit("function awswap\n    command awswap $argv\n    set -l awswap_status $status\n    if test $awswap_status -eq 0\n        switch (string join ' ' $argv)\n            case init list ls current status doctor completions help version '-h' '--help' '-V' '--version'\n            case '*'\n                set -l awswap_profile (env AWS_PROFILE= AWS_DEFAULT_PROFILE= awswap current 2>/dev/null)\n                if test -n \"$awswap_profile\"\n                    set -gx AWS_PROFILE \"$awswap_profile\"\n                    set -gx AWS_DEFAULT_PROFILE \"$awswap_profile\"\n                    set -e AWS_ACCESS_KEY_ID AWS_SECRET_ACCESS_KEY AWS_SESSION_TOKEN AWS_SECURITY_TOKEN\n                end\n        end\n    end\n    return $awswap_status\nend\nset -gx AWSWAP_SHELL_HOOK 1\nset -l awswap_profile (env AWS_PROFILE= AWS_DEFAULT_PROFILE= awswap current 2>/dev/null)\nif test -n \"$awswap_profile\"\n    set -gx AWS_PROFILE \"$awswap_profile\"\n    set -gx AWS_DEFAULT_PROFILE \"$awswap_profile\"\n    set -e AWS_ACCESS_KEY_ID AWS_SECRET_ACCESS_KEY AWS_SESSION_TOKEN AWS_SECURITY_TOKEN\nend\n");
    let part = "function awswap\n    command awswap $argv\n    set -l awswap_status $status\n    if test $awswap_status -eq 0\n"@;
    reveal_strlit("function awswap\n    command awswap $argv\n    set -l awswap_status $status\n    if test $awswap_status -eq 0\n");
    assert(script.subrange(0, 107) =~= part);
    assert(occurs_at(script, part, 0));
    let part = "case init list ls current status doctor completions help version '-h' '--help' '-V' '--version'\n            case '*'\n"@;
    reveal_strlit("case init list ls current status doctor completions help version '-h' '--help' '-V' '--version'\n            case '*'\n");
    assert(script.subrange(158, 275) =~= part);
    assert(occurs_at(script, part, 158));
    let part = "set -l awswap_profile (env AWS_PROFILE= AWS_DEFAULT_PROFILE= awswap current 2>/dev/null)\n                if test -n \"$awswap_profile\"\n                    set -gx AWS_PROFILE \"$awswap_profile\"\n                    set -gx AWS_DEFAULT_PROFILE \"$awswap_profile\"\n                    set -e AWS_ACCESS_KEY_ID AWS_SECRET_ACCESS_KEY AWS_SESSION_TOKEN AWS_SECURITY_TOKEN\n                end\n"@;
    reveal_strlit("set -l awswap_profile (env AWS_PROFILE= AWS_DEFAULT_PROFILE= awswap current 2>/dev/null)\n                if test -n \"$awswap_profile\"\n                    set -gx AWS_PROFILE \"$awswap_profile\"\n                    set -gx AWS_DEFAULT_PROFILE \"$awswap_profile\"\n                    set -e AWS_ACCESS_KEY_ID AWS_SECRET_ACCESS_KEY AWS_SESSION_TOKEN AWS_SECURITY_TOKEN\n                end\n");
    assert(script.subrange(291, 673) =~= part);
    assert(occurs_at(script, part, 291));
    let part = "    return $awswap_status\nend\nset -gx AWSWAP_SHELL_HOOK 1\n"@;
    reveal_strlit("    return $awswap_status\nend\nset -gx AWSWAP_SHELL_HOOK 1\n");
    assert(script.subrange(693, 751) =~= part);
    assert(occurs_at(script, part, 693));
    let part = "set -l awswap_profile (env AWS_PROFILE= AWS_DEFAULT_PROFILE= awswap current 2>/dev/null)\nif test -n \"$awswap_profile\"\n    set -gx AWS_PROFILE \"$awswap_profile\"\n    set -gx AWS_DEFAULT_PROFILE \"$awswap_profile\"\n    set -e AWS_ACCESS_KEY_ID AWS_SECRET_ACCESS_KEY AWS_SESSION_TOKEN AWS_SECURITY_TOKEN\nend\n"@;
    reveal_strlit("set -l awswap_profile (env AWS_PROFILE= AWS_DEFAULT_PROFILE= awswap current 2>/dev/null)\nif test -n \"$awswap_profile\"\n    set -gx AWS_PROFILE \"$awswap_profile\"\n    set -gx AWS_DEFAULT_PROFILE \"$awswap_profile\"\n    set -e AWS_ACCESS_KEY_ID AWS_SECRET_ACCESS_KEY AWS_SESSION_TOKEN AWS_SECURITY_TOKEN\nend\n");
    assert(script.subrange(751, 1053) =~= part);
    assert(occurs_at(script, part, 751));
}

/// Bash completes the commands, the options and the configured profiles, the shells
/// where a shell is wanted, and the profiles where a profile is.
pub proof fn law_bash_completions()
    ensures
        contains(BASH_COMPLETIONS@, "profiles=\"$(command awswap list --quiet 2>/dev/null)\"\n"@),
        contains(BASH_COMPLETIONS@, "if [ \"$COMP_CWORD\" -eq 1 ]; then\n    COMPREPLY=( $(compgen -W \"current list status doctor login init completions help - --no-ecr --registry --quiet --json --verbose $profiles\" -- \"$current\") )\n"@),
        contains(BASH_COMPLETIONS@, "elif [[ \"$command\" == \"init\" || \"$command\" == \"completions\" ]]; then\n    COMPREPLY=( $(compgen -W \"bash zsh fish\" -- \"$current\") )\n  elif [[ \"$command\" == \"login\" || \"$command\" == \"status\" || \"$command\" == \"doctor\" ]]; then\n    COMPREPLY=( $(compgen -W \"$profiles\" -- \"$current\") )\n"@),
        contains(BASH_COMPLETIONS@, "complete -F _awswap awswap\n"@),
{
    let script = BASH_COMPLETIONS@;
    reveal_strlit("_awswap() {\n  local current command profiles\n  current=\"${COMP_WORDS[COMP_CWORD]}\"\n  command=\"${COMP_WORDS[1]-}\"\n  profiles=\"$(command awswap list --quiet 2>/dev/null)\"\n  if [ \"$COMP_CWORD\" -eq 1 ]; then\n    COMPREPLY=( $(compgen -W \"current list status doctor login init completions help - --no-ecr --registry --quiet --json --verbose $profiles\" -- \"$current\") )\n  elif [[ \"$command\" == \"init\" || \"$command\" == \"completions\" ]]; then\n    COMPREPLY=( $(compgen -W \"bash zsh fish\" -- \"$current\") )\n  elif [[ \"$command\" == \"login\" || \"$command\" == \"status\" || \"$command\" == \"doctor\" ]]; then\n    COMPREPLY=( $(compgen -W \"$profiles\" -- \"$current\") )\n  fi\n}\ncomplete -F _awswap awswap\n");
    let part = "profiles=\"$(command awswap list --quiet 2>/dev/null)\"\n"@;
    reveal_strlit("profiles=\"$(command awswap list --quiet 2>/dev/null)\"\n");
    assert(script.subrange(115, 169) =~= part);
    assert(occurs_at(script, part, 115));
    let part = "if [ \"$COMP_CWORD\" -eq 1 ]; then\n    COMPREPLY=( $(compgen -W \"current list status doctor login init completions help - --no-ecr --registry --quiet --json --verbose $profiles\" -- \"$current\") )\n"@;
    reveal_strlit("if [ \"$COMP_CWORD\" -eq 1 ]; then\n    COMPREPLY=( $(compgen -W \"current list status doctor login init completions help - --no-ecr --registry --quiet --json --verbose $profiles\" -- \"$current\") )\n");
    assert(script.subrange(171, 364) =~= part);
    assert(occurs_at(script, part, 171));
    let part = "elif [[ \"$command\" == \"init\" || \"$command\" == \"completions\" ]]; then\n    COMPREPLY=( $(compgen -W \"bash zsh fish\" -- \"$current\") )\n  elif [[ \"$command\" == \"login\" || \"$command\" == \"status\" || \"$command\" == \"doctor\" ]]; then\n    COMPREPLY=( $(compgen -W \"$profiles\" -- \"$current\") )\n"@;
    reveal_strlit("elif [[ \"$command\" == \"init\" || \"$command\" == \"completions\" ]]; then\n    COMPREPLY=( $(compgen -W \"bash zsh fish\" -- \"$current\") )\n  elif [[ \"$command\" == \"login\" || \"$command\" == \"status\" || \"$command\" == \"doctor\" ]]; then\n    COMPREPLY=( $(compgen -W \"$profiles\" -- \"$current\") )\n");
    assert(script.subrange(366, 648) =~= part);
    assert(occurs_at(script, part, 366));
    let part = "complete -F _awswap awswap\n"@;
    reveal_strlit("complete -F _awswap awswap\n");
    assert(script.subrange(655, 682) =~= part);
    assert(occurs_at(script, part, 655));
}

/// Zsh completes the same.
pub proof fn law_zsh_completions()
    ensures
        contains(ZSH_COMPLETIONS@, "commands=(current list status doctor login init completions help - --no-ecr --registry --quiet --json --verbose)\n"@),
        contains(ZSH_COMPLETIONS@, "profiles=(\"${(@f)$(command awswap list --quiet 2>/dev/null)}\")\n"@),
        contains(ZSH_COMPLETIONS@, "_describe 'AWS profile' profiles\n  elif [[ \"$words[2]\" == init || \"$words[2]\" == completions ]]; then\n    _values 'shell' bash zsh fish\n  elif [[ \"$words[2]\" == login || \"$words[2]\" == status || \"$words[2]\" == doctor ]]; then\n    _describe 'AWS profile' profiles\n"@),
        contains(ZSH_COMPLETIONS@, "compdef _awswap awswap\n"@),
{
    let script = ZSH_COMPLETIONS@;
    reveal_strlit("#compdef awswap\n_awswap() {\n  local -a commands profiles\n  commands=(current list status doctor login init completions help - --no-ecr --registry --quiet --json --verbose)\n  profiles=(\"${(@f)$(command awswap list --quiet 2>/dev/null)}\")\n  if (( CURRENT == 2 )); then\n    _describe 'command or profile' commands\n    _describe 'AWS profile' profiles\n  elif [[ \"$words[2]\" == init || \"$words[2]\" == completions ]]; then\n    _values 'shell' bash zsh fish\n  elif [[ \"$words[2]\" == login || \"$words[2]\" == status || \"$words[2]\" == doctor ]]; then\n    _describe 'AWS profile' profiles\n  fi\n}\ncompdef _awswap awswap\n");
    let part = "commands=(current list status doctor login init completions help - --no-ecr --registry --quiet --json --verbose)\n"@;
    reveal_strlit("commands=(current list status doctor login init completions help - --no-ecr --registry --quiet --json --verbose)\n");
    assert(script.subrange(59, 172) =~= part);
    assert(occurs_at(script, part, 59));
    let part = "profiles=(\"${(@f)$(command awswap list --quiet 2>/dev/null)}\")\n"@;
    reveal_strlit("profiles=(\"${(@f)$(command awswap list --quiet 2>/dev/null)}\")\n");
    assert(script.subrange(174, 237) =~= part);
    assert(occurs_at(script, part, 174));
    let part = "_describe 'AWS profile' profiles\n  elif [[ \"$words[2]\" == init || \"$words[2]\" == completions ]]; then\n    _values 'shell' bash zsh fish\n  elif [[ \"$words[2]\" == login || \"$words[2]\" == status || \"$words[2]\" == doctor ]]; then\n    _describe 'AWS profile' profiles\n"@;
    reveal_strlit("_describe 'AWS profile' profiles\n  elif [[ \"$words[2]\" == init || \"$words[2]\" == completions ]]; then\n    _values 'shell' bash zsh fish\n  elif [[ \"$words[2]\" == login || \"$words[2]\" == status || \"$words[2]\" == doctor ]]; then\n    _describe 'AWS profile' profiles\n");
    assert(script.subrange(315, 578) =~= part);
    assert(occurs_at(script, part, 315));
    let part = "compdef _awswap awswap\n"@;
    reveal_strlit("compdef _awswap awswap\n");
    assert(script.subrange(585, 608) =~= part);
    assert(occurs_at(script, part, 585));
}

/// Fish completes the same.
pub proof fn law_fish_completions()
    ensures
        contains(FISH_COMPLETIONS@, "-a 'current list status doctor login init completions help -'\n"@),
        contains(FISH_COMPLETIONS@, "-n '__fish_use_subcommand' -a '(command awswap list --quiet 2>/dev/null)'\n"@),
        contains(FISH_COMPLETIONS@, "-n '__fish_seen_subcommand_from login status doctor' -a '(command awswap list --quiet 2>/dev/null)'\n"@),
        contains(FISH_COMPLETIONS@, "-n '__fish_seen_subcommand_from init completions' -a 'bash zsh fish'\n"@),
        contains(FISH_COMPLETIONS@, "-l no-ecr -d 'Skip ECR authentication'\ncomplete -c awswap -s r -l registry -r"@),
        contains(FISH_COMPLETIONS@, "-s q -l quiet"@),
        contains(FISH_COMPLETIONS@, "-l json"@),
        contains(FISH_COMPLETIONS@, "-s v -l verbose"@),
{
    let script = FISH_COMPLETIONS@;
    reveal_strlit("complete -c awswap -f\ncomplete -c awswap -n '__fish_use_subcommand' -a 'current list status doctor login init completions help -'\ncomplete -c awswap -n '__fish_use_subcommand' -a '(command awswap list --quiet 2>/dev/null)'\ncomplete -c awswap -n '__fish_seen_subcommand_from login status doctor' -a '(command awswap list --quiet 2>/dev/null)'\ncomplete -c awswap -n '__fish_seen_subcommand_from init completions' -a 'bash zsh fish'\ncomplete -c awswap -l no-ecr -d 'Skip ECR authentication'\ncomplete -c awswap -s r -l registry -r -d 'ECR registry or account ID'\ncomplete -c awswap -s q -l quiet -d 'Suppress progress output'\ncomplete -c awswap -l json -d 'Emit JSON'\ncomplete -c awswap -s v -l verbose -d 'Show detailed diagnostics'\n");
    let part = "-a 'current list status doctor login init completions help -'\n"@;
    reveal_strlit("-a 'current list status doctor login init completions help -'\n");
    assert(script.subrange(68, 130) =~= part);
    assert(occurs_at(script, part, 68));
    let part = "-n '__fish_use_subcommand' -a '(command awswap list --quiet 2>/dev/null)'\n"@;
    reveal_strlit("-n '__fish_use_subcommand' -a '(command awswap list --quiet 2>/dev/null)'\n");
    assert(script.subrange(149, 223) =~= part);
    assert(occurs_at(script, part, 149));
    let part = "-n '__fish_seen_subcommand_from login status doctor' -a '(command awswap list --quiet 2>/dev/null)'\n"@;
    reveal_strlit("-n '__fish_seen_subcommand_from login status doctor' -a '(command awswap list --quiet 2>/dev/null)'\n");
    assert(script.subrange(242, 342) =~= part);
    assert(occurs_at(script, part, 242));
    let part = "-n '__fish_seen_subcommand_from init completions' -a 'bash zsh fish'\n"@;
    reveal_strlit("-n '__fish_seen_subcommand_from init completions' -a 'bash zsh fish'\n");
    assert(script.subrange(361, 430) =~= part);
    assert(occurs_at(script, part, 361));
    let part = "-l no-ecr -d 'Skip ECR authentication'\ncomplete -c awswap -s r -l registry -r"@;
    reveal_strlit("-l no-ecr -d 'Skip ECR authentication'\ncomplete -c awswap -s r -l registry -r");
    assert(script.subrange(449, 526) =~= part);
    assert(occurs_at(script, part, 449));
    let part = "-s q -l quiet"@;
    reveal_strlit("-s q -l quiet");
    assert(script.subrange(578, 591) =~= part);
    assert(occurs_at(script, part, 578));
    let part = "-l json"@;
    reveal_strlit("-l json");
    assert(script.subrange(641, 648) =~= part);
    assert(occurs_at(script, part, 641));
    let part = "-s v -l verbose"@;
    reveal_strlit("-s v -l verbose");
    assert(script.subrange(683, 698) =~= part);
    assert(occurs_at(script, part, 683));
}

} // verus!
