//! The decisions of the zsh-related update steps: which external programs
//! and directories each step needs, and the exact command it runs when it is
//! applicable. Probing the search path, reading environment variables and
//! checking the filesystem are the caller's business; the answers come in as
//! plain values and the step's decision goes out as a command or a typed
//! reason not to run.

use vstd::prelude::*;

use crate::exec::CommandSpec;
use crate::outcome::StepError;
use crate::paths::{join_path, resolve_path_with_probe, spec_join, spec_resolve,
    spec_resolve_with_probe};

verus! {

/// The result turns the step down because the program `name` is not
/// installed.
pub open spec fn spec_missing(r: Result<CommandSpec, StepError>, name: Seq<char>) -> bool {
    r matches Err(e) && e matches StepError::RequirementMissing { name: n } && n@ == name
}

/// The result turns the step down because `path` is absent.
pub open spec fn spec_not_applicable(r: Result<CommandSpec, StepError>, path: Seq<char>) -> bool {
    r matches Err(e) && e matches StepError::NotApplicable { path: p } && p@ == path
}

/// `c` invokes the shell at `program` with one flag, `-c`, and `script`,
/// with no environment overrides and no accepted nonzero exit codes.
pub open spec fn spec_shell_invocation(
    c: CommandSpec,
    program: Seq<char>,
    flag: Seq<char>,
    script: Seq<char>,
) -> bool {
    c.program@ == program && c.args@.len() == 3 && c.args@[0]@ == flag && c.args@[1]@ == "-c"@
        && c.args@[2]@ == script && c.env@.len() == 0 && c.accepted_codes@.len() == 0
}

/// The result accepts the step with a shell invocation: program, one flag,
/// `-c`, and the script.
pub open spec fn spec_ok_shell(
    r: Result<CommandSpec, StepError>,
    program: Seq<char>,
    flag: Seq<char>,
    script: Seq<char>,
) -> bool {
    r matches Ok(c) && spec_shell_invocation(c, program, flag, script)
}

/// Build a shell invocation: `program flag -c script`.
fn shell_command(program: String, flag: &str, script: String) -> (c: CommandSpec)
    ensures
        spec_shell_invocation(c, program@, flag@, script@),
{
    let mut args: Vec<String> = Vec::new();
    args.push(String::from_str(flag));
    args.push(String::from_str("-c"));
    args.push(script);
    CommandSpec { program, args, env: Vec::new(), accepted_codes: Vec::new() }
}

/// Where zsh startup files live: the explicit override when one is set,
/// else the home directory.
pub fn zdotdir(env_zdotdir: Option<String>, home: &String) -> (r: String)
    ensures
        r@ == spec_resolve(
            match env_zdotdir {
                Some(v) => Some(v@),
                None => None,
            },
            home@,
        ),
{
    match env_zdotdir {
        Some(v) => v,
        None => home.clone(),
    }
}

/// The path of the user's `.zshrc`, below the zsh startup directory.
pub fn zshrc(env_zdotdir: Option<String>, home: &String) -> (r: String)
    ensures
        r@ == spec_join(
            spec_resolve(
                match env_zdotdir {
                    Some(v) => Some(v@),
                    None => None,
                },
                home@,
            ),
            ".zshrc"@,
        ),
{
    let dir = zdotdir(env_zdotdir, home);
    join_path(&dir, ".zshrc")
}

/// The zr step: needs zsh and zr on the search path; sources the zshrc in a
/// login shell and runs `zr --update`.
pub fn zr_plan(zsh: Option<String>, zr: Option<String>, zshrc_path: &String) -> (r: Result<
    CommandSpec,
    StepError,
>)
    ensures
        zsh is None ==> spec_missing(r, "zsh"@),
        zsh is Some && zr is None ==> spec_missing(r, "zr"@),
        zsh matches Some(zp) ==> zr is Some ==> spec_ok_shell(
            r,
            zp@,
            "-l"@,
            "source "@ + zshrc_path@ + " && zr --update"@,
        ),
{
    let zsh_path = match zsh {
        Some(p) => p,
        None => {
            return Err(StepError::RequirementMissing { name: String::from_str("zsh") });
        },
    };
    if zr.is_none() {
        return Err(StepError::RequirementMissing { name: String::from_str("zr") });
    }
    let script = String::from_str("source ").concat(zshrc_path.as_str()).concat(
        " && zr --update",
    );
    Ok(shell_command(zsh_path, "-l", script))
}

/// The antidote step: needs zsh and the `.antidote` clone below the zsh
/// startup directory; sources its entry script and runs `antidote update`.
pub fn antidote_plan(zsh: Option<String>, zdotdir_path: &String, antidote_present: bool) -> (r:
    Result<CommandSpec, StepError>)
    ensures
        zsh is None ==> spec_missing(r, "zsh"@),
        zsh is Some && !antidote_present ==> spec_not_applicable(
            r,
            spec_join(zdotdir_path@, ".antidote"@),
        ),
        zsh matches Some(zp) ==> antidote_present ==> (r matches Ok(c) && c.program == zp
            && c.args@.len() == 2 && c.args@[0]@ == "-c"@ && c.args@[1]@ == "source "@
            + spec_join(spec_join(zdotdir_path@, ".antidote"@), "antidote.zsh"@)
            + " && antidote update"@ && c.env@.len() == 0 && c.accepted_codes@.len() == 0),
{
    let zsh_path = match zsh {
        Some(p) => p,
        None => {
            return Err(StepError::RequirementMissing { name: String::from_str("zsh") });
        },
    };
    let antidote_dir = join_path(zdotdir_path, ".antidote");
    if !antidote_present {
        return Err(StepError::NotApplicable { path: antidote_dir });
    }
    let entry = join_path(&antidote_dir, "antidote.zsh");
    let script = String::from_str("source ").concat(entry.as_str()).concat(
        " && antidote update",
    );
    let mut args: Vec<String> = Vec::new();
    args.push(String::from_str("-c"));
    args.push(script);
    Ok(CommandSpec { program: zsh_path, args, env: Vec::new(), accepted_codes: Vec::new() })
}

/// The antibody step: needs zsh and antibody on the search path; runs
/// `antibody update` directly.
pub fn antibody_plan(zsh: Option<String>, antibody: Option<String>) -> (r: Result<
    CommandSpec,
    StepError,
>)
    ensures
        zsh is None ==> spec_missing(r, "zsh"@),
        zsh is Some && antibody is None ==> spec_missing(r, "antibody"@),
        antibody matches Some(ap) ==> zsh is Some ==> (r matches Ok(c) && c.program == ap
            && c.args@.len() == 1 && c.args@[0]@ == "update"@ && c.env@.len() == 0
            && c.accepted_codes@.len() == 0),
{
    if zsh.is_none() {
        return Err(StepError::RequirementMissing { name: String::from_str("zsh") });
    }
    let antibody_path = match antibody {
        Some(p) => p,
        None => {
            return Err(StepError::RequirementMissing { name: String::from_str("antibody") });
        },
    };
    let mut args: Vec<String> = Vec::new();
    args.push(String::from_str("update"));
    Ok(CommandSpec { program: antibody_path, args, env: Vec::new(), accepted_codes: Vec::new() })
}

/// The antigen step: needs zsh, the zshrc file, and the antigen directory —
/// an explicit override or `antigen.zsh` in the home directory; sources the
/// zshrc in a login shell and runs antigen's self-update and update.
pub fn antigen_plan(
    zsh: Option<String>,
    zshrc_path: &String,
    zshrc_present: bool,
    adotdir: &String,
    adotdir_present: bool,
) -> (r: Result<CommandSpec, StepError>)
    ensures
        zsh is None ==> spec_missing(r, "zsh"@),
        zsh is Some && !zshrc_present ==> spec_not_applicable(r, zshrc_path@),
        zsh is Some && zshrc_present && !adotdir_present ==> spec_not_applicable(r, adotdir@),
        zsh matches Some(zp) ==> zshrc_present && adotdir_present ==> spec_ok_shell(
            r,
            zp@,
            "-l"@,
            "source "@ + zshrc_path@ + " && (antigen selfupdate ; antigen update)"@,
        ),
{
    let zsh_path = match zsh {
        Some(p) => p,
        None => {
            return Err(StepError::RequirementMissing { name: String::from_str("zsh") });
        },
    };
    if !zshrc_present {
        return Err(StepError::NotApplicable { path: zshrc_path.clone() });
    }
    if !adotdir_present {
        return Err(StepError::NotApplicable { path: adotdir.clone() });
    }
    let script = String::from_str("source ").concat(zshrc_path.as_str()).concat(
        " && (antigen selfupdate ; antigen update)",
    );
    Ok(shell_command(zsh_path, "-l", script))
}

/// The zgenom step: needs zsh, the zshrc file, and the zgenom source
/// directory; sources the zshrc in a login shell and runs zgenom's
/// self-update and update.
pub fn zgenom_plan(
    zsh: Option<String>,
    zshrc_path: &String,
    zshrc_present: bool,
    zgen_source: &String,
    zgen_source_present: bool,
) -> (r: Result<CommandSpec, StepError>)
    ensures
        zsh is None ==> spec_missing(r, "zsh"@),
        zsh is Some && !zshrc_present ==> spec_not_applicable(r, zshrc_path@),
        zsh is Some && zshrc_present && !zgen_source_present ==> spec_not_applicable(
            r,
            zgen_source@,
        ),
        zsh matches Some(zp) ==> zshrc_present && zgen_source_present ==> spec_ok_shell(
            r,
            zp@,
            "-l"@,
            "source "@ + zshrc_path@ + " && zgenom selfupdate && zgenom update"@,
        ),
{
    let zsh_path = match zsh {
        Some(p) => p,
        None => {
            return Err(StepError::RequirementMissing { name: String::from_str("zsh") });
        },
    };
    if !zshrc_present {
        return Err(StepError::NotApplicable { path: zshrc_path.clone() });
    }
    if !zgen_source_present {
        return Err(StepError::NotApplicable { path: zgen_source.clone() });
    }
    let script = String::from_str("source ").concat(zshrc_path.as_str()).concat(
        " && zgenom selfupdate && zgenom update",
    );
    Ok(shell_command(zsh_path, "-l", script))
}

/// The zplug step: needs zsh, the zshrc file, and the zplug home directory;
/// runs `zplug update` in an interactive shell.
pub fn zplug_plan(
    zsh: Option<String>,
    zshrc_path: &String,
    zshrc_present: bool,
    zplug_home: &String,
    zplug_home_present: bool,
) -> (r: Result<CommandSpec, StepError>)
    ensures
        zsh is None ==> spec_missing(r, "zsh"@),
        zsh is Some && !zshrc_present ==> spec_not_applicable(r, zshrc_path@),
        zsh is Some && zshrc_present && !zplug_home_present ==> spec_not_applicable(
            r,
            zplug_home@,
        ),
        zsh matches Some(zp) ==> zshrc_present && zplug_home_present ==> spec_ok_shell(
            r,
            zp@, "-i"@, "zplug update"@),
{
    let zsh_path = match zsh {
        Some(p) => p,
        None => {
            return Err(StepError::RequirementMissing { name: String::from_str("zsh") });
        },
    };
    if !zshrc_present {
        return Err(StepError::NotApplicable { path: zshrc_path.clone() });
    }
    if !zplug_home_present {
        return Err(StepError::NotApplicable { path: zplug_home.clone() });
    }
    Ok(shell_command(zsh_path, "-i", String::from_str("zplug update")))
}

/// The zinit step: needs zsh, the zshrc file, and the zinit home directory;
/// sources the zshrc in an interactive shell and runs zinit's self-update
/// and update of all plugins.
pub fn zinit_plan(
    zsh: Option<String>,
    zshrc_path: &String,
    zshrc_present: bool,
    zinit_home: &String,
    zinit_home_present: bool,
) -> (r: Result<CommandSpec, StepError>)
    ensures
        zsh is None ==> spec_missing(r, "zsh"@),
        zsh is Some && !zshrc_present ==> spec_not_applicable(r, zshrc_path@),
        zsh is Some && zshrc_present && !zinit_home_present ==> spec_not_applicable(
            r,
            zinit_home@,
        ),
        zsh matches Some(zp) ==> zshrc_present && zinit_home_present ==> spec_ok_shell(
            r,
            zp@,
            "-i"@,
            "source "@ + zshrc_path@ + " && zinit self-update && zinit update --all"@,
        ),
{
    let zsh_path = match zsh {
        Some(p) => p,
        None => {
            return Err(StepError::RequirementMissing { name: String::from_str("zsh") });
        },
    };
    if !zshrc_present {
        return Err(StepError::NotApplicable { path: zshrc_path.clone() });
    }
    if !zinit_home_present {
        return Err(StepError::NotApplicable { path: zinit_home.clone() });
    }
    let script = String::from_str("source ").concat(zshrc_path.as_str()).concat(
        " && zinit self-update && zinit update --all",
    );
    Ok(shell_command(zsh_path, "-i", script))
}

/// The zi step: needs zsh, the zshrc file, and the `.zi` directory in the
/// home directory; sources the zshrc in an interactive shell and runs zi's
/// self-update and update of all plugins.
pub fn zi_plan(
    zsh: Option<String>,
    zshrc_path: &String,
    zshrc_present: bool,
    zi_dir: &String,
    zi_dir_present: bool,
) -> (r: Result<CommandSpec, StepError>)
    ensures
        zsh is None ==> spec_missing(r, "zsh"@),
        zsh is Some && !zshrc_present ==> spec_not_applicable(r, zshrc_path@),
        zsh is Some && zshrc_present && !zi_dir_present ==> spec_not_applicable(r, zi_dir@),
        zsh matches Some(zp) ==> zshrc_present && zi_dir_present ==> spec_ok_shell(
            r,
            zp@,
            "-i"@,
            "source "@ + zshrc_path@ + " && zi self-update && zi update --all"@,
        ),
{
    let zsh_path = match zsh {
        Some(p) => p,
        None => {
            return Err(StepError::RequirementMissing { name: String::from_str("zsh") });
        },
    };
    if !zshrc_present {
        return Err(StepError::NotApplicable { path: zshrc_path.clone() });
    }
    if !zi_dir_present {
        return Err(StepError::NotApplicable { path: zi_dir.clone() });
    }
    let script = String::from_str("source ").concat(zshrc_path.as_str()).concat(
        " && zi self-update && zi update --all",
    );
    Ok(shell_command(zsh_path, "-i", script))
}

/// The command that asks the shell for its zim home setting, used as the
/// probe when the environment does not name one.
pub fn zim_home_probe_command() -> (c: CommandSpec)
    ensures
        c.program@ == "zsh"@,
        c.args@.len() == 2,
        c.args@[0]@ == "-c"@,
        c.args@[1]@ == "[[ -n ${ZIM_HOME} ]] && print -n ${ZIM_HOME}"@,
        c.env@.len() == 0,
        c.accepted_codes@.len() == 0,
{
    let mut args: Vec<String> = Vec::new();
    args.push(String::from_str("-c"));
    args.push(String::from_str("[[ -n ${ZIM_HOME} ]] && print -n ${ZIM_HOME}"));
    CommandSpec {
        program: String::from_str("zsh"),
        args,
        env: Vec::new(),
        accepted_codes: Vec::new(),
    }
}

/// The zim step: needs zsh and the zim home directory — an explicit
/// setting, else what the shell probe printed, else `.zim` in the home
/// directory; runs zimfw's upgrade and update in an interactive shell.
pub fn zim_plan(zsh: Option<String>, zim_home: &String, zim_home_present: bool) -> (r: Result<
    CommandSpec,
    StepError,
>)
    ensures
        zsh is None ==> spec_missing(r, "zsh"@),
        zsh is Some && !zim_home_present ==> spec_not_applicable(r, zim_home@),
        zsh matches Some(zp) ==> zim_home_present ==> spec_ok_shell(
            r,
            zp@,
            "-i"@,
            "zimfw upgrade && zimfw update"@,
        ),
{
    let zsh_path = match zsh {
        Some(p) => p,
        None => {
            return Err(StepError::RequirementMissing { name: String::from_str("zsh") });
        },
    };
    if !zim_home_present {
        return Err(StepError::NotApplicable { path: zim_home.clone() });
    }
    Ok(shell_command(zsh_path, "-i", String::from_str("zimfw upgrade && zimfw update")))
}

/// Resolve the zim home directory from the explicit setting, the shell
/// probe's answer, and the `.zim` default below the home directory.
pub fn zim_home(explicit: Option<String>, probe: Option<String>, home: &String) -> (r: String)
    ensures
        r@ == spec_resolve_with_probe(
            match explicit {
                Some(v) => Some(v@),
                None => None,
            },
            match probe {
                Some(p) => Some(p@),
                None => None,
            },
            spec_join(home@, ".zim"@),
        ),
{
    let default = join_path(home, ".zim");
    resolve_path_with_probe(explicit, probe, default)
}

/// The oh-my-zsh installation directory below the home directory.
pub fn oh_my_zsh_dir(home: &String) -> (r: String)
    ensures
        r@ == spec_join(home@, ".oh-my-zsh"@),
{
    join_path(home, ".oh-my-zsh")
}

/// The command that asks the shell for its oh-my-zsh custom directory,
/// used as the probe when the environment does not name one.
pub fn oh_my_zsh_custom_probe_command() -> (c: CommandSpec)
    ensures
        c.program@ == "zsh"@,
        c.args@.len() == 2,
        c.args@[0]@ == "-c"@,
        c.args@[1]@ == "test $ZSH_CUSTOM && echo -n $ZSH_CUSTOM"@,
        c.env@.len() == 0,
        c.accepted_codes@.len() == 0,
{
    let mut args: Vec<String> = Vec::new();
    args.push(String::from_str("-c"));
    args.push(String::from_str("test $ZSH_CUSTOM && echo -n $ZSH_CUSTOM"));
    CommandSpec {
        program: String::from_str("zsh"),
        args,
        env: Vec::new(),
        accepted_codes: Vec::new(),
    }
}

/// Where oh-my-zsh keeps custom plugins and themes: the explicit setting,
/// else what the shell probe printed, else `custom` below the installation.
pub fn oh_my_zsh_custom_dir(
    explicit: Option<String>,
    probe: Option<String>,
    oh_my_zsh: &String,
) -> (r: String)
    ensures
        r@ == spec_resolve_with_probe(
            match explicit {
                Some(v) => Some(v@),
                None => None,
            },
            match probe {
                Some(p) => Some(p@),
                None => None,
            },
            spec_join(oh_my_zsh@, "custom"@),
        ),
{
    let default = join_path(oh_my_zsh, "custom");
    resolve_path_with_probe(explicit, probe, default)
}

/// The oh-my-zsh upgrade itself: needs zsh and the installation directory;
/// runs the installation's upgrade script with `ZSH` set to it, and accepts
/// exit code 80, which the script uses to signal that a restart is wanted.
pub fn oh_my_zsh_upgrade_plan(zsh: Option<String>, oh_my_zsh: &String, present: bool) -> (r:
    Result<CommandSpec, StepError>)
    ensures
        zsh is None ==> spec_missing(r, "zsh"@),
        zsh is Some && !present ==> spec_not_applicable(r, oh_my_zsh@),
        zsh is Some && present ==> (r matches Ok(c) && c.program@ == "zsh"@ && c.args@.len() == 1
            && c.args@[0]@ == spec_join(oh_my_zsh@, "tools/upgrade.sh"@) && c.env@.len() == 1
            && c.env@[0].0@ == "ZSH"@ && c.env@[0].1 == oh_my_zsh
            && c.accepted_codes@.len() == 1 && c.accepted_codes@[0] == 80i32),
{
    if zsh.is_none() {
        return Err(StepError::RequirementMissing { name: String::from_str("zsh") });
    }
    if !present {
        return Err(StepError::NotApplicable { path: oh_my_zsh.clone() });
    }
    let mut args: Vec<String> = Vec::new();
    args.push(join_path(oh_my_zsh, "tools/upgrade.sh"));
    let mut env: Vec<(String, String)> = Vec::new();
    env.push((String::from_str("ZSH"), oh_my_zsh.clone()));
    let mut accepted_codes: Vec<i32> = Vec::new();
    accepted_codes.push(80);
    Ok(CommandSpec { program: String::from_str("zsh"), args, env, accepted_codes })
}

} // verus!
