use vstd::prelude::*;

use crate::configtree::Config;
use crate::modules::{
    format_for_module, options_err, read_options, seg_text, ModuleOptions, Shell,
};
use crate::style::{read_style, read_style_spec, Color, Style};
use crate::utils::{Error, ErrorKind, FormatResult};

verus! {

/// The style the exit-status prompt resolves for a render: the success
/// style if and only if the exit code is zero, the error style for any
/// other code; or the first error that option or style resolution runs
/// into.
pub open spec fn chosen_style_spec(c: Config, exit_code: u8) -> Result<Style, ErrorKind> {
    match options_err(c, "prompt"@) {
        Some(k) => Err(k),
        None => match read_style_spec(c, "modules.prompt.style_success"@) {
            Err(k) => Err(k),
            Ok(ss) => match read_style_spec(c, "modules.prompt.style_error"@) {
                Err(k) => Err(k),
                Ok(se) => Ok(if exit_code == 0 { ss } else { se }),
            },
        },
    }
}

/// What one render of the exit-status prompt produces: the rendered
/// segment text and the background handed to the next segment, or the
/// error kind resolution failed with.
pub open spec fn prompt_spec(c: Config, exit_code: u8, shell: Shell) -> Result<
    (Seq<char>, Option<Color>),
    ErrorKind,
> {
    match chosen_style_spec(c, exit_code) {
        Err(k) => Err(k),
        Ok(st) => Ok((seg_text(shell, st, "$"@), st.background)),
    }
}

/// How a `format_prompt` result relates to its inputs: on success the
/// output and the background hand-off are exactly what `prompt_spec`
/// says, and on failure so is the error kind.
pub open spec fn prompt_post(
    c: Config,
    exit_code: u8,
    shell: Shell,
    r: Result<FormatResult, Error>,
) -> bool {
    match r {
        Ok(fr) => {
            &&& prompt_spec(c, exit_code, shell) matches Ok(p)
            &&& (fr.output matches Some(out) && out@ == p.0)
            &&& fr.next_bg == p.1
        },
        Err(e) => (prompt_spec(c, exit_code, shell) matches Err(k) && e.spec_kind() == k),
    }
}

/// Law: when option and style resolution succeed, the style the
/// exit-status prompt resolves is the success style exactly for exit
/// code zero and the error style for every other code.
pub proof fn lemma_exit_style_selection(c: Config, exit_code: u8, ss: Style, se: Style)
    requires
        options_err(c, "prompt"@) is None,
        read_style_spec(c, "modules.prompt.style_success"@) == Result::<Style, ErrorKind>::Ok(ss),
        read_style_spec(c, "modules.prompt.style_error"@) == Result::<Style, ErrorKind>::Ok(se),
    ensures
        chosen_style_spec(c, exit_code) == Result::<Style, ErrorKind>::Ok(
            if exit_code == 0 {
                ss
            } else {
                se
            },
        ),
{
}

/// Law: the background handed to the next segment equals the
/// background of the style actually used to paint this segment.
pub proof fn lemma_next_bg_matches_style(c: Config, exit_code: u8, shell: Shell, st: Style)
    requires
        chosen_style_spec(c, exit_code) == Result::<Style, ErrorKind>::Ok(st),
    ensures
        prompt_spec(c, exit_code, shell) == Result::<(Seq<char>, Option<Color>), ErrorKind>::Ok(
            (seg_text(shell, st, "$"@), st.background),
        ),
{
}

/// Law: rendering is deterministic — two renders from the same config,
/// the same exit code and the same shell agree byte for byte, and fail
/// with the same error kind if they fail at all.
pub proof fn lemma_render_idempotent(
    c: Config,
    exit_code: u8,
    shell: Shell,
    r1: Result<FormatResult, Error>,
    r2: Result<FormatResult, Error>,
)
    requires
        prompt_post(c, exit_code, shell, r1),
        prompt_post(c, exit_code, shell, r2),
    ensures
        r1 is Ok <==> r2 is Ok,
        r1 matches Ok(f1) ==> r2 matches Ok(f2) ==> (f1.output matches Some(o1)
            && f2.output matches Some(o2) && o1@ == o2@ && f1.next_bg == f2.next_bg),
        r1 matches Err(e1) ==> r2 matches Err(e2) ==> e1.spec_kind() == e2.spec_kind(),
{
}

/// Chooses the style for the exit-status prompt: the success style if
/// and only if the last command exited with code 0.
pub fn select_style(exit_code: u8, style_success: Style, style_error: Style) -> (s: Style)
    ensures
        exit_code == 0 ==> s == style_success,
        exit_code != 0 ==> s == style_error,
{
    if exit_code == 0 {
        style_success
    } else {
        style_error
    }
}

/// Renders the exit-status prompt segment: resolves the module's
/// options, picks the success or error style from the exit code, and
/// paints the fixed symbol `$` with it. `next_bg` coming in is the
/// previous segment's trailing background; the `next_bg` going out is
/// the background of the style actually used here. Fails only if
/// option or style resolution fails; rendering itself cannot fail.
pub fn format_prompt(
    c: &Config,
    exit_code: u8,
    next_bg: Option<Color>,
    shell: Shell,
) -> (r: Result<FormatResult, Error>)
    ensures
        prompt_post(*c, exit_code, shell, r),
{
    let options = match read_options("prompt", c) {
        Ok(o) => o,
        Err(e) => {
            return Err(e);
        },
    };
    let style_success = match read_style("modules.prompt.style_success", c) {
        Ok(s) => s,
        Err(e) => {
            return Err(e);
        },
    };
    let style_error = match read_style("modules.prompt.style_error", c) {
        Ok(s) => s,
        Err(e) => {
            return Err(e);
        },
    };
    // A command exited successfully if and only if the exit code is 0
    let style = select_style(exit_code, style_success, style_error);
    let options = ModuleOptions { style, ..options };
    let output = format_for_module("$", &options, next_bg, shell);
    Ok(FormatResult { output: Some(output), next_bg: options.style.background })
}

} // verus!
