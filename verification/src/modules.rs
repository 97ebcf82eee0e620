use vstd::prelude::*;

pub mod prompt;

use crate::configtree::{Config, Value};
use crate::style::{
    prefix_of, read_style, read_style_spec, style_prefix, style_suffix, suffix_of, Color, Style,
};
use crate::utils::{Error, ErrorKind};

verus! {

/// The interactive shell the rendered prompt is destined for. It
/// decides which markers hide escape sequences from the shell's
/// cursor-width accounting; it never changes the styling itself.
#[derive(Clone, Copy, Debug, PartialEq, Eq, Structural)]
pub enum Shell {
    Bash,
    Zsh,
    Fish,
    PowerShell,
    Elvish,
}

/// A run of escape codes as the shell has to see it: bash and zsh need
/// zero-width markers around it so their cursor-width accounting skips
/// it; an empty run needs no markers at all.
pub open spec fn wrapped(shell: Shell, s: Seq<char>) -> Seq<char> {
    if s.len() == 0 {
        s
    } else {
        match shell {
            Shell::Bash => "\\["@ + s + "\\]"@,
            Shell::Zsh => "%{"@ + s + "%}"@,
            _ => s,
        }
    }
}

/// Wraps a run of escape codes in the target shell's zero-width
/// markers.
pub fn wrap_markers(shell: Shell, s: String) -> (r: String)
    ensures
        r@ == wrapped(shell, s@),
{
    if s.as_str().is_empty() {
        return s;
    }
    match shell {
        Shell::Bash => {
            let mut r = String::from_str("\\[");
            r.append(s.as_str());
            r.append("\\]");
            r
        },
        Shell::Zsh => {
            let mut r = String::from_str("%{");
            r.append(s.as_str());
            r.append("%}");
            r
        },
        _ => s,
    }
}

/// One rendered segment: the style's opening codes, the text, and the
/// style's closing codes, each code run wrapped for the target shell.
pub open spec fn seg_text(shell: Shell, style: Style, text: Seq<char>) -> Seq<char> {
    wrapped(shell, prefix_of(style)) + text + wrapped(shell, suffix_of(style))
}

/// The resolved option set for one named module.
#[derive(Debug, PartialEq)]
pub struct ModuleOptions {
    pub enabled: bool,
    pub symbol: Option<String>,
    pub style: Style,
}

pub open spec fn enabled_key(name: Seq<char>) -> Seq<char> {
    "modules."@ + name + ".enabled"@
}

pub open spec fn symbol_key(name: Seq<char>) -> Seq<char> {
    "modules."@ + name + ".symbol"@
}

pub open spec fn style_key(name: Seq<char>) -> Seq<char> {
    "modules."@ + name + ".style"@
}

/// Whether the module is enabled: absent means enabled, anything but a
/// boolean is the wrong type.
pub open spec fn enabled_spec(c: Config, name: Seq<char>) -> Result<bool, ErrorKind> {
    match c.spec_lookup(enabled_key(name)) {
        None => Ok(true),
        Some(Value::Bool(b)) => Ok(b),
        Some(_) => Err(ErrorKind::InvalidTypeInConfig),
    }
}

/// The module's custom symbol, if one is configured; anything but a
/// string is the wrong type.
pub open spec fn symbol_spec(c: Config, name: Seq<char>) -> Result<
    Option<Seq<char>>,
    ErrorKind,
> {
    match c.spec_lookup(symbol_key(name)) {
        None => Ok(None),
        Some(Value::Str(s)) => Ok(Some(s@)),
        Some(_) => Err(ErrorKind::InvalidTypeInConfig),
    }
}

/// The first error that resolving the option set for `name` runs into:
/// the enabled flag, then the symbol, then the style.
pub open spec fn options_err(c: Config, name: Seq<char>) -> Option<ErrorKind> {
    match enabled_spec(c, name) {
        Err(k) => Some(k),
        Ok(_) => match symbol_spec(c, name) {
            Err(k) => Some(k),
            Ok(_) => match read_style_spec(c, style_key(name)) {
                Err(k) => Some(k),
                Ok(_) => None,
            },
        },
    }
}

/// How a `read_options` result relates to its inputs: on success every
/// field is exactly what its entry resolves to, and on failure the
/// error kind is the first one the entries produce.
pub open spec fn options_post(c: Config, name: Seq<char>, r: Result<ModuleOptions, Error>) -> bool {
    match r {
        Ok(o) => {
            &&& enabled_spec(c, name) == Result::<bool, ErrorKind>::Ok(o.enabled)
            &&& (symbol_spec(c, name) matches Ok(sv) && (match o.symbol {
                Some(s) => sv == Some(s@),
                None => sv is None,
            }))
            &&& read_style_spec(c, style_key(name)) == Result::<Style, ErrorKind>::Ok(o.style)
        },
        Err(e) => options_err(c, name) == Some(e.spec_kind()),
    }
}

/// Assembles the option set for the module called `name`: the generic
/// enabled flag and symbol under `modules.<name>.*`, and the style
/// under `modules.<name>.style`. Fails with whatever error the first
/// bad entry produces; an entirely absent entry is a default, not an
/// error.
pub fn read_options(name: &str, c: &Config) -> (r: Result<ModuleOptions, Error>)
    ensures
        options_post(*c, name@, r),
{
    let mut k_enabled = String::from_str("modules.");
    k_enabled.append(name);
    k_enabled.append(".enabled");
    let enabled: bool = match c.get(k_enabled.as_str()) {
        None => true,
        Some(Value::Bool(b)) => *b,
        Some(_) => {
            return Err(Error::new(ErrorKind::InvalidTypeInConfig, "expected a boolean"));
        },
    };
    let mut k_symbol = String::from_str("modules.");
    k_symbol.append(name);
    k_symbol.append(".symbol");
    let symbol: Option<String> = match c.get(k_symbol.as_str()) {
        None => None,
        Some(Value::Str(s)) => Some(s.clone()),
        Some(_) => {
            return Err(Error::new(ErrorKind::InvalidTypeInConfig, "expected a symbol string"));
        },
    };
    let mut k_style = String::from_str("modules.");
    k_style.append(name);
    k_style.append(".style");
    let style = match read_style(k_style.as_str(), c) {
        Ok(s) => s,
        Err(e) => {
            return Err(e);
        },
    };
    Ok(ModuleOptions { enabled, symbol, style })
}

/// Renders `text` as one styled segment for `shell`, painting it with
/// the options' style. Rendering always succeeds. `incoming_bg` is the
/// previous segment's trailing background, accepted so a divider glyph
/// can one day be drawn from it; it is threaded through unchanged
/// while unused, never silently discarded.
pub fn format_for_module(
    text: &str,
    options: &ModuleOptions,
    incoming_bg: Option<Color>,
    shell: Shell,
) -> (r: String)
    ensures
        r@ == seg_text(shell, options.style, text@),
        options.style == crate::style::default_style() ==> r@ == text@,
{
    let _ = incoming_bg;
    let p = style_prefix(&options.style);
    let sfx = style_suffix(&options.style);
    let mut out = wrap_markers(shell, p);
    out.append(text);
    let tail = wrap_markers(shell, sfx);
    out.append(tail.as_str());
    proof {
        if options.style == crate::style::default_style() {
            assert(out@ =~= text@);
        }
    }
    out
}

} // verus!
