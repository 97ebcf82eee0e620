use promptline::configtree::{Config, Value};
use promptline::modules::prompt::{format_prompt, select_style};
use promptline::modules::{format_for_module, read_options, ModuleOptions, Shell};
use promptline::style::{parse_color, read_style, Color, Style};
use promptline::utils::{ref_get_array, Error, ErrorKind};

fn table(entries: Vec<(&str, Value)>) -> Value {
    Value::Table(entries.into_iter().map(|(k, v)| (k.to_string(), v)).collect())
}

fn ansi_style(fg: Option<Color>, bg: Option<Color>) -> ansi_term::Style {
    let conv = |c: Color| match c {
        Color::Fixed(n) => ansi_term::Colour::Fixed(n),
        Color::Rgb(r, g, b) => ansi_term::Colour::RGB(r, g, b),
    };
    ansi_term::Style {
        foreground: fg.map(conv),
        background: bg.map(conv),
        ..ansi_term::Style::default()
    }
}

#[test]
// The real point is that both reads go through the same shared
// reference: the first read must not consume or invalidate the tree.
fn test_ref_get_array() {
    let mut c: Config = Config::new();
    c.set(
        "numbers",
        Value::Array(vec![Value::Int(1), Value::Int(2), Value::Int(3)]),
    );
    c.set("boolean", Value::Bool(true));

    assert_eq!(
        ref_get_array("numbers", &c),
        Some(&vec![Value::Int(1), Value::Int(2), Value::Int(3)])
    );
    assert_eq!(ref_get_array("boolean", &c), None);
}

#[test]
fn repeated_array_reads_stay_valid() {
    let mut c = Config::new();
    c.set("a", Value::Array(vec![Value::Str("x".to_string())]));
    c.set("b", Value::Int(7));
    assert_eq!(
        ref_get_array("a", &c),
        Some(&vec![Value::Str("x".to_string())])
    );
    // a second, independent read of the same tree still succeeds
    assert_eq!(
        ref_get_array("a", &c),
        Some(&vec![Value::Str("x".to_string())])
    );
    assert_eq!(ref_get_array("b", &c), None);
    assert_eq!(ref_get_array("missing", &c), None);
}

#[test]
fn error_carries_kind_and_message() {
    let e = Error::new(ErrorKind::ConfigParseFailure, "bad value");
    assert_eq!(e.kind(), ErrorKind::ConfigParseFailure);
    assert_eq!(e.message(), "bad value");
}

#[test]
fn parse_color_named_indexed_and_hex() {
    assert_eq!(parse_color("black"), Some(Color::Fixed(0)));
    assert_eq!(parse_color("red"), Some(Color::Fixed(1)));
    assert_eq!(parse_color("green"), Some(Color::Fixed(2)));
    assert_eq!(parse_color("yellow"), Some(Color::Fixed(3)));
    assert_eq!(parse_color("blue"), Some(Color::Fixed(4)));
    assert_eq!(parse_color("purple"), Some(Color::Fixed(5)));
    assert_eq!(parse_color("cyan"), Some(Color::Fixed(6)));
    assert_eq!(parse_color("white"), Some(Color::Fixed(7)));
    assert_eq!(parse_color("0"), Some(Color::Fixed(0)));
    assert_eq!(parse_color("114"), Some(Color::Fixed(114)));
    assert_eq!(parse_color("255"), Some(Color::Fixed(255)));
    assert_eq!(parse_color("256"), None);
    assert_eq!(parse_color("300"), None);
    assert_eq!(parse_color("1234"), None);
    assert_eq!(parse_color("#ff8000"), Some(Color::Rgb(255, 128, 0)));
    assert_eq!(parse_color("#112233"), Some(Color::Rgb(0x11, 0x22, 0x33)));
    assert_eq!(parse_color("#11223"), None);
    assert_eq!(parse_color("#11223g"), None);
    assert_eq!(parse_color(""), None);
    assert_eq!(parse_color("magenta"), None);
}

#[test]
fn absent_style_path_is_default() {
    let c = Config::new();
    assert_eq!(read_style("modules.prompt.style", &c), Ok(Style::default()));
}

#[test]
fn scalar_style_path_is_type_error() {
    let mut c = Config::new();
    c.set("modules.prompt.style", Value::Str("green".to_string()));
    let r = read_style("modules.prompt.style", &c);
    assert_eq!(r.unwrap_err().kind(), ErrorKind::InvalidTypeInConfig);
}

#[test]
fn style_table_resolves_colors_and_attributes() {
    let mut c = Config::new();
    c.set(
        "p",
        table(vec![
            ("foreground", Value::Str("white".to_string())),
            ("background", Value::Str("#336699".to_string())),
            (
                "attributes",
                Value::Array(vec![
                    Value::Str("bold".to_string()),
                    Value::Str("underline".to_string()),
                ]),
            ),
        ]),
    );
    let s = read_style("p", &c).unwrap();
    assert_eq!(s.foreground, Some(Color::Fixed(7)));
    assert_eq!(s.background, Some(Color::Rgb(0x33, 0x66, 0x99)));
    assert!(s.is_bold);
    assert!(s.is_underline);
    assert!(!s.is_dimmed);
    assert!(!s.is_italic);
}

#[test]
fn unparseable_color_is_parse_failure() {
    let mut c = Config::new();
    c.set("p", table(vec![("foreground", Value::Str("no-such-color".to_string()))]));
    let r = read_style("p", &c);
    assert_eq!(r.unwrap_err().kind(), ErrorKind::ConfigParseFailure);
}

#[test]
fn non_string_color_is_type_error() {
    let mut c = Config::new();
    c.set("p", table(vec![("background", Value::Int(3))]));
    let r = read_style("p", &c);
    assert_eq!(r.unwrap_err().kind(), ErrorKind::InvalidTypeInConfig);
}

#[test]
fn unknown_attribute_is_no_such_match() {
    let mut c = Config::new();
    c.set(
        "p",
        table(vec![(
            "attributes",
            Value::Array(vec![Value::Str("sparkly".to_string())]),
        )]),
    );
    let r = read_style("p", &c);
    assert_eq!(r.unwrap_err().kind(), ErrorKind::NoSuchMatchInConfig);
}

#[test]
fn non_array_attributes_is_type_error() {
    let mut c = Config::new();
    c.set("p", table(vec![("attributes", Value::Str("bold".to_string()))]));
    let r = read_style("p", &c);
    assert_eq!(r.unwrap_err().kind(), ErrorKind::InvalidTypeInConfig);
}

#[test]
fn read_options_defaults() {
    let c = Config::new();
    let o = read_options("prompt", &c).unwrap();
    assert!(o.enabled);
    assert_eq!(o.symbol, None);
    assert_eq!(o.style, Style::default());
}

#[test]
fn read_options_reads_generic_fields() {
    let mut c = Config::new();
    c.set("modules.prompt.enabled", Value::Bool(false));
    c.set("modules.prompt.symbol", Value::Str("➜".to_string()));
    c.set(
        "modules.prompt.style",
        table(vec![("foreground", Value::Str("cyan".to_string()))]),
    );
    let o = read_options("prompt", &c).unwrap();
    assert!(!o.enabled);
    assert_eq!(o.symbol, Some("➜".to_string()));
    assert_eq!(o.style.foreground, Some(Color::Fixed(6)));
}

#[test]
fn read_options_wrong_enabled_type() {
    let mut c = Config::new();
    c.set("modules.prompt.enabled", Value::Int(1));
    let r = read_options("prompt", &c);
    assert_eq!(r.unwrap_err().kind(), ErrorKind::InvalidTypeInConfig);
}

#[test]
fn select_style_picks_success_only_for_zero() {
    let success = Style {
        background: Some(Color::Fixed(2)),
        ..Style::default()
    };
    let error = Style {
        background: Some(Color::Fixed(1)),
        ..Style::default()
    };
    assert_eq!(select_style(0, success, error), success);
    assert_eq!(select_style(1, success, error), error);
    assert_eq!(select_style(255, success, error), error);
}

#[test]
fn segment_matches_ansi_term_painting() {
    let style = Style {
        foreground: Some(Color::Fixed(7)),
        background: Some(Color::Rgb(0x33, 0x66, 0x99)),
        is_bold: true,
        ..Style::default()
    };
    let options = ModuleOptions {
        enabled: true,
        symbol: None,
        style,
    };
    let mut reference = ansi_style(style.foreground, style.background);
    reference.is_bold = true;
    let expected = reference.paint("$").to_string();
    let got = format_for_module("$", &options, None, Shell::Fish);
    assert_eq!(got, expected);
    // a styled segment is more than its bare text
    assert_ne!(got, "$");
}

#[test]
fn bash_and_zsh_wrap_escape_runs_in_markers() {
    let style = Style {
        background: Some(Color::Fixed(2)),
        ..Style::default()
    };
    let options = ModuleOptions {
        enabled: true,
        symbol: None,
        style,
    };
    let reference = ansi_style(None, Some(Color::Fixed(2)));
    let prefix = reference.prefix().to_string();
    let suffix = reference.suffix().to_string();
    let bash = format_for_module("$", &options, None, Shell::Bash);
    assert_eq!(bash, format!("\\[{}\\]$\\[{}\\]", prefix, suffix));
    let zsh = format_for_module("$", &options, None, Shell::Zsh);
    assert_eq!(zsh, format!("%{{{}%}}$%{{{}%}}", prefix, suffix));
}

#[test]
fn default_style_needs_no_markers() {
    let options = ModuleOptions {
        enabled: true,
        symbol: None,
        style: Style::default(),
    };
    // an all-default style paints no escape codes, so there is nothing
    // to hide from the shell either
    assert_eq!(format_for_module("$", &options, None, Shell::Bash), "$");
    assert_eq!(format_for_module("", &options, None, Shell::Zsh), "");
}

fn prompt_config() -> Config {
    let mut c = Config::new();
    c.set(
        "modules.prompt.style_success",
        table(vec![("background", Value::Str("green".to_string()))]),
    );
    c.set(
        "modules.prompt.style_error",
        table(vec![("background", Value::Str("red".to_string()))]),
    );
    c
}

#[test]
fn prompt_success_renders_green_dollar() {
    let c = prompt_config();
    let r = format_prompt(&c, 0, None, Shell::Fish).unwrap();
    let expected = ansi_style(None, Some(Color::Fixed(2))).paint("$").to_string();
    assert_eq!(r.output, Some(expected));
    assert_eq!(r.next_bg, Some(Color::Fixed(2)));
}

#[test]
fn prompt_failure_renders_red_dollar() {
    let c = prompt_config();
    for code in [1u8, 255] {
        let r = format_prompt(&c, code, None, Shell::Fish).unwrap();
        let expected = ansi_style(None, Some(Color::Fixed(1))).paint("$").to_string();
        assert_eq!(r.output, Some(expected));
        assert_eq!(r.next_bg, Some(Color::Fixed(1)));
    }
}

#[test]
fn next_bg_equals_background_of_painted_style() {
    let mut c = Config::new();
    c.set(
        "modules.prompt.style_success",
        table(vec![("background", Value::Str("#112233".to_string()))]),
    );
    let r = format_prompt(&c, 0, Some(Color::Fixed(5)), Shell::Bash).unwrap();
    assert_eq!(r.next_bg, Some(Color::Rgb(0x11, 0x22, 0x33)));
    // error style is absent, so a failing command resolves the default
    let r2 = format_prompt(&c, 1, None, Shell::Bash).unwrap();
    assert_eq!(r2.next_bg, None);
}

#[test]
fn rendering_twice_is_byte_identical() {
    let c = prompt_config();
    for shell in [Shell::Bash, Shell::Zsh, Shell::Fish, Shell::PowerShell, Shell::Elvish] {
        let a = format_prompt(&c, 0, None, shell).unwrap();
        let b = format_prompt(&c, 0, None, shell).unwrap();
        assert_eq!(a, b);
        let a1 = format_prompt(&c, 1, None, shell).unwrap();
        let b1 = format_prompt(&c, 1, None, shell).unwrap();
        assert_eq!(a1, b1);
    }
}

#[test]
fn prompt_propagates_resolution_errors() {
    let mut c = Config::new();
    c.set("modules.prompt.style_success", Value::Int(3));
    let r = format_prompt(&c, 0, None, Shell::Fish);
    assert_eq!(r.unwrap_err().kind(), ErrorKind::InvalidTypeInConfig);
}
