use vstd::prelude::*;

use crate::configtree::{lookup_entries, Config, Value};
use crate::utils::{Error, ErrorKind};

verus! {

/// A terminal color: an entry of the 256-color ANSI palette (the named
/// colors are the first eight entries) or a 24-bit `#RRGGBB` value.
#[derive(Clone, Copy, Debug, PartialEq, Eq, Structural)]
pub enum Color {
    Fixed(u8),
    Rgb(u8, u8, u8),
}

/// The styling applied to one prompt segment. An unset field means
/// "inherit the terminal default", never a concrete color.
#[derive(Clone, Copy, Debug, PartialEq, Eq)]
pub struct Style {
    pub foreground: Option<Color>,
    pub background: Option<Color>,
    pub is_bold: bool,
    pub is_dimmed: bool,
    pub is_italic: bool,
    pub is_underline: bool,
}

/// The all-default style: every field unset.
pub open spec fn default_style() -> Style {
    Style {
        foreground: None,
        background: None,
        is_bold: false,
        is_dimmed: false,
        is_italic: false,
        is_underline: false,
    }
}

impl Default for Style {
    fn default() -> (s: Style)
        ensures
            s == default_style(),
    {
        Style {
            foreground: None,
            background: None,
            is_bold: false,
            is_dimmed: false,
            is_italic: false,
            is_underline: false,
        }
    }
}

/// The palette index a color name stands for; the first eight palette
/// entries are the classic named terminal colors.
pub open spec fn named_color(s: Seq<char>) -> Option<Color> {
    if s == "black"@ {
        Some(Color::Fixed(0))
    } else if s == "red"@ {
        Some(Color::Fixed(1))
    } else if s == "green"@ {
        Some(Color::Fixed(2))
    } else if s == "yellow"@ {
        Some(Color::Fixed(3))
    } else if s == "blue"@ {
        Some(Color::Fixed(4))
    } else if s == "purple"@ {
        Some(Color::Fixed(5))
    } else if s == "cyan"@ {
        Some(Color::Fixed(6))
    } else if s == "white"@ {
        Some(Color::Fixed(7))
    } else {
        None
    }
}

pub open spec fn is_digit(c: char) -> bool {
    ('0' as u32) <= (c as u32) && (c as u32) <= ('9' as u32)
}

pub open spec fn digit_val(c: char) -> int {
    (c as u32) - ('0' as u32)
}

/// The number the digit string reads as, most significant digit first.
pub open spec fn dec_value(s: Seq<char>) -> int
    decreases s.len(),
{
    if s.len() == 0 {
        0
    } else {
        dec_value(s.drop_last()) * 10 + digit_val(s.last())
    }
}

/// A bare ANSI palette index: one to three digits, at most 255.
pub open spec fn is_dec_index(s: Seq<char>) -> bool {
    &&& 1 <= s.len() <= 3
    &&& (forall|i: int| 0 <= i < s.len() ==> is_digit(#[trigger] s[i]))
    &&& dec_value(s) <= 255
}

pub open spec fn is_hex_digit(c: char) -> bool {
    ||| ('0' as u32) <= (c as u32) && (c as u32) <= ('9' as u32)
    ||| ('a' as u32) <= (c as u32) && (c as u32) <= ('f' as u32)
    ||| ('A' as u32) <= (c as u32) && (c as u32) <= ('F' as u32)
}

pub open spec fn hex_digit_val(c: char) -> int {
    if ('0' as u32) <= (c as u32) && (c as u32) <= ('9' as u32) {
        (c as u32) - ('0' as u32)
    } else if ('a' as u32) <= (c as u32) && (c as u32) <= ('f' as u32) {
        (c as u32) - ('a' as u32) + 10
    } else if ('A' as u32) <= (c as u32) && (c as u32) <= ('F' as u32) {
        (c as u32) - ('A' as u32) + 10
    } else {
        0
    }
}

pub open spec fn hex_byte(a: char, b: char) -> int {
    hex_digit_val(a) * 16 + hex_digit_val(b)
}

/// A `#RRGGBB` color value: a hash sign and six hex digits.
pub open spec fn is_hex_color(s: Seq<char>) -> bool {
    &&& s.len() == 7
    &&& s[0] == '#'
    &&& (forall|i: int| 1 <= i < 7 ==> is_hex_digit(#[trigger] s[i]))
}

/// What a color string in config stands for: a color name, a bare
/// palette index, or a `#RRGGBB` value; anything else is unparseable.
pub open spec fn spec_parse_color(s: Seq<char>) -> Option<Color> {
    if named_color(s) is Some {
        named_color(s)
    } else if is_dec_index(s) {
        Some(Color::Fixed(dec_value(s) as u8))
    } else if is_hex_color(s) {
        Some(
            Color::Rgb(
                hex_byte(s[1], s[2]) as u8,
                hex_byte(s[3], s[4]) as u8,
                hex_byte(s[5], s[6]) as u8,
            ),
        )
    } else {
        None
    }
}

/// The value of a single hex digit, or `None` for any other character.
fn hex_digit_of(c: char) -> (r: Option<u8>)
    ensures
        r is Some <==> is_hex_digit(c),
        r matches Some(v) ==> v == hex_digit_val(c),
{
    let u = c as u32;
    if 48 <= u && u <= 57 {
        Some((u - 48) as u8)
    } else if 97 <= u && u <= 102 {
        Some((u - 97 + 10) as u8)
    } else if 65 <= u && u <= 70 {
        Some((u - 65 + 10) as u8)
    } else {
        None
    }
}

/// Parses a color string: a color name, a bare palette index up to
/// 255, or a `#RRGGBB` value. Returns `None` for anything else.
#[verifier::loop_isolation(false)]
pub fn parse_color(s: &str) -> (r: Option<Color>)
    ensures
        r == spec_parse_color(s@),
{
    let o = s.to_owned();
    if o == String::from_str("black") {
        return Some(Color::Fixed(0));
    }
    if o == String::from_str("red") {
        return Some(Color::Fixed(1));
    }
    if o == String::from_str("green") {
        return Some(Color::Fixed(2));
    }
    if o == String::from_str("yellow") {
        return Some(Color::Fixed(3));
    }
    if o == String::from_str("blue") {
        return Some(Color::Fixed(4));
    }
    if o == String::from_str("purple") {
        return Some(Color::Fixed(5));
    }
    if o == String::from_str("cyan") {
        return Some(Color::Fixed(6));
    }
    if o == String::from_str("white") {
        return Some(Color::Fixed(7));
    }
    let n = s.unicode_len();
    if 1 <= n && n <= 3 {
        let mut v: u32 = 0;
        let mut i: usize = 0;
        proof {
            assert(s@.subrange(0, 0) =~= Seq::<char>::empty());
        }
        while i < n
            invariant
                n == s@.len(),
                1 <= n <= 3,
                i <= n,
                forall|j: int| 0 <= j < i ==> is_digit(#[trigger] s@[j]),
                v == dec_value(s@.subrange(0, i as int)),
                i == 0 ==> v == 0,
                i == 1 ==> v <= 9,
                i == 2 ==> v <= 99,
                i == 3 ==> v <= 999,
            decreases n - i,
        {
            let c = s.get_char(i);
            let u = c as u32;
            if !(48 <= u && u <= 57) {
                return None;
            }
            proof {
                assert(s@.subrange(0, i + 1).drop_last() =~= s@.subrange(0, i as int));
                assert(s@.subrange(0, i + 1).last() == s@[i as int]);
            }
            v = v * 10 + (u - 48);
            i = i + 1;
        }
        proof {
            assert(s@.subrange(0, n as int) =~= s@);
        }
        if v <= 255 {
            return Some(Color::Fixed(v as u8));
        }
        return None;
    }
    if n == 7 && s.get_char(0) == '#' {
        let h1 = hex_digit_of(s.get_char(1));
        let h2 = hex_digit_of(s.get_char(2));
        let h3 = hex_digit_of(s.get_char(3));
        let h4 = hex_digit_of(s.get_char(4));
        let h5 = hex_digit_of(s.get_char(5));
        let h6 = hex_digit_of(s.get_char(6));
        match (h1, h2, h3, h4, h5, h6) {
            (Some(a), Some(b), Some(c), Some(d), Some(e), Some(f)) => {
                return Some(Color::Rgb(a * 16 + b, c * 16 + d, e * 16 + f));
            },
            _ => {
                return None;
            },
        }
    }
    None
}

/// The escape codes that switch the terminal to `style`; they are a
/// function of the style alone. Empty for the all-default style.
pub uninterp spec fn prefix_of(style: Style) -> Seq<char>;

/// The escape codes that reset the terminal after text painted with
/// `style`; a function of the style alone, empty for the all-default
/// style.
pub uninterp spec fn suffix_of(style: Style) -> Seq<char>;

/// Relies on ansi_term's `Style::prefix` (with `Prefix`'s `Display`):
/// the escape codes that introduce this style, computed from the style
/// fields alone; a style with nothing set writes no codes at all.
#[verifier::external_body]
pub(crate) fn style_prefix(style: &Style) -> (r: String)
    ensures
        r@ == prefix_of(*style),
        *style == default_style() ==> r@.len() == 0,
{
    let f = |c: Color| match c {
        Color::Fixed(n) => ansi_term::Colour::Fixed(n),
        Color::Rgb(r, g, b) => ansi_term::Colour::RGB(r, g, b),
    };
    let s = ansi_term::Style {
        foreground: style.foreground.map(f),
        background: style.background.map(f),
        is_bold: style.is_bold,
        is_dimmed: style.is_dimmed,
        is_italic: style.is_italic,
        is_underline: style.is_underline,
        ..ansi_term::Style::default()
    };
    format!("{}", s.prefix())
}

/// Relies on ansi_term's `Style::suffix` (with `Suffix`'s `Display`):
/// the escape codes that reset this style, computed from the style
/// fields alone; a style with nothing set writes no codes at all.
#[verifier::external_body]
pub(crate) fn style_suffix(style: &Style) -> (r: String)
    ensures
        r@ == suffix_of(*style),
        *style == default_style() ==> r@.len() == 0,
{
    let f = |c: Color| match c {
        Color::Fixed(n) => ansi_term::Colour::Fixed(n),
        Color::Rgb(r, g, b) => ansi_term::Colour::RGB(r, g, b),
    };
    let s = ansi_term::Style {
        foreground: style.foreground.map(f),
        background: style.background.map(f),
        is_bold: style.is_bold,
        is_dimmed: style.is_dimmed,
        is_italic: style.is_italic,
        is_underline: style.is_underline,
        ..ansi_term::Style::default()
    };
    format!("{}", s.suffix())
}

/// Sets the attribute flag `name` stands for, or `None` for a name
/// outside the attribute vocabulary.
pub open spec fn attr_applied(s: Style, name: Seq<char>) -> Option<Style> {
    if name == "bold"@ {
        Some((Style { is_bold: true, ..s }))
    } else if name == "dimmed"@ {
        Some((Style { is_dimmed: true, ..s }))
    } else if name == "italic"@ {
        Some((Style { is_italic: true, ..s }))
    } else if name == "underline"@ {
        Some((Style { is_underline: true, ..s }))
    } else {
        None
    }
}

/// Folds an attribute list over a style, left to right. A non-string
/// entry is the wrong type; an unknown name matches nothing.
pub open spec fn apply_attrs(s: Style, items: Seq<Value>) -> Result<Style, ErrorKind>
    decreases items.len(),
{
    if items.len() == 0 {
        Ok(s)
    } else {
        match items[0] {
            Value::Str(n) => match attr_applied(s, n@) {
                Some(s2) => apply_attrs(s2, items.subrange(1, items.len() as int)),
                None => Err(ErrorKind::NoSuchMatchInConfig),
            },
            _ => Err(ErrorKind::InvalidTypeInConfig),
        }
    }
}

/// What the optional color entry `name` of a style table resolves to.
pub open spec fn color_field(t: Seq<(String, Value)>, name: Seq<char>) -> Result<
    Option<Color>,
    ErrorKind,
> {
    match lookup_entries(t, name) {
        None => Ok(None),
        Some(Value::Str(s)) => match spec_parse_color(s@) {
            Some(c) => Ok(Some(c)),
            None => Err(ErrorKind::ConfigParseFailure),
        },
        Some(_) => Err(ErrorKind::InvalidTypeInConfig),
    }
}

/// What the optional attribute list of a style table does to a style.
pub open spec fn attrs_field(s: Style, t: Seq<(String, Value)>) -> Result<Style, ErrorKind> {
    match lookup_entries(t, "attributes"@) {
        None => Ok(s),
        Some(Value::Array(a)) => apply_attrs(s, a@),
        Some(_) => Err(ErrorKind::InvalidTypeInConfig),
    }
}

/// The style a style table resolves to: foreground, then background,
/// then the attribute list, failing on the first bad entry.
pub open spec fn style_from_table(t: Seq<(String, Value)>) -> Result<Style, ErrorKind> {
    match color_field(t, "foreground"@) {
        Err(k) => Err(k),
        Ok(fg) => match color_field(t, "background"@) {
            Err(k) => Err(k),
            Ok(bg) => attrs_field(
                (Style {
                    foreground: fg,
                    background: bg,
                    is_bold: false,
                    is_dimmed: false,
                    is_italic: false,
                    is_underline: false,
                }),
                t,
            ),
        },
    }
}

/// The style `path` resolves to in `c`: the all-default style when the
/// path is absent, an error when it is bound to anything but a table,
/// and otherwise whatever the table says.
pub open spec fn read_style_spec(c: Config, path: Seq<char>) -> Result<Style, ErrorKind> {
    match c.spec_lookup(path) {
        None => Ok(default_style()),
        Some(Value::Table(t)) => style_from_table(t@),
        Some(_) => Err(ErrorKind::InvalidTypeInConfig),
    }
}

/// How a `read_style` result relates to its inputs: the resolved style
/// or the resolved error kind is exactly what `read_style_spec` says.
pub open spec fn style_post(c: Config, path: Seq<char>, r: Result<Style, Error>) -> bool {
    match r {
        Ok(s) => read_style_spec(c, path) == Result::<Style, ErrorKind>::Ok(s),
        Err(e) => (read_style_spec(c, path) matches Err(k) && e.spec_kind() == k),
    }
}

/// Law: a style path absent from config resolves to the all-default
/// style — absence is a valid default, never an error.
pub proof fn lemma_absent_style_is_default(c: Config, path: Seq<char>)
    requires
        c.spec_lookup(path) is None,
    ensures
        read_style_spec(c, path) == Result::<Style, ErrorKind>::Ok(default_style()),
{
}

/// Law: a style path bound to anything but a table fails with
/// `InvalidTypeInConfig`.
pub proof fn lemma_non_table_style_is_type_error(c: Config, path: Seq<char>)
    requires
        c.spec_lookup(path) matches Some(v) && !(v matches Value::Table(_)),
    ensures
        read_style_spec(c, path) == Result::<Style, ErrorKind>::Err(
            ErrorKind::InvalidTypeInConfig,
        ),
{
}

/// The value an attribute name adds to a style, or `None` for a name
/// outside the vocabulary.
fn apply_attr(s: Style, name: &String) -> (r: Option<Style>)
    ensures
        r == attr_applied(s, name@),
{
    if *name == String::from_str("bold") {
        Some(Style { is_bold: true, ..s })
    } else if *name == String::from_str("dimmed") {
        Some(Style { is_dimmed: true, ..s })
    } else if *name == String::from_str("italic") {
        Some(Style { is_italic: true, ..s })
    } else if *name == String::from_str("underline") {
        Some(Style { is_underline: true, ..s })
    } else {
        None
    }
}

/// Resolves the optional color entry `name` of a style table.
fn color_entry(t: &Vec<(String, Value)>, name: &str) -> (r: Result<Option<Color>, Error>)
    ensures
        match r {
            Ok(o) => color_field(t@, name@) == Result::<Option<Color>, ErrorKind>::Ok(o),
            Err(e) => (color_field(t@, name@) matches Err(k) && e.spec_kind() == k),
        },
{
    match crate::configtree::get_entry(t, name) {
        None => Ok(None),
        Some(Value::Str(s)) => match parse_color(s.as_str()) {
            Some(col) => Ok(Some(col)),
            None => Err(Error::new(ErrorKind::ConfigParseFailure, "unparseable color value")),
        },
        Some(_) => Err(Error::new(ErrorKind::InvalidTypeInConfig, "expected a color string")),
    }
}

/// Applies the optional attribute list of a style table to a style.
#[verifier::loop_isolation(false)]
fn attrs_entry(s: Style, t: &Vec<(String, Value)>) -> (r: Result<Style, Error>)
    ensures
        match r {
            Ok(s2) => attrs_field(s, t@) == Result::<Style, ErrorKind>::Ok(s2),
            Err(e) => (attrs_field(s, t@) matches Err(k) && e.spec_kind() == k),
        },
{
    let items: &Vec<Value> = match crate::configtree::get_entry(t, "attributes") {
        None => {
            return Ok(s);
        },
        Some(Value::Array(a)) => a,
        Some(_) => {
            return Err(Error::new(ErrorKind::InvalidTypeInConfig, "expected an attribute array"));
        },
    };
    let mut cur = s;
    let mut i: usize = 0;
    let n = items.len();
    proof {
        assert(items@.subrange(0, n as int) =~= items@);
    }
    while i < n
        invariant
            n == items.len(),
            i <= n,
            apply_attrs(cur, items@.subrange(i as int, n as int)) == apply_attrs(s, items@),
        decreases n - i,
    {
        proof {
            assert(items@.subrange(i as int, n as int)[0] == items@[i as int]);
            assert(items@.subrange(i as int, n as int).subrange(1, (n - i) as int)
                =~= items@.subrange(i + 1, n as int));
        }
        match &items[i] {
            Value::Str(nm) => match apply_attr(cur, nm) {
                Some(s2) => {
                    cur = s2;
                },
                None => {
                    return Err(
                        Error::new(ErrorKind::NoSuchMatchInConfig, "unrecognized attribute name"),
                    );
                },
            },
            _ => {
                return Err(
                    Error::new(ErrorKind::InvalidTypeInConfig, "expected an attribute name string"),
                );
            },
        }
        i = i + 1;
    }
    Ok(cur)
}

/// Resolves the style stored at `path`. An absent path is not an
/// error: it resolves to the all-default style, "use the terminal
/// defaults". A path bound to anything but a table is the wrong type.
pub fn read_style(path: &str, c: &Config) -> (r: Result<Style, Error>)
    ensures
        style_post(*c, path@, r),
{
    let t: &Vec<(String, Value)> = match c.get(path) {
        None => {
            return Ok(Style::default());
        },
        Some(Value::Table(t)) => t,
        Some(_) => {
            return Err(Error::new(ErrorKind::InvalidTypeInConfig, "expected a style table"));
        },
    };
    let fg = match color_entry(t, "foreground") {
        Ok(o) => o,
        Err(e) => {
            return Err(e);
        },
    };
    let bg = match color_entry(t, "background") {
        Ok(o) => o,
        Err(e) => {
            return Err(e);
        },
    };
    let base = Style {
        foreground: fg,
        background: bg,
        is_bold: false,
        is_dimmed: false,
        is_italic: false,
        is_underline: false,
    };
    match attrs_entry(base, t) {
        Ok(s) => Ok(s),
        Err(e) => Err(e),
    }
}

} // verus!
