//! Color themes: the bundled ones, and themes made from hex colors.
use crate::term_core::{ansi_color, Color};
use crate::text::same_text;
use vstd::prelude::*;
use vstd::string::StringSliceAdditionalSpecFns;

verus! {

#[derive(Debug, Clone)]
pub struct Theme {
    pub name: String,
    pub fg: Color,
    pub bg: Color,
    pub cursor: Color,
    pub ansi: [Color; 16],
}

/// The value of a hex digit in ASCII.
pub open spec fn hex_digit(b: u8) -> Option<u8> {
    if 0x30 <= b <= 0x39 {
        Some((b - 0x30) as u8)
    } else if 0x61 <= b <= 0x66 {
        Some((b - 0x61 + 10) as u8)
    } else if 0x41 <= b <= 0x46 {
        Some((b - 0x41 + 10) as u8)
    } else {
        None
    }
}

/// The byte that two characters write in hex: two hex digits, or a `+` and
/// one hex digit.
pub open spec fn hex_pair(a: u8, b: u8) -> Option<u8> {
    match hex_digit(b) {
        Some(low) => if a == 0x2b {
            Some(low)
        } else {
            match hex_digit(a) {
                Some(high) => Some((high * 16 + low) as u8),
                None => None,
            }
        },
        None => None,
    }
}

/// The color that `#rrggbb` or `rrggbb` writes, given as bytes.
pub open spec fn hex_color(bytes: Seq<u8>) -> Option<Color> {
    let body = if bytes.len() > 0 && bytes[0] == 0x23 {
        bytes.skip(1)
    } else {
        bytes
    };
    if body.len() != 6 {
        None
    } else {
        match (hex_pair(body[0], body[1]), hex_pair(body[2], body[3]), hex_pair(body[4], body[5])) {
            (Some(r), Some(g), Some(b)) => Some(Color { r, g, b }),
            _ => None,
        }
    }
}

fn digit_value(b: u8) -> (r: Option<u8>)
    ensures
        r == hex_digit(b),
        r matches Some(v) ==> v < 16,
{
    if b >= 0x30 && b <= 0x39 {
        Some(b - 0x30)
    } else if b >= 0x61 && b <= 0x66 {
        Some(b - 0x61 + 10)
    } else if b >= 0x41 && b <= 0x46 {
        Some(b - 0x41 + 10)
    } else {
        None
    }
}

fn pair_value(a: u8, b: u8) -> (r: Option<u8>)
    ensures
        r == hex_pair(a, b),
{
    match digit_value(b) {
        Some(low) => {
            if a == 0x2b {
                Some(low)
            } else {
                match digit_value(a) {
                    Some(high) => Some(high * 16 + low),
                    None => None,
                }
            }
        },
        None => None,
    }
}

/// The color that a hex string writes: `#rrggbb`, with or without the `#`.
pub fn hex_to_color(hex: &str) -> (r: Option<Color>)
    ensures
        r == hex_color(hex.spec_bytes()),
{
    let bytes = hex.as_bytes();
    let start: usize = if bytes.len() > 0 && bytes[0] == 0x23 {
        1
    } else {
        0
    };
    if bytes.len() - start != 6 {
        return None;
    }
    let r = pair_value(bytes[start], bytes[start + 1]);
    let g = pair_value(bytes[start + 2], bytes[start + 3]);
    let b = pair_value(bytes[start + 4], bytes[start + 5]);
    assert(start == 0 ==> bytes@.skip(0) =~= bytes@);
    match (r, g, b) {
        (Some(r), Some(g), Some(b)) => Some(Color { r, g, b }),
        _ => None,
    }
}

/// The sixteen colors of the default theme.
pub open spec fn default_palette() -> Seq<Color> {
    Seq::new(16, |i: int| ansi_color(i))
}

/// The sixteen colors of the Dracula theme.
pub open spec fn dracula_palette() -> Seq<Color> {
    seq![
        Color { r: 33, g: 34, b: 44 },
        Color { r: 255, g: 85, b: 85 },
        Color { r: 80, g: 250, b: 123 },
        Color { r: 241, g: 250, b: 140 },
        Color { r: 98, g: 114, b: 164 },
        Color { r: 255, g: 121, b: 198 },
        Color { r: 139, g: 233, b: 253 },
        Color { r: 248, g: 248, b: 242 },
        Color { r: 98, g: 114, b: 164 },
        Color { r: 255, g: 110, b: 110 },
        Color { r: 105, g: 255, b: 148 },
        Color { r: 255, g: 255, b: 165 },
        Color { r: 125, g: 141, b: 191 },
        Color { r: 255, g: 146, b: 215 },
        Color { r: 164, g: 248, b: 255 },
        Color { r: 255, g: 255, b: 255 },
    ]
}

/// The sixteen colors of the Solarized Dark theme.
pub open spec fn solarized_palette() -> Seq<Color> {
    seq![
        Color { r: 7, g: 54, b: 66 },
        Color { r: 220, g: 50, b: 47 },
        Color { r: 133, g: 153, b: 0 },
        Color { r: 181, g: 137, b: 0 },
        Color { r: 38, g: 139, b: 210 },
        Color { r: 211, g: 54, b: 130 },
        Color { r: 42, g: 161, b: 152 },
        Color { r: 238, g: 232, b: 213 },
        Color { r: 0, g: 43, b: 54 },
        Color { r: 203, g: 75, b: 22 },
        Color { r: 88, g: 110, b: 117 },
        Color { r: 101, g: 123, b: 131 },
        Color { r: 131, g: 148, b: 150 },
        Color { r: 108, g: 113, b: 196 },
        Color { r: 147, g: 161, b: 161 },
        Color { r: 253, g: 246, b: 227 },
    ]
}

/// The mathematical value of a [`Theme`].
pub struct ThemeView {
    pub name: Seq<char>,
    pub fg: Color,
    pub bg: Color,
    pub cursor: Color,
    pub ansi: Seq<Color>,
}

impl View for Theme {
    type V = ThemeView;

    open spec fn view(&self) -> ThemeView {
        ThemeView {
            name: self.name@,
            fg: self.fg,
            bg: self.bg,
            cursor: self.cursor,
            ansi: self.ansi@,
        }
    }
}

impl ThemeView {
    pub open spec fn default_dark() -> ThemeView {
        ThemeView {
            name: "default"@,
            fg: Color { r: 204, g: 204, b: 204 },
            bg: Color { r: 0, g: 0, b: 0 },
            cursor: Color { r: 204, g: 204, b: 204 },
            ansi: default_palette(),
        }
    }

    pub open spec fn dracula() -> ThemeView {
        ThemeView {
            name: "dracula"@,
            fg: Color { r: 248, g: 248, b: 242 },
            bg: Color { r: 40, g: 42, b: 54 },
            cursor: Color { r: 248, g: 248, b: 242 },
            ansi: dracula_palette(),
        }
    }

    pub open spec fn solarized_dark() -> ThemeView {
        ThemeView {
            name: "solarized-dark"@,
            fg: Color { r: 131, g: 148, b: 150 },
            bg: Color { r: 0, g: 43, b: 54 },
            cursor: Color { r: 131, g: 148, b: 150 },
            ansi: solarized_palette(),
        }
    }

    /// The bundled theme of a name.
    pub open spec fn by_name(name: Seq<char>) -> Option<ThemeView> {
        if name == "default"@ {
            Some(ThemeView::default_dark())
        } else if name == "dracula"@ {
            Some(ThemeView::dracula())
        } else if name == "solarized-dark"@ {
            Some(ThemeView::solarized_dark())
        } else {
            None
        }
    }

    /// The colors of `base` with those of `colors` put over them: the color
    /// at index `i`, for `i` below 16, replaces the base's where it is a hex
    /// color.
    pub open spec fn overlay(base: Seq<Color>, colors: Seq<Seq<u8>>) -> Seq<Color> {
        Seq::new(
            base.len(),
            |i: int|
                if i < colors.len() && hex_color(colors[i]) is Some {
                    hex_color(colors[i])->0
                } else {
                    base[i]
                },
        )
    }
}

impl Theme {
    pub fn default_dark() -> (t: Theme)
        ensures
            t@ == ThemeView::default_dark(),
    {
        let t = Theme {
            name: "default".to_owned(),
            fg: Color { r: 204, g: 204, b: 204 },
            bg: Color { r: 0, g: 0, b: 0 },
            cursor: Color { r: 204, g: 204, b: 204 },
            ansi: [
                Color { r: 0, g: 0, b: 0 },
                Color { r: 205, g: 49, b: 49 },
                Color { r: 13, g: 188, b: 121 },
                Color { r: 229, g: 229, b: 16 },
                Color { r: 36, g: 114, b: 200 },
                Color { r: 188, g: 63, b: 188 },
                Color { r: 17, g: 168, b: 205 },
                Color { r: 204, g: 204, b: 204 },
                Color { r: 102, g: 102, b: 102 },
                Color { r: 241, g: 76, b: 76 },
                Color { r: 35, g: 209, b: 139 },
                Color { r: 245, g: 245, b: 67 },
                Color { r: 59, g: 142, b: 234 },
                Color { r: 214, g: 112, b: 214 },
                Color { r: 41, g: 184, b: 219 },
                Color { r: 242, g: 242, b: 242 },
            ],
        };
        assert(t.ansi@ =~= default_palette());
        t
    }

    pub fn dracula() -> (t: Theme)
        ensures
            t@ == ThemeView::dracula(),
    {
        let t = Theme {
            name: "dracula".to_owned(),
            fg: Color { r: 248, g: 248, b: 242 },
            bg: Color { r: 40, g: 42, b: 54 },
            cursor: Color { r: 248, g: 248, b: 242 },
            ansi: [
                Color { r: 33, g: 34, b: 44 },
                Color { r: 255, g: 85, b: 85 },
                Color { r: 80, g: 250, b: 123 },
                Color { r: 241, g: 250, b: 140 },
                Color { r: 98, g: 114, b: 164 },
                Color { r: 255, g: 121, b: 198 },
                Color { r: 139, g: 233, b: 253 },
                Color { r: 248, g: 248, b: 242 },
                Color { r: 98, g: 114, b: 164 },
                Color { r: 255, g: 110, b: 110 },
                Color { r: 105, g: 255, b: 148 },
                Color { r: 255, g: 255, b: 165 },
                Color { r: 125, g: 141, b: 191 },
                Color { r: 255, g: 146, b: 215 },
                Color { r: 164, g: 248, b: 255 },
                Color { r: 255, g: 255, b: 255 },
            ],
        };
        assert(t.ansi@ =~= dracula_palette());
        t
    }

    pub fn solarized_dark() -> (t: Theme)
        ensures
            t@ == ThemeView::solarized_dark(),
    {
        let t = Theme {
            name: "solarized-dark".to_owned(),
            fg: Color { r: 131, g: 148, b: 150 },
            bg: Color { r: 0, g: 43, b: 54 },
            cursor: Color { r: 131, g: 148, b: 150 },
            ansi: [
                Color { r: 7, g: 54, b: 66 },
                Color { r: 220, g: 50, b: 47 },
                Color { r: 133, g: 153, b: 0 },
                Color { r: 181, g: 137, b: 0 },
                Color { r: 38, g: 139, b: 210 },
                Color { r: 211, g: 54, b: 130 },
                Color { r: 42, g: 161, b: 152 },
                Color { r: 238, g: 232, b: 213 },
                Color { r: 0, g: 43, b: 54 },
                Color { r: 203, g: 75, b: 22 },
                Color { r: 88, g: 110, b: 117 },
                Color { r: 101, g: 123, b: 131 },
                Color { r: 131, g: 148, b: 150 },
                Color { r: 108, g: 113, b: 196 },
                Color { r: 147, g: 161, b: 161 },
                Color { r: 253, g: 246, b: 227 },
            ],
        };
        assert(t.ansi@ =~= solarized_palette());
        t
    }

    /// Look up a bundled theme by name.
    pub fn by_name(name: &str) -> (r: Option<Theme>)
        ensures
            r is Some <==> ThemeView::by_name(name@) is Some,
            r matches Some(t) ==> Some(t@) == ThemeView::by_name(name@),
    {
        if same_text(name, "default") {
            Some(Theme::default_dark())
        } else if same_text(name, "dracula") {
            Some(Theme::dracula())
        } else if same_text(name, "solarized-dark") {
            Some(Theme::solarized_dark())
        } else {
            None
        }
    }

    /// A theme from the parts of a theme file, each of which may be missing:
    /// a missing name is `custom`; a missing or ill-formed foreground or
    /// background is that of the default theme, and a missing cursor color
    /// is the foreground; the palette is the default one with the given
    /// colors put over it.
    pub fn from_parts(
        name: Option<String>,
        foreground: Option<String>,
        background: Option<String>,
        cursor: Option<String>,
        ansi: Option<Vec<String>>,
    ) -> (t: Theme)
        ensures
            t@.name == (match name {
                Some(n) => n@,
                None => "custom"@,
            }),
            t@.fg == color_or(foreground, Color { r: 204, g: 204, b: 204 }),
            t@.bg == color_or(background, Color { r: 0, g: 0, b: 0 }),
            t@.cursor == color_or(cursor, t@.fg),
            t@.ansi == (match ansi {
                Some(colors) => ThemeView::overlay(default_palette(), hex_bytes(colors@)),
                None => default_palette(),
            }),
    {
        let base = Theme::default_dark();
        let fg = parse_or(&foreground, base.fg);
        let bg = parse_or(&background, base.bg);
        let cursor = parse_or(&cursor, fg);
        let mut palette = base.ansi;
        match &ansi {
            Some(colors) => {
                let mut i: usize = 0;
                while i < colors.len() && i < 16
                    invariant
                        i <= 16,
                        i <= colors.len(),
                        palette@.len() == 16,
                        forall|j: int|
                            0 <= j < 16 ==> #[trigger] palette@[j] == (if j < i && hex_color(
                                vstd::utf8::encode_utf8(colors@[j]@),
                            ) is Some {
                                hex_color(vstd::utf8::encode_utf8(colors@[j]@))->0
                            } else {
                                default_palette()[j]
                            }),
                    decreases 16 - i,
                {
                    match hex_to_color(colors[i].as_str()) {
                        Some(c) => {
                            palette[i] = c;
                        },
                        None => {},
                    }
                    i += 1;
                }
                assert(palette@ =~= ThemeView::overlay(default_palette(), hex_bytes(colors@)));
            },
            None => {},
        }
        Theme {
            name: match name {
                Some(n) => n,
                None => "custom".to_owned(),
            },
            fg,
            bg,
            cursor,
            ansi: palette,
        }
    }

    /// List all bundled theme names.
    pub fn bundled_names() -> (names: Vec<&'static str>)
        ensures
            names@.len() == 3,
            names@[0]@ == "default"@,
            names@[1]@ == "dracula"@,
            names@[2]@ == "solarized-dark"@,
    {
        let mut names: Vec<&'static str> = Vec::new();
        names.push("default");
        names.push("dracula");
        names.push("solarized-dark");
        names
    }
}

/// The color that an optional hex string writes, or `fallback` where there
/// is no string or it writes none.
pub open spec fn color_or(hex: Option<String>, fallback: Color) -> Color {
    match hex {
        Some(s) => match hex_color(vstd::utf8::encode_utf8(s@)) {
            Some(c) => c,
            None => fallback,
        },
        None => fallback,
    }
}

/// The bytes of each string.
pub open spec fn hex_bytes(colors: Seq<String>) -> Seq<Seq<u8>> {
    Seq::new(colors.len(), |i: int| vstd::utf8::encode_utf8(colors[i]@))
}

fn parse_or(hex: &Option<String>, fallback: Color) -> (c: Color)
    ensures
        c == color_or(*hex, fallback),
{
    match hex {
        Some(s) => match hex_to_color(s.as_str()) {
            Some(c) => c,
            None => fallback,
        },
        None => fallback,
    }
}

} // verus!
