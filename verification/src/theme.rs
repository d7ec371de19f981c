use vstd::prelude::*;
use crate::text::{chars_of, remove_all, remove_pattern, string_from_chars};

verus! {

/// A colour as the CSS colour parser reads it: red, green and blue bytes,
/// and the IEEE-754 bits of the `f32` alpha fraction (0.0 to 1.0). The
/// UI layer scales the fraction to an alpha byte.
#[derive(Debug, Clone, Copy, PartialEq, Eq, Structural)]
pub struct Color {
    pub red: u8,
    pub green: u8,
    pub blue: u8,
    pub alpha_bits: u32,
}

/// The colour used where a text is not a CSS colour: transparent black.
pub open spec fn transparent() -> Color {
    Color { red: 0, green: 0, blue: 0, alpha_bits: 0 }
}

/// What css-color-parser2 reads from a CSS colour text: red, green, blue and
/// the bits of the alpha fraction, or nothing where the text is not a colour.
pub uninterp spec fn css_color_of(text: Seq<char>) -> Option<(u8, u8, u8, u32)>;

/// `<css_color_parser2::Color as FromStr>::from_str`, the CSS3 colour parser
/// (named colours, `#rgb`, `#rrggbb`, `rgb()`, `rgba()`, `hsl()`,
/// `hsla()`). Its result is named `css_color_of`; of the empty text the
/// parser's source shows that it is refused. The alpha fraction is handed on
/// as its bit pattern.
#[verifier::external_body]
fn parse_css_color(text: &str) -> (parsed: Option<(u8, u8, u8, u32)>)
    ensures
        parsed == css_color_of(text@),
        text@.len() == 0 ==> parsed is None,
{
    match text.parse::<css_color_parser2::Color>() {
        Ok(c) => Some((c.r, c.g, c.b, c.a.to_bits())),
        Err(_) => None,
    }
}

/// The colour of what the parser read: its red, green, blue bytes and alpha
/// bits; transparent black where it read nothing.
pub open spec fn color_of_parsed(parsed: Option<(u8, u8, u8, u32)>) -> Color {
    match parsed {
        Some((r, g, b, a)) => Color { red: r, green: g, blue: b, alpha_bits: a },
        None => transparent(),
    }
}

/// The colour a theme text stands for; transparent black where it is not a
/// CSS colour.
pub open spec fn color_of_text(text: Seq<char>) -> Color {
    color_of_parsed(css_color_of(text))
}

/// Turns what the CSS colour parser read into a colour; transparent black
/// where it read nothing.
pub fn color_from_parsed(parsed: Option<(u8, u8, u8, u32)>) -> (c: Color)
    ensures
        c == color_of_parsed(parsed),
{
    match parsed {
        Some((r, g, b, a)) => Color { red: r, green: g, blue: b, alpha_bits: a },
        None => Color { red: 0, green: 0, blue: 0, alpha_bits: 0 },
    }
}

/// Reads a CSS colour text; transparent black where it is not one.
pub fn string_to_color(color: String) -> (c: Color)
    ensures
        c == color_of_text(color@),
{
    color_from_parsed(parse_css_color(color.as_str()))
}

/// A Material colour scheme as theme JSON holds it: each role a CSS colour
/// text.
#[allow(non_snake_case)]
#[derive(Debug, Clone)]
pub struct JsonScheme {
    pub primary: String,
    pub surfaceTint: String,
    pub onPrimary: String,
    pub primaryContainer: String,
    pub onPrimaryContainer: String,
    pub secondary: String,
    pub onSecondary: String,
    pub secondaryContainer: String,
    pub onSecondaryContainer: String,
    pub tertiary: String,
    pub onTertiary: String,
    pub tertiaryContainer: String,
    pub onTertiaryContainer: String,
    pub error: String,
    pub onError: String,
    pub errorContainer: String,
    pub onErrorContainer: String,
    pub background: String,
    pub onBackground: String,
    pub surface: String,
    pub onSurface: String,
    pub surfaceVariant: String,
    pub onSurfaceVariant: String,
    pub outline: String,
    pub outlineVariant: String,
    pub shadow: String,
    pub scrim: String,
    pub inverseSurface: String,
    pub inverseOnSurface: String,
    pub inversePrimary: String,
    pub primaryFixed: String,
    pub onPrimaryFixed: String,
    pub primaryFixedDim: String,
    pub onPrimaryFixedVariant: String,
    pub secondaryFixed: String,
    pub onSecondaryFixed: String,
    pub secondaryFixedDim: String,
    pub onSecondaryFixedVariant: String,
    pub tertiaryFixed: String,
    pub onTertiaryFixed: String,
    pub tertiaryFixedDim: String,
    pub onTertiaryFixedVariant: String,
    pub surfaceDim: String,
    pub surfaceBright: String,
    pub surfaceContainerLowest: String,
    pub surfaceContainerLow: String,
    pub surfaceContainer: String,
    pub surfaceContainerHigh: String,
    pub surfaceContainerHighest: String,
}

/// A Material colour scheme with each role a colour.
#[allow(non_snake_case)]
#[derive(Debug, Clone, Copy, PartialEq, Eq, Structural)]
pub struct MaterialScheme {
    pub primary: Color,
    pub surfaceTint: Color,
    pub onPrimary: Color,
    pub primaryContainer: Color,
    pub onPrimaryContainer: Color,
    pub secondary: Color,
    pub onSecondary: Color,
    pub secondaryContainer: Color,
    pub onSecondaryContainer: Color,
    pub tertiary: Color,
    pub onTertiary: Color,
    pub tertiaryContainer: Color,
    pub onTertiaryContainer: Color,
    pub error: Color,
    pub onError: Color,
    pub errorContainer: Color,
    pub onErrorContainer: Color,
    pub background: Color,
    pub onBackground: Color,
    pub surface: Color,
    pub onSurface: Color,
    pub surfaceVariant: Color,
    pub onSurfaceVariant: Color,
    pub outline: Color,
    pub outlineVariant: Color,
    pub shadow: Color,
    pub scrim: Color,
    pub inverseSurface: Color,
    pub inverseOnSurface: Color,
    pub inversePrimary: Color,
    pub primaryFixed: Color,
    pub onPrimaryFixed: Color,
    pub primaryFixedDim: Color,
    pub onPrimaryFixedVariant: Color,
    pub secondaryFixed: Color,
    pub onSecondaryFixed: Color,
    pub secondaryFixedDim: Color,
    pub onSecondaryFixedVariant: Color,
    pub tertiaryFixed: Color,
    pub onTertiaryFixed: Color,
    pub tertiaryFixedDim: Color,
    pub onTertiaryFixedVariant: Color,
    pub surfaceDim: Color,
    pub surfaceBright: Color,
    pub surfaceContainerLowest: Color,
    pub surfaceContainerLow: Color,
    pub surfaceContainer: Color,
    pub surfaceContainerHigh: Color,
    pub surfaceContainerHighest: Color,
}

/// The dark and light schemes of a theme, as theme JSON holds them.
#[derive(Debug, Clone)]
pub struct JsonSchemes {
    pub dark: JsonScheme,
    pub light: JsonScheme,
}

/// The dark and light schemes of a theme, as colours.
#[derive(Debug, Clone, Copy, PartialEq, Eq, Structural)]
pub struct MaterialSchemes {
    pub dark: MaterialScheme,
    pub light: MaterialScheme,
}

/// Each role of the scheme read as a colour.
pub open spec fn scheme_colors(scheme: JsonScheme) -> MaterialScheme {
    MaterialScheme {
        primary: color_of_text(scheme.primary@),
        surfaceTint: color_of_text(scheme.surfaceTint@),
        onPrimary: color_of_text(scheme.onPrimary@),
        primaryContainer: color_of_text(scheme.primaryContainer@),
        onPrimaryContainer: color_of_text(scheme.onPrimaryContainer@),
        secondary: color_of_text(scheme.secondary@),
        onSecondary: color_of_text(scheme.onSecondary@),
        secondaryContainer: color_of_text(scheme.secondaryContainer@),
        onSecondaryContainer: color_of_text(scheme.onSecondaryContainer@),
        tertiary: color_of_text(scheme.tertiary@),
        onTertiary: color_of_text(scheme.onTertiary@),
        tertiaryContainer: color_of_text(scheme.tertiaryContainer@),
        onTertiaryContainer: color_of_text(scheme.onTertiaryContainer@),
        error: color_of_text(scheme.error@),
        onError: color_of_text(scheme.onError@),
        errorContainer: color_of_text(scheme.errorContainer@),
        onErrorContainer: color_of_text(scheme.onErrorContainer@),
        background: color_of_text(scheme.background@),
        onBackground: color_of_text(scheme.onBackground@),
        surface: color_of_text(scheme.surface@),
        onSurface: color_of_text(scheme.onSurface@),
        surfaceVariant: color_of_text(scheme.surfaceVariant@),
        onSurfaceVariant: color_of_text(scheme.onSurfaceVariant@),
        outline: color_of_text(scheme.outline@),
        outlineVariant: color_of_text(scheme.outlineVariant@),
        shadow: color_of_text(scheme.shadow@),
        scrim: color_of_text(scheme.scrim@),
        inverseSurface: color_of_text(scheme.inverseSurface@),
        inverseOnSurface: color_of_text(scheme.inverseOnSurface@),
        inversePrimary: color_of_text(scheme.inversePrimary@),
        primaryFixed: color_of_text(scheme.primaryFixed@),
        onPrimaryFixed: color_of_text(scheme.onPrimaryFixed@),
        primaryFixedDim: color_of_text(scheme.primaryFixedDim@),
        onPrimaryFixedVariant: color_of_text(scheme.onPrimaryFixedVariant@),
        secondaryFixed: color_of_text(scheme.secondaryFixed@),
        onSecondaryFixed: color_of_text(scheme.onSecondaryFixed@),
        secondaryFixedDim: color_of_text(scheme.secondaryFixedDim@),
        onSecondaryFixedVariant: color_of_text(scheme.onSecondaryFixedVariant@),
        tertiaryFixed: color_of_text(scheme.tertiaryFixed@),
        onTertiaryFixed: color_of_text(scheme.onTertiaryFixed@),
        tertiaryFixedDim: color_of_text(scheme.tertiaryFixedDim@),
        onTertiaryFixedVariant: color_of_text(scheme.onTertiaryFixedVariant@),
        surfaceDim: color_of_text(scheme.surfaceDim@),
        surfaceBright: color_of_text(scheme.surfaceBright@),
        surfaceContainerLowest: color_of_text(scheme.surfaceContainerLowest@),
        surfaceContainerLow: color_of_text(scheme.surfaceContainerLow@),
        surfaceContainer: color_of_text(scheme.surfaceContainer@),
        surfaceContainerHigh: color_of_text(scheme.surfaceContainerHigh@),
        surfaceContainerHighest: color_of_text(scheme.surfaceContainerHighest@),
    }
}

impl JsonScheme {
    /// Reads every role of the scheme as a colour.
    pub fn to_slint(&self) -> (scheme: MaterialScheme)
        ensures
            scheme == scheme_colors(*self),
    {
        MaterialScheme {
            primary: string_to_color(self.primary.clone()),
            surfaceTint: string_to_color(self.surfaceTint.clone()),
            onPrimary: string_to_color(self.onPrimary.clone()),
            primaryContainer: string_to_color(self.primaryContainer.clone()),
            onPrimaryContainer: string_to_color(self.onPrimaryContainer.clone()),
            secondary: string_to_color(self.secondary.clone()),
            onSecondary: string_to_color(self.onSecondary.clone()),
            secondaryContainer: string_to_color(self.secondaryContainer.clone()),
            onSecondaryContainer: string_to_color(self.onSecondaryContainer.clone()),
            tertiary: string_to_color(self.tertiary.clone()),
            onTertiary: string_to_color(self.onTertiary.clone()),
            tertiaryContainer: string_to_color(self.tertiaryContainer.clone()),
            onTertiaryContainer: string_to_color(self.onTertiaryContainer.clone()),
            error: string_to_color(self.error.clone()),
            onError: string_to_color(self.onError.clone()),
            errorContainer: string_to_color(self.errorContainer.clone()),
            onErrorContainer: string_to_color(self.onErrorContainer.clone()),
            background: string_to_color(self.background.clone()),
            onBackground: string_to_color(self.onBackground.clone()),
            surface: string_to_color(self.surface.clone()),
            onSurface: string_to_color(self.onSurface.clone()),
            surfaceVariant: string_to_color(self.surfaceVariant.clone()),
            onSurfaceVariant: string_to_color(self.onSurfaceVariant.clone()),
            outline: string_to_color(self.outline.clone()),
            outlineVariant: string_to_color(self.outlineVariant.clone()),
            shadow: string_to_color(self.shadow.clone()),
            scrim: string_to_color(self.scrim.clone()),
            inverseSurface: string_to_color(self.inverseSurface.clone()),
            inverseOnSurface: string_to_color(self.inverseOnSurface.clone()),
            inversePrimary: string_to_color(self.inversePrimary.clone()),
            primaryFixed: string_to_color(self.primaryFixed.clone()),
            onPrimaryFixed: string_to_color(self.onPrimaryFixed.clone()),
            primaryFixedDim: string_to_color(self.primaryFixedDim.clone()),
            onPrimaryFixedVariant: string_to_color(self.onPrimaryFixedVariant.clone()),
            secondaryFixed: string_to_color(self.secondaryFixed.clone()),
            onSecondaryFixed: string_to_color(self.onSecondaryFixed.clone()),
            secondaryFixedDim: string_to_color(self.secondaryFixedDim.clone()),
            onSecondaryFixedVariant: string_to_color(self.onSecondaryFixedVariant.clone()),
            tertiaryFixed: string_to_color(self.tertiaryFixed.clone()),
            onTertiaryFixed: string_to_color(self.onTertiaryFixed.clone()),
            tertiaryFixedDim: string_to_color(self.tertiaryFixedDim.clone()),
            onTertiaryFixedVariant: string_to_color(self.onTertiaryFixedVariant.clone()),
            surfaceDim: string_to_color(self.surfaceDim.clone()),
            surfaceBright: string_to_color(self.surfaceBright.clone()),
            surfaceContainerLowest: string_to_color(self.surfaceContainerLowest.clone()),
            surfaceContainerLow: string_to_color(self.surfaceContainerLow.clone()),
            surfaceContainer: string_to_color(self.surfaceContainer.clone()),
            surfaceContainerHigh: string_to_color(self.surfaceContainerHigh.clone()),
            surfaceContainerHighest: string_to_color(self.surfaceContainerHighest.clone()),
        }
    }
}

impl JsonSchemes {
    /// Reads both schemes as colours.
    pub fn to_slint(&self) -> (schemes: MaterialSchemes)
        ensures
            schemes.dark == scheme_colors(self.dark),
            schemes.light == scheme_colors(self.light),
    {
        MaterialSchemes { dark: self.dark.to_slint(), light: self.light.to_slint() }
    }
}

/// A theme file as the theme JSON describes it.
#[derive(Debug, Clone)]
pub struct MaterialTheme {
    pub name: Option<String>,
    pub sort: Option<u8>,
    pub schemes: JsonSchemes,
}

/// One embedded theme file: its path, and the theme where its contents are
/// UTF-8 JSON of a theme.
#[derive(Debug, Clone)]
pub struct ThemeFile {
    pub path: String,
    pub theme: Option<MaterialTheme>,
}

/// The suffix that file names of themes carry.
pub open spec fn json_suffix() -> Seq<char> {
    seq!['.', 'j', 's', 'o', 'n']
}

/// The name a theme is listed under: its own name, or else its file path
/// with ".json" removed.
pub open spec fn theme_name(name: Option<String>, path: Seq<char>) -> Seq<char> {
    match name {
        Some(n) => n@,
        None => remove_all(path, json_suffix()),
    }
}

/// The position of `name` among the entries, if it is there.
pub open spec fn entry_position(entries: Seq<(Seq<char>, MaterialTheme)>, name: Seq<char>) -> Option<int> {
    if exists|i: int| 0 <= i < entries.len() && entries[i].0 == name {
        Some(choose|i: int| 0 <= i < entries.len() && entries[i].0 == name)
    } else {
        None
    }
}

/// Entries after inserting `theme` under `name`: an entry of that name takes
/// the new theme in place; otherwise the entry is added at the end.
pub open spec fn insert_entry(
    entries: Seq<(Seq<char>, MaterialTheme)>,
    name: Seq<char>,
    theme: MaterialTheme,
) -> Seq<(Seq<char>, MaterialTheme)> {
    match entry_position(entries, name) {
        Some(i) => entries.update(i, (name, theme)),
        None => entries.push((name, theme)),
    }
}

/// No name occurs twice.
pub open spec fn names_unique(entries: Seq<(Seq<char>, MaterialTheme)>) -> bool {
    forall|i: int, j: int|
        0 <= i < entries.len() && 0 <= j < entries.len() && i != j ==> #[trigger] entries[i].0
            != #[trigger] entries[j].0
}

/// The themes of the given files, each under its name; a later file with the
/// same name replaces the theme of an earlier one. Files without a theme are
/// skipped. A listed theme no longer carries its own name.
pub open spec fn loaded_entries(files: Seq<ThemeFile>) -> Seq<(Seq<char>, MaterialTheme)>
    decreases files.len(),
{
    if files.len() == 0 {
        Seq::empty()
    } else {
        let earlier = loaded_entries(files.drop_last());
        let file = files.last();
        match file.theme {
            Some(t) => insert_entry(
                earlier,
                theme_name(t.name, file.path@),
                MaterialTheme { name: None, sort: t.sort, schemes: t.schemes },
            ),
            None => earlier,
        }
    }
}

/// Inserting keeps names unique.
pub proof fn lemma_insert_keeps_names_unique(
    entries: Seq<(Seq<char>, MaterialTheme)>,
    name: Seq<char>,
    theme: MaterialTheme,
)
    requires
        names_unique(entries),
    ensures
        names_unique(insert_entry(entries, name, theme)),
        insert_entry(entries, name, theme).len() == entries.len() + (if entry_position(entries, name) is Some { 0int } else { 1int }),
{
    let after = insert_entry(entries, name, theme);
    match entry_position(entries, name) {
        Some(p) => {
            assert forall|i: int, j: int|
                0 <= i < after.len() && 0 <= j < after.len() && i != j implies #[trigger] after[i].0
                != #[trigger] after[j].0 by {
                if i != p && j != p {
                    assert(entries[i].0 != entries[j].0);
                } else if i == p {
                    assert(entries[p].0 == name);
                    assert(entries[j].0 != entries[p].0);
                } else {
                    assert(entries[p].0 == name);
                    assert(entries[i].0 != entries[p].0);
                }
            }
        },
        None => {
            assert forall|i: int, j: int|
                0 <= i < after.len() && 0 <= j < after.len() && i != j implies #[trigger] after[i].0
                != #[trigger] after[j].0 by {
                if i < entries.len() && j < entries.len() {
                    assert(entries[i].0 != entries[j].0);
                } else if i == entries.len() {
                    assert(!(entries[j].0 == name));
                } else {
                    assert(!(entries[i].0 == name));
                }
            }
        },
    }
}

/// Themes by name, in the order their names were first seen.
pub struct ThemeMap {
    entries: Vec<(String, MaterialTheme)>,
}

impl View for ThemeMap {
    type V = Seq<(Seq<char>, MaterialTheme)>;

    closed spec fn view(&self) -> Seq<(Seq<char>, MaterialTheme)> {
        self.entries@.map_values(|e: (String, MaterialTheme)| (e.0@, e.1))
    }
}

/// The theme listed under `name`, if any.
pub open spec fn theme_named(entries: Seq<(Seq<char>, MaterialTheme)>, name: Seq<char>) -> Option<MaterialTheme> {
    match entry_position(entries, name) {
        Some(i) => Some(entries[i].1),
        None => None,
    }
}

impl ThemeMap {
    #[verifier::type_invariant]
    closed spec fn inv(self) -> bool {
        names_unique(self@)
    }

    /// An empty map.
    pub fn new() -> (map: ThemeMap)
        ensures
            map@ == Seq::<(Seq<char>, MaterialTheme)>::empty(),
    {
        let map = ThemeMap { entries: Vec::new() };
        assert(map@ =~= Seq::<(Seq<char>, MaterialTheme)>::empty());
        map
    }

    /// Number of themes.
    pub fn len(&self) -> (n: usize)
        ensures
            n == self@.len(),
    {
        self.entries.len()
    }

    /// Position of the entry named `name`.
    fn position(&self, name: &String) -> (pos: Option<usize>)
        ensures
            pos matches Some(i) ==> entry_position(self@, name@) == Some(i as int),
            pos is None ==> entry_position(self@, name@) is None,
            pos matches Some(i) ==> i < self@.len() && self@[i as int].0 == name@,
    {
        proof {
            use_type_invariant(self);
        }
        let mut i: usize = 0;
        while i < self.entries.len()
            invariant
                0 <= i <= self@.len(),
                self@.len() == self.entries@.len(),
                names_unique(self@),
                forall|j: int| 0 <= j < i ==> self@[j].0 != name@,
            decreases self@.len() - i,
        {
            if self.entries[i].0 == *name {
                assert(self@[i as int].0 == name@);
                let ghost p = choose|j: int| 0 <= j < self@.len() && self@[j].0 == name@;
                assert(p == i as int) by {
                    if p != i as int {
                        assert(self@[p].0 == self@[i as int].0);
                    }
                }
                return Some(i);
            }
            i = i + 1;
        }
        None
    }

    /// Lists `theme` under `name`, replacing the theme listed under that name.
    pub fn insert(&mut self, name: String, theme: MaterialTheme)
        ensures
            final(self)@ == insert_entry(old(self)@, name@, theme),
    {
        proof {
            use_type_invariant(&*self);
        }
        let ghost before = self@;
        proof {
            lemma_insert_keeps_names_unique(before, name@, theme);
        }
        match self.position(&name) {
            Some(i) => {
                let ghost n = name@;
                let mut entries: Vec<(String, MaterialTheme)> = Vec::new();
                std::mem::swap(&mut entries, &mut self.entries);
                entries.set(i, (name, theme));
                assert(entries@.map_values(|e: (String, MaterialTheme)| (e.0@, e.1)) =~= before.update(
                    i as int,
                    (n, theme),
                ));
                self.entries = entries;
            },
            None => {
                let ghost n = name@;
                let mut entries: Vec<(String, MaterialTheme)> = Vec::new();
                std::mem::swap(&mut entries, &mut self.entries);
                entries.push((name, theme));
                assert(entries@.map_values(|e: (String, MaterialTheme)| (e.0@, e.1)) =~= before.push(
                    (n, theme),
                ));
                self.entries = entries;
            },
        }
    }

    /// The theme listed under `name`, if any.
    pub fn get(&self, name: &String) -> (theme: Option<&MaterialTheme>)
        ensures
            theme matches Some(t) ==> theme_named(self@, name@) == Some(*t),
            theme is None ==> theme_named(self@, name@) is None,
    {
        match self.position(name) {
            Some(i) => {
                assert(self@[i as int] == (self.entries@[i as int].0@, self.entries@[i as int].1));
                Some(&self.entries[i].1)
            },
            None => None,
        }
    }
}

/// The name a theme is listed under: its own name, or else its file path
/// with every ".json" removed.
pub fn theme_entry_name(name: Option<String>, path: &str) -> (listed: String)
    ensures
        listed@ == theme_name(name, path@),
{
    match name {
        Some(n) => n,
        None => {
            let pattern: Vec<char> = vec!['.', 'j', 's', 'o', 'n'];
            assert(pattern@ =~= json_suffix());
            let stripped = remove_pattern(chars_of(path).as_slice(), pattern.as_slice());
            string_from_chars(stripped.as_slice())
        },
    }
}

/// Builds the theme map from the embedded theme files, in directory order.
pub fn load_theme_map(files: Vec<ThemeFile>) -> (map: ThemeMap)
    ensures
        map@ == loaded_entries(files@),
{
    let mut map = ThemeMap::new();
    let mut rest = files;
    let ghost all = rest@;
    let ghost done: int = 0;
    assert(all.take(0) =~= Seq::<ThemeFile>::empty());
    while rest.len() > 0
        invariant
            0 <= done <= all.len(),
            rest@ == all.skip(done),
            map@ == loaded_entries(all.take(done)),
        decreases rest@.len(),
    {
        let file = rest.remove(0);
        proof {
            assert(file == all[done]);
            assert(all.take(done + 1).drop_last() =~= all.take(done));
            assert(all.take(done + 1).last() == file);
            assert(rest@ =~= all.skip(done + 1));
        }
        match file.theme {
            Some(t) => {
                let name = theme_entry_name(t.name, file.path.as_str());
                map.insert(name, MaterialTheme { name: None, sort: t.sort, schemes: t.schemes });
            },
            None => {},
        }
        proof {
            done = done + 1;
        }
    }
    assert(all.take(done) =~= all);
    map
}

/// The sort value of a theme; a theme without one sorts as 0.
pub open spec fn sort_key(theme: MaterialTheme) -> u8 {
    match theme.sort {
        Some(s) => s,
        None => 0,
    }
}

/// Names of the entries whose sort value is `key`, in entry order.
pub open spec fn names_with_key(entries: Seq<(Seq<char>, MaterialTheme)>, key: int) -> Seq<Seq<char>>
    decreases entries.len(),
{
    if entries.len() == 0 {
        Seq::empty()
    } else {
        let earlier = names_with_key(entries.drop_last(), key);
        if sort_key(entries.last().1) as int == key {
            earlier.push(entries.last().0)
        } else {
            earlier
        }
    }
}

/// Names of the entries with sort value `key` or more: those with `key`
/// first, then those with `key + 1`, and so on.
pub open spec fn names_from_key(entries: Seq<(Seq<char>, MaterialTheme)>, key: int) -> Seq<Seq<char>>
    decreases 256 - key,
{
    if key >= 256 || key < 0 {
        Seq::empty()
    } else {
        names_with_key(entries, key) + names_from_key(entries, key + 1)
    }
}

/// Theme names ordered by sort value; themes with equal sort values keep
/// their order.
pub open spec fn names_by_sort_spec(entries: Seq<(Seq<char>, MaterialTheme)>) -> Seq<Seq<char>> {
    names_from_key(entries, 0)
}

/// The views of a list of strings.
pub open spec fn string_views(v: Seq<String>) -> Seq<Seq<char>> {
    v.map_values(|s: String| s@)
}

/// The colours of a theme's schemes.
pub open spec fn theme_schemes(theme: MaterialTheme) -> MaterialSchemes {
    MaterialSchemes {
        dark: scheme_colors(theme.schemes.dark),
        light: scheme_colors(theme.schemes.light),
    }
}

/// The schemes applied when the user picks entry `index` of `names`.
pub open spec fn chosen_schemes(
    entries: Seq<(Seq<char>, MaterialTheme)>,
    names: Seq<Seq<char>>,
    index: i32,
) -> Option<MaterialSchemes> {
    if 0 <= index < names.len() {
        match theme_named(entries, names[index as int]) {
            Some(t) => Some(theme_schemes(t)),
            None => None,
        }
    } else {
        None
    }
}

impl ThemeMap {
    /// Theme names ordered by sort value, for the theme switcher.
    pub fn names_by_sort(&self) -> (names: Vec<String>)
        ensures
            string_views(names@) == names_by_sort_spec(self@),
    {
        let n = self.entries.len();
        let ghost entries = self@;
        let mut names: Vec<String> = Vec::new();
        let mut key: u16 = 0;
        assert(string_views(names@) =~= Seq::<Seq<char>>::empty());
        while key < 256
            invariant
                n == self.entries@.len(),
                entries == self@,
                entries.len() == n,
                0 <= key <= 256,
                string_views(names@) + names_from_key(entries, key as int) == names_from_key(
                    entries,
                    0,
                ),
            decreases 256 - key,
        {
            let ghost before = string_views(names@);
            let mut j: usize = 0;
            assert(entries.take(0) =~= Seq::<(Seq<char>, MaterialTheme)>::empty());
            while j < n
                invariant
                    n == self.entries@.len(),
                    entries == self@,
                    entries.len() == n,
                    0 <= key < 256,
                    0 <= j <= n,
                    string_views(names@) == before + names_with_key(entries.take(j as int), key as int),
                decreases n - j,
            {
                let ghost prefix = entries.take(j as int);
                assert(entries.take(j + 1).drop_last() =~= prefix);
                assert(entries.take(j + 1).last() == entries[j as int]);
                assert(entries[j as int] == (self.entries@[j as int].0@, self.entries@[j as int].1));
                let theme_key: u8 = match self.entries[j].1.sort {
                    Some(s) => s,
                    None => 0,
                };
                if theme_key as u16 == key {
                    let name = self.entries[j].0.clone();
                    let ghost prev = names@;
                    let ghost name_view = name@;
                    names.push(name);
                    assert(string_views(names@) =~= string_views(prev).push(name_view));
                }
                j = j + 1;
            }
            assert(entries.take(n as int) =~= entries);
            key = key + 1;
        }
        names
    }
}

/// The name of the theme applied at start-up.
pub open spec fn default_theme_name() -> Seq<char> {
    seq!['S', 'l', 'i', 'n', 't']
}

/// The schemes of the theme listed under `name`, if any.
fn schemes_named(map: &ThemeMap, name: &String) -> (schemes: Option<MaterialSchemes>)
    ensures
        schemes == (match theme_named(map@, name@) {
            Some(t) => Some(theme_schemes(t)),
            None => None::<MaterialSchemes>,
        }),
{
    match map.get(name) {
        Some(t) => Some(t.schemes.to_slint()),
        None => None,
    }
}

/// The schemes applied at start-up: those of the theme named "Slint".
pub fn default_schemes(map: &ThemeMap) -> (schemes: Option<MaterialSchemes>)
    ensures
        schemes == (match theme_named(map@, default_theme_name()) {
            Some(t) => Some(theme_schemes(t)),
            None => None::<MaterialSchemes>,
        }),
{
    let name = String::from_str("Slint");
    proof {
        reveal_strlit("Slint");
        assert(name@ =~= default_theme_name());
    }
    schemes_named(map, &name)
}

/// The schemes applied when the user picks entry `index` of the theme
/// switcher's `names`; nothing where the index is out of range or no theme
/// has that name.
pub fn schemes_for_choice(map: &ThemeMap, names: &Vec<String>, index: i32) -> (schemes: Option<
    MaterialSchemes,
>)
    ensures
        schemes == chosen_schemes(map@, string_views(names@), index),
{
    if index < 0 || index as usize >= names.len() {
        return None;
    }
    let i = index as usize;
    schemes_named(map, &names[i])
}

/// The themes loaded from files never list a name twice.
pub proof fn lemma_loaded_names_unique(files: Seq<ThemeFile>)
    ensures
        names_unique(loaded_entries(files)),
    decreases files.len(),
{
    if files.len() > 0 {
        lemma_loaded_names_unique(files.drop_last());
        let file = files.last();
        match file.theme {
            Some(t) => lemma_insert_keeps_names_unique(
                loaded_entries(files.drop_last()),
                theme_name(t.name, file.path@),
                MaterialTheme { name: None, sort: t.sort, schemes: t.schemes },
            ),
            None => {},
        }
    }
}

/// After listing `theme` under `name`, that name gives `theme` and every
/// other name gives what it gave before.
pub proof fn lemma_insert_then_lookup(
    entries: Seq<(Seq<char>, MaterialTheme)>,
    name: Seq<char>,
    theme: MaterialTheme,
    other: Seq<char>,
)
    requires
        names_unique(entries),
    ensures
        theme_named(insert_entry(entries, name, theme), name) == Some(theme),
        other != name ==> theme_named(insert_entry(entries, name, theme), other) == theme_named(
            entries,
            other,
        ),
{
    let after = insert_entry(entries, name, theme);
    lemma_insert_keeps_names_unique(entries, name, theme);
    lemma_position_of_unique(after, name);
    match entry_position(entries, name) {
        Some(p) => {
            assert(after[p].0 == name);
        },
        None => {
            assert(after[entries.len() as int].0 == name);
        },
    }
    if other != name {
        lemma_position_of_unique(after, other);
        lemma_position_of_unique(entries, other);
        match entry_position(entries, other) {
            Some(q) => {
                assert(after[q].0 == other);
            },
            None => {
                if exists|i: int| 0 <= i < after.len() && after[i].0 == other {
                    let i = choose|i: int| 0 <= i < after.len() && after[i].0 == other;
                    if i < entries.len() {
                        assert(entries[i].0 == other || after[i].0 == name);
                    }
                }
            },
        }
    }
}

/// In entries with unique names, the position of a name is the one index
/// holding it.
pub proof fn lemma_position_of_unique(entries: Seq<(Seq<char>, MaterialTheme)>, name: Seq<char>)
    requires
        names_unique(entries),
    ensures
        forall|i: int|
            0 <= i < entries.len() && entries[i].0 == name ==> entry_position(entries, name)
                == Some(i),
        entry_position(entries, name) matches Some(p) ==> 0 <= p < entries.len() && entries[p].0
            == name,
{
    if exists|i: int| 0 <= i < entries.len() && entries[i].0 == name {
        let p = choose|i: int| 0 <= i < entries.len() && entries[i].0 == name;
        assert forall|i: int| 0 <= i < entries.len() && entries[i].0 == name implies i == p by {
            if i != p {
                assert(entries[i].0 != entries[p].0);
            }
        }
    }
}

/// A later theme file replaces the theme of an earlier file of the same
/// name, and leaves the themes of other names alone.
pub proof fn lemma_later_file_wins(files: Seq<ThemeFile>, file: ThemeFile, other: Seq<char>)
    requires
        file.theme is Some,
    ensures
        theme_named(
            loaded_entries(files.push(file)),
            theme_name(file.theme->0.name, file.path@),
        ) == Some(
            MaterialTheme {
                name: None,
                sort: file.theme->0.sort,
                schemes: file.theme->0.schemes,
            },
        ),
        other != theme_name(file.theme->0.name, file.path@) ==> theme_named(
            loaded_entries(files.push(file)),
            other,
        ) == theme_named(loaded_entries(files), other),
{
    let all = files.push(file);
    assert(all.drop_last() =~= files);
    lemma_loaded_names_unique(files);
    let t = file.theme->0;
    lemma_insert_then_lookup(
        loaded_entries(files),
        theme_name(t.name, file.path@),
        MaterialTheme { name: None, sort: t.sort, schemes: t.schemes },
        other,
    );
}

proof fn lemma_names_with_key_len(entries: Seq<(Seq<char>, MaterialTheme)>, key: int)
    ensures
        names_with_key(entries, key).len() <= entries.len(),
    decreases entries.len(),
{
    if entries.len() > 0 {
        lemma_names_with_key_len(entries.drop_last(), key);
    }
}

/// Adding an entry at the end adds its name once, among the names of its
/// sort value.
proof fn lemma_names_from_key_push(
    entries: Seq<(Seq<char>, MaterialTheme)>,
    entry: (Seq<char>, MaterialTheme),
    key: int,
)
    requires
        0 <= key <= 256,
    ensures
        names_from_key(entries.push(entry), key).len() == names_from_key(entries, key).len() + (
        if key <= sort_key(entry.1) {
            1int
        } else {
            0int
        }),
    decreases 256 - key,
{
    let longer = entries.push(entry);
    assert(longer.drop_last() =~= entries);
    if key < 256 {
        lemma_names_from_key_push(entries, entry, key + 1);
    }
}

/// The theme switcher lists every theme exactly as many times as there are
/// themes: sorting neither loses nor repeats a name.
pub proof fn lemma_names_by_sort_len(entries: Seq<(Seq<char>, MaterialTheme)>)
    ensures
        names_by_sort_spec(entries).len() == entries.len(),
    decreases entries.len(),
{
    if entries.len() == 0 {
        lemma_names_from_key_empty(entries, 0);
    } else {
        lemma_names_by_sort_len(entries.drop_last());
        assert(entries.drop_last().push(entries.last()) =~= entries);
        lemma_names_from_key_push(entries.drop_last(), entries.last(), 0);
    }
}

proof fn lemma_names_from_key_empty(entries: Seq<(Seq<char>, MaterialTheme)>, key: int)
    requires
        entries.len() == 0,
        0 <= key <= 256,
    ensures
        names_from_key(entries, key).len() == 0,
    decreases 256 - key,
{
    if key < 256 {
        lemma_names_from_key_empty(entries, key + 1);
    }
}

/// The sort value of the theme listed under `name`; -1 where there is none.
pub open spec fn name_key(entries: Seq<(Seq<char>, MaterialTheme)>, name: Seq<char>) -> int {
    match theme_named(entries, name) {
        Some(t) => sort_key(t) as int,
        None => -1,
    }
}

proof fn lemma_with_key_members(entries: Seq<(Seq<char>, MaterialTheme)>, key: int)
    requires
        names_unique(entries),
        0 <= key,
    ensures
        forall|i: int|
            0 <= i < names_with_key(entries, key).len() ==> name_key(
                entries,
                #[trigger] names_with_key(entries, key)[i],
            ) == key,
    decreases entries.len(),
{
    if entries.len() > 0 {
        let shorter = entries.drop_last();
        assert(names_unique(shorter)) by {
            assert forall|a: int, b: int|
                0 <= a < shorter.len() && 0 <= b < shorter.len() && a != b implies #[trigger] shorter[a].0
                != #[trigger] shorter[b].0 by {
                assert(entries[a].0 != entries[b].0);
            }
        }
        lemma_with_key_members(shorter, key);
        let names = names_with_key(entries, key);
        assert forall|i: int| 0 <= i < names.len() implies name_key(entries, #[trigger] names[i])
            == key by {
            let earlier = names_with_key(shorter, key);
            if i < earlier.len() {
                let n = earlier[i];
                assert(name_key(shorter, n) == key);
                lemma_position_of_unique(shorter, n);
                assert(entry_position(shorter, n) is Some);
                let p = entry_position(shorter, n)->0;
                assert(entries[p] == shorter[p]);
                lemma_position_of_unique(entries, n);
                assert(names[i] == n);
            } else {
                let last = entries.len() - 1;
                lemma_position_of_unique(entries, entries[last].0);
                assert(names[i] == entries[last].0);
            }
        }
    }
}

proof fn lemma_from_key_sorted(entries: Seq<(Seq<char>, MaterialTheme)>, key: int)
    requires
        names_unique(entries),
        0 <= key <= 256,
    ensures
        forall|i: int|
            0 <= i < names_from_key(entries, key).len() ==> name_key(
                entries,
                #[trigger] names_from_key(entries, key)[i],
            ) >= key,
        forall|i: int, j: int|
            0 <= i < j < names_from_key(entries, key).len() ==> name_key(
                entries,
                #[trigger] names_from_key(entries, key)[i],
            ) <= name_key(entries, #[trigger] names_from_key(entries, key)[j]),
    decreases 256 - key,
{
    if key < 256 {
        lemma_from_key_sorted(entries, key + 1);
        lemma_with_key_members(entries, key);
        let first = names_with_key(entries, key);
        let rest = names_from_key(entries, key + 1);
        let all = names_from_key(entries, key);
        assert(all == first + rest);
        assert forall|i: int| 0 <= i < all.len() implies name_key(entries, #[trigger] all[i])
            >= key by {
            if i < first.len() {
                assert(all[i] == first[i]);
            } else {
                assert(all[i] == rest[i - first.len()]);
            }
        }
        assert forall|i: int, j: int| 0 <= i < j < all.len() implies name_key(
            entries,
            #[trigger] all[i],
        ) <= name_key(entries, #[trigger] all[j]) by {
            if j < first.len() {
                assert(all[i] == first[i]);
                assert(all[j] == first[j]);
            } else if i < first.len() {
                assert(all[i] == first[i]);
                assert(all[j] == rest[j - first.len()]);
            } else {
                assert(all[i] == rest[i - first.len()]);
                assert(all[j] == rest[j - first.len()]);
            }
        }
    }
}

/// The theme switcher lists themes in order of their sort values.
pub proof fn lemma_names_by_sort_sorted(entries: Seq<(Seq<char>, MaterialTheme)>)
    requires
        names_unique(entries),
    ensures
        forall|i: int, j: int|
            0 <= i < j < names_by_sort_spec(entries).len() ==> name_key(
                entries,
                #[trigger] names_by_sort_spec(entries)[i],
            ) <= name_key(entries, #[trigger] names_by_sort_spec(entries)[j]),
{
    lemma_from_key_sorted(entries, 0);
}

/// Each role of a converted scheme is what the CSS colour parser reads from
/// the text of the same role: its red, green, blue bytes and alpha bits, or
/// transparent black where the text is not a colour.
pub proof fn lemma_roles_read_their_own_text(scheme: JsonScheme)
    ensures
        match css_color_of(scheme.primary@) {
            Some((r, g, b, a)) => scheme_colors(scheme).primary == Color { red: r, green: g, blue: b, alpha_bits: a },
            None => scheme_colors(scheme).primary == Color { red: 0, green: 0, blue: 0, alpha_bits: 0 },
        },
        match css_color_of(scheme.surfaceTint@) {
            Some((r, g, b, a)) => scheme_colors(scheme).surfaceTint == Color { red: r, green: g, blue: b, alpha_bits: a },
            None => scheme_colors(scheme).surfaceTint == Color { red: 0, green: 0, blue: 0, alpha_bits: 0 },
        },
        match css_color_of(scheme.onPrimary@) {
            Some((r, g, b, a)) => scheme_colors(scheme).onPrimary == Color { red: r, green: g, blue: b, alpha_bits: a },
            None => scheme_colors(scheme).onPrimary == Color { red: 0, green: 0, blue: 0, alpha_bits: 0 },
        },
        match css_color_of(scheme.primaryContainer@) {
            Some((r, g, b, a)) => scheme_colors(scheme).primaryContainer == Color { red: r, green: g, blue: b, alpha_bits: a },
            None => scheme_colors(scheme).primaryContainer == Color { red: 0, green: 0, blue: 0, alpha_bits: 0 },
        },
        match css_color_of(scheme.onPrimaryContainer@) {
            Some((r, g, b, a)) => scheme_colors(scheme).onPrimaryContainer == Color { red: r, green: g, blue: b, alpha_bits: a },
            None => scheme_colors(scheme).onPrimaryContainer == Color { red: 0, green: 0, blue: 0, alpha_bits: 0 },
        },
        match css_color_of(scheme.secondary@) {
            Some((r, g, b, a)) => scheme_colors(scheme).secondary == Color { red: r, green: g, blue: b, alpha_bits: a },
            None => scheme_colors(scheme).secondary == Color { red: 0, green: 0, blue: 0, alpha_bits: 0 },
        },
        match css_color_of(scheme.onSecondary@) {
            Some((r, g, b, a)) => scheme_colors(scheme).onSecondary == Color { red: r, green: g, blue: b, alpha_bits: a },
            None => scheme_colors(scheme).onSecondary == Color { red: 0, green: 0, blue: 0, alpha_bits: 0 },
        },
        match css_color_of(scheme.secondaryContainer@) {
            Some((r, g, b, a)) => scheme_colors(scheme).secondaryContainer == Color { red: r, green: g, blue: b, alpha_bits: a },
            None => scheme_colors(scheme).secondaryContainer == Color { red: 0, green: 0, blue: 0, alpha_bits: 0 },
        },
        match css_color_of(scheme.onSecondaryContainer@) {
            Some((r, g, b, a)) => scheme_colors(scheme).onSecondaryContainer == Color { red: r, green: g, blue: b, alpha_bits: a },
            None => scheme_colors(scheme).onSecondaryContainer == Color { red: 0, green: 0, blue: 0, alpha_bits: 0 },
        },
        match css_color_of(scheme.tertiary@) {
            Some((r, g, b, a)) => scheme_colors(scheme).tertiary == Color { red: r, green: g, blue: b, alpha_bits: a },
            None => scheme_colors(scheme).tertiary == Color { red: 0, green: 0, blue: 0, alpha_bits: 0 },
        },
        match css_color_of(scheme.onTertiary@) {
            Some((r, g, b, a)) => scheme_colors(scheme).onTertiary == Color { red: r, green: g, blue: b, alpha_bits: a },
            None => scheme_colors(scheme).onTertiary == Color { red: 0, green: 0, blue: 0, alpha_bits: 0 },
        },
        match css_color_of(scheme.tertiaryContainer@) {
            Some((r, g, b, a)) => scheme_colors(scheme).tertiaryContainer == Color { red: r, green: g, blue: b, alpha_bits: a },
            None => scheme_colors(scheme).tertiaryContainer == Color { red: 0, green: 0, blue: 0, alpha_bits: 0 },
        },
        match css_color_of(scheme.onTertiaryContainer@) {
            Some((r, g, b, a)) => scheme_colors(scheme).onTertiaryContainer == Color { red: r, green: g, blue: b, alpha_bits: a },
            None => scheme_colors(scheme).onTertiaryContainer == Color { red: 0, green: 0, blue: 0, alpha_bits: 0 },
        },
        match css_color_of(scheme.error@) {
            Some((r, g, b, a)) => scheme_colors(scheme).error == Color { red: r, green: g, blue: b, alpha_bits: a },
            None => scheme_colors(scheme).error == Color { red: 0, green: 0, blue: 0, alpha_bits: 0 },
        },
        match css_color_of(scheme.onError@) {
            Some((r, g, b, a)) => scheme_colors(scheme).onError == Color { red: r, green: g, blue: b, alpha_bits: a },
            None => scheme_colors(scheme).onError == Color { red: 0, green: 0, blue: 0, alpha_bits: 0 },
        },
        match css_color_of(scheme.errorContainer@) {
            Some((r, g, b, a)) => scheme_colors(scheme).errorContainer == Color { red: r, green: g, blue: b, alpha_bits: a },
            None => scheme_colors(scheme).errorContainer == Color { red: 0, green: 0, blue: 0, alpha_bits: 0 },
        },
        match css_color_of(scheme.onErrorContainer@) {
            Some((r, g, b, a)) => scheme_colors(scheme).onErrorContainer == Color { red: r, green: g, blue: b, alpha_bits: a },
            None => scheme_colors(scheme).onErrorContainer == Color { red: 0, green: 0, blue: 0, alpha_bits: 0 },
        },
        match css_color_of(scheme.background@) {
            Some((r, g, b, a)) => scheme_colors(scheme).background == Color { red: r, green: g, blue: b, alpha_bits: a },
            None => scheme_colors(scheme).background == Color { red: 0, green: 0, blue: 0, alpha_bits: 0 },
        },
        match css_color_of(scheme.onBackground@) {
            Some((r, g, b, a)) => scheme_colors(scheme).onBackground == Color { red: r, green: g, blue: b, alpha_bits: a },
            None => scheme_colors(scheme).onBackground == Color { red: 0, green: 0, blue: 0, alpha_bits: 0 },
        },
        match css_color_of(scheme.surface@) {
            Some((r, g, b, a)) => scheme_colors(scheme).surface == Color { red: r, green: g, blue: b, alpha_bits: a },
            None => scheme_colors(scheme).surface == Color { red: 0, green: 0, blue: 0, alpha_bits: 0 },
        },
        match css_color_of(scheme.onSurface@) {
            Some((r, g, b, a)) => scheme_colors(scheme).onSurface == Color { red: r, green: g, blue: b, alpha_bits: a },
            None => scheme_colors(scheme).onSurface == Color { red: 0, green: 0, blue: 0, alpha_bits: 0 },
        },
        match css_color_of(scheme.surfaceVariant@) {
            Some((r, g, b, a)) => scheme_colors(scheme).surfaceVariant == Color { red: r, green: g, blue: b, alpha_bits: a },
            None => scheme_colors(scheme).surfaceVariant == Color { red: 0, green: 0, blue: 0, alpha_bits: 0 },
        },
        match css_color_of(scheme.onSurfaceVariant@) {
            Some((r, g, b, a)) => scheme_colors(scheme).onSurfaceVariant == Color { red: r, green: g, blue: b, alpha_bits: a },
            None => scheme_colors(scheme).onSurfaceVariant == Color { red: 0, green: 0, blue: 0, alpha_bits: 0 },
        },
        match css_color_of(scheme.outline@) {
            Some((r, g, b, a)) => scheme_colors(scheme).outline == Color { red: r, green: g, blue: b, alpha_bits: a },
            None => scheme_colors(scheme).outline == Color { red: 0, green: 0, blue: 0, alpha_bits: 0 },
        },
        match css_color_of(scheme.outlineVariant@) {
            Some((r, g, b, a)) => scheme_colors(scheme).outlineVariant == Color { red: r, green: g, blue: b, alpha_bits: a },
            None => scheme_colors(scheme).outlineVariant == Color { red: 0, green: 0, blue: 0, alpha_bits: 0 },
        },
        match css_color_of(scheme.shadow@) {
            Some((r, g, b, a)) => scheme_colors(scheme).shadow == Color { red: r, green: g, blue: b, alpha_bits: a },
            None => scheme_colors(scheme).shadow == Color { red: 0, green: 0, blue: 0, alpha_bits: 0 },
        },
        match css_color_of(scheme.scrim@) {
            Some((r, g, b, a)) => scheme_colors(scheme).scrim == Color { red: r, green: g, blue: b, alpha_bits: a },
            None => scheme_colors(scheme).scrim == Color { red: 0, green: 0, blue: 0, alpha_bits: 0 },
        },
        match css_color_of(scheme.inverseSurface@) {
            Some((r, g, b, a)) => scheme_colors(scheme).inverseSurface == Color { red: r, green: g, blue: b, alpha_bits: a },
            None => scheme_colors(scheme).inverseSurface == Color { red: 0, green: 0, blue: 0, alpha_bits: 0 },
        },
        match css_color_of(scheme.inverseOnSurface@) {
            Some((r, g, b, a)) => scheme_colors(scheme).inverseOnSurface == Color { red: r, green: g, blue: b, alpha_bits: a },
            None => scheme_colors(scheme).inverseOnSurface == Color { red: 0, green: 0, blue: 0, alpha_bits: 0 },
        },
        match css_color_of(scheme.inversePrimary@) {
            Some((r, g, b, a)) => scheme_colors(scheme).inversePrimary == Color { red: r, green: g, blue: b, alpha_bits: a },
            None => scheme_colors(scheme).inversePrimary == Color { red: 0, green: 0, blue: 0, alpha_bits: 0 },
        },
        match css_color_of(scheme.primaryFixed@) {
            Some((r, g, b, a)) => scheme_colors(scheme).primaryFixed == Color { red: r, green: g, blue: b, alpha_bits: a },
            None => scheme_colors(scheme).primaryFixed == Color { red: 0, green: 0, blue: 0, alpha_bits: 0 },
        },
        match css_color_of(scheme.onPrimaryFixed@) {
            Some((r, g, b, a)) => scheme_colors(scheme).onPrimaryFixed == Color { red: r, green: g, blue: b, alpha_bits: a },
            None => scheme_colors(scheme).onPrimaryFixed == Color { red: 0, green: 0, blue: 0, alpha_bits: 0 },
        },
        match css_color_of(scheme.primaryFixedDim@) {
            Some((r, g, b, a)) => scheme_colors(scheme).primaryFixedDim == Color { red: r, green: g, blue: b, alpha_bits: a },
            None => scheme_colors(scheme).primaryFixedDim == Color { red: 0, green: 0, blue: 0, alpha_bits: 0 },
        },
        match css_color_of(scheme.onPrimaryFixedVariant@) {
            Some((r, g, b, a)) => scheme_colors(scheme).onPrimaryFixedVariant == Color { red: r, green: g, blue: b, alpha_bits: a },
            None => scheme_colors(scheme).onPrimaryFixedVariant == Color { red: 0, green: 0, blue: 0, alpha_bits: 0 },
        },
        match css_color_of(scheme.secondaryFixed@) {
            Some((r, g, b, a)) => scheme_colors(scheme).secondaryFixed == Color { red: r, green: g, blue: b, alpha_bits: a },
            None => scheme_colors(scheme).secondaryFixed == Color { red: 0, green: 0, blue: 0, alpha_bits: 0 },
        },
        match css_color_of(scheme.onSecondaryFixed@) {
            Some((r, g, b, a)) => scheme_colors(scheme).onSecondaryFixed == Color { red: r, green: g, blue: b, alpha_bits: a },
            None => scheme_colors(scheme).onSecondaryFixed == Color { red: 0, green: 0, blue: 0, alpha_bits: 0 },
        },
        match css_color_of(scheme.secondaryFixedDim@) {
            Some((r, g, b, a)) => scheme_colors(scheme).secondaryFixedDim == Color { red: r, green: g, blue: b, alpha_bits: a },
            None => scheme_colors(scheme).secondaryFixedDim == Color { red: 0, green: 0, blue: 0, alpha_bits: 0 },
        },
        match css_color_of(scheme.onSecondaryFixedVariant@) {
            Some((r, g, b, a)) => scheme_colors(scheme).onSecondaryFixedVariant == Color { red: r, green: g, blue: b, alpha_bits: a },
            None => scheme_colors(scheme).onSecondaryFixedVariant == Color { red: 0, green: 0, blue: 0, alpha_bits: 0 },
        },
        match css_color_of(scheme.tertiaryFixed@) {
            Some((r, g, b, a)) => scheme_colors(scheme).tertiaryFixed == Color { red: r, green: g, blue: b, alpha_bits: a },
            None => scheme_colors(scheme).tertiaryFixed == Color { red: 0, green: 0, blue: 0, alpha_bits: 0 },
        },
        match css_color_of(scheme.onTertiaryFixed@) {
            Some((r, g, b, a)) => scheme_colors(scheme).onTertiaryFixed == Color { red: r, green: g, blue: b, alpha_bits: a },
            None => scheme_colors(scheme).onTertiaryFixed == Color { red: 0, green: 0, blue: 0, alpha_bits: 0 },
        },
        match css_color_of(scheme.tertiaryFixedDim@) {
            Some((r, g, b, a)) => scheme_colors(scheme).tertiaryFixedDim == Color { red: r, green: g, blue: b, alpha_bits: a },
            None => scheme_colors(scheme).tertiaryFixedDim == Color { red: 0, green: 0, blue: 0, alpha_bits: 0 },
        },
        match css_color_of(scheme.onTertiaryFixedVariant@) {
            Some((r, g, b, a)) => scheme_colors(scheme).onTertiaryFixedVariant == Color { red: r, green: g, blue: b, alpha_bits: a },
            None => scheme_colors(scheme).onTertiaryFixedVariant == Color { red: 0, green: 0, blue: 0, alpha_bits: 0 },
        },
        match css_color_of(scheme.surfaceDim@) {
            Some((r, g, b, a)) => scheme_colors(scheme).surfaceDim == Color { red: r, green: g, blue: b, alpha_bits: a },
            None => scheme_colors(scheme).surfaceDim == Color { red: 0, green: 0, blue: 0, alpha_bits: 0 },
        },
        match css_color_of(scheme.surfaceBright@) {
            Some((r, g, b, a)) => scheme_colors(scheme).surfaceBright == Color { red: r, green: g, blue: b, alpha_bits: a },
            None => scheme_colors(scheme).surfaceBright == Color { red: 0, green: 0, blue: 0, alpha_bits: 0 },
        },
        match css_color_of(scheme.surfaceContainerLowest@) {
            Some((r, g, b, a)) => scheme_colors(scheme).surfaceContainerLowest == Color { red: r, green: g, blue: b, alpha_bits: a },
            None => scheme_colors(scheme).surfaceContainerLowest == Color { red: 0, green: 0, blue: 0, alpha_bits: 0 },
        },
        match css_color_of(scheme.surfaceContainerLow@) {
            Some((r, g, b, a)) => scheme_colors(scheme).surfaceContainerLow == Color { red: r, green: g, blue: b, alpha_bits: a },
            None => scheme_colors(scheme).surfaceContainerLow == Color { red: 0, green: 0, blue: 0, alpha_bits: 0 },
        },
        match css_color_of(scheme.surfaceContainer@) {
            Some((r, g, b, a)) => scheme_colors(scheme).surfaceContainer == Color { red: r, green: g, blue: b, alpha_bits: a },
            None => scheme_colors(scheme).surfaceContainer == Color { red: 0, green: 0, blue: 0, alpha_bits: 0 },
        },
        match css_color_of(scheme.surfaceContainerHigh@) {
            Some((r, g, b, a)) => scheme_colors(scheme).surfaceContainerHigh == Color { red: r, green: g, blue: b, alpha_bits: a },
            None => scheme_colors(scheme).surfaceContainerHigh == Color { red: 0, green: 0, blue: 0, alpha_bits: 0 },
        },
        match css_color_of(scheme.surfaceContainerHighest@) {
            Some((r, g, b, a)) => scheme_colors(scheme).surfaceContainerHighest == Color { red: r, green: g, blue: b, alpha_bits: a },
            None => scheme_colors(scheme).surfaceContainerHighest == Color { red: 0, green: 0, blue: 0, alpha_bits: 0 },
        },
{
}

/// Every name that the theme switcher lists applies a theme: picking entry
/// `index` of the switcher's list gives the schemes of the theme listed
/// under that name, for every index in range, the first included; an index
/// out of range gives nothing.
pub proof fn lemma_every_listed_name_applies(entries: Seq<(Seq<char>, MaterialTheme)>, index: i32)
    requires
        names_unique(entries),
    ensures
        ({
            let names = names_by_sort_spec(entries);
            &&& 0 <= index < names.len() ==> exists|t: MaterialTheme|
                #[trigger] theme_named(entries, names[index as int]) == Some(t) && chosen_schemes(
                    entries,
                    names,
                    index,
                ) == Some(
                    MaterialSchemes {
                        dark: scheme_colors(t.schemes.dark),
                        light: scheme_colors(t.schemes.light),
                    },
                )
            &&& !(0 <= index < names.len()) ==> chosen_schemes(entries, names, index) is None
        }),
{
    let names = names_by_sort_spec(entries);
    lemma_from_key_sorted(entries, 0);
    if 0 <= index < names.len() {
        assert(name_key(entries, names[index as int]) >= 0);
        let t = theme_named(entries, names[index as int])->0;
        assert(theme_named(entries, names[index as int]) == Some(t));
    }
}

/// The theme applied for a name in range does not depend on where else the
/// list stands: any list holding a listed name at `index` applies that
/// name's theme there.
pub proof fn lemma_choice_applies_named_theme(
    entries: Seq<(Seq<char>, MaterialTheme)>,
    names: Seq<Seq<char>>,
    index: i32,
    t: MaterialTheme,
)
    requires
        0 <= index < names.len(),
        theme_named(entries, names[index as int]) == Some(t),
    ensures
        chosen_schemes(entries, names, index) == Some(
            MaterialSchemes {
                dark: scheme_colors(t.schemes.dark),
                light: scheme_colors(t.schemes.light),
            },
        ),
{
}

} // verus!