use slint_demo::theme::{
    color_from_parsed, default_schemes, load_theme_map, schemes_for_choice, string_to_color, theme_entry_name, Color,
    JsonScheme, JsonSchemes, MaterialTheme, ThemeFile,
};

fn scheme(text: &str) -> JsonScheme {
    let t = || text.to_string();
    JsonScheme {
        primary: t(),
        surfaceTint: t(),
        onPrimary: t(),
        primaryContainer: t(),
        onPrimaryContainer: t(),
        secondary: t(),
        onSecondary: t(),
        secondaryContainer: t(),
        onSecondaryContainer: t(),
        tertiary: t(),
        onTertiary: t(),
        tertiaryContainer: t(),
        onTertiaryContainer: t(),
        error: t(),
        onError: t(),
        errorContainer: t(),
        onErrorContainer: t(),
        background: t(),
        onBackground: t(),
        surface: t(),
        onSurface: t(),
        surfaceVariant: t(),
        onSurfaceVariant: t(),
        outline: t(),
        outlineVariant: t(),
        shadow: t(),
        scrim: t(),
        inverseSurface: t(),
        inverseOnSurface: t(),
        inversePrimary: t(),
        primaryFixed: t(),
        onPrimaryFixed: t(),
        primaryFixedDim: t(),
        onPrimaryFixedVariant: t(),
        secondaryFixed: t(),
        onSecondaryFixed: t(),
        secondaryFixedDim: t(),
        onSecondaryFixedVariant: t(),
        tertiaryFixed: t(),
        onTertiaryFixed: t(),
        tertiaryFixedDim: t(),
        onTertiaryFixedVariant: t(),
        surfaceDim: t(),
        surfaceBright: t(),
        surfaceContainerLowest: t(),
        surfaceContainerLow: t(),
        surfaceContainer: t(),
        surfaceContainerHigh: t(),
        surfaceContainerHighest: t(),
    }
}

fn theme(name: Option<&str>, sort: Option<u8>, dark: &str, light: &str) -> MaterialTheme {
    MaterialTheme {
        name: name.map(|n| n.to_string()),
        sort,
        schemes: JsonSchemes { dark: scheme(dark), light: scheme(light) },
    }
}

fn file(path: &str, t: Option<MaterialTheme>) -> ThemeFile {
    ThemeFile { path: path.to_string(), theme: t }
}

const ONE: u32 = 0x3f80_0000; // 1.0f32
const HALF: u32 = 0x3f00_0000; // 0.5f32

#[test]
fn hex_colors() {
    assert_eq!(
        string_to_color("#ff0011".to_string()),
        Color { red: 255, green: 0, blue: 17, alpha_bits: ONE }
    );
    assert_eq!(
        string_to_color("#fff".to_string()),
        Color { red: 255, green: 255, blue: 255, alpha_bits: ONE }
    );
}

#[test]
fn named_and_functional_colors() {
    assert_eq!(
        string_to_color("slateblue".to_string()),
        Color { red: 106, green: 90, blue: 205, alpha_bits: ONE }
    );
    assert_eq!(
        string_to_color(" rgba (255, 128, 12, 0.5)".to_string()),
        Color { red: 255, green: 128, blue: 12, alpha_bits: HALF }
    );
}

#[test]
fn bad_colors_are_transparent_black() {
    let transparent = Color { red: 0, green: 0, blue: 0, alpha_bits: 0 };
    assert_eq!(string_to_color("blah".to_string()), transparent);
    assert_eq!(string_to_color("ffffff".to_string()), transparent);
    assert_eq!(string_to_color(String::new()), transparent);
}

#[test]
fn scheme_roles_all_converted() {
    let mut s = scheme("#000000");
    s.primary = "#6750a4".to_string();
    s.surfaceContainerHighest = "red".to_string();
    let c = s.to_slint();
    assert_eq!(c.primary, Color { red: 0x67, green: 0x50, blue: 0xa4, alpha_bits: ONE });
    assert_eq!(c.surfaceContainerHighest, Color { red: 255, green: 0, blue: 0, alpha_bits: ONE });
    assert_eq!(c.onPrimary, Color { red: 0, green: 0, blue: 0, alpha_bits: ONE });

    let both = JsonSchemes { dark: scheme("#111111"), light: scheme("#eeeeee") }.to_slint();
    assert_eq!(both.dark.background, Color { red: 0x11, green: 0x11, blue: 0x11, alpha_bits: ONE });
    assert_eq!(both.light.background, Color { red: 0xee, green: 0xee, blue: 0xee, alpha_bits: ONE });
}

#[test]
fn entry_names() {
    assert_eq!(theme_entry_name(None, "ocean.json"), "ocean");
    assert_eq!(theme_entry_name(None, "a.json.json"), "a");
    assert_eq!(theme_entry_name(None, "plain"), "plain");
    assert_eq!(theme_entry_name(Some("Named".to_string()), "x.json"), "Named");
}

#[test]
fn theme_map_and_switcher_order() {
    let files = vec![
        file("red.json", Some(theme(None, Some(3), "#110000", "#ff0000"))),
        file("broken.json", None),
        file("slint.json", Some(theme(Some("Slint"), Some(0), "#000011", "#0000ff"))),
        file("green.json", Some(theme(None, None, "#001100", "#00ff00"))),
        file("blue.json", Some(theme(None, Some(1), "#000022", "#0000ee"))),
    ];
    let map = load_theme_map(files);
    assert_eq!(map.len(), 4);
    assert!(map.get(&"broken".to_string()).is_none());
    // A listed theme no longer carries its own name.
    assert!(map.get(&"Slint".to_string()).unwrap().name.is_none());

    let names = map.names_by_sort();
    // Equal sort values (Slint: 0, green: none = 0) keep their order.
    assert_eq!(names, vec!["Slint", "green", "blue", "red"]);

    let def = default_schemes(&map).unwrap();
    assert_eq!(def.light.primary, Color { red: 0, green: 0, blue: 255, alpha_bits: ONE });

    let chosen = schemes_for_choice(&map, &names, 3).unwrap();
    assert_eq!(chosen.light.primary, Color { red: 255, green: 0, blue: 0, alpha_bits: ONE });
    assert!(schemes_for_choice(&map, &names, 4).is_none());
    assert!(schemes_for_choice(&map, &names, -1).is_none());
}

#[test]
fn later_file_replaces_earlier() {
    let files = vec![
        file("a.json", Some(theme(None, Some(5), "#000000", "#010101"))),
        file("b.json", Some(theme(None, Some(1), "#000000", "#020202"))),
        file("x.json", Some(theme(Some("a"), Some(2), "#000000", "#030303"))),
    ];
    let map = load_theme_map(files);
    assert_eq!(map.len(), 2);
    assert_eq!(map.get(&"a".to_string()).unwrap().sort, Some(2));
    assert_eq!(map.names_by_sort(), vec!["b", "a"]);
    assert!(default_schemes(&map).is_none());
}

#[test]
fn parsed_colour_to_color() {
    let half = 0.5f32.to_bits();
    assert_eq!(
        color_from_parsed(Some((10, 20, 30, half))),
        Color { red: 10, green: 20, blue: 30, alpha_bits: half }
    );
    assert_eq!(color_from_parsed(None), Color { red: 0, green: 0, blue: 0, alpha_bits: 0 });
}
