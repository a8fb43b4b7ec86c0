use xtswpr::color::{match_color, Color, ColorPalette, ColorSupport, WTMatch};

const NAMED: [(Color, (u8, u8, u8), u8); 16] = [
    (Color::Black, (12, 12, 12), 232),
    (Color::Red, (197, 15, 31), 160),
    (Color::Green, (19, 161, 14), 28),
    (Color::Yellow, (193, 156, 0), 178),
    (Color::Blue, (0, 55, 218), 20),
    (Color::Magenta, (136, 23, 152), 90),
    (Color::Cyan, (58, 150, 221), 38),
    (Color::Gray, (204, 204, 204), 250),
    (Color::DarkGray, (118, 118, 118), 243),
    (Color::LightRed, (231, 72, 86), 203),
    (Color::LightGreen, (22, 198, 12), 46),
    (Color::LightYellow, (249, 241, 165), 229),
    (Color::LightBlue, (59, 120, 255), 63),
    (Color::LightMagenta, (180, 0, 158), 163),
    (Color::LightCyan, (97, 214, 214), 116),
    (Color::White, (242, 242, 242), 255),
];

const TRUE_COLOR: ColorSupport = ColorSupport { has_256: true, has_16m: true };
const INDEXED: ColorSupport = ColorSupport { has_256: true, has_16m: false };
const BASIC: ColorSupport = ColorSupport { has_256: false, has_16m: false };

#[test]
fn named_colors_take_their_campbell_look() {
    for (color, rgb, index) in NAMED {
        assert_eq!(match_color(color, TRUE_COLOR), Color::Rgb(rgb.0, rgb.1, rgb.2));
        assert_eq!(match_color(color, INDEXED), Color::Indexed(index));
        assert_eq!(match_color(color, BASIC), color);
        // True colour counts even where the 256 are not reported.
        assert_eq!(
            match_color(color, ColorSupport { has_256: false, has_16m: true }),
            Color::Rgb(rgb.0, rgb.1, rgb.2)
        );
    }
}

#[test]
fn other_colors_stay_as_they_are() {
    for support in [TRUE_COLOR, INDEXED, BASIC] {
        assert_eq!(match_color(Color::Reset, support), Color::Reset);
        assert_eq!(match_color(Color::Rgb(1, 2, 3), support), Color::Rgb(1, 2, 3));
        assert_eq!(match_color(Color::Indexed(200), support), Color::Indexed(200));
    }
}

#[test]
fn palette_for_a_support_matches_every_color() {
    let p = ColorPalette::for_support(INDEXED);
    assert_eq!(p.black, Color::Indexed(232));
    assert_eq!(p.red, Color::Indexed(160));
    assert_eq!(p.green, Color::Indexed(28));
    assert_eq!(p.yellow, Color::Indexed(178));
    assert_eq!(p.blue, Color::Indexed(20));
    assert_eq!(p.magenta, Color::Indexed(90));
    assert_eq!(p.cyan, Color::Indexed(38));
    assert_eq!(p.gray, Color::Indexed(250));
    assert_eq!(p.dark_gray, Color::Indexed(243));
    assert_eq!(p.light_red, Color::Indexed(203));
    assert_eq!(p.light_green, Color::Indexed(46));
    assert_eq!(p.light_yellow, Color::Indexed(229));
    assert_eq!(p.light_blue, Color::Indexed(63));
    assert_eq!(p.light_magenta, Color::Indexed(163));
    assert_eq!(p.light_cyan, Color::Indexed(116));
    assert_eq!(p.white, Color::Indexed(255));
    let q = ColorPalette::for_support(TRUE_COLOR);
    assert_eq!(q.white, Color::Rgb(242, 242, 242));
    let r = ColorPalette::for_support(BASIC);
    assert_eq!(r.light_cyan, Color::LightCyan);
}

#[test]
fn palette_of_this_terminal_is_one_of_the_three() {
    let p = ColorPalette::new();
    let looks = [
        ColorPalette::for_support(TRUE_COLOR),
        ColorPalette::for_support(INDEXED),
        ColorPalette::for_support(BASIC),
    ];
    assert!(looks.iter().any(|q| q.red == p.red && q.white == p.white && q.black == p.black
        && q.light_blue == p.light_blue));
    let d = ColorPalette::default();
    assert!(looks.iter().any(|q| q.red == d.red && q.gray == d.gray));
}

#[test]
fn wtmatch_gives_one_of_the_looks() {
    let m = Color::Yellow.wtmatch();
    assert!(m == Color::Yellow || m == Color::Indexed(178) || m == Color::Rgb(193, 156, 0));
    assert_eq!(Color::Rgb(9, 8, 7).wtmatch(), Color::Rgb(9, 8, 7));
    assert_eq!(Color::Reset.wtmatch(), Color::Reset);
}
