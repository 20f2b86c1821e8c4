use vacuum::palette::{Accent, Palette, Tint};
use yansi::{Color, Paint};

fn painted(accent: &Accent, text: &str) -> String {
    let mut out = String::new();
    accent.paint(&mut out, text);
    out
}

#[test]
fn the_plain_palette_writes_nothing() {
    let palette = Palette::plain();
    for accent in [&palette.title, &palette.label, &palette.countdown, &palette.badge] {
        assert_eq!(accent.before, "");
        assert_eq!(accent.after, "");
        assert_eq!(painted(accent, "Launch"), "Launch");
    }
}

#[test]
fn the_ansi_palette_writes_escape_codes() {
    let palette = Palette::ansi();
    assert_eq!(palette.title.before, "\x1B[33m");
    assert_eq!(palette.label.before, "\x1B[36m");
    assert_eq!(palette.countdown.before, "\x1B[32m");
    assert_eq!(palette.badge.before, "\x1B[43;30m");
    for accent in [&palette.title, &palette.label, &palette.countdown, &palette.badge] {
        assert_eq!(accent.after, "\x1B[0m");
    }
}

#[test]
fn the_ansi_palette_paints_as_yansi_does() {
    assert!(Paint::is_enabled());
    let palette = Palette::ansi();
    assert_eq!(painted(&palette.title, "Launch"), Paint::yellow("Launch").to_string());
    assert_eq!(painted(&palette.label, "Liftoff:"), Paint::cyan("Liftoff:").to_string());
    assert_eq!(painted(&palette.countdown, "T+00:00:00"), Paint::green("T+00:00:00").to_string());
    assert_eq!(painted(&palette.badge, "TBD"), Paint::black("TBD").bg(Color::Yellow).to_string());
    assert_eq!(painted(&palette.title, ""), Paint::yellow("").to_string());
}

#[test]
fn an_accent_stands_round_its_part() {
    let mut out = String::from("so far ");
    Accent::ansi(Tint::Green, Tint::Unset).paint(&mut out, "go");
    assert_eq!(out, "so far \x1B[32mgo\x1B[0m");
    Accent::none().paint(&mut out, "!");
    assert_eq!(out, "so far \x1B[32mgo\x1B[0m!");
}

#[test]
fn accents_name_their_colours() {
    let codes = |fg: Tint, bg: Tint| {
        let accent = Accent::ansi(fg, bg);
        (accent.before, accent.after)
    };
    assert_eq!(codes(Tint::Unset, Tint::Unset), (String::new(), String::new()));
    assert_eq!(codes(Tint::Black, Tint::Unset), ("\x1B[30m".to_string(), "\x1B[0m".to_string()));
    assert_eq!(codes(Tint::Green, Tint::Unset), ("\x1B[32m".to_string(), "\x1B[0m".to_string()));
    assert_eq!(codes(Tint::Yellow, Tint::Unset), ("\x1B[33m".to_string(), "\x1B[0m".to_string()));
    assert_eq!(codes(Tint::Cyan, Tint::Unset), ("\x1B[36m".to_string(), "\x1B[0m".to_string()));
    assert_eq!(codes(Tint::Unset, Tint::Cyan), ("\x1B[46m".to_string(), "\x1B[0m".to_string()));
    assert_eq!(codes(Tint::Unset, Tint::Black), ("\x1B[40m".to_string(), "\x1B[0m".to_string()));
    assert_eq!(codes(Tint::Yellow, Tint::Green), ("\x1B[42;33m".to_string(), "\x1B[0m".to_string()));
    assert_eq!(codes(Tint::Cyan, Tint::Cyan), ("\x1B[46;36m".to_string(), "\x1B[0m".to_string()));
}
