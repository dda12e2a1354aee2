use fnav::colors::{color_from_u8, get_style, Color, Colors, FileColor, Footer, Modifier, Panels, Style, Title};
use fnav::conf::Conf;
use fnav::current_dir::CurrentDir;
use fnav::ftype::{FileEntry, FileType};
use fnav::os_release::{parse_line, parse_os_release, release_value, trim, OsRelease};
use fnav::preview::{get_bytes_string, what_to_preview, Preview};

fn entry(name: &str, size: u64, kind: FileType) -> FileEntry {
    FileEntry::new(name.as_bytes().to_vec(), format!("/d/{name}"), size, kind)
}

#[test]
fn color_codes() {
    assert_eq!(color_from_u8(30), Some(Color::Black));
    assert_eq!(color_from_u8(40), Some(Color::Black));
    assert_eq!(color_from_u8(37), Some(Color::White));
    assert_eq!(color_from_u8(48), Some(Color::Gray));
    assert_eq!(color_from_u8(96), Some(Color::LightCyan));
    assert_eq!(color_from_u8(108), Some(Color::DarkGray));
    assert_eq!(color_from_u8(39), None);
    assert_eq!(color_from_u8(0), None);
}

#[test]
fn modifier_codes() {
    assert_eq!(Modifier::from(1), Modifier::Bold);
    assert_eq!(Modifier::from(7), Modifier::BoldItalicUnderline);
    assert_eq!(Modifier::from(8), Modifier::Plain);
    assert_eq!(Modifier::from(0), Modifier::Plain);
}

#[test]
fn style_from_codes() {
    let s = get_style(44, Some(5));
    assert_eq!(s, Style { fg: None, bg: Some(Color::Blue), bold: true, italic: false, underlined: true });
    let s = get_style(31, None);
    assert_eq!(s, Style { fg: Some(Color::Red), bg: None, bold: false, italic: false, underlined: false });
    let s = get_style(12, Some(2));
    assert_eq!(s, Style { fg: Some(Color::Reset), bg: None, bold: false, italic: true, underlined: false });
}

#[test]
fn default_scheme() {
    let c = Colors::default();
    assert_eq!(c.title, Title { background: 30, text: 93, text_modifier: Some(1) });
    assert_eq!(c.panels.dir, 34);
    assert_eq!(c.panels.selection_color, 96);
    assert_eq!(c.panels.file_modifier, None);
    assert_eq!(c.footer, Footer { key_code: 31, key_code_modifier: Some(1), key_title: 30, key_title_modifier: None, background: 38 });
    assert_eq!(Panels::default(), c.panels);
}

#[test]
fn row_styles() {
    let mut cols = Panels::default();
    let dir = entry("b", 1, FileType::Directory);
    let s = FileColor { entry: &dir, cols, selected: false }.style();
    assert_eq!(s.fg, Some(Color::Blue));
    assert_eq!(s.bg, Some(Color::DarkGray));
    let s = FileColor { entry: &dir, cols, selected: true }.style();
    assert_eq!(s.bg, Some(Color::LightCyan));
    let hidden = entry(".h", 1, FileType::File);
    let s = FileColor { entry: &hidden, cols, selected: true }.style();
    assert_eq!(s.fg, Some(Color::Gray));
    assert_eq!(s.bg, Some(Color::DarkGray));
    cols.link_modifier = Some(4);
    let link = entry("l", 1, FileType::Link);
    let s = FileColor { entry: &link, cols, selected: false }.style();
    assert_eq!(s.fg, Some(Color::Green));
    assert!(s.bold && s.italic && !s.underlined);
}

#[test]
fn conf_holds_flags() {
    let c = Conf { use_human_units: true, preview_files: false };
    assert!(c.use_human_units && !c.preview_files);
}

#[test]
fn byte_view_pads_last_line() {
    assert_eq!(get_bytes_string(vec![0, 5, 42, 255]), " 000 005 042 255 NUL NUL NUL NUL NUL NUL ");
}

#[test]
fn byte_view_breaks_after_ten() {
    let bytes: Vec<u8> = (1..=10).collect();
    assert_eq!(get_bytes_string(bytes), " 001 002 003 004 005 006 007 008 009 010\n");
    let bytes: Vec<u8> = (0..11).collect();
    assert_eq!(
        get_bytes_string(bytes),
        " 000 001 002 003 004 005 006 007 008 009\n 010 NUL NUL NUL NUL NUL NUL NUL NUL NUL "
    );
    assert_eq!(get_bytes_string(Vec::new()), "");
}

#[test]
fn byte_view_stops_at_five_hundred() {
    let s = get_bytes_string(vec![7u8; 600]);
    assert_eq!(s.matches(" 007").count(), 500);
    assert_eq!(s.matches('\n').count(), 50);
    assert!(!s.contains("NUL"));
}

#[test]
fn preview_choice() {
    assert_eq!(what_to_preview(None), Preview::Nothing);
    let big = entry("big", 1048577, FileType::File);
    assert_eq!(what_to_preview(Some(&big)), Preview::TooLarge);
    let edge = entry("edge", 1048576, FileType::File);
    assert_eq!(what_to_preview(Some(&edge)), Preview::Read("/d/edge".to_string()));
    let dir = entry("dir", 10, FileType::Directory);
    assert_eq!(what_to_preview(Some(&dir)), Preview::Unsupported);
}

#[test]
fn current_dir_wraps() {
    let mut c = CurrentDir::new(vec![entry("a", 1, FileType::File), entry("b", 1, FileType::File)]);
    assert_eq!(c.selected, None);
    c.next();
    assert_eq!(c.selected, Some(0));
    c.next();
    assert_eq!(c.selected, Some(1));
    c.next();
    assert_eq!(c.selected, Some(0));
    c.prev();
    assert_eq!(c.selected, Some(1));
    c.unselect();
    assert_eq!(c.selected, None);
    let mut e = CurrentDir::new(Vec::new());
    e.next();
    assert_eq!(e.selected, None);
}

#[test]
fn os_release_fields() {
    let text = "NAME=\"Arch Linux\"\n  ID=arch  \nBROKEN\nA=b=c\nVERSION_ID=1\nNAME=Later";
    let pairs = parse_os_release(text);
    assert_eq!(pairs.len(), 4);
    assert_eq!(release_value(&pairs, "NAME"), Some("Later".to_string()));
    assert_eq!(release_value(&pairs, "ID"), Some("arch".to_string()));
    assert_eq!(release_value(&pairs, "A"), None);
    let r = OsRelease::parse(text, "  Linux version 6.1\n");
    assert_eq!(r.name, "Later");
    assert_eq!(r.id, "arch");
    assert_eq!(r.version, None);
    assert_eq!(r.uname, "Linux version 6.1");
}

#[test]
fn os_release_defaults() {
    let r = OsRelease::parse("", "");
    assert_eq!(r.name, "UNIX");
    assert_eq!(r.id, "unix");
    assert_eq!(r.version, None);
    let r = OsRelease::parse("VERSION=\"22.04 LTS\"\n", "k");
    assert_eq!(r.version, Some("\"22.04 LTS\"".to_string()));
}

#[test]
fn line_and_trim() {
    assert_eq!(parse_line("\tKEY=v \r"), Some(("KEY".to_string(), "v".to_string())));
    assert_eq!(parse_line("=x"), Some((String::new(), "x".to_string())));
    assert_eq!(parse_line("no pair"), None);
    assert_eq!(trim("\u{3000} a b \u{85}"), "a b");
    assert_eq!(trim("   "), "");
}
