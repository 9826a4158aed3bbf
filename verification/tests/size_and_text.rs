use dx_console::handles::graph_handle_to_index;
use dx_console::menu::UserHelpMenu;
use dx_console::size::{graph_to_size, picture_for, Picture, SizeReration};
use dx_console::text::{chars_of, parse_trimmed_usize_chars, parse_usize_chars, same_text};

fn parse(s: &str) -> Option<usize> {
    parse_usize_chars(&chars_of(s))
}

fn parse_trimmed(s: &str) -> Option<usize> {
    parse_trimmed_usize_chars(&chars_of(s))
}

#[test]
fn larger_when_wider_or_taller() {
    assert!(graph_to_size(Some((641, 10)), 640, 480) == Some(SizeReration::Larger));
    assert!(graph_to_size(Some((10, 481)), 640, 480) == Some(SizeReration::Larger));
    assert!(graph_to_size(Some((1000, 1000)), 640, 480) == Some(SizeReration::Larger));
}

#[test]
fn equal_when_one_side_matches() {
    assert!(graph_to_size(Some((640, 10)), 640, 480) == Some(SizeReration::Equal));
    assert!(graph_to_size(Some((10, 480)), 640, 480) == Some(SizeReration::Equal));
    assert!(graph_to_size(Some((640, 480)), 640, 480) == Some(SizeReration::Equal));
}

#[test]
fn smaller_when_both_sides_smaller() {
    assert!(graph_to_size(Some((639, 479)), 640, 480) == Some(SizeReration::Smaller));
    assert!(graph_to_size(Some((-1, -1)), 640, 480) == Some(SizeReration::Smaller));
}

#[test]
fn unknown_only_when_size_unread() {
    assert!(graph_to_size(None, 640, 480) == Some(SizeReration::Unknown));
    assert!(graph_to_size(None, 0, 0) == Some(SizeReration::Unknown));
    assert_eq!(graph_to_size(None, 640, 480).unwrap().debug_text(), "SizeReration(Unknown)");
    for w in [-5, 0, 639, 640, 641] {
        for h in [-5, 0, 479, 480, 481] {
            assert!(graph_to_size(Some((w, h)), 640, 480) != Some(SizeReration::Unknown));
            assert!(graph_to_size(Some((w, h)), 640, 480).is_some());
        }
    }
}

#[test]
fn debug_texts() {
    assert_eq!(SizeReration::Larger.debug_text(), "SizeReration:(Larger)");
    assert_eq!(SizeReration::Equal.debug_text(), "SizeReration(Equal)");
    assert_eq!(SizeReration::Smaller.debug_text(), "SizeReration(Smaller)");
    assert_eq!(SizeReration::Unknown.debug_text(), "SizeReration(Unknown)");
}

#[test]
fn stretched_unless_smaller() {
    assert_eq!(
        picture_for(SizeReration::Larger, 7),
        Picture::Stretched { handle: 7, left: 5, top: 80, right: 218, bottom: 240 }
    );
    assert_eq!(
        picture_for(SizeReration::Equal, 7),
        Picture::Stretched { handle: 7, left: 5, top: 80, right: 218, bottom: 240 }
    );
    assert_eq!(
        picture_for(SizeReration::Unknown, 7),
        Picture::Stretched { handle: 7, left: 5, top: 80, right: 218, bottom: 240 }
    );
    assert_eq!(picture_for(SizeReration::Smaller, 7), Picture::Plain { handle: 7, x: 5, y: 80 });
}

#[test]
fn loaded_handles_listed_in_order() {
    let handles = vec![0, 5, -1, 7, 0, -3];
    assert_eq!(graph_handle_to_index(&handles), vec![(1, 5), (3, 7), (5, -3)]);
    assert_eq!(graph_handle_to_index(&vec![0, 0, -1]), vec![]);
    assert_eq!(graph_handle_to_index(&vec![]), vec![]);
}

#[test]
fn help_menu_entry_starts_empty() {
    let m = UserHelpMenu::new();
    assert_eq!(m.x, 0);
    assert_eq!(m.y, 0);
    assert_eq!(m.text, "");
}

#[test]
fn parses_like_std() {
    for s in ["0", "7", "+7", "0042", "123456", "+", "", "-1", "-0", "1a", " 1", "1 ", "++1", "１"] {
        assert_eq!(parse(s), s.parse::<usize>().ok(), "input {:?}", s);
    }
    assert_eq!(parse("18446744073709551615"), "18446744073709551615".parse::<usize>().ok());
    assert_eq!(parse("18446744073709551616"), None);
    assert_eq!(parse("99999999999999999999999"), None);
}

#[test]
fn trimmed_parse_like_std() {
    for s in [" 3 ", "\t12\n", "\u{3000}5\u{a0}", "  ", "", " x ", "4\r\n", " + 4"] {
        assert_eq!(parse_trimmed(s), s.trim().parse::<usize>().ok(), "input {:?}", s);
    }
}

#[test]
fn same_text_compares_characters() {
    assert!(same_text("graph", "graph"));
    assert!(!same_text("graph", "graph "));
    assert!(!same_text("graph", "Graph"));
    assert!(same_text("", ""));
    assert!(same_text("メイリオ", "メイリオ"));
}
