use mapgen::palette::{same_block, Palette};
use mapgen::raster::Color;

const RED: Color = Color { r: 255, g: 0, b: 0 };
const BLUE: Color = Color { r: 0, g: 0, b: 255 };

#[test]
fn new_palette_is_empty() {
    let palette = Palette::new();
    assert_eq!(palette.len(), 0);
    assert_eq!(palette.position(&vec![RED]), None);
}

#[test]
fn intern_numbers_new_contents_in_order() {
    let mut palette = Palette::new();
    assert_eq!(palette.intern(vec![RED, RED]), 0);
    assert_eq!(palette.intern(vec![BLUE, BLUE]), 1);
    assert_eq!(palette.intern(vec![RED, BLUE]), 2);
    assert_eq!(palette.len(), 3);
    assert_eq!(palette.get(0), &vec![RED, RED]);
    assert_eq!(palette.get(1), &vec![BLUE, BLUE]);
    assert_eq!(palette.get(2), &vec![RED, BLUE]);
}

#[test]
fn intern_finds_known_contents_again() {
    let mut palette = Palette::new();
    assert_eq!(palette.intern(vec![RED]), 0);
    assert_eq!(palette.intern(vec![BLUE]), 1);
    assert_eq!(palette.intern(vec![RED]), 0);
    assert_eq!(palette.intern(vec![BLUE]), 1);
    assert_eq!(palette.len(), 2);
}

#[test]
fn position_reports_the_entry_or_nothing() {
    let mut palette = Palette::new();
    palette.intern(vec![RED]);
    palette.intern(vec![BLUE]);
    assert_eq!(palette.position(&vec![RED]), Some(0));
    assert_eq!(palette.position(&vec![BLUE]), Some(1));
    assert_eq!(palette.position(&vec![BLUE, RED]), None);
    assert_eq!(palette.position(&Vec::new()), None);
}

#[test]
fn the_empty_block_is_a_content_too() {
    let mut palette = Palette::new();
    assert_eq!(palette.intern(Vec::new()), 0);
    assert_eq!(palette.intern(Vec::new()), 0);
    assert_eq!(palette.intern(vec![RED]), 1);
    assert_eq!(palette.len(), 2);
}

#[test]
fn same_block_compares_pixel_by_pixel() {
    assert!(same_block(&vec![RED, BLUE], &vec![RED, BLUE]));
    assert!(!same_block(&vec![RED, BLUE], &vec![BLUE, RED]));
    assert!(!same_block(&vec![RED], &vec![RED, RED]));
    assert!(!same_block(&vec![RED, RED], &vec![RED]));
    assert!(same_block(&Vec::new(), &Vec::new()));
    let nearly = Color { r: 255, g: 0, b: 1 };
    assert!(!same_block(&vec![RED], &vec![nearly]));
}
