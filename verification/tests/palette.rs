//! Palette parsing: hex color strings become pixel colors.

use rusty_gb_emu::palette::{get_next_pallet_idx, into_pallet, parse_hex_u32, PixelColor};

#[test]
fn test_parse_hex_colors() {
    let colors = vec!["FF0F0F1B".to_string()];
    let colors = into_pallet(&colors);

    println!("{:?}", colors);
}

#[test]
fn test_palette_values() {
    let colors = vec![
        "FF0F0F1B".to_string(),
        "00ff00ff".to_string(),
        "not hex".to_string(),
    ];
    let pallet = into_pallet(&colors);
    assert_eq!(
        pallet[0],
        PixelColor {
            r: 0xFF,
            g: 0x0F,
            b: 0x0F,
            a: 0x1B
        }
    );
    assert_eq!(
        pallet[1],
        PixelColor {
            r: 0x00,
            g: 0xFF,
            b: 0x00,
            a: 0xFF
        }
    );
    let black = PixelColor {
        r: 0,
        g: 0,
        b: 0,
        a: 0xFF,
    };
    assert_eq!(pallet[2], black, "malformed entries fall back");
    assert_eq!(pallet[3], black, "missing entries fall back");
    assert_eq!(pallet[0].as_rgba(), (0xFF, 0x0F, 0x0F, 0x1B));
}

#[test]
fn test_parse_hex_u32() {
    assert_eq!(parse_hex_u32("FF0F0F1B"), Some(0xFF0F0F1B));
    assert_eq!(parse_hex_u32("ff0f0f1b"), Some(0xFF0F0F1B));
    assert_eq!(parse_hex_u32(""), Some(0));
    assert_eq!(parse_hex_u32("12345678"), Some(0x12345678));
    assert_eq!(parse_hex_u32("123456789"), None);
    assert_eq!(parse_hex_u32("xyz"), None);
}

#[test]
fn test_get_next_pallet_idx() {
    assert_eq!(get_next_pallet_idx(0, 3), 1);
    assert_eq!(get_next_pallet_idx(2, 3), 3);
    assert_eq!(get_next_pallet_idx(3, 3), 0);
}
