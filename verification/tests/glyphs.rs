use ocariner::glyphs::{Arrow, BoxDrawing};

#[test]
fn drawing_junction_left() {
    let left = BoxDrawing::JunctionLeft.get_utf8();
    let right = std::str::from_utf8(&[0xe2, 0x94, 0xa4]).unwrap();
    assert_eq!(left, right);
}

#[test]
fn drawing_bottom_right_instead_vertical() {
    let left = BoxDrawing::BottomRight.get_utf8();
    let right = std::str::from_utf8(&[0xe2, 0x94, 0x80]).unwrap();
    assert_ne!(left, right);
}

#[test]
fn drawing_up_arrow_double() {
    let left = Arrow::UpArrowDouble.get_utf8();
    let right = std::str::from_utf8(&[0xe2, 0x87, 0x91]).unwrap();
    assert_eq!(left, right);
}

#[test]
fn drawing_up_arrow_instead_up_arrow_filled() {
    let left = Arrow::UpArrow.get_utf8();
    let right = std::str::from_utf8(&[0xe2, 0xac, 0x86]).unwrap();
    assert_ne!(left, right);
}

#[test]
fn every_box_drawing_glyph_is_nonempty_utf8() {
    let all = [
        BoxDrawing::Vertical,
        BoxDrawing::Horizontal,
        BoxDrawing::Topleft,
        BoxDrawing::TopRight,
        BoxDrawing::BottomLeft,
        BoxDrawing::BottomRight,
        BoxDrawing::JunctionRight,
        BoxDrawing::JunctionLeft,
        BoxDrawing::JunctionDown,
        BoxDrawing::JunctionUp,
        BoxDrawing::JunctionCross,
        BoxDrawing::MusicalNote,
        BoxDrawing::Void,
    ];
    for d in all {
        let g = d.get_utf8();
        assert!(!g.is_empty());
        assert_eq!(g.chars().count(), 1);
    }
}

#[test]
fn every_arrow_glyph_is_nonempty_utf8() {
    let all = [Arrow::UpArrow, Arrow::UpArrowDouble, Arrow::UpArrowFilled];
    for a in all {
        let g = a.get_utf8();
        assert!(!g.is_empty());
        assert_eq!(g.chars().count(), 1);
    }
}

#[test]
fn musical_note_glyph_bytes() {
    let note = BoxDrawing::MusicalNote.get_utf8();
    let expected = std::str::from_utf8(&[226, 151, 137]).unwrap();
    assert_eq!(note, expected);
}
