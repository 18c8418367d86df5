use chessboard::geometry::{BoardArea, PointerPos, Region, cell_origin, in_cell_bounds, pointer_to_square};

#[test]
fn square_under_cell_centers() {
    // Cell centers of a 900-pixel board, cell size 100.
    assert_eq!(pointer_to_square(500, 700, 900, false), (4, 1)); // e2
    assert_eq!(pointer_to_square(100, 100, 900, false), (0, 7)); // a8
    assert_eq!(pointer_to_square(800, 800, 900, false), (7, 0)); // h1
}

#[test]
fn square_under_cell_centers_reversed() {
    assert_eq!(pointer_to_square(500, 700, 900, true), (3, 6));
    assert_eq!(pointer_to_square(100, 100, 900, true), (7, 0)); // h1 at top-left
    assert_eq!(pointer_to_square(800, 800, 900, true), (0, 7)); // a8 at bottom-right
}

#[test]
fn margin_maps_out_of_bounds() {
    // The top-left label margin is before the first cell.
    assert_eq!(pointer_to_square(0, 0, 900, false), (-1, 8));
    assert_eq!(pointer_to_square(49, 49, 900, false), (-1, 8));
    // The bottom-right margin is past the last cell.
    assert_eq!(pointer_to_square(860, 860, 900, false), (8, -1));
    assert!(!in_cell_bounds(-1, 8));
    assert!(!in_cell_bounds(8, -1));
    assert!(in_cell_bounds(0, 0));
    assert!(in_cell_bounds(7, 7));
    assert!(!in_cell_bounds(0, 8));
    assert!(!in_cell_bounds(-1, 0));
}

#[test]
fn pointer_square_round_trip_every_square() {
    // Every point of every rendered cell maps back to that cell's
    // (file, rank), for both orientations and uneven board sizes.
    for &size in &[9u32, 100, 900, 901] {
        let c = size / 9;
        for rev in [false, true] {
            for file in 0..8u8 {
                for rank in 0..8u8 {
                    let (ox, oy) = cell_origin(file, rank, size, rev);
                    for (px, py) in [(ox, oy), (ox + c / 2, oy + c / 2), (ox + c - 1, oy + c - 1)]
                    {
                        assert_eq!(
                            pointer_to_square(px, py, size, rev),
                            (file as i64, rank as i64),
                            "size {size} rev {rev} file {file} rank {rank}"
                        );
                    }
                }
            }
        }
    }
}

#[test]
fn cell_origin_concrete_values() {
    assert_eq!(cell_origin(4, 1, 900, false), (450, 650));
    assert_eq!(cell_origin(0, 7, 900, false), (50, 50));
    assert_eq!(cell_origin(4, 1, 900, true), (350, 150));
}

#[test]
fn area_contains_is_half_open() {
    let area = BoardArea { x: 10, y: 10, size: 100 };
    assert!(area.contains(PointerPos { x: 10, y: 10 }));
    assert!(area.contains(PointerPos { x: 109, y: 109 }));
    assert!(!area.contains(PointerPos { x: 110, y: 10 }));
    assert!(!area.contains(PointerPos { x: 10, y: 110 }));
    assert!(!area.contains(PointerPos { x: 9, y: 10 }));
}

#[test]
fn region_contains_is_half_open() {
    let region = Region { x: 100, y: 400, size: 100 };
    assert!(region.contains(PointerPos { x: 100, y: 400 }));
    assert!(region.contains(PointerPos { x: 199, y: 499 }));
    assert!(!region.contains(PointerPos { x: 200, y: 400 }));
    assert!(!region.contains(PointerPos { x: 100, y: 500 }));
}
