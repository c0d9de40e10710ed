use grid_resize::grid::{correct_dimensions, Grid};
use grid_resize::selection::Selection;

#[test]
fn corrected_dimensions_are_whole_cells() {
    let (x, y, w, h) = correct_dimensions(10, 20, 803, 605, 4, 3);
    assert_eq!((w, h), (800, 603));
    assert_eq!(w % 4, 0);
    assert_eq!(h % 3, 0);
    assert_eq!((x, y), (11, 21));
}

#[test]
fn corrected_dimensions_keep_exact_fit() {
    assert_eq!(correct_dimensions(0, 0, 800, 600, 4, 3), (0, 0, 800, 600));
}

#[test]
fn corrected_dimensions_smaller_than_cells() {
    assert_eq!(correct_dimensions(5, 5, 3, 2, 4, 3), (6, 6, 0, 0));
}

#[test]
fn grid_cell_sizes() {
    let g = Grid::new(800, 600, 4, 3);
    assert_eq!((g.cell_width, g.cell_height), (200, 200));
    let g = Grid::new(10, 7, 3, 2);
    assert_eq!((g.cell_width, g.cell_height), (3, 3));
}

#[test]
fn lower_bound_floors_to_containing_cell() {
    let g = Grid::new(800, 600, 4, 3);
    assert_eq!(g.lower_bound(0, 0), (0, 0));
    assert_eq!(g.lower_bound(199, 201), (0, 1));
    assert_eq!(g.lower_bound(200, 599), (1, 2));
    assert_eq!(g.lower_bound(5000, 5000), (4, 3));
}

#[test]
fn lower_bound_clamps_negative_to_zero() {
    let g = Grid::new(800, 600, 4, 3);
    assert_eq!(g.lower_bound(-5, -300), (0, 0));
}

#[test]
fn upper_bound_takes_next_boundary() {
    let g = Grid::new(800, 600, 4, 3);
    assert_eq!(g.upper_bound(0, 0), (1, 1));
    assert_eq!(g.upper_bound(199, 200), (1, 2));
    assert_eq!(g.upper_bound(799, 599), (4, 3));
    assert_eq!(g.upper_bound(900, 900), (4, 3));
    assert_eq!(g.upper_bound(-1, -1), (0, 0));
}

#[test]
fn position_maps_index_to_pixels() {
    let g = Grid::new(800, 600, 4, 3);
    assert_eq!(g.position((3, 2)), (600, 400));
    assert_eq!(g.position((0, 0)), (0, 0));
}

#[test]
fn bounds_enclose_every_point() {
    let g = Grid::new(90, 60, 3, 2);
    for x in 0..90 {
        for y in 0..60 {
            let lo = g.position(g.lower_bound(x, y));
            let hi = g.position(g.upper_bound(x, y));
            assert!(lo.0 as i32 <= x && lo.1 as i32 <= y);
            assert!(hi.0 as i32 >= x && hi.1 as i32 >= y);
        }
    }
}

#[test]
fn single_point_selection_covers_one_cell() {
    let g = Grid::new(200, 200, 4, 4);
    assert_eq!((g.cell_width, g.cell_height), (50, 50));
    let s = Selection::new(10, 10);
    assert_eq!(s.get(&g), ((0, 0), (1, 1)));
    assert_eq!(s.get_dimensions(&g), (0, 0, 50, 50));
}

#[test]
fn empty_cells_give_empty_rect() {
    let g = Grid::new(3, 2, 4, 3);
    let s = Selection::new(1, 1);
    let (lo, hi) = s.get(&g);
    assert_eq!(lo, hi);
    let (_, _, w, h) = s.get_dimensions(&g);
    assert_eq!((w, h), (0, 0));
}

#[test]
fn selection_is_order_independent() {
    let g = Grid::new(200, 200, 4, 4);
    let a = Selection { p1_x: 80, p1_y: 5, p2_x: 5, p2_y: 80 };
    let b = Selection { p1_x: 5, p1_y: 5, p2_x: 80, p2_y: 80 };
    assert_eq!(a.get(&g), b.get(&g));
    assert_eq!(a.get(&g), ((0, 0), (2, 2)));
    assert_eq!(a.get_dimensions(&g), b.get_dimensions(&g));
}

#[test]
fn selection_dimensions_span_cells() {
    let g = Grid::new(800, 600, 4, 3);
    let s = Selection { p1_x: 50, p1_y: 50, p2_x: 450, p2_y: 250 };
    assert_eq!(s.get(&g), ((0, 0), (3, 2)));
    assert_eq!(s.get_dimensions(&g), (0, 0, 600, 400));
}
