use image_grid::grid::ImageGrid;
use image_grid::row::{ImageRow, Template};
use image_grid::state::State;
use std::path::PathBuf;

fn collection(n: usize, c: usize) -> State {
    let mut state = State::with_max_images_per_row(c).unwrap();
    let mut v = Vec::new();
    for i in 0..n {
        v.push(PathBuf::from(format!("image_{}.jpg", i)));
    }
    state.replace_all(v);
    state
}

#[test]
fn grid_declares_its_rows() {
    let state = collection(7, 4);
    let grid = ImageGrid::new(&state);
    assert_eq!(grid.item_range(), 2);
    assert_eq!(grid.state().num_images(), 7);
}

#[test]
fn grid_realizes_rows_it_has() {
    let state = collection(7, 4);
    let grid = ImageGrid::new(&state);
    let request = grid.visible_item(1).unwrap();
    assert_eq!(request.row_idx, 1);
    assert_eq!(request.template, Template::ImageRow);
    assert_eq!(request.row.row_idx(), 1);
    assert_eq!(request.row.item_range(), 3);
    assert_eq!(request.row.state().num_images(), 7);
}

#[test]
fn grid_skips_rows_past_the_end() {
    let state = collection(7, 4);
    let grid = ImageGrid::new(&state);
    assert!(grid.visible_item(2).is_none());
    assert!(grid.visible_item(usize::MAX).is_none());
}

#[test]
fn viewport_range_past_the_end_issues_nothing() {
    let state = collection(7, 4);
    let grid = ImageGrid::new(&state);
    let visible: Vec<usize> = (5..10).collect();
    let mut skipped = 0;
    for row_idx in visible.iter() {
        if grid.visible_item(*row_idx).is_none() {
            skipped += 1;
        }
    }
    assert_eq!(skipped, 5);
    let requests = grid.draw_walk(&visible);
    assert!(requests.is_empty());
}

#[test]
fn empty_collection_visits_no_row() {
    let state = collection(0, 4);
    let grid = ImageGrid::new(&state);
    assert_eq!(grid.item_range(), 0);
    assert!(grid.visible_item(0).is_none());
    assert!(grid.draw_walk(&[0, 1, 2, 3]).is_empty());
    assert!(ImageRow::new(&state, 0).is_none());
}

#[test]
fn shrunken_collection_skips_the_stale_row() {
    let mut state = collection(7, 4);
    {
        let grid = ImageGrid::new(&state);
        assert!(grid.visible_item(1).is_some());
    }
    state.replace_all(vec![PathBuf::from("x"), PathBuf::from("y"), PathBuf::from("z")]);
    assert_eq!(state.num_rows(), 1);
    let grid = ImageGrid::new(&state);
    assert!(grid.visible_item(1).is_none());
    let requests = grid.draw_walk(&[0, 1]);
    assert_eq!(requests.len(), 1);
    assert_eq!(requests[0].row_idx, 0);
    assert_eq!(requests[0].row.item_range(), 3);
}

#[test]
fn grid_pass_keeps_the_order_reported() {
    let state = collection(10, 3);
    let grid = ImageGrid::new(&state);
    let requests = grid.draw_walk(&[2, 7, 0, 4, 3, 1]);
    let rows: Vec<usize> = requests.iter().map(|r| r.row_idx).collect();
    assert_eq!(rows, vec![2, 0, 3, 1]);
    for r in requests.iter() {
        assert_eq!(r.template, Template::ImageRow);
        assert_eq!(r.row.row_idx(), r.row_idx);
    }
}

#[test]
fn row_exists_only_inside_the_collection() {
    let state = collection(7, 4);
    assert!(ImageRow::new(&state, 0).is_some());
    assert!(ImageRow::new(&state, 1).is_some());
    assert!(ImageRow::new(&state, 2).is_none());
}

#[test]
fn row_requests_the_image_of_each_cell() {
    let state = collection(7, 4);
    let row = ImageRow::new(&state, 1).unwrap();
    assert_eq!(row.item_range(), 3);
    let request = row.visible_item(2).unwrap();
    assert_eq!(request.item_idx, 2);
    assert_eq!(request.template, Template::ImageItem);
    assert_eq!(request.image_idx, 6);
    assert_eq!(request.image_path, &PathBuf::from("image_6.jpg"));
    let first = row.visible_item(0).unwrap();
    assert_eq!(first.image_idx, 4);
    assert_eq!(first.image_path, &PathBuf::from("image_4.jpg"));
}

#[test]
fn row_skips_items_past_its_end() {
    let state = collection(7, 4);
    let row = ImageRow::new(&state, 1).unwrap();
    assert!(row.visible_item(3).is_none());
    assert!(row.visible_item(4).is_none());
    assert!(row.visible_item(usize::MAX).is_none());
    let full = ImageRow::new(&state, 0).unwrap();
    assert!(full.visible_item(3).is_some());
    assert!(full.visible_item(4).is_none());
}

#[test]
fn row_pass_never_leaves_the_collection() {
    for c in 1..6usize {
        for n in 1..20usize {
            let state = collection(n, c);
            for row_idx in 0..state.num_rows() {
                let row = ImageRow::new(&state, row_idx).unwrap();
                let visible: Vec<usize> = (0..c + 3).collect();
                let requests = row.draw_walk(&visible);
                assert_eq!(requests.len(), state.num_images_for_row(row_idx));
                for (k, r) in requests.iter().enumerate() {
                    assert_eq!(r.item_idx, k);
                    assert_eq!(r.image_idx, row_idx * c + k);
                    assert!(r.image_idx < n);
                    assert_eq!(r.image_path, state.reference_at(r.image_idx));
                }
            }
        }
    }
}

#[test]
fn row_pass_keeps_the_order_reported() {
    let state = collection(7, 4);
    let row = ImageRow::new(&state, 1).unwrap();
    let requests = row.draw_walk(&[2, 5, 0, 3, 1]);
    let images: Vec<usize> = requests.iter().map(|r| r.image_idx).collect();
    assert_eq!(images, vec![6, 4, 5]);
    assert!(row.draw_walk(&[]).is_empty());
}
