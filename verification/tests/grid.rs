use gl_context::field::{field_index, flatten_field};

#[test]
fn flatten_walks_planes_then_rows_then_cells() {
    let grid: Vec<Vec<Vec<u32>>> = vec![
        vec![vec![1, 2], vec![3, 4]],
        vec![vec![5, 6], vec![7, 8]],
    ];
    assert_eq!(flatten_field(&grid), vec![1, 2, 3, 4, 5, 6, 7, 8]);
}

#[test]
fn flatten_keeps_ragged_rows_in_order() {
    let grid: Vec<Vec<Vec<u16>>> = vec![vec![vec![9], vec![]], vec![], vec![vec![10, 11]]];
    assert_eq!(flatten_field(&grid), vec![9, 10, 11]);
}

#[test]
fn field_index_is_plane_major_row_major() {
    // A 2 x 3 x 4 grid flattened by flatten_field puts cell (x, y, z)
    // at (x * 3 + y) * 4 + z.
    assert_eq!(field_index(0, 0, 0, 2, 3, 4), 0);
    assert_eq!(field_index(0, 0, 3, 2, 3, 4), 3);
    assert_eq!(field_index(0, 1, 0, 2, 3, 4), 4);
    assert_eq!(field_index(1, 0, 0, 2, 3, 4), 12);
    assert_eq!(field_index(1, 2, 3, 2, 3, 4), 23);
}

#[test]
fn field_index_clamps_out_of_range_reads_to_the_edge() {
    assert_eq!(field_index(9, 0, 0, 2, 3, 4), field_index(1, 0, 0, 2, 3, 4));
    assert_eq!(field_index(0, 7, 9, 2, 3, 4), field_index(0, 2, 3, 2, 3, 4));
}

#[test]
fn flatten_and_field_index_agree_on_a_full_grid() {
    let mut grid: Vec<Vec<Vec<u32>>> = Vec::new();
    for x in 0..2u32 {
        let mut plane = Vec::new();
        for y in 0..3u32 {
            let mut row = Vec::new();
            for z in 0..4u32 {
                row.push(x * 100 + y * 10 + z);
            }
            plane.push(row);
        }
        grid.push(plane);
    }
    let flat = flatten_field(&grid);
    for x in 0..2usize {
        for y in 0..3usize {
            for z in 0..4usize {
                let i = field_index(x, y, z, 2, 3, 4);
                assert_eq!(flat[i], (x as u32) * 100 + (y as u32) * 10 + z as u32);
            }
        }
    }
}
