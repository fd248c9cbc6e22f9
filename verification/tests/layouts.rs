use semiflow_ffi::layout::{
    bilinear_cell, block_entry_index, clamp_node, clamp_to_len, csr_is_well_formed, csr_to_dense, interp_cell, deinterleave, deinterleave_pairs,
    flat_index_2d, flat_index_3d, gather_flat, interleave_into, pairs_into, scatter_flat,
    unflatten_2d, vector_entry_index,
};
use semiflow_ffi::SemiflowStatus;

#[test]
fn deinterleave_splits_real_and_imaginary_parts() {
    let buf = [1.0, 2.0, 3.0, 4.0, 5.0, 6.0];
    let (re, im) = deinterleave(&buf);
    assert_eq!(re, vec![1.0, 3.0, 5.0]);
    assert_eq!(im, vec![2.0, 4.0, 6.0]);
    // A trailing odd element is ignored.
    let (re, im) = deinterleave(&[7, 8, 9]);
    assert_eq!(re, vec![7]);
    assert_eq!(im, vec![8]);
}

#[test]
fn interleave_roundtrip() {
    let buf = vec![0.5, -1.0, 2.5, 3.0];
    let (re, im) = deinterleave(&buf);
    let mut dst = vec![0.0; 4];
    interleave_into(&mut dst, &re, &im);
    assert_eq!(dst, buf);
}

#[test]
fn interleave_keeps_the_tail() {
    let mut dst = vec![9, 9, 9, 9, 9];
    interleave_into(&mut dst, &[1, 2], &[3, 4, 5]);
    assert_eq!(dst, vec![1, 3, 2, 4, 9]);
}

#[test]
fn pairs_roundtrip() {
    let buf = vec![1, 2, 3, 4];
    let pairs = deinterleave_pairs(&buf);
    assert_eq!(pairs, vec![(1, 2), (3, 4)]);
    let mut dst = vec![0; 4];
    pairs_into(&mut dst, &pairs);
    assert_eq!(dst, buf);
}

#[test]
fn gather_and_scatter_per_edge_values() {
    let edges = vec![vec![1, 2, 3], vec![4, 5, 6]];
    let mut flat = vec![0; 7];
    gather_flat(&edges, &mut flat, 3);
    assert_eq!(flat, vec![1, 2, 3, 4, 5, 6, 0]);

    let mut back = vec![vec![0; 3], vec![0; 3]];
    scatter_flat(&mut back, &flat, 3);
    assert_eq!(back, edges);

    let mut other = vec![vec![7; 3], vec![7; 3]];
    scatter_flat(&mut other, &[10, 11, 12, 13, 14, 15], 3);
    assert_eq!(other, vec![vec![10, 11, 12], vec![13, 14, 15]]);
}

#[test]
fn csr_to_dense_expands_a_path_laplacian() {
    // Combinatorial Laplacian of the 3-node path.
    let row_ptr = [0, 2, 5, 7];
    let col_idx = [0, 1, 0, 1, 2, 1, 2];
    let vals = [1.0, -1.0, -1.0, 2.0, -1.0, -1.0, 1.0];
    let dense = csr_to_dense(3, &row_ptr, &col_idx, &vals, 0.0).unwrap();
    assert_eq!(dense, vec![1.0, -1.0, 0.0, -1.0, 2.0, -1.0, 0.0, -1.0, 1.0]);
}

#[test]
fn csr_to_dense_last_duplicate_wins_and_empty_rows_are_zero() {
    let row_ptr = [0, 2, 2];
    let col_idx = [1, 1];
    let vals = [5, 6];
    let dense = csr_to_dense(2, &row_ptr, &col_idx, &vals, 0).unwrap();
    assert_eq!(dense, vec![0, 6, 0, 0]);
}

#[test]
fn csr_to_dense_of_a_matrix_without_entries() {
    assert_eq!(csr_to_dense(1, &[0, 0], &[], &[0u8; 0], 0u8), Ok(vec![0u8]));
    assert_eq!(csr_to_dense(0, &[0], &[], &[0u8; 0], 0u8), Ok(Vec::<u8>::new()));
    let _: Result<Vec<u8>, SemiflowStatus> = csr_to_dense(2, &[0, 0, 0], &[], &[], 7u8);
    assert_eq!(csr_to_dense(2, &[0, 0, 0], &[], &[], 7u8), Ok(vec![7u8; 4]));
}

#[test]
fn flat_indices_are_x_fastest() {
    assert_eq!(flat_index_2d(0, 0, 4, 3), 0);
    assert_eq!(flat_index_2d(3, 0, 4, 3), 3);
    assert_eq!(flat_index_2d(1, 2, 4, 3), 9);
    assert_eq!(unflatten_2d(9, 4), (1, 2));
    assert_eq!(flat_index_3d(1, 2, 3, 4, 5, 6), 1 + 2 * 4 + 3 * 20);
    for f in 0..12 {
        let (i, j) = unflatten_2d(f, 4);
        assert_eq!(flat_index_2d(i, j, 4, 3), f);
    }
}

#[test]
fn coefficient_block_layout() {
    // 2x2 tensor of point 3, entry (1, 0): 3 * 4 + 1 * 2 + 0.
    assert_eq!(block_entry_index(3, 1, 0, 2, 10), 14);
    // 3x3 tensor of point 2, entry (2, 1): 2 * 9 + 2 * 3 + 1.
    assert_eq!(block_entry_index(2, 2, 1, 3, 5), 25);
    assert_eq!(vector_entry_index(4, 1, 2, 10), 9);
    let mut seen = vec![false; 4 * 9];
    for f in 0..4 {
        for r in 0..3 {
            for c in 0..3 {
                let idx = block_entry_index(f, r, c, 3, 4);
                assert!(!seen[idx]);
                seen[idx] = true;
            }
        }
    }
    assert!(seen.iter().all(|b| *b));
}

#[test]
fn node_clamping() {
    assert_eq!(clamp_node(-3, 5), 0);
    assert_eq!(clamp_node(2, 5), 2);
    assert_eq!(clamp_node(9, 5), 4);
    assert_eq!(clamp_node(7, 1), 0);
    assert_eq!(clamp_to_len(3, 10), 3);
    assert_eq!(clamp_to_len(30, 10), 9);
    assert_eq!(clamp_to_len(5, 0), 0);
}

#[test]
fn csr_well_formedness_check() {
    // Path graph on three nodes: rows {0,1}, {0,1,2}, {1,2}.
    let row_ptr = [0usize, 2, 5, 7];
    let cols = [0usize, 1, 0, 1, 2, 1, 2];
    assert!(csr_is_well_formed(3, &row_ptr, &cols, 7));
    // Too few values for the stored entries.
    assert!(!csr_is_well_formed(3, &row_ptr, &cols, 6));
    // Offsets that go backwards.
    assert!(!csr_is_well_formed(3, &[0, 5, 2, 7], &cols, 7));
    // A column out of range.
    assert!(!csr_is_well_formed(3, &row_ptr, &[0, 1, 0, 1, 3, 1, 2], 7));
    // Wrong number of offsets.
    assert!(!csr_is_well_formed(3, &[0, 2, 5], &cols, 7));
    // The empty matrix.
    assert!(csr_is_well_formed(0, &[0], &[], 0));
}

#[test]
fn bilinear_cells_stay_inside_the_grid() {
    // Interior points keep their floored node; the last row and column
    // fall back to the last full cell.
    assert_eq!(bilinear_cell(0, 0, 4, 5), (0, 0));
    assert_eq!(bilinear_cell(1, 2, 4, 5), (1, 2));
    assert_eq!(bilinear_cell(3, 4, 4, 5), (2, 3));
    assert_eq!(bilinear_cell(usize::MAX, 7, 4, 5), (2, 3));
    assert_eq!(bilinear_cell(0, 0, 2, 2), (0, 0));
}

#[test]
fn linear_cells_stay_inside_the_axis() {
    assert_eq!(interp_cell(0, 2), 0);
    assert_eq!(interp_cell(1, 2), 0);
    assert_eq!(interp_cell(2, 5), 2);
    assert_eq!(interp_cell(3, 5), 3);
    assert_eq!(interp_cell(4, 5), 3);
}
