use ccfront::parser::parser_yy::{get_action, get_goto, CompressedTable, LRAction, END_SYMBOL, INIT_STATE};
use ccfront::parser::parser_yy::LRAction::{Accept, Error, Reduce, Shift};
use ccfront::utils::compress::compress_matrix;

/// Reads cell (`row`, `col`) back from a compression, the way the table
/// lookups do; `None` where the row keeps nothing.
fn read_back<T: Copy>(base: &[Option<usize>], next: &[T], check: &[Option<usize>], row: usize, col: usize) -> Option<T> {
    let b = base[row]?;
    let idx = b + col;
    if idx < check.len() && check[idx] == Some(row) {
        Some(next[idx])
    } else {
        None
    }
}

fn assert_round_trip(matrix: &Vec<Vec<usize>>, zero: usize) -> (Vec<Option<usize>>, Vec<usize>, Vec<Option<usize>>) {
    let (base, next, check) = compress_matrix(matrix, zero);
    assert_eq!(base.len(), matrix.len());
    for (r, row) in matrix.iter().enumerate() {
        for c in 0..row.len() + 3 {
            let expected = if c < row.len() && row[c] != zero { Some(row[c]) } else { None };
            assert_eq!(read_back(&base, &next, &check, r, c), expected, "cell ({}, {})", r, c);
        }
        assert_eq!(base[r].is_none(), row.iter().all(|x| *x == zero));
    }
    for p in 0..next.len() {
        let used = p < check.len() && check[p].is_some();
        if !used {
            assert_eq!(next[p], zero);
        }
    }
    (base, next, check)
}

#[test]
fn compress_reads_back_every_cell() {
    let m = vec![vec![0, 3, 0, 4], vec![5, 0, 0, 0], vec![0, 0, 0, 0], vec![0, 7, 8, 9]];
    let (base, next, check) = assert_round_trip(&m, 0);
    assert_eq!(base[2], None);
    // rows share slots: the table is shorter than the matrix
    assert!(next.len() < 16);
}

/// The row with the most kept cells is placed first, at the first free
/// slot.
#[test]
fn compress_exact_layout() {
    let m = vec![vec![0, 1, 0], vec![0, 2, 3], vec![4, 0, 0]];
    let (base, next, check) = compress_matrix(&m, 0);
    assert_eq!(base, vec![Some(3), Some(0), Some(0)]);
    assert_eq!(next, vec![4, 2, 3, 0, 1]);
    assert_eq!(check, vec![Some(2), Some(1), Some(1), None, Some(0)]);
    let _ = assert_round_trip(&m, 0);
}

/// Once `next` grows, `check` takes its length, here shorter than the
/// number of rows; rows of equal count are placed last row first.
#[test]
fn compress_check_follows_next() {
    let m = vec![vec![1, 2], vec![3, 4], vec![0, 0], vec![0, 0], vec![0, 0]];
    let (base, next, check) = compress_matrix(&m, 0);
    assert_eq!(base, vec![Some(2), Some(0), None, None, None]);
    assert_eq!(next, vec![3, 4, 1, 2]);
    assert_eq!(check, vec![Some(1), Some(1), Some(0), Some(0)]);
    let _ = assert_round_trip(&m, 0);
}

/// Row shapes that filled the bitmap to the end, or needed `check` to grow
/// past the number of rows.
#[test]
fn compress_full_bitmap_and_long_rows() {
    let _ = assert_round_trip(&vec![vec![1, 1], vec![1, 0]], 0);
    let _ = assert_round_trip(&vec![vec![0, 0, 5]], 0);
    let _ = assert_round_trip(&vec![vec![9; 6], vec![9, 0, 9, 0, 9, 0], vec![0; 6]], 0);
    let _ = assert_round_trip(&vec![vec![], vec![2]], 0);
    let _ = assert_round_trip(&vec![vec![7, 7], vec![7, 7]], 7);
}

#[test]
fn parse_tables_read_the_matrix() {
    let actions = vec![
        vec![Shift(2), Error, Reduce(1), Error],
        vec![Error, Accept(0), Error, Error],
        vec![Reduce(3), Reduce(3), Shift(1), Error],
    ];
    let (base, next, check) = compress_matrix(&actions, Error);
    let row_id = vec![0, 1, 2, 1];
    let table = CompressedTable { row_id: row_id.clone(), base, next, check };
    for state in 0..row_id.len() {
        for token in 0..4 {
            let row = row_id[state];
            let in_range = match table.base[row] {
                Some(b) => b + token < table.check.len(),
                None => true,
            };
            if in_range {
                assert_eq!(get_action(&table, state, token), actions[row][token]);
            } else {
                assert_eq!(actions[row][token], Error);
            }
        }
    }

    let gotos = vec![vec![None, Some(4), None], vec![None, None, None], vec![Some(1), None, Some(2)]];
    let (base, next, check) = compress_matrix(&gotos, None);
    let table = CompressedTable { row_id: vec![0, 1, 2], base, next, check };
    let expr_ids = vec![2, 0, 1];
    for state in 0..3 {
        for prod in 0..3 {
            let col = expr_ids[prod];
            let in_range = match table.base[state] {
                Some(b) => b + col < table.check.len(),
                None => true,
            };
            if in_range {
                assert_eq!(get_goto(&table, &expr_ids, state, prod), gotos[state][col]);
            } else {
                assert_eq!(gotos[state][col], None);
            }
        }
    }
    assert_eq!(INIT_STATE, 0);
    assert_eq!(END_SYMBOL, 0);
}
