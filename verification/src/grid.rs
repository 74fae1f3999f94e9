use vstd::prelude::*;

verus! {

/// Row-major position of the cell at (`row`, `col`) in a grid `cols` cells wide.
pub open spec fn cell_index_spec(row: int, col: int, cols: int) -> int {
    row * cols + col
}

/// Where the cell at (`row`, `col`) sits in the grid buffer of a grid that is
/// `cols` cells wide and `rows` cells tall.
pub fn cell_index(row: u32, col: u32, cols: u32, rows: u32) -> (index: usize)
    requires
        row < rows,
        col < cols,
        cols * rows <= u32::MAX,
    ensures
        index == cell_index_spec(row as int, col as int, cols as int),
        index < cols * rows,
{
    proof {
        lemma_cell_index_in_range(row as int, col as int, cols as int, rows as int);
    }
    (row * cols + col) as usize
}

/// Every cell of the grid has a slot inside the buffer.
pub proof fn lemma_cell_index_in_range(row: int, col: int, cols: int, rows: int)
    requires
        0 <= row < rows,
        0 <= col < cols,
    ensures
        0 <= cell_index_spec(row, col, cols) < cols * rows,
{
    assert(0 <= row * cols + col < cols * rows) by (nonlinear_arith)
        requires
            0 <= row < rows,
            0 <= col < cols,
    ;
}

/// Two different cells never share a slot of the buffer.
pub proof fn lemma_cell_index_injective(r1: int, c1: int, r2: int, c2: int, cols: int)
    requires
        0 <= c1 < cols,
        0 <= c2 < cols,
        0 <= r1,
        0 <= r2,
        cell_index_spec(r1, c1, cols) == cell_index_spec(r2, c2, cols),
    ensures
        r1 == r2,
        c1 == c2,
{
    assert(r1 == r2) by (nonlinear_arith)
        requires
            0 <= c1 < cols,
            0 <= c2 < cols,
            0 <= r1,
            0 <= r2,
            r1 * cols + c1 == r2 * cols + c2,
    ;
}

/// Every slot of the buffer belongs to a cell: slot `i` is the cell in row
/// `i / cols` and column `i % cols`.
pub proof fn lemma_cell_index_onto(i: int, cols: int, rows: int)
    requires
        0 <= i < cols * rows,
        cols > 0,
    ensures
        0 <= i / cols < rows,
        0 <= i % cols < cols,
        cell_index_spec(i / cols, i % cols, cols) == i,
{
    assert(0 <= i / cols < rows && 0 <= i % cols < cols && (i / cols) * cols + i % cols == i)
        by (nonlinear_arith)
        requires
            0 <= i < cols * rows,
            cols > 0,
    ;
}

/// Workgroups of `group_size` lanes needed to cover `items` items: the quotient
/// rounded up.
pub open spec fn workgroup_count_spec(items: int, group_size: int) -> int {
    (items + (group_size - 1)) / group_size
}

/// Number of workgroups of `group_size` lanes that a dispatch over `items` items needs.
pub fn workgroup_count(items: u32, group_size: u32) -> (groups: u32)
    requires
        group_size > 0,
        items + group_size - 1 <= u32::MAX,
    ensures
        groups == workgroup_count_spec(items as int, group_size as int),
        groups * group_size >= items,
        groups == 0 || (groups - 1) * group_size < items,
{
    proof {
        lemma_workgroup_count_covers(items as int, group_size as int);
    }
    (items + (group_size - 1)) / group_size
}

/// The workgroups cover every item, and none of them is wholly idle.
pub proof fn lemma_workgroup_count_covers(items: int, group_size: int)
    requires
        items >= 0,
        group_size > 0,
    ensures
        workgroup_count_spec(items, group_size) * group_size >= items,
        workgroup_count_spec(items, group_size) == 0 || (workgroup_count_spec(items, group_size)
            - 1) * group_size < items,
{
    let g = workgroup_count_spec(items, group_size);
    assert(g * group_size >= items && (g == 0 || (g - 1) * group_size < items))
        by (nonlinear_arith)
        requires
            items >= 0,
            group_size > 0,
            g == (items + group_size - 1) / group_size,
    ;
}

/// The workgroup count of any `u32` number of items, in groups of at least two
/// lanes, is itself a `u32`.
pub proof fn lemma_workgroup_count_fits(items: int, group_size: int)
    requires
        0 <= items <= u32::MAX,
        group_size >= 2,
    ensures
        0 <= workgroup_count_spec(items, group_size) <= u32::MAX,
{
    let g = workgroup_count_spec(items, group_size);
    assert(0 <= g <= u32::MAX) by (nonlinear_arith)
        requires
            0 <= items <= u32::MAX,
            group_size >= 2,
            g == (items + group_size - 1) / group_size,
    ;
}

} // verus!
