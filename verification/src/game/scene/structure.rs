//! Which blocks a destructible structure is built from.

use vstd::prelude::*;

verus! {

/// Blocks per axis are kept within 1..=24.
pub open spec fn block_count(n: u32) -> u32 {
    if n < 1 {
        1
    } else if n > 24 {
        24
    } else {
        n
    }
}

/// A hollow structure keeps only its perimeter columns (the walls).
pub open spec fn keeps_column(nx: u32, nz: u32, hollow: bool, ix: u32, iz: u32) -> bool {
    !hollow || ix == 0 || ix == nx - 1 || iz == 0 || iz == nz - 1
}

/// Cells `(ix, iy, iz)` of row `ix` in layer `iy`, for `iz` below `m`.
pub open spec fn row_cells(nx: u32, nz: u32, hollow: bool, iy: u32, ix: u32, m: nat) -> Seq<(u32, u32, u32)>
    decreases m,
{
    if m == 0 {
        Seq::empty()
    } else {
        row_cells(nx, nz, hollow, iy, ix, (m - 1) as nat) + (if keeps_column(nx, nz, hollow, ix, (m - 1) as u32) {
            seq![(ix, iy, (m - 1) as u32)]
        } else {
            Seq::empty()
        })
    }
}

/// Cells of layer `iy`, for rows `ix` below `m`.
pub open spec fn layer_cells(nx: u32, nz: u32, hollow: bool, iy: u32, m: nat) -> Seq<(u32, u32, u32)>
    decreases m,
{
    if m == 0 {
        Seq::empty()
    } else {
        layer_cells(nx, nz, hollow, iy, (m - 1) as nat) + row_cells(nx, nz, hollow, iy, (m - 1) as u32, nz as nat)
    }
}

/// Cells of the layers below `m`, bottom layer first.
pub open spec fn grid_cells(nx: u32, nz: u32, hollow: bool, m: nat) -> Seq<(u32, u32, u32)>
    decreases m,
{
    if m == 0 {
        Seq::empty()
    } else {
        grid_cells(nx, nz, hollow, (m - 1) as nat) + layer_cells(nx, nz, hollow, (m - 1) as u32, nx as nat)
    }
}

/// The block cells `(ix, iy, iz)` of a structure declared with `blocks`
/// per axis (X, Y up, Z), layer by layer from the bottom, each layer row by
/// row along X, each row along Z.
pub fn structure_cells(blocks: [u32; 3], hollow: bool) -> (cells: Vec<(u32, u32, u32)>)
    ensures
        cells@ == grid_cells(block_count(blocks[0]), block_count(blocks[2]), hollow, block_count(blocks[1]) as nat),
{
    let nx = if blocks[0] < 1 { 1 } else if blocks[0] > 24 { 24 } else { blocks[0] };
    let ny = if blocks[1] < 1 { 1 } else if blocks[1] > 24 { 24 } else { blocks[1] };
    let nz = if blocks[2] < 1 { 1 } else if blocks[2] > 24 { 24 } else { blocks[2] };
    let mut cells: Vec<(u32, u32, u32)> = Vec::new();
    let mut iy: u32 = 0;
    while iy < ny
        invariant
            1 <= nx <= 24,
            1 <= nz <= 24,
            iy <= ny,
            cells@ == grid_cells(nx, nz, hollow, iy as nat),
        decreases ny - iy,
    {
        let ghost below = cells@;
        let mut ix: u32 = 0;
        while ix < nx
            invariant
                1 <= nx <= 24,
                1 <= nz <= 24,
                ix <= nx,
                cells@ == below + layer_cells(nx, nz, hollow, iy, ix as nat),
            decreases nx - ix,
        {
            let ghost before_row = cells@;
            let mut iz: u32 = 0;
            while iz < nz
                invariant
                    1 <= nx <= 24,
                    1 <= nz <= 24,
                    ix < nx,
                    iz <= nz,
                    cells@ == before_row + row_cells(nx, nz, hollow, iy, ix, iz as nat),
                decreases nz - iz,
            {
                let keep = !hollow || ix == 0 || ix == nx - 1 || iz == 0 || iz == nz - 1;
                if keep {
                    cells.push((ix, iy, iz));
                }
                assert(cells@ =~= before_row + row_cells(nx, nz, hollow, iy, ix, (iz + 1) as nat));
                iz = iz + 1;
            }
            assert(cells@ =~= below + layer_cells(nx, nz, hollow, iy, (ix + 1) as nat));
            ix = ix + 1;
        }
        assert(cells@ =~= grid_cells(nx, nz, hollow, (iy + 1) as nat));
        iy = iy + 1;
    }
    cells
}

} // verus!
