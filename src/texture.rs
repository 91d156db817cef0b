use vstd::prelude::*;

verus! {

/// Width and height of the test texture, in pixels.
pub const TEXTURE_SIZE: usize = 8;

/// Bytes in one row of the texture: four channels per pixel.
pub const ROW_BYTES: usize = 32;

/// One row of eight RGBA pixels.
pub open spec fn palette() -> Seq<u8> {
    seq![
        255u8, 102, 159, 255, 255, 159, 102, 255, 236, 255, 102, 255, 121, 255, 102, 255,
        102, 255, 198, 255, 102, 198, 255, 255, 121, 102, 255, 255, 236, 102, 255, 255,
    ]
}

/// Byte `i` of row `y`: each row is the row above rotated right by one
/// pixel.
pub open spec fn texture_byte(y: int, i: int) -> u8 {
    palette()[(i + 32 - 4 * y) % 32]
}

/// The RGBA bytes of the diagonal-striped test texture, row after row.
pub fn striped_texture_data() -> (r: Vec<u8>)
    ensures
        r@.len() == TEXTURE_SIZE * ROW_BYTES,
        forall|y: int, i: int|
            0 <= y < TEXTURE_SIZE && 0 <= i < ROW_BYTES ==> r@[ROW_BYTES * y + i] == #[trigger] texture_byte(y, i),
{
    let row: Vec<u8> = vec![
        255u8, 102, 159, 255, 255, 159, 102, 255, 236, 255, 102, 255, 121, 255, 102, 255,
        102, 255, 198, 255, 102, 198, 255, 255, 121, 102, 255, 255, 236, 102, 255, 255,
    ];
    assert(row@ =~= palette());
    let mut data: Vec<u8> = Vec::new();
    let mut y: usize = 0;
    while y < TEXTURE_SIZE
        invariant
            y <= TEXTURE_SIZE,
            row@ == palette(),
            data@.len() == ROW_BYTES * y,
            forall|yy: int, ii: int|
                0 <= yy < y && 0 <= ii < ROW_BYTES ==> data@[ROW_BYTES * yy + ii] == #[trigger] texture_byte(yy, ii),
        decreases TEXTURE_SIZE - y,
    {
        let mut i: usize = 0;
        while i < ROW_BYTES
            invariant
                y < TEXTURE_SIZE,
                i <= ROW_BYTES,
                row@ == palette(),
                data@.len() == ROW_BYTES * y + i,
                forall|yy: int, ii: int|
                    0 <= yy < y && 0 <= ii < ROW_BYTES ==> data@[ROW_BYTES * yy + ii] == #[trigger] texture_byte(yy, ii),
                forall|ii: int| 0 <= ii < i ==> data@[ROW_BYTES * y + ii] == #[trigger] texture_byte(y as int, ii),
            decreases ROW_BYTES - i,
        {
            let k = (i + 32 - 4 * y) % 32;
            data.push(row[k]);
            i = i + 1;
        }
        y = y + 1;
    }
    data
}

} // verus!
