//! The bookkeeping record of one GPU-side vertex buffer: its handle, the
//! binding target, the usage hint and the next free attribute slot. The
//! buffer's storage lives on the GPU, outside this crate.

use vstd::prelude::*;

verus! {

pub struct Buffer {
    pub usage: u32,
    pub id: u32,
    pub gl_type: u32,
    pub attribute_id: u32,
}

} // verus!
