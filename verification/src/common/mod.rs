//! The shared structures of the decompiler: the ordered map and the record
//! of local variables and jumps.

pub mod order_map;
pub mod traceback;
