//! The first eight bytes of a WebAssembly binary.

use vstd::prelude::*;

verus! {

/// The magic number `\0asm` and the version 1 of the binary format.
pub open spec fn magic_bytes_version_1() -> Seq<u8> {
    seq![0x00u8, 0x61u8, 0x73u8, 0x6Du8, 0x01u8, 0x00u8, 0x00u8, 0x00u8]
}

/// Quick check if a file could be a Wasm binary by its magic bytes and
/// version: whether `bytes`, the start of the file, begin with the magic
/// number and version 1. A file of fewer than eight bytes is none.
pub fn is_wasm_by_magic_bytes(bytes: &[u8]) -> (is_wasm: bool)
    ensures
        is_wasm <==> bytes@.len() >= 8 && bytes@.take(8) == magic_bytes_version_1(),
{
    if bytes.len() < 8 {
        return false;
    }
    let is_wasm = bytes[0] == 0x00 && bytes[1] == 0x61 && bytes[2] == 0x73 && bytes[3] == 0x6D
        && bytes[4] == 0x01 && bytes[5] == 0x00 && bytes[6] == 0x00 && bytes[7] == 0x00;
    proof {
        if is_wasm {
            assert(bytes@.take(8) =~= magic_bytes_version_1());
        } else {
            let prefix = bytes@.take(8);
            assert(prefix[0] == bytes@[0] && prefix[1] == bytes@[1] && prefix[2] == bytes@[2]
                && prefix[3] == bytes@[3] && prefix[4] == bytes@[4] && prefix[5] == bytes@[5]
                && prefix[6] == bytes@[6] && prefix[7] == bytes@[7]);
        }
    }
    is_wasm
}

} // verus!
