use vstd::prelude::*;
use vstd::string::StringSliceAdditionalSpecFns;

verus! {

/// The longest path, in bytes, that the native lookup takes without cutting it.
pub const MAX_PATH_LEN: usize = 2047;

/// The path separator byte, `/`.
pub const SEPARATOR: u8 = 0x2f;

/// The NUL-terminated bytes handed to the native lookup for a virtual-filesystem
/// path: the empty path names the root, spelt `/`; a path with a NUL byte, or
/// one that the native lookup would silently cut short, names nothing.
pub open spec fn native_path_spec(p: Seq<u8>) -> Option<Seq<u8>> {
    if p.len() == 0 {
        Some(seq![SEPARATOR, 0u8])
    } else if p.len() > MAX_PATH_LEN || p.contains(0u8) {
        None
    } else {
        Some(p.push(0u8))
    }
}

/// The bytes to hand to the native lookup for `path`, or `None` where no entry
/// can have that path.
pub fn native_path(path: &str) -> (r: Option<Vec<u8>>)
    ensures
        match native_path_spec(path.spec_bytes()) {
            Some(b) => r is Some && r->0@ == b,
            None => r is None,
        },
{
    let bytes = path.as_bytes();
    let n = bytes.len();
    if n == 0 {
        let mut root: Vec<u8> = Vec::new();
        root.push(SEPARATOR);
        root.push(0u8);
        assert(root@ =~= seq![SEPARATOR, 0u8]);
        return Some(root);
    }
    if n > MAX_PATH_LEN {
        return None;
    }
    let mut out: Vec<u8> = Vec::new();
    let mut i: usize = 0;
    while i < n
        invariant
            0 <= i <= n,
            n == bytes@.len(),
            n <= MAX_PATH_LEN,
            bytes@ == path.spec_bytes(),
            out@ == bytes@.take(i as int),
            forall|k: int| 0 <= k < i ==> bytes@[k] != 0u8,
        decreases n - i,
    {
        let b = bytes[i];
        if b == 0 {
            assert(bytes@[i as int] == 0u8);
            assert(bytes@.contains(0u8));
            return None;
        }
        out.push(b);
        proof {
            assert(out@ =~= bytes@.take(i + 1));
        }
        i = i + 1;
    }
    assert(bytes@.take(n as int) =~= bytes@);
    assert(!bytes@.contains(0u8));
    out.push(0u8);
    Some(out)
}

} // verus!
