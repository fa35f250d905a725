//! Filesystem paths as bytes, joined the way `Path::join` joins them.

use vstd::prelude::*;

verus! {

/// `base` joined with `rel`: an absolute `rel` replaces `base`, and one `/`
/// separates the two unless `base` is empty or already ends with one.
pub open spec fn join(base: Seq<u8>, rel: Seq<u8>) -> Seq<u8> {
    if rel.len() > 0 && rel[0] == 47 {
        rel
    } else if base.len() == 0 {
        rel
    } else if base.last() == 47 {
        base + rel
    } else {
        base.push(47) + rel
    }
}

/// Appends all of `src` to `out`.
pub fn push_all(out: &mut Vec<u8>, src: &[u8])
    ensures
        final(out)@ == old(out)@ + src@,
{
    let mut i: usize = 0;
    while i < src.len()
        invariant
            i <= src@.len(),
            out@ == old(out)@ + src@.subrange(0, i as int),
        decreases src@.len() - i,
    {
        out.push(src[i]);
        assert(src@.subrange(0, i + 1) =~= src@.subrange(0, i as int).push(src@[i as int]));
        i = i + 1;
    }
    assert(src@.subrange(0, i as int) =~= src@);
}

/// `base` joined with `rel`.
pub fn path_join(base: &[u8], rel: &[u8]) -> (r: Vec<u8>)
    ensures
        r@ == join(base@, rel@),
{
    let mut out: Vec<u8> = Vec::new();
    if rel.len() > 0 && rel[0] == 47 {
        push_all(&mut out, rel);
        assert(out@ =~= rel@);
    } else if base.len() == 0 {
        push_all(&mut out, rel);
        assert(out@ =~= rel@);
    } else {
        push_all(&mut out, base);
        if base[base.len() - 1] != 47 {
            out.push(47);
        }
        push_all(&mut out, rel);
        assert(out@ =~= join(base@, rel@));
    }
    out
}

} // verus!
