//! The window icon: the entry an `.ico` file offers for a 32-pixel icon,
//! and its pixels.
use vstd::prelude::*;

verus! {

/// A little-endian field of `len` bytes at `at`.
pub open spec fn le_field(b: Seq<u8>, at: int, len: nat) -> nat
    decreases len,
{
    if len == 0 {
        0
    } else {
        b[at] as nat + 256 * le_field(b, at + 1, (len - 1) as nat)
    }
}

/// The entry chosen so far while scanning the icon directory from entry
/// `i`: `(offset, size, width)`. An entry replaces the choice when it is 32
/// pixels wide, which ends the scan, or wider than the choice.
pub open spec fn ico_scan(ico: Seq<u8>, count: int, i: int, best: (nat, nat, u8)) -> (nat, nat, u8)
    decreases count - i,
{
    if i >= count {
        best
    } else {
        let base = 6 + 16 * i;
        let width = ico[base];
        let entry = (le_field(ico, base + 12, 4), le_field(ico, base + 8, 4), width);
        if width == 32 {
            entry
        } else if best.2 < width {
            ico_scan(ico, count, i + 1, entry)
        } else {
            ico_scan(ico, count, i + 1, best)
        }
    }
}

/// Where the chosen image lies in an `.ico` file, `(offset, size)`: `None`
/// when the file is too short for its directory, or the chosen image is
/// empty or runs past the end.
pub open spec fn spec_ico_entry(ico: Seq<u8>) -> Option<(nat, nat)> {
    if ico.len() < 6 {
        None
    } else {
        let count = le_field(ico, 4, 2) as int;
        if ico.len() < 6 + 16 * count {
            None
        } else {
            let best = ico_scan(ico, count, 0, (0, 0, 0));
            if best.1 == 0 || best.0 + best.1 > ico.len() {
                None
            } else {
                Some((best.0, best.1))
            }
        }
    }
}

fn le_read(b: &[u8], at: usize, len: usize) -> (v: u64)
    requires
        at + len <= b@.len(),
        len <= 4,
    ensures
        v == le_field(b@, at as int, len as nat),
        v < 0x1_0000_0000,
    decreases len,
{
    if len == 0 {
        0
    } else {
        assert(b@.len() == b.len());
        let rest = le_read(b, at + 1, len - 1);
        assert(le_field(b@, at as int, len as nat) == b@[at as int] as nat + 256 * le_field(
            b@,
            at + 1,
            (len - 1) as nat,
        ));
        assert(rest < 0x100_0000) by {
            lemma_le_field_bound(b@, at + 1, (len - 1) as nat);
        }
        b[at] as u64 + 256 * rest
    }
}

proof fn lemma_le_field_bound(b: Seq<u8>, at: int, len: nat)
    requires
        len <= 3,
    ensures
        le_field(b, at, len) < (if len == 0 {
            1nat
        } else if len == 1 {
            0x100nat
        } else if len == 2 {
            0x1_0000nat
        } else {
            0x100_0000nat
        }),
    decreases len,
{
    if len > 0 {
        lemma_le_field_bound(b, at + 1, (len - 1) as nat);
    }
}

/// The chosen image's place in an `.ico` file.
pub fn ico_entry(ico: &[u8]) -> (r: Option<(usize, usize)>)
    ensures
        match r {
            Some((off, size)) => spec_ico_entry(ico@) == Some((off as nat, size as nat)),
            None => spec_ico_entry(ico@) is None,
        },
{
    if ico.len() < 6 {
        return None;
    }
    let count = le_read(ico, 4, 2) as usize;
    if (ico.len() - 6) / 16 < count {
        return None;
    }
    let mut best: (u64, u64, u8) = (0, 0, 0);
    let mut i: usize = 0;
    while i < count
        invariant
            i <= count,
            count == le_field(ico@, 4, 2),
            6 + 16 * count <= ico@.len(),
            ico_scan(ico@, count as int, i as int, (best.0 as nat, best.1 as nat, best.2))
                == ico_scan(ico@, count as int, 0, (0, 0, 0)),
        decreases count - i,
    {
        assert(ico@.len() == ico.len());
        assert(6 + 16 * i + 16 <= ico.len());
        let base = 6 + 16 * i;
        let width = ico[base];
        let size = le_read(ico, base + 8, 4);
        let offset = le_read(ico, base + 12, 4);
        if width == 32 {
            best = (offset, size, width);
            proof {
                assert(ico_scan(ico@, count as int, i as int, (best.0 as nat, best.1 as nat, best.2))
                    == ico_scan(ico@, count as int, count as int, (best.0 as nat, best.1 as nat, best.2)));
            }
            i = count;
        } else {
            if best.2 < width {
                best = (offset, size, width);
            }
            i += 1;
        }
    }
    let off = best.0;
    let size = best.1;
    if size == 0 || off > ico.len() as u64 || size > ico.len() as u64 - off {
        None
    } else {
        Some((off as usize, size as usize))
    }
}

/// The pixels of an image file as the `image` crate decodes it: RGBA
/// bytes, width and height; `None` when it cannot decode it.
pub uninterp spec fn decoded_rgba(data: Seq<u8>) -> Option<(Seq<u8>, u32, u32)>;

/// Trusted: calls `image::load_from_memory`, which guesses the format from
/// the bytes and decodes them, then `to_rgba8`; the result is named, not
/// described.
#[verifier::external_body]
fn decode_rgba(data: &[u8]) -> (r: Option<(Vec<u8>, u32, u32)>)
    ensures
        match r {
            Some((p, w, h)) => decoded_rgba(data@) == Some((p@, w, h)),
            None => decoded_rgba(data@) is None,
        },
{
    match image::load_from_memory(data) {
        Ok(img) => {
            let rgba = img.to_rgba8();
            let (w, h) = (rgba.width(), rgba.height());
            Some((rgba.into_raw(), w, h))
        },
        Err(_) => None,
    }
}

/// The first bytes of a PNG file.
pub open spec fn png_signature() -> Seq<u8> {
    seq![0x89u8, 0x50u8, 0x4Eu8, 0x47u8]
}

/// The icon's pixels: those of the chosen entry when it is a PNG image the
/// decoder reads.
pub open spec fn spec_icon_rgba(ico: Seq<u8>) -> Option<(Seq<u8>, u32, u32)> {
    match spec_ico_entry(ico) {
        None => None,
        Some((off, size)) => {
            let img = ico.subrange(off as int, (off + size) as int);
            if img.len() >= 4 && img.take(4) == png_signature() {
                decoded_rgba(img)
            } else {
                None
            }
        },
    }
}

pub fn icon_rgba(ico: &[u8]) -> (r: Option<(Vec<u8>, u32, u32)>)
    ensures
        match r {
            Some((p, w, h)) => spec_icon_rgba(ico@) == Some((p@, w, h)),
            None => spec_icon_rgba(ico@) is None,
        },
{
    let (off, size) = match ico_entry(ico) {
        Some(e) => e,
        None => {
            return None;
        },
    };
    let n = ico.len();
    assert(off + size <= n);
    let img = crate::wire::copy_range(ico, off, off + size);
    if img.len() >= 4 && img[0] == 0x89 && img[1] == 0x50 && img[2] == 0x4E && img[3] == 0x47 {
        assert(img@.take(4) =~= png_signature());
        decode_rgba(img.as_slice())
    } else {
        proof {
            if img@.len() >= 4 && img@.take(4) == png_signature() {
                assert(img@.take(4)[0] == img@[0]);
                assert(img@.take(4)[1] == img@[1]);
                assert(img@.take(4)[2] == img@[2]);
                assert(img@.take(4)[3] == img@[3]);
            }
        }
        None
    }
}

} // verus!
