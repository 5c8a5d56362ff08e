use vstd::prelude::*;
use vstd::string::StringSliceAdditionalSpecFns;

use crate::error::RenderError;

verus! {

/// The bytes of "png" in ASCII.
pub open spec fn png_bytes() -> Seq<u8> {
    seq![112u8, 110u8, 103u8]
}

/// The bytes of "jpg" in ASCII.
pub open spec fn jpg_bytes() -> Seq<u8> {
    seq![106u8, 112u8, 103u8]
}

/// The bytes of "jpeg" in ASCII.
pub open spec fn jpeg_bytes() -> Seq<u8> {
    seq![106u8, 112u8, 101u8, 103u8]
}

/// The extension of a file name, as a byte sequence: what follows the last
/// dot (ASCII 46), provided that dot neither leads the name nor stands right
/// after a path separator (ASCII 47) — the dot that starts a hidden file's
/// name opens no extension, as in std's path handling. A name without such a
/// dot has no extension.
pub open spec fn spec_extension(name: Seq<u8>) -> Option<Seq<u8>>
    decreases name.len(),
{
    if name.len() < 2 {
        None
    } else if name[name.len() - 1] == 46 {
        if name[name.len() - 2] == 47 {
            None
        } else {
            Some(Seq::empty())
        }
    } else {
        match spec_extension(name.drop_last()) {
            Some(e) => Some(e.push(name[name.len() - 1])),
            None => None,
        }
    }
}

/// A file name names a writable raster format exactly when its extension is
/// one of "png", "jpg" or "jpeg".
pub open spec fn spec_raster_format_ok(name: Seq<u8>) -> bool {
    match spec_extension(name) {
        Some(e) => e == png_bytes() || e == jpg_bytes() || e == jpeg_bytes(),
        None => false,
    }
}

proof fn lemma_extension_at(name: Seq<u8>, i: int)
    requires
        1 <= i < name.len(),
        name[i] == 46,
        name[i - 1] != 47,
        forall|j: int| i < j < name.len() ==> name[j] != 46,
    ensures
        spec_extension(name) == Some(name.subrange(i + 1, name.len() as int)),
    decreases name.len(),
{
    if i == name.len() - 1 {
        assert(name.subrange(i + 1, name.len() as int) =~= Seq::empty());
    } else {
        assert(name[name.len() - 1] != 46);
        lemma_extension_at(name.drop_last(), i);
        assert(name.drop_last().subrange(i + 1, name.len() - 1) =~= name.subrange(
            i + 1,
            name.len() - 1,
        ));
        assert(name.subrange(i + 1, name.len() as int) =~= name.subrange(
            i + 1,
            name.len() - 1,
        ).push(name[name.len() - 1]));
    }
}

proof fn lemma_hidden_file_no_extension(name: Seq<u8>, i: int)
    requires
        1 <= i < name.len(),
        name[i] == 46,
        name[i - 1] == 47,
        forall|j: int| i < j < name.len() ==> name[j] != 46,
    ensures
        spec_extension(name) is None,
    decreases name.len(),
{
    if i < name.len() - 1 {
        lemma_hidden_file_no_extension(name.drop_last(), i);
    }
}

proof fn lemma_no_extension(name: Seq<u8>)
    requires
        forall|j: int| 1 <= j < name.len() ==> name[j] != 46,
    ensures
        spec_extension(name) is None,
    decreases name.len(),
{
    if name.len() >= 2 {
        lemma_no_extension(name.drop_last());
    }
}

/// Checks the extension of a raster output file name before any work is
/// done: `Ok` exactly for a name whose extension is "png", "jpg" or "jpeg",
/// and `UnsupportedFormat` for every other name — one without an extension
/// (no dot, or only the dot of a hidden file) included.
pub fn check_image_format(name: &str) -> (r: Result<(), RenderError>)
    ensures
        r == (if spec_raster_format_ok(name.spec_bytes()) {
            Ok::<(), RenderError>(())
        } else {
            Err::<(), RenderError>(RenderError::UnsupportedFormat)
        }),
{
    let b: &[u8] = name.as_bytes();
    let n: usize = b.len();
    let mut i: usize = 0;
    let mut dot: usize = 0;
    let mut has_dot: bool = false;
    while i < n
        invariant
            b@ == name.spec_bytes(),
            n == b@.len(),
            i <= n,
            has_dot ==> dot < i && b@[dot as int] == 46 && forall|j: int|
                dot < j < i ==> b@[j] != 46,
            !has_dot ==> forall|j: int| 0 <= j < i ==> b@[j] != 46,
        decreases n - i,
    {
        if b[i] == 46 {
            dot = i;
            has_dot = true;
        }
        i = i + 1;
    }
    if !has_dot || dot == 0 {
        proof {
            lemma_no_extension(name.spec_bytes());
        }
        return Err(RenderError::UnsupportedFormat);
    }
    if b[dot - 1] == 47 {
        proof {
            lemma_hidden_file_no_extension(name.spec_bytes(), dot as int);
        }
        return Err(RenderError::UnsupportedFormat);
    }
    proof {
        lemma_extension_at(name.spec_bytes(), dot as int);
    }
    let ghost ext = name.spec_bytes().subrange(dot as int + 1, n as int);
    let rest: usize = n - dot - 1;
    let ok = if rest == 3 && b[dot + 1] == 112 && b[dot + 2] == 110 && b[dot + 3] == 103 {
        proof {
            assert(ext =~= png_bytes());
        }
        true
    } else if rest == 3 && b[dot + 1] == 106 && b[dot + 2] == 112 && b[dot + 3] == 103 {
        proof {
            assert(ext =~= jpg_bytes());
        }
        true
    } else if rest == 4 && b[dot + 1] == 106 && b[dot + 2] == 112 && b[dot + 3] == 101 && b[dot
        + 4] == 103 {
        proof {
            assert(ext =~= jpeg_bytes());
        }
        true
    } else {
        proof {
            assert(ext.len() == rest);
            if rest == 3 {
                assert(ext[0] == b@[dot + 1] && ext[1] == b@[dot + 2] && ext[2] == b@[dot + 3]);
            }
            if rest == 4 {
                assert(ext[0] == b@[dot + 1] && ext[1] == b@[dot + 2] && ext[2] == b@[dot + 3]
                    && ext[3] == b@[dot + 4]);
            }
        }
        false
    };
    if ok {
        Ok(())
    } else {
        Err(RenderError::UnsupportedFormat)
    }
}

} // verus!
