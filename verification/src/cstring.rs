//! NUL-terminated strings in fixed-size fields.

use vstd::prelude::*;

verus! {

/// Length of the string in `s`: the number of octets in front of the first
/// NUL. Where `s` holds no NUL, the string ends with `s`.
pub open spec fn c_strlen(s: Seq<u8>) -> nat
    decreases s.len(),
{
    if s.len() == 0 || s[0] == 0 {
        0
    } else {
        1 + c_strlen(s.drop_first())
    }
}

/// The length of the string in `s` is the place of the first NUL: it is
/// within `s`, no octet in front of it is NUL, and the octet at it, if there
/// is one, is.
pub proof fn lemma_c_strlen(s: Seq<u8>)
    ensures
        c_strlen(s) <= s.len(),
        forall|i: int| 0 <= i < c_strlen(s) ==> s[i] != 0,
        c_strlen(s) < s.len() ==> s[c_strlen(s) as int] == 0,
    decreases s.len(),
{
    if s.len() == 0 || s[0] == 0 {
    } else {
        let t = s.drop_first();
        lemma_c_strlen(t);
        assert forall|i: int| 0 <= i < c_strlen(s) implies s[i] != 0 by {
            if i > 0 {
                assert(s[i] == t[i - 1]);
            }
        }
        if c_strlen(s) < s.len() {
            assert(s[c_strlen(s) as int] == t[c_strlen(t) as int]);
        }
    }
}

/// The first NUL settles the length: if no octet in front of place `n` is
/// NUL, and `n` is the end of `s` or holds a NUL, the string is `n` long.
pub proof fn lemma_c_strlen_is(s: Seq<u8>, n: nat)
    requires
        n <= s.len(),
        forall|i: int| 0 <= i < n ==> s[i] != 0,
        n < s.len() ==> s[n as int] == 0,
    ensures
        c_strlen(s) == n,
    decreases n,
{
    if n == 0 {
    } else {
        let t = s.drop_first();
        assert forall|i: int| 0 <= i < n - 1 implies t[i] != 0 by {
            assert(t[i] == s[i + 1]);
        }
        lemma_c_strlen_is(t, (n - 1) as nat);
    }
}

/// Length of the string in `s`.
pub fn strlen(s: &[u8]) -> (n: usize)
    ensures
        n == c_strlen(s@),
{
    let mut n: usize = 0;
    while n < s.len() && s[n] != 0
        invariant
            n <= s@.len(),
            forall|i: int| 0 <= i < n ==> s@[i] != 0,
        decreases s@.len() - n,
    {
        n += 1;
    }
    proof {
        lemma_c_strlen_is(s@, n as nat);
    }
    n
}

/// What a 32-octet field holds after the string in `src` was copied to it:
/// as much of the string as fits in front of a final NUL, then the NUL, then
/// what the field held before.
pub open spec fn strlcpy_result(dst: Seq<u8>, src: Seq<u8>) -> Seq<u8> {
    let copied = if c_strlen(src) >= dst.len() {
        (dst.len() - 1) as nat
    } else {
        c_strlen(src)
    };
    Seq::new(
        dst.len(),
        |i: int|
            if i < copied {
                src[i]
            } else if i == copied {
                0u8
            } else {
                dst[i]
            },
    )
}

/// The 32-octet field `dst` after the string in `src` was copied to it; see
/// `strlcpy_result`.
pub open spec fn strlcpy_field(dst: [u8; 32], src: Seq<u8>) -> [u8; 32] {
    let r = strlcpy_result(dst@, src);
    [
        r[0],
        r[1],
        r[2],
        r[3],
        r[4],
        r[5],
        r[6],
        r[7],
        r[8],
        r[9],
        r[10],
        r[11],
        r[12],
        r[13],
        r[14],
        r[15],
        r[16],
        r[17],
        r[18],
        r[19],
        r[20],
        r[21],
        r[22],
        r[23],
        r[24],
        r[25],
        r[26],
        r[27],
        r[28],
        r[29],
        r[30],
        r[31],
    ]
}

/// Copies the string in `src` to the field `dst`, cut to what the field
/// holds in front of a NUL, and returns the length of the string in `src`:
/// the copy is whole exactly when that length is below the field's size.
pub fn strlcpy(dst: &mut [u8; 32], src: &[u8]) -> (len: usize)
    ensures
        len == c_strlen(src@),
        final(dst)@ == strlcpy_result(old(dst)@, src@),
        *final(dst) == strlcpy_field(*old(dst), src@),
        c_strlen(final(dst)@) == if len < 32 {
            len
        } else {
            31
        },
{
    let ret = strlen(src);
    proof {
        lemma_c_strlen(src@);
    }
    let copied: usize = if ret >= 32 {
        31
    } else {
        ret
    };
    let mut i: usize = 0;
    while i < copied
        invariant
            i <= copied,
            copied <= 31,
            copied <= src@.len(),
            dst@.len() == 32,
            forall|k: int| 0 <= k < i ==> dst@[k] == src@[k],
            forall|k: int| i <= k < 32 ==> dst@[k] == old(dst)@[k],
        decreases copied - i,
    {
        dst[i] = src[i];
        i += 1;
    }
    dst[copied] = 0;
    proof {
        assert(dst@ =~= strlcpy_result(old(dst)@, src@));
        assert(*dst =~= strlcpy_field(*old(dst), src@));
        lemma_c_strlen_is(dst@, copied as nat);
    }
    ret
}

} // verus!
