//! Character-level string helpers.
//!
//! The protocol layer compares method names, URI schemes and domain suffixes.
//! These helpers work over the character view of `str`, so every contract is
//! stated directly on `Seq<char>`.

use vstd::prelude::*;

verus! {

/// True when `s` begins with `prefix`.
pub open spec fn seq_starts_with(s: Seq<char>, prefix: Seq<char>) -> bool {
    s.len() >= prefix.len() && s.subrange(0, prefix.len() as int) == prefix
}

/// True when `s` ends with `suffix`.
pub open spec fn seq_ends_with(s: Seq<char>, suffix: Seq<char>) -> bool {
    s.len() >= suffix.len() && s.subrange(s.len() - suffix.len(), s.len() as int) == suffix
}

/// True when `needle` occurs in `s` at some position.
pub open spec fn seq_contains_seq(s: Seq<char>, needle: Seq<char>) -> bool {
    exists|i: int|
        0 <= i && i + needle.len() <= s.len() && #[trigger] s.subrange(i, i + needle.len())
            == needle
}

/// Character-for-character equality of two string slices.
pub fn str_eq(a: &str, b: &str) -> (r: bool)
    ensures
        r == (a@ == b@),
{
    let alen = a.unicode_len();
    let blen = b.unicode_len();
    if alen != blen {
        proof {
            assert(a@ != b@) by {
                if a@ == b@ {
                    assert(a@.len() == b@.len());
                }
            }
        }
        return false;
    }
    let mut i: usize = 0;
    while i < alen
        invariant
            0 <= i <= alen,
            alen == a@.len(),
            alen == b@.len(),
            forall|j: int| 0 <= j < i ==> a@[j] == b@[j],
        decreases alen - i,
    {
        if a.get_char(i) != b.get_char(i) {
            proof {
                assert(a@[i as int] != b@[i as int]);
            }
            return false;
        }
        i = i + 1;
    }
    proof {
        assert(a@ =~= b@);
    }
    true
}

/// Whether `s` begins with `prefix`, compared character by character.
pub fn str_starts_with(s: &str, prefix: &str) -> (r: bool)
    ensures
        r == seq_starts_with(s@, prefix@),
{
    let slen = s.unicode_len();
    let plen = prefix.unicode_len();
    if slen < plen {
        return false;
    }
    let mut i: usize = 0;
    while i < plen
        invariant
            0 <= i <= plen,
            plen <= slen,
            slen == s@.len(),
            plen == prefix@.len(),
            forall|j: int| 0 <= j < i ==> s@[j] == prefix@[j],
        decreases plen - i,
    {
        if s.get_char(i) != prefix.get_char(i) {
            proof {
                assert(s@[i as int] != prefix@[i as int]);
                assert(!seq_starts_with(s@, prefix@)) by {
                    if seq_starts_with(s@, prefix@) {
                        assert(s@.subrange(0, prefix@.len() as int)[i as int] == prefix@[i as int]);
                    }
                }
            }
            return false;
        }
        i = i + 1;
    }
    proof {
        assert(s@.subrange(0, prefix@.len() as int) =~= prefix@);
    }
    true
}

/// Whether `s` ends with `suffix`, compared character by character.
pub fn str_ends_with(s: &str, suffix: &str) -> (r: bool)
    ensures
        r == seq_ends_with(s@, suffix@),
{
    let slen = s.unicode_len();
    let xlen = suffix.unicode_len();
    if slen < xlen {
        return false;
    }
    let off: usize = slen - xlen;
    let mut i: usize = 0;
    while i < xlen
        invariant
            0 <= i <= xlen,
            off == slen - xlen,
            xlen <= slen,
            slen == s@.len(),
            xlen == suffix@.len(),
            forall|j: int| 0 <= j < i ==> s@[off + j] == suffix@[j],
        decreases xlen - i,
    {
        if s.get_char(off + i) != suffix.get_char(i) {
            proof {
                assert(s@[off + i] != suffix@[i as int]);
                assert(!seq_ends_with(s@, suffix@)) by {
                    if seq_ends_with(s@, suffix@) {
                        assert(s@.subrange(s@.len() - suffix@.len(), s@.len() as int)[i as int]
                            == suffix@[i as int]);
                    }
                }
            }
            return false;
        }
        i = i + 1;
    }
    proof {
        assert(s@.subrange(s@.len() - suffix@.len(), s@.len() as int) =~= suffix@);
    }
    true
}

/// Whether `needle` occurs anywhere in `s`.
pub fn str_contains(s: &str, needle: &str) -> (r: bool)
    ensures
        r == seq_contains_seq(s@, needle@),
{
    let slen = s.unicode_len();
    let nlen = needle.unicode_len();
    if nlen > slen {
        proof {
            assert(!seq_contains_seq(s@, needle@));
        }
        return false;
    }
    let last: usize = slen - nlen;
    let mut start: usize = 0;
    loop
        invariant
            0 <= start <= last + 1,
            last == slen - nlen,
            nlen <= slen,
            slen == s@.len(),
            nlen == needle@.len(),
            forall|i: int|
                0 <= i < start ==> #[trigger] s@.subrange(i, i + needle@.len()) != needle@,
        decreases last + 1 - start,
    {
        if start > last {
            proof {
                assert(!seq_contains_seq(s@, needle@));
            }
            return false;
        }
        let mut j: usize = 0;
        let mut matched: bool = true;
        while j < nlen
            invariant
                0 <= j <= nlen,
                0 <= start <= last,
                last == slen - nlen,
                slen == s@.len(),
                nlen == needle@.len(),
                matched == (forall|k: int| 0 <= k < j ==> s@[start + k] == needle@[k]),
            decreases nlen - j,
        {
            if s.get_char(start + j) != needle.get_char(j) {
                matched = false;
                proof {
                    assert(s@[start + j] != needle@[j as int]);
                }
                j = nlen;
            } else {
                proof {
                    assert(s@[start + j] == needle@[j as int]);
                }
                j = j + 1;
            }
        }
        if matched {
            proof {
                assert(s@.subrange(start as int, start + needle@.len()) =~= needle@);
            }
            return true;
        }
        proof {
            assert(s@.subrange(start as int, start + needle@.len()) != needle@) by {
                if s@.subrange(start as int, start + needle@.len()) == needle@ {
                    assert(forall|k: int|
                        0 <= k < needle@.len() ==> s@[start + k] == #[trigger] needle@[k]) by {
                        assert forall|k: int|
                            0 <= k < needle@.len() implies s@[start + k] == #[trigger] needle@[k] by {
                            assert(s@.subrange(start as int, start + needle@.len())[k]
                                == needle@[k]);
                        }
                    }
                }
            }
        }
        start = start + 1;
    }
}

} // verus!
