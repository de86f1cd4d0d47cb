//! Client-side routing: which of the page's views a URL path selects.
//!
//! The path is taken as its UTF-8 bytes. `/` selects the block-list view;
//! `/block/<n>`, with `<n>` a string of decimal digits whose value fits in
//! 32 bits, selects the detail view for block `n`; every other path
//! selects the not-found view.

use vstd::prelude::*;

verus! {

/// A parsed route: the closed set of page variants.
#[derive(PartialEq, Eq, Structural, Clone, Copy, Debug)]
pub enum AppRoute {
    /// The root path `/`: the block-list view.
    Home,
    /// `/block/<block_number>`: the detail view for one block.
    Block { block_number: u32 },
    /// Any other path: the not-found view.
    NotFound,
}

/// Whether a byte is an ASCII decimal digit.
pub open spec fn is_digit(b: u8) -> bool {
    48 <= b && b <= 57
}

/// Whether a byte string is a non-empty run of decimal digits.
pub open spec fn all_digits(s: Seq<u8>) -> bool {
    s.len() > 0 && forall|i: int| 0 <= i < s.len() ==> is_digit(#[trigger] s[i])
}

/// Numeric value of a string of decimal digit bytes, leading zeros allowed.
pub open spec fn dec_value(s: Seq<u8>) -> int
    decreases s.len(),
{
    if s.len() == 0 {
        0
    } else {
        dec_value(s.drop_last()) * 10 + (s.last() - 48)
    }
}

/// The bytes of the detail path prefix `/block/`.
pub open spec fn block_prefix() -> Seq<u8> {
    seq![47u8, 98u8, 108u8, 111u8, 99u8, 107u8, 47u8]
}

/// The route a path selects.
pub open spec fn route_of(path: Seq<u8>) -> AppRoute {
    if path == seq![47u8] {
        AppRoute::Home
    } else if path.len() > 7 && path.subrange(0, 7) == block_prefix() && all_digits(path.skip(7))
        && dec_value(path.skip(7)) <= u32::MAX {
        AppRoute::Block { block_number: dec_value(path.skip(7)) as u32 }
    } else {
        AppRoute::NotFound
    }
}

/// The value of a run of digits never shrinks as more digits follow: the
/// value of a prefix bounds the value of the whole from below.
proof fn lemma_dec_value_monotone(s: Seq<u8>, k: int)
    requires
        0 <= k <= s.len(),
        forall|i: int| 0 <= i < s.len() ==> is_digit(#[trigger] s[i]),
    ensures
        dec_value(s) >= dec_value(s.subrange(0, k)),
        dec_value(s.subrange(0, k)) >= 0,
    decreases s.len() - k,
{
    if k == s.len() {
        assert(s.subrange(0, k) =~= s);
        lemma_dec_value_nonneg(s);
    } else {
        lemma_dec_value_monotone(s, k + 1);
        let shorter = s.subrange(0, k);
        let longer = s.subrange(0, k + 1);
        assert(longer.drop_last() =~= shorter);
        lemma_dec_value_nonneg(shorter);
    }
}

/// The value of a run of digits is never negative.
proof fn lemma_dec_value_nonneg(s: Seq<u8>)
    requires
        forall|i: int| 0 <= i < s.len() ==> is_digit(#[trigger] s[i]),
    ensures
        dec_value(s) >= 0,
    decreases s.len(),
{
    if s.len() > 0 {
        lemma_dec_value_nonneg(s.drop_last());
    }
}

/// Parse a URL path, given as its UTF-8 bytes, into the route it selects.
pub fn parse_route(path: &[u8]) -> (r: AppRoute)
    ensures
        r == route_of(path@),
{
    if path.len() == 1 && path[0] == 47 {
        proof {
            assert(path@ =~= seq![47u8]);
        }
        return AppRoute::Home;
    }
    proof {
        assert(path@ == seq![47u8] ==> path@.len() == 1 && path@[0] == 47u8);
    }
    if path.len() <= 7 {
        return AppRoute::NotFound;
    }
    let prefix_match = path[0] == 47 && path[1] == 98 && path[2] == 108 && path[3] == 111
        && path[4] == 99 && path[5] == 107 && path[6] == 47;
    if !prefix_match {
        proof {
            assert(path@.subrange(0, 7) == block_prefix() ==> {
                &&& path@[0] == 47u8
                &&& path@[1] == 98u8
                &&& path@[2] == 108u8
                &&& path@[3] == 111u8
                &&& path@[4] == 99u8
                &&& path@[5] == 107u8
                &&& path@[6] == 47u8
            }) by {
                if path@.subrange(0, 7) == block_prefix() {
                    assert forall|i: int| 0 <= i < 7 implies path@[i] == block_prefix()[i] by {
                        assert(path@.subrange(0, 7)[i] == path@[i]);
                    }
                }
            }
        }
        return AppRoute::NotFound;
    }
    proof {
        assert(path@.subrange(0, 7) =~= block_prefix());
    }
    let ghost digits = path@.skip(7);
    let mut i: usize = 7;
    let mut acc: u64 = 0;
    while i < path.len()
        invariant
            7 <= i <= path@.len(),
            path@.len() > 7,
            forall|j: int| 7 <= j < i ==> is_digit(#[trigger] path@[j]),
            acc == dec_value(path@.subrange(7, i as int)),
            acc <= u32::MAX,
            digits == path@.skip(7),
        decreases path@.len() - i,
    {
        let b = path[i];
        if b < 48 || b > 57 {
            proof {
                assert(digits[i - 7] == path@[i as int]);
                assert(!all_digits(digits));
            }
            return AppRoute::NotFound;
        }
        acc = acc * 10 + (b - 48) as u64;
        i = i + 1;
        proof {
            let pre = path@.subrange(7, i - 1);
            let cur = path@.subrange(7, i as int);
            assert(cur.drop_last() =~= pre);
        }
        if acc > 0xffff_ffff {
            proof {
                if all_digits(digits) {
                    assert(path@.subrange(7, path@.len() as int) =~= digits);
                    assert(digits.subrange(0, i - 7) =~= path@.subrange(7, i as int));
                    lemma_dec_value_monotone(digits, i - 7);
                }
            }
            return AppRoute::NotFound;
        }
    }
    proof {
        assert(path@.subrange(7, path@.len() as int) =~= digits);
        assert(all_digits(digits));
    }
    AppRoute::Block { block_number: acc as u32 }
}

} // verus!
