//! Deck-list handling: the compute parts of turning a line-oriented
//! deck list into (count, card name) rows, and of expanding one
//! fetched card image into the copies its count asks for.

use vstd::prelude::*;

verus! {

/// ASCII whitespace, as trimmed from the ends of a deck-list line.
pub open spec fn spec_is_ws(b: u8) -> bool {
    b == 0x20u8 || b == 0x09u8 || b == 0x0Au8 || b == 0x0Bu8 || b == 0x0Cu8 || b == 0x0Du8
}

/// The first index at or after `i` holding a byte that is not
/// whitespace, or the length if none is.
pub open spec fn spec_skip_ws(s: Seq<u8>, i: int) -> int
    decreases s.len() - i,
{
    if i < 0 || i >= s.len() {
        i
    } else if spec_is_ws(s[i]) {
        spec_skip_ws(s, i + 1)
    } else {
        i
    }
}

/// The exclusive end, at or before `j`, left after dropping trailing
/// whitespace.
pub open spec fn spec_skip_ws_back(s: Seq<u8>, j: int) -> int
    decreases j,
{
    if j <= 0 || j > s.len() {
        j
    } else if spec_is_ws(s[j - 1]) {
        spec_skip_ws_back(s, j - 1)
    } else {
        j
    }
}

/// The first index at or after `i` holding a space byte, or the
/// length if none is. The deck format splits count from name at the
/// first plain space only.
pub open spec fn spec_find_space(s: Seq<u8>, i: int) -> int
    decreases s.len() - i,
{
    if i < 0 || i >= s.len() {
        s.len() as int
    } else if s[i] == 0x20u8 {
        i
    } else {
        spec_find_space(s, i + 1)
    }
}

/// Every byte of `s[i..j)` is a decimal digit.
pub open spec fn spec_all_digits(s: Seq<u8>, i: int, j: int) -> bool {
    forall|k: int| i <= k < j ==> 0x30 <= #[trigger] s[k] <= 0x39
}

/// The value of the decimal digits `s[i..j)`.
pub open spec fn spec_dec_value(s: Seq<u8>, i: int, j: int) -> int
    decreases j - i,
{
    if j <= i {
        0
    } else {
        spec_dec_value(s, i, j - 1) * 10 + (s[j - 1] as int - 0x30)
    }
}

/// The count token `s[i..j)` is well formed: decimal digits with an
/// optional leading plus sign, at least one digit, and a value that
/// fits a `usize`.
pub open spec fn spec_count_token_ok(s: Seq<u8>, i: int, j: int) -> bool {
    if 0 <= i < j <= s.len() && s[i] == 0x2Bu8 {
        i + 1 < j && spec_all_digits(s, i + 1, j) && spec_dec_value(s, i + 1, j) <= usize::MAX
            as int
    } else {
        spec_all_digits(s, i, j) && spec_dec_value(s, i, j) <= usize::MAX as int
    }
}

/// The count token's value.
pub open spec fn spec_count_value(s: Seq<u8>, i: int, j: int) -> int {
    if 0 <= i < j <= s.len() && s[i] == 0x2Bu8 {
        spec_dec_value(s, i + 1, j)
    } else {
        spec_dec_value(s, i, j)
    }
}

/// What `parse_deck_line` returns: trim whitespace from both ends of
/// the line, split at the first space; before it a count, after it
/// the card name (which may itself hold further spaces). Lines of any
/// other shape give nothing.
pub open spec fn spec_parse_line(s: Seq<u8>) -> Option<(int, Seq<u8>)> {
    let lo = spec_skip_ws(s, 0);
    let hi = spec_skip_ws_back(s, s.len() as int);
    if lo >= s.len() {
        None
    } else {
        let sp = spec_find_space(s, lo);
        if sp >= hi {
            None
        } else if !spec_count_token_ok(s, lo, sp) {
            None
        } else {
            Some((spec_count_value(s, lo, sp), s.subrange(sp + 1, hi)))
        }
    }
}

/// Digit sequences have non-negative values.
proof fn lemma_dec_value_nonneg(s: Seq<u8>, i: int, j: int)
    requires
        spec_all_digits(s, i, j),
    ensures
        0 <= spec_dec_value(s, i, j),
    decreases j - i,
{
    if j > i {
        lemma_dec_value_nonneg(s, i, j - 1);
    }
}

/// Reading more digits never shrinks the value.
proof fn lemma_dec_value_grows(s: Seq<u8>, i: int, a: int, b: int)
    requires
        i <= a <= b,
        spec_all_digits(s, i, b),
    ensures
        spec_dec_value(s, i, a) <= spec_dec_value(s, i, b),
    decreases b - a,
{
    if b > a {
        lemma_dec_value_grows(s, i, a, b - 1);
        lemma_dec_value_nonneg(s, i, b - 1);
    }
}

fn is_ws_byte(b: u8) -> (r: bool)
    ensures
        r == spec_is_ws(b),
{
    b == 0x20 || b == 0x09 || b == 0x0A || b == 0x0B || b == 0x0C || b == 0x0D
}

/// Deck-list handling: parsing the lines of a deck list and expanding
/// a fetched image into one copy per card required.
pub struct ProxyCsv {}

impl ProxyCsv {
    /// Parses one line of a deck list into the card count and the card
    /// name: whitespace is trimmed from both ends, the count stands
    /// before the first space and the name after it. Returns nothing
    /// exactly when the line has no such shape; callers skip such
    /// lines.
    #[verifier::loop_isolation(false)]
    pub fn parse_deck_line(line: &Vec<u8>) -> (r: Option<(usize, Vec<u8>)>)
        ensures
            match r {
                Some(p) => spec_parse_line(line@) matches Some(q) && q.0 == p.0 as int && q.1
                    == p.1@,
                None => spec_parse_line(line@) is None,
            },
    {
        let n: usize = line.len();

        let mut lo: usize = 0;
        while lo < n && is_ws_byte(line[lo])
            invariant
                n == line@.len(),
                lo <= n,
                spec_skip_ws(line@, 0) == spec_skip_ws(line@, lo as int),
            decreases n - lo,
        {
            lo = lo + 1;
        }
        assert(spec_skip_ws(line@, 0) == lo as int);
        if lo == n {
            return None;
        }

        let mut hi: usize = n;
        while hi > 0 && is_ws_byte(line[hi - 1])
            invariant
                n == line@.len(),
                lo < hi <= n,
                !spec_is_ws(line@[lo as int]),
                spec_skip_ws_back(line@, n as int) == spec_skip_ws_back(line@, hi as int),
            decreases hi,
        {
            hi = hi - 1;
        }
        assert(spec_skip_ws_back(line@, n as int) == hi as int);

        let mut sp: usize = lo;
        while sp < n && line[sp] != 0x20
            invariant
                n == line@.len(),
                lo <= sp <= n,
                spec_find_space(line@, lo as int) == spec_find_space(line@, sp as int),
            decreases n - sp,
        {
            sp = sp + 1;
        }
        assert(spec_find_space(line@, lo as int) == (if sp < n {
            sp as int
        } else {
            n as int
        }));
        if sp >= hi {
            return None;
        }

        let mut k: usize = lo;
        if line[k] == 0x2B {
            k = k + 1;
            if k == sp {
                return None;
            }
        }

        let mut acc: usize = 0;
        let mut m: usize = k;
        while m < sp
            invariant
                n == line@.len(),
                lo <= k <= m <= sp < n,
                (k == lo) || (k == lo + 1 && line@[lo as int] == 0x2Bu8),
                k == lo ==> line@[lo as int] != 0x2Bu8,
                spec_all_digits(line@, k as int, m as int),
                acc as int == spec_dec_value(line@, k as int, m as int),
            decreases sp - m,
        {
            let b: u8 = line[m];
            if b < 0x30 || b > 0x39 {
                assert(!spec_all_digits(line@, k as int, sp as int));
                return None;
            }
            let d: usize = (b - 0x30) as usize;
            if acc > usize::MAX / 10 || (acc == usize::MAX / 10 && d > usize::MAX % 10) {
                proof {
                    if spec_all_digits(line@, k as int, sp as int) {
                        lemma_dec_value_grows(line@, k as int, m as int + 1, sp as int);
                        assert(spec_dec_value(line@, k as int, m as int + 1) == acc as int * 10
                            + d);
                    }
                    assert(!spec_count_token_ok(line@, lo as int, sp as int));
                }
                return None;
            }
            acc = acc * 10 + d;
            m = m + 1;
        }
        assert(spec_count_token_ok(line@, lo as int, sp as int));
        assert(acc as int == spec_count_value(line@, lo as int, sp as int));

        let mut name: Vec<u8> = Vec::new();
        let mut q: usize = sp + 1;
        while q < hi
            invariant
                n == line@.len(),
                sp < q,
                q <= hi <= n,
                name@ == line@.subrange(sp as int + 1, q as int),
            decreases hi - q,
        {
            name.push(line[q]);
            proof {
                assert(line@.subrange(sp as int + 1, q as int + 1) =~= line@.subrange(
                    sp as int + 1,
                    q as int,
                ).push(line@[q as int]));
            }
            q = q + 1;
        }
        Some((acc, name))
    }

    /// Expands one fetched card image into `count` copies, one per
    /// card required in the deck; every copy holds the same bytes.
    pub fn repeat_image(bytes: &Vec<u8>, count: usize) -> (r: Vec<Vec<u8>>)
        ensures
            r@.len() == count,
            forall|k: int| 0 <= k < count ==> (#[trigger] r@[k])@ == bytes@,
    {
        let mut r: Vec<Vec<u8>> = Vec::new();
        let mut i: usize = 0;
        while i < count
            invariant
                r@.len() == i,
                i <= count,
                forall|k: int| 0 <= k < i ==> (#[trigger] r@[k])@ == bytes@,
            decreases count - i,
        {
            let mut copy: Vec<u8> = Vec::new();
            let mut j: usize = 0;
            while j < bytes.len()
                invariant
                    j <= bytes@.len(),
                    copy@ == bytes@.subrange(0, j as int),
                decreases bytes@.len() - j,
            {
                copy.push(bytes[j]);
                proof {
                    assert(bytes@.subrange(0, j as int + 1) =~= bytes@.subrange(
                        0,
                        j as int,
                    ).push(bytes@[j as int]));
                }
                j = j + 1;
            }
            proof {
                assert(bytes@.subrange(0, bytes@.len() as int) =~= bytes@);
            }
            r.push(copy);
            i = i + 1;
        }
        r
    }
}

} // verus!
