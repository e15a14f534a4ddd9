use vstd::prelude::*;

use crate::config::Polarity;

verus! {

/// Byte `@`, which opens a relative-axis descriptor and separates its polarity tag.
pub const AT: u8 = 64;

/// An action string of a binding, split into its parts.
#[derive(Debug, PartialEq, Eq)]
pub enum ActionSpec {
    /// A key, by its name.
    Key(Vec<u8>),
    /// A relative-axis pulse, by the axis name and the polarity tag.
    Relative(Vec<u8>, Polarity),
    /// A relative-axis descriptor without a known polarity tag.
    Malformed,
}

/// The marker that starts a relative-axis descriptor: `@asRel_`.
pub open spec fn rel_prefix() -> Seq<u8> {
    seq![64u8, 97, 115, 82, 101, 108, 95]
}

/// Whether `s` starts with the relative-axis marker.
pub open spec fn is_relative(s: Seq<u8>) -> bool {
    s.len() >= 7 && s.take(7) == rel_prefix()
}

/// The polarity a tag names: `ADD` increases, `REM` decreases.
pub open spec fn tag_polarity(t: Seq<u8>) -> Option<Polarity> {
    if t == seq![65u8, 68, 68] {
        Some(Polarity::Increase)
    } else if t == seq![82u8, 69, 77] {
        Some(Polarity::Decrease)
    } else {
        None
    }
}

/// Whether `t` holds no `@`.
pub open spec fn at_free(t: Seq<u8>) -> bool {
    forall|i: int| 0 <= i < t.len() ==> t[i] != AT
}

/// Whether position `k` of `t` holds its first `@`.
pub open spec fn first_at(t: Seq<u8>, k: int) -> bool {
    0 <= k < t.len() && t[k] == AT && at_free(t.take(k))
}

/// Whether `t`'s first `j` bytes hold no `@` and position `j` ends `t` or holds an `@`:
/// the segment `t.take(j)` runs up to the next `@`.
pub open spec fn segment_end(t: Seq<u8>, j: int) -> bool {
    0 <= j <= t.len() && at_free(t.take(j)) && (j == t.len() || t[j] == AT)
}

/// The polarity tag that follows the `@` at position `k` of `t`, up to the next `@`,
/// names `p` (or, with `p` None, names no polarity).
pub open spec fn tag_after(t: Seq<u8>, k: int, p: Option<Polarity>) -> bool {
    forall|j: int|
        segment_end(t.skip(k + 1), j) ==> tag_polarity(#[trigger] t.skip(k + 1).take(j)) == p
}

fn tag_of(t: &[u8], start: usize, end: usize) -> (r: Option<Polarity>)
    requires
        start <= end <= t@.len(),
    ensures
        r == tag_polarity(t@.subrange(start as int, end as int)),
{
    proof {
        assert(seq![65u8, 68, 68].len() == 3);
        assert(seq![82u8, 69, 77].len() == 3);
        if end - start == 3 {
            assert(t@.subrange(start as int, end as int) =~= seq![
                t@[start as int],
                t@[start + 1],
                t@[start + 2],
            ]);
        }
    }
    if end - start != 3 {
        None
    } else if t[start] == 65 && t[start + 1] == 68 && t[start + 2] == 68 {
        Some(Polarity::Increase)
    } else if t[start] == 82 && t[start + 1] == 69 && t[start + 2] == 77 {
        Some(Polarity::Decrease)
    } else {
        None
    }
}

fn copy_range(s: &[u8], from: usize, to: usize) -> (r: Vec<u8>)
    requires
        from <= to <= s@.len(),
    ensures
        r@ == s@.subrange(from as int, to as int),
{
    let mut r: Vec<u8> = Vec::new();
    let mut i: usize = from;
    while i < to
        invariant
            from <= i <= to,
            to <= s@.len(),
            r@ == s@.subrange(from as int, i as int),
        decreases to - i,
    {
        r.push(s[i]);
        assert(r@ =~= s@.subrange(from as int, i + 1));
        i = i + 1;
    }
    r
}

/// Splits an action string: `@asRel_<axis>@ADD` or `@asRel_<axis>@REM` is a pulse on
/// the axis named before the first `@` after the marker, with the polarity of the tag
/// that runs from there to the next `@` or the end; any other tag is malformed; a
/// string without the marker names a key.
pub fn parse_action(s: &[u8]) -> (r: ActionSpec)
    ensures
        match r {
            ActionSpec::Key(name) => !is_relative(s@) && name@ == s@,
            ActionSpec::Relative(name, p) => {
                let rest = s@.skip(7);
                &&& is_relative(s@)
                &&& first_at(rest, name@.len() as int)
                &&& name@ == rest.take(name@.len() as int)
                &&& tag_after(rest, name@.len() as int, Some(p))
            },
            ActionSpec::Malformed => {
                let rest = s@.skip(7);
                &&& is_relative(s@)
                &&& forall|k: int| first_at(rest, k) ==> tag_after(rest, k, None)
            },
        },
{
    let n = s.len();
    let marked = n >= 7 && s[0] == 64 && s[1] == 97 && s[2] == 115 && s[3] == 82 && s[4] == 101
        && s[5] == 108 && s[6] == 95;
    proof {
        if n >= 7 {
            assert(s@.take(7) =~= seq![s@[0], s@[1], s@[2], s@[3], s@[4], s@[5], s@[6]]);
        }
    }
    if !marked {
        let name = copy_range(s, 0, n);
        assert(name@ =~= s@);
        return ActionSpec::Key(name);
    }
    let ghost rest = s@.skip(7);
    let mut k: usize = 7;
    while k < n && s[k] != AT
        invariant
            7 <= k <= n,
            n == s@.len(),
            rest == s@.skip(7),
            forall|i: int| 7 <= i < k ==> s@[i] != AT,
        decreases n - k,
    {
        k = k + 1;
    }
    if k == n {
        assert forall|j: int| first_at(rest, j) implies tag_after(rest, j, None) by {
            assert(rest[j] == s@[j + 7]);
        }
        return ActionSpec::Malformed;
    }
    let name = copy_range(s, 7, k);
    let mut m: usize = k + 1;
    while m < n && s[m] != AT
        invariant
            k < m <= n,
            n == s@.len(),
            forall|i: int| k < i < m ==> s@[i] != AT,
        decreases n - m,
    {
        m = m + 1;
    }
    let tag = tag_of(s, k + 1, m);
    let ghost j0 = (k - 7) as int;
    let ghost tail = s@.skip(k + 1);
    let ghost e0 = (m - k - 1) as int;
    assert(rest.take(j0) =~= name@);
    assert(rest.skip(j0 + 1) =~= tail);
    assert(at_free(rest.take(j0)));
    assert(first_at(rest, j0));
    assert(tail.take(e0) =~= s@.subrange(k + 1, m as int));
    assert forall|j: int| segment_end(tail, j) implies j == e0 by {
        if j < e0 {
            assert(tail[j] == s@[k + 1 + j]);
        } else if j > e0 {
            assert(tail.take(j)[e0] == tail[e0]);
        }
    }
    match tag {
        Some(p) => {
            assert(tag_after(rest, j0, Some(p)));
            ActionSpec::Relative(name, p)
        },
        None => {
            assert forall|j: int| first_at(rest, j) implies tag_after(rest, j, None) by {
                if j < j0 {
                    assert(rest[j] == s@[j + 7]);
                } else if j > j0 {
                    assert(rest.take(j)[j0] == AT);
                }
            }
            ActionSpec::Malformed
        },
    }
}

} // verus!
