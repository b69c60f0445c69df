//! The screenshot index: filter a directory listing down to image files,
//! order them most-recent-first, and cap the result.
//!
//! The platform layer enumerates the OS screenshot folder and hands every
//! entry over as a name, a path and a modification time; everything after
//! that — extension filtering, ordering, capping — is verified here.

use vstd::prelude::*;

use vstd::seq_lib::{group_to_multiset_ensures, lemma_multiset_commutative};
use vstd::multiset::group_multiset_axioms;
use vstd::utf8::encode_utf8;
use vstd::string::StringSliceAdditionalSpecFns;

verus! {

/// The listing is capped to this many most-recent entries.
pub const MAX_SCREENSHOTS: usize = 50;

/// One entry of the screenshot listing.
#[derive(Debug)]
pub struct OsScreenshot {
    /// Full filesystem path.
    pub path: String,
    /// File name, the last path component.
    pub filename: String,
    /// Modification time in seconds since the Unix epoch; zero when the
    /// metadata could not be read.
    pub modified: u64,
}

/// ASCII lower-casing of one byte.
pub open spec fn spec_lower_byte(b: u8) -> u8 {
    if 65 <= b <= 90 {
        (b + 32) as u8
    } else {
        b
    }
}

/// ASCII lower-casing of a byte string.
pub open spec fn spec_lower_bytes(s: Seq<u8>) -> Seq<u8> {
    s.map_values(|b: u8| spec_lower_byte(b))
}

/// The index of the last `.` (byte 46) in `s`, or `-1` if there is none.
pub open spec fn spec_last_dot(s: Seq<u8>) -> int
    decreases s.len(),
{
    if s.len() == 0 {
        -1
    } else if s.last() == 46 {
        s.len() - 1
    } else {
        spec_last_dot(s.drop_last())
    }
}

/// The extension of a file name given as bytes: what follows the last `.`,
/// provided that dot is not the leading byte (a leading dot marks a hidden
/// file, not an extension).
pub open spec fn spec_ext_bytes(s: Seq<u8>) -> Option<Seq<u8>> {
    let d = spec_last_dot(s);
    if d >= 1 {
        Some(s.subrange(d + 1, s.len() as int))
    } else {
        None
    }
}

/// The UTF-8 bytes of `"png"`.
pub open spec fn spec_png_bytes() -> Seq<u8> {
    seq![112u8, 110u8, 103u8]
}

/// The UTF-8 bytes of `"jpg"`.
pub open spec fn spec_jpg_bytes() -> Seq<u8> {
    seq![106u8, 112u8, 103u8]
}

/// The UTF-8 bytes of `"jpeg"`.
pub open spec fn spec_jpeg_bytes() -> Seq<u8> {
    seq![106u8, 112u8, 101u8, 103u8]
}

/// The UTF-8 bytes of `"bmp"`.
pub open spec fn spec_bmp_bytes() -> Seq<u8> {
    seq![98u8, 109u8, 112u8]
}

/// Whether a file name (as bytes) has an extension that lower-cases to one
/// of `png`, `jpg`, `jpeg`, `bmp`.
pub open spec fn spec_allowed_name(s: Seq<u8>) -> bool {
    match spec_ext_bytes(s) {
        Some(e) => {
            let low = spec_lower_bytes(e);
            low == spec_png_bytes() || low == spec_jpg_bytes() || low == spec_jpeg_bytes() || low
                == spec_bmp_bytes()
        },
        None => false,
    }
}

/// Whether a listing entry is an image the index keeps.
pub open spec fn spec_is_screenshot(e: OsScreenshot) -> bool {
    spec_allowed_name(encode_utf8(e.filename@))
}

/// The predicate the listing filters by, as a value, so contracts and
/// loops speak of one and the same closure.
pub open spec fn screenshot_pred() -> spec_fn(OsScreenshot) -> bool {
    |e: OsScreenshot| spec_is_screenshot(e)
}

/// Entries ordered most-recent-first: the modification times never
/// increase along the sequence.
pub open spec fn spec_sorted_desc(s: Seq<OsScreenshot>) -> bool {
    forall|i: int, j: int| 0 <= i < j < s.len() ==> (#[trigger] s[i]).modified >= (#[trigger] s[j]).modified
}

/// ASCII lower-casing of one byte.
fn lower_byte(b: u8) -> (r: u8)
    ensures
        r == spec_lower_byte(b),
{
    if 65 <= b && b <= 90 {
        b + 32
    } else {
        b
    }
}

/// Whether the bytes of `name` from `start` on lower-case to exactly
/// `target`.
fn tail_matches(name: &[u8], start: usize, target: &Vec<u8>) -> (b: bool)
    requires
        start <= name@.len(),
    ensures
        b == (spec_lower_bytes(name@.subrange(start as int, name@.len() as int)) == target@),
{
    let ghost tail = name@.subrange(start as int, name@.len() as int);
    let n = name.len();
    proof {
        assert(name@.len() <= usize::MAX);
    }
    if n - start != target.len() {
        proof {
            assert(spec_lower_bytes(tail).len() == tail.len());
        }
        return false;
    }
    let count = target.len();
    for i in 0..count
        invariant
            start + count == name@.len(),
            name@.len() <= usize::MAX,
            count == target@.len(),
            tail == name@.subrange(start as int, name@.len() as int),
            forall|k: int| 0 <= k < i ==> spec_lower_byte(tail[k]) == target@[k],
    {
        let c = lower_byte(name[start + i]);
        if c != target[i] {
            proof {
                assert(spec_lower_bytes(tail)[i as int] == spec_lower_byte(tail[i as int]));
            }
            return false;
        }
    }
    proof {
        assert(spec_lower_bytes(tail) =~= target@);
    }
    true
}

/// Whether a file name has an extension in the allowed image set,
/// case-insensitively.
pub fn allowed_filename(name: &str) -> (b: bool)
    ensures
        b == spec_allowed_name(name.spec_bytes()),
{
    let bytes: &[u8] = name.as_bytes();
    let ghost s = name.spec_bytes();
    let n = bytes.len();
    let mut last_dot: Option<usize> = None;
    for i in 0..n
        invariant
            bytes@ == s,
            n == s.len(),
            spec_last_dot(s.take(i as int)) == (match last_dot {
                Some(d) => d as int,
                None => -1,
            }),
            last_dot matches Some(d) ==> d < i,
    {
        proof {
            assert(s.take(i + 1).drop_last() =~= s.take(i as int));
            assert(s.take(i + 1).last() == s[i as int]);
        }
        if bytes[i] == 46 {
            last_dot = Some(i);
        }
    }
    proof {
        assert(s.take(n as int) =~= s);
    }
    match last_dot {
        Some(d) if d >= 1 => {
            let png: Vec<u8> = vec![112u8, 110u8, 103u8];
            let jpg: Vec<u8> = vec![106u8, 112u8, 103u8];
            let jpeg: Vec<u8> = vec![106u8, 112u8, 101u8, 103u8];
            let bmp: Vec<u8> = vec![98u8, 109u8, 112u8];
            proof {
                assert(png@ =~= spec_png_bytes());
                assert(jpg@ =~= spec_jpg_bytes());
                assert(jpeg@ =~= spec_jpeg_bytes());
                assert(bmp@ =~= spec_bmp_bytes());
            }
            let r = tail_matches(bytes, d + 1, &png) || tail_matches(bytes, d + 1, &jpg)
                || tail_matches(bytes, d + 1, &jpeg) || tail_matches(bytes, d + 1, &bmp);
            r
        },
        _ => false,
    }
}

/// Keep exactly the entries whose file name has an allowed image
/// extension, in their original order.
pub fn filter_screenshots(entries: Vec<OsScreenshot>) -> (r: Vec<OsScreenshot>)
    ensures
        r@ == entries@.filter(screenshot_pred()),
{
    let ghost orig = entries@;
    let mut rest = entries;
    let mut out: Vec<OsScreenshot> = Vec::new();
    proof {
        assert(orig.take(0) =~= Seq::<OsScreenshot>::empty());
        reveal_with_fuel(Seq::<OsScreenshot>::filter, 1);
        assert(out@ =~= orig.take(0).filter(screenshot_pred()));
        assert(rest@ =~= orig.skip(0));
    }
    while rest.len() > 0
        invariant
            rest@.len() <= orig.len(),
            rest@ == orig.skip(orig.len() - rest@.len()),
            out@ == orig.take(orig.len() - rest@.len()).filter(screenshot_pred()),
        decreases rest.len(),
    {
        let ghost k = orig.len() - rest@.len();
        let e = rest.remove(0);
        proof {
            assert(e == orig[k as int]);
            assert(rest@ =~= orig.skip(k + 1));
        }
        let keep = allowed_filename(e.filename.as_str());
        proof {
            assert(keep == spec_is_screenshot(e));
            assert(orig.take(k + 1) =~= orig.take(k as int) + seq![orig[k as int]]);
            Seq::<OsScreenshot>::filter_distributes_over_add(
                orig.take(k as int),
                seq![orig[k as int]],
                screenshot_pred(),
            );
            reveal_with_fuel(Seq::<OsScreenshot>::filter, 2);
            assert(seq![orig[k as int]].drop_last() =~= Seq::<OsScreenshot>::empty());
            assert(seq![orig[k as int]].filter(screenshot_pred()) == if screenshot_pred()(
                orig[k as int],
            ) {
                seq![orig[k as int]]
            } else {
                Seq::<OsScreenshot>::empty()
            });
        }
        if keep {
            out.push(e);
            proof {
                assert(out@ =~= orig.take(k + 1).filter(screenshot_pred()));
            }
        } else {
            proof {
                assert(out@ =~= orig.take(k + 1).filter(screenshot_pred()));
            }
        }
    }
    proof {
        assert(orig.take(orig.len() as int) =~= orig);
    }
    out
}

/// Sort the listing most-recent-first.  The entries are exactly the ones
/// handed in (as a multiset); only their order changes.
pub fn sort_screenshots(v: &mut Vec<OsScreenshot>)
    ensures
        spec_sorted_desc(final (v)@),
        final (v)@.to_multiset() == old(v)@.to_multiset(),
{
    let ghost orig = v@;
    let n = v.len();
    if n <= 1 {
        return ;
    }
    for i in 1..n
        invariant
            v.len() == n,
            spec_sorted_desc(v@.take(i as int)),
            v@.to_multiset() == orig.to_multiset(),
    {
        let key = v[i].modified;
        let mut j: usize = 0;
        while j < i && v[j].modified >= key
            invariant
                j <= i,
                i < n,
                v.len() == n,
                key == v@[i as int].modified,
                forall|k: int| 0 <= k < j ==> (#[trigger] v@[k]).modified >= key,
            decreases i - j,
        {
            j += 1;
        }
        let ghost s0 = v@;
        if j < i {
            let e = v.remove(i);
            v.insert(j, e);
            proof {
                broadcast use group_to_multiset_ensures;
                broadcast use group_multiset_axioms;

                let s1 = s0.remove(i as int);
                s0.remove_ensures(i as int);
                s1.insert_ensures(j as int, e);
                assert(s0.to_multiset().count(e) > 0) by {
                    assert(s0[i as int] == e);
                    assert(s0.contains(e));
                }
                assert(s1.to_multiset() == s0.to_multiset().remove(e));
                assert(v@ == s1.insert(j as int, e));
                assert(v@.to_multiset() == s1.to_multiset().insert(e));
                assert(v@.to_multiset() =~= s0.to_multiset());
                assert(s0[j as int].modified < key);
                assert(forall|m: int|
                    0 <= m < i ==> (#[trigger] s0.take(i as int)[m]) == s0[m]);
                let key_holder = s0[j as int];
                assert forall|m: int| j <= m < i implies (#[trigger] s0[m]).modified
                    <= key_holder.modified by {
                    if m > j {
                        assert(s0.take(i as int)[j as int] == s0[j as int]);
                        assert(s0.take(i as int)[m] == s0[m]);
                        assert(s0.take(i as int)[j as int].modified >= s0.take(
                            i as int,
                        )[m].modified);
                    }
                }
                assert forall|a: int, b: int| 0 <= a < b < i + 1 implies (#[trigger] v@[a]).modified
                    >= (#[trigger] v@[b]).modified by {
                    assert(v@[j as int] == e);
                    if a < j {
                        assert(v@[a] == s1[a] && s1[a] == s0[a]);
                    } else if a > j {
                        assert(v@[a] == s1[a - 1] && s1[a - 1] == s0[a - 1]);
                    }
                    if b < j {
                        assert(v@[b] == s1[b] && s1[b] == s0[b]);
                    } else if b > j {
                        assert(v@[b] == s1[b - 1] && s1[b - 1] == s0[b - 1]);
                    }
                }
            }
        } else {
            proof {
                assert(j == i);
                assert forall|a: int, b: int| 0 <= a < b < i + 1 implies (#[trigger] v@[a]).modified
                    >= (#[trigger] v@[b]).modified by {
                    assert(v@.take(i as int)[a] == v@[a]);
                    if b < i {
                        assert(v@.take(i as int)[b] == v@[b]);
                    }
                }
            }
        }
        proof {
            assert(forall|m: int| 0 <= m < i + 1 ==> (#[trigger] v@.take(i + 1)[m]) == v@[m]);
            assert(spec_sorted_desc(v@.take(i + 1)));
        }
    }
    proof {
        if n > 0 {
            assert(v@.take(n as int) =~= v@);
        } else {
            assert(v@.len() == 0);
        }
    }
}

/// The full listing pipeline: keep the image entries, order them
/// most-recent-first, cap to the fifty most recent.  The result is a prefix
/// of some most-recent-first ordering of exactly the surviving entries, it
/// draws only on those entries (multiset inclusion), and every entry it
/// drops is at least as old as every entry it keeps.
pub fn select_screenshots(entries: Vec<OsScreenshot>) -> (r: Vec<OsScreenshot>)
    ensures
        ({
            let f = entries@.filter(screenshot_pred());
            &&& r@.len() == if f.len() <= MAX_SCREENSHOTS {
                f.len() as int
            } else {
                MAX_SCREENSHOTS as int
            }
            &&& spec_sorted_desc(r@)
            &&& forall|i: int| 0 <= i < r@.len() ==> spec_is_screenshot(#[trigger] r@[i])
            &&& forall|d: OsScreenshot|
                #[trigger] r@.to_multiset().count(d) <= f.to_multiset().count(d)
            &&& forall|d: OsScreenshot, i: int|
                #![trigger f.to_multiset().count(d), r@[i]]
                f.to_multiset().count(d) > r@.to_multiset().count(d) && 0 <= i < r@.len()
                    ==> d.modified <= r@[i].modified
            &&& exists|s: Seq<OsScreenshot>|
                spec_sorted_desc(s) && s.to_multiset() == f.to_multiset() && r@ == s.take(
                    r@.len() as int,
                )
        }),
{
    broadcast use group_to_multiset_ensures;

    let ghost orig = entries@;
    let ghost f = entries@.filter(screenshot_pred());
    let mut v = filter_screenshots(entries);
    sort_screenshots(&mut v);
    let ghost s = v@;
    proof {
        assert(s.len() == f.len()) by {
            assert(s.to_multiset().len() == s.len());
            assert(f.to_multiset().len() == f.len());
        }
    }
    if v.len() > MAX_SCREENSHOTS {
        v.truncate(MAX_SCREENSHOTS);
    }
    proof {
        assert(v@ =~= s.take(v@.len() as int));
        assert forall|i: int| 0 <= i < v@.len() implies spec_is_screenshot(#[trigger] v@[i]) by {
            assert(s.contains(s[i]));
            assert(f.to_multiset().count(s[i]) > 0);
            assert(f.contains(s[i]));
            let k = choose|k: int| 0 <= k < f.len() && f[k] == s[i];
            orig.lemma_filter_pred(screenshot_pred(), k);
        }
        let kept = s.take(v@.len() as int);
        let dropped = s.skip(v@.len() as int);
        assert(s =~= kept + dropped);
        lemma_multiset_commutative(kept, dropped);
        assert forall|d: OsScreenshot| #[trigger] v@.to_multiset().count(d) <= f.to_multiset().count(
            d,
        ) by {
            assert(s.to_multiset().count(d) == kept.to_multiset().count(d)
                + dropped.to_multiset().count(d));
        }
        assert forall|d: OsScreenshot, i: int|
            #![trigger f.to_multiset().count(d), v@[i]]
            f.to_multiset().count(d) > v@.to_multiset().count(d) && 0 <= i < v@.len() implies
            d.modified <= v@[i].modified by {
            assert(s.to_multiset().count(d) == kept.to_multiset().count(d)
                + dropped.to_multiset().count(d));
            assert(dropped.to_multiset().count(d) > 0);
            assert(dropped.contains(d));
            let j = choose|j: int| 0 <= j < dropped.len() && dropped[j] == d;
            assert(s[v@.len() + j] == d);
            assert(s[i].modified >= s[v@.len() + j].modified);
            assert(v@[i] == s[i]);
        }
    }
    v
}

} // verus!
