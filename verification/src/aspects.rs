//! The aspect finder: every unordered pair of bodies is measured against
//! the fixed aspect table, and the qualifying aspects are returned sorted
//! by how far they deviate from exact (tightest first).

use vstd::prelude::*;

use vstd::multiset::Multiset;

use crate::types::{ChartAspect, ChartAspectV, PlanetPosition, PlanetPositionV};

verus! {

/// The number of aspect kinds in the table.
pub const ASPECT_COUNT: u32 = 5;

/// The defining angle of aspect `k`, centi-degrees: conjunction, sextile,
/// square, trine, opposition.
pub open spec fn spec_aspect_degrees(k: int) -> int {
    if k == 0 {
        0
    } else if k == 1 {
        6000
    } else if k == 2 {
        9000
    } else if k == 3 {
        12000
    } else {
        18000
    }
}

/// The allowed deviation from exact for aspect `k`, centi-degrees.
pub open spec fn spec_aspect_orb(k: int) -> int {
    if k == 1 {
        600
    } else {
        800
    }
}

/// The name of aspect `k`.
pub open spec fn spec_aspect_name(k: int) -> Seq<char> {
    if k == 0 {
        "Conjunction"@
    } else if k == 1 {
        "Sextile"@
    } else if k == 2 {
        "Square"@
    } else if k == 3 {
        "Trine"@
    } else {
        "Opposition"@
    }
}

/// The glyph of aspect `k`.
pub open spec fn spec_aspect_symbol(k: int) -> Seq<char> {
    if k == 0 {
        "☌"@
    } else if k == 1 {
        "⚹"@
    } else if k == 2 {
        "□"@
    } else if k == 3 {
        "△"@
    } else {
        "☍"@
    }
}

/// The qualitative nature of aspect `k`.
pub open spec fn spec_aspect_nature(k: int) -> Seq<char> {
    if k == 0 {
        "neutral"@
    } else if k == 1 {
        "harmonious"@
    } else if k == 2 {
        "challenging"@
    } else if k == 3 {
        "harmonious"@
    } else {
        "challenging"@
    }
}

/// The angular separation of two longitudes: the shorter way around the
/// circle, in 0 to 18000 centi-degrees.
pub open spec fn spec_separation(a: int, b: int) -> int {
    let d = if a >= b {
        a - b
    } else {
        b - a
    };
    if d > 18000 {
        36000 - d
    } else {
        d
    }
}

/// How far the pair's separation deviates from aspect `k`'s exact angle.
pub open spec fn spec_orb_distance(a: int, b: int, k: int) -> int {
    let s = spec_separation(a, b);
    if s >= spec_aspect_degrees(k) {
        s - spec_aspect_degrees(k)
    } else {
        spec_aspect_degrees(k) - s
    }
}

/// Whether the pair qualifies for aspect `k`: its separation is within the
/// aspect's orb of the exact angle.
pub open spec fn spec_qualifies(p: PlanetPositionV, q: PlanetPositionV, k: int) -> bool {
    spec_orb_distance(p.total_degrees, q.total_degrees, k) <= spec_aspect_orb(k)
}

/// The aspect record for a qualifying pair.
pub open spec fn spec_aspect(p: PlanetPositionV, q: PlanetPositionV, k: int) -> ChartAspectV {
    ChartAspectV {
        planet1: p.planet,
        planet2: q.planet,
        aspect_name: spec_aspect_name(k),
        aspect_symbol: spec_aspect_symbol(k),
        exact_degrees: spec_aspect_degrees(k),
        actual_degrees: spec_separation(p.total_degrees, q.total_degrees),
        orb: spec_orb_distance(p.total_degrees, q.total_degrees, k),
        nature: spec_aspect_nature(k),
    }
}

/// The aspects of one pair against the first `k` table entries, in table
/// order.
pub open spec fn pair_aspects_upto(p: PlanetPositionV, q: PlanetPositionV, k: int) -> Seq<
    ChartAspectV,
>
    decreases k,
{
    if k <= 0 {
        Seq::empty()
    } else {
        pair_aspects_upto(p, q, k - 1) + if spec_qualifies(p, q, k - 1) {
            seq![spec_aspect(p, q, k - 1)]
        } else {
            Seq::empty()
        }
    }
}

/// The aspects of body `i` against bodies `i + 1` to `j - 1`, in scan
/// order.
pub open spec fn inner_aspects_upto(ps: Seq<PlanetPositionV>, i: int, j: int) -> Seq<ChartAspectV>
    decreases j,
{
    if i < 0 || j <= i + 1 {
        Seq::empty()
    } else {
        inner_aspects_upto(ps, i, j - 1) + pair_aspects_upto(ps[i], ps[j - 1], 5)
    }
}

/// The aspects of every pair whose first body is below `i`, in scan order.
pub open spec fn outer_aspects_upto(ps: Seq<PlanetPositionV>, i: int) -> Seq<ChartAspectV>
    decreases i,
{
    if i <= 0 {
        Seq::empty()
    } else {
        outer_aspects_upto(ps, i - 1) + inner_aspects_upto(ps, i - 1, ps.len() as int)
    }
}

/// Every aspect among the bodies, pairs in scan order, unsorted.
pub open spec fn collected_aspects(ps: Seq<PlanetPositionV>) -> Seq<ChartAspectV> {
    outer_aspects_upto(ps, ps.len() as int)
}

/// Sorted by deviation from exact, tightest aspect first.
pub open spec fn sorted_by_orb(s: Seq<ChartAspectV>) -> bool {
    forall|i: int, j: int| 0 <= i < j < s.len() ==> (#[trigger] s[i]).orb <= (#[trigger] s[j]).orb
}

/// No two table entries overlap: a pair's separation qualifies it for at
/// most one aspect, as the orbs leave gaps between neighbouring bands.
pub proof fn lemma_aspect_bands_disjoint(p: PlanetPositionV, q: PlanetPositionV, k1: int, k2: int)
    requires
        0 <= k1 < 5,
        0 <= k2 < 5,
        spec_qualifies(p, q, k1),
        spec_qualifies(p, q, k2),
    ensures
        k1 == k2,
{
}

/// The table entry `k`: name, glyph, exact angle, orb and nature.
fn aspect_def(k: u32) -> (r: (&'static str, &'static str, u32, u32, &'static str))
    requires
        k < 5,
    ensures
        r.0@ == spec_aspect_name(k as int),
        r.1@ == spec_aspect_symbol(k as int),
        r.2 as int == spec_aspect_degrees(k as int),
        r.3 as int == spec_aspect_orb(k as int),
        r.4@ == spec_aspect_nature(k as int),
{
    match k {
        0 => ("Conjunction", "☌", 0, 800, "neutral"),
        1 => ("Sextile", "⚹", 6000, 600, "harmonious"),
        2 => ("Square", "□", 9000, 800, "challenging"),
        3 => ("Trine", "△", 12000, 800, "harmonious"),
        _ => ("Opposition", "☍", 18000, 800, "challenging"),
    }
}

/// The angular separation of two longitudes, the shorter way around.
pub fn angular_separation(a: u32, b: u32) -> (r: u32)
    requires
        a < 36000,
        b < 36000,
    ensures
        r as int == spec_separation(a as int, b as int),
        r <= 18000,
{
    let d = if a >= b {
        a - b
    } else {
        b - a
    };
    if d > 18000 {
        36000 - d
    } else {
        d
    }
}

/// Build the aspect record for a qualifying pair and table entry.
fn make_aspect(p: &PlanetPosition, q: &PlanetPosition, k: u32) -> (r: ChartAspect)
    requires
        k < 5,
        p.total_degrees < 36000,
        q.total_degrees < 36000,
    ensures
        r.deep_view() == spec_aspect(p.deep_view(), q.deep_view(), k as int),
{
    let (name, symbol, degrees, orb, nature) = aspect_def(k);
    let separation = angular_separation(p.total_degrees, q.total_degrees);
    let orb_distance = if separation >= degrees {
        separation - degrees
    } else {
        degrees - separation
    };
    let r = ChartAspect {
        planet1: p.planet.clone(),
        planet2: q.planet.clone(),
        aspect_name: String::from_str(name),
        aspect_symbol: String::from_str(symbol),
        exact_degrees: degrees,
        actual_degrees: separation,
        orb: orb_distance,
        nature: String::from_str(nature),
    };
    r
}

/// Sort aspects by deviation, tightest first; the contents are kept.
fn sort_aspects(v: Vec<ChartAspect>) -> (r: Vec<ChartAspect>)
    ensures
        r.deep_view().to_multiset() == v.deep_view().to_multiset(),
        sorted_by_orb(r.deep_view()),
{
    broadcast use vstd::seq_lib::group_to_multiset_ensures;

    let ghost total = v.deep_view().to_multiset();
    let mut rest = v;
    let mut out: Vec<ChartAspect> = Vec::new();
    while rest.len() > 0
        invariant
            out.deep_view().to_multiset().add(rest.deep_view().to_multiset()) == total,
            sorted_by_orb(out.deep_view()),
            forall|a: int, b: int|
                0 <= a < out.deep_view().len() && 0 <= b < rest.deep_view().len()
                    ==> (#[trigger] out.deep_view()[a]).orb <= (#[trigger] rest.deep_view()[b]).orb,
        decreases rest@.len(),
    {
        let mut min_idx: usize = 0;
        let mut m: usize = 1;
        while m < rest.len()
            invariant
                rest@.len() > 0,
                min_idx < rest@.len(),
                m <= rest@.len(),
                forall|k: int|
                    0 <= k < m ==> (#[trigger] rest.deep_view()[k]).orb
                        >= rest.deep_view()[min_idx as int].orb,
            decreases rest@.len() - m,
        {
            if rest[m].orb < rest[min_idx].orb {
                min_idx = m;
            }
            m += 1;
        }
        let ghost old_rest = rest.deep_view();
        let ghost old_out = out.deep_view();
        let x = rest.remove(min_idx);
        proof {
            old_rest.to_multiset_ensures();
            assert(rest.deep_view() =~= old_rest.remove(min_idx as int));
            assert(old_rest.remove(min_idx as int).to_multiset() =~= old_rest.to_multiset().remove(
                old_rest[min_idx as int],
            ));
            assert(x.deep_view() == old_rest[min_idx as int]);
        }
        out.push(x);
        proof {
            old_out.to_multiset_ensures();
            old_rest.to_multiset_ensures();
            assert(out.deep_view() =~= old_out.push(x.deep_view()));
            assert(old_out.push(x.deep_view()).to_multiset() =~= old_out.to_multiset().insert(
                x.deep_view(),
            ));
            assert(old_rest.contains(old_rest[min_idx as int]));
            assert(old_rest.to_multiset().count(x.deep_view()) > 0);
            assert(out.deep_view().to_multiset().add(rest.deep_view().to_multiset())
                =~= old_out.to_multiset().insert(x.deep_view()).add(
                old_rest.to_multiset().remove(x.deep_view()),
            ));
            assert(old_out.to_multiset().insert(x.deep_view()).add(
                old_rest.to_multiset().remove(x.deep_view()),
            ) =~= old_out.to_multiset().add(old_rest.to_multiset()));
            assert(out.deep_view().to_multiset().add(rest.deep_view().to_multiset()) =~= total);
            assert forall|a: int, b: int|
                0 <= a < out.deep_view().len() && 0 <= b
                    < rest.deep_view().len() implies (#[trigger] out.deep_view()[a]).orb
                <= (#[trigger] rest.deep_view()[b]).orb by {
                assert(rest.deep_view()[b] == if b < min_idx {
                    old_rest[b]
                } else {
                    old_rest[b + 1]
                });
                if a < out.deep_view().len() - 1 {
                    assert(out.deep_view()[a] == old_out[a]);
                } else {
                    assert(out.deep_view()[a] == x.deep_view());
                    assert(x.deep_view().orb <= old_rest[if b < min_idx {
                        b
                    } else {
                        b + 1
                    }].orb);
                }
            }
        }
    }
    proof {
        rest.deep_view().to_multiset_ensures();
        assert(forall|a: ChartAspectV| rest.deep_view().to_multiset().count(a) == 0);
        assert(out.deep_view().to_multiset().add(rest.deep_view().to_multiset())
            =~= out.deep_view().to_multiset());
        assert(out.deep_view().to_multiset() =~= total);
    }
    out
}

/// Every aspect among the given bodies, sorted by deviation from exact,
/// tightest first. Each unordered pair is tried against every table entry.
pub fn calculate_aspects(positions: &[PlanetPosition]) -> (r: Vec<ChartAspect>)
    requires
        forall|i: int|
            0 <= i < positions@.len() ==> (#[trigger] positions@[i]).total_degrees < 36000,
    ensures
        r.deep_view().to_multiset() == collected_aspects(positions.deep_view()).to_multiset(),
        sorted_by_orb(r.deep_view()),
{
    let ghost psv = positions.deep_view();
    proof {
        assert(forall|i: int|
            0 <= i < positions@.len() ==> #[trigger] positions.deep_view()[i]
                == positions@[i].deep_view());
    }
    let n = positions.len();
    let mut collected: Vec<ChartAspect> = Vec::new();
    let mut i: usize = 0;
    while i < n
        invariant
            psv == positions.deep_view(),
            psv.len() == n,
            n == positions@.len(),
            forall|t: int| 0 <= t < n ==> (#[trigger] positions@[t]).total_degrees < 36000,
            forall|t: int| 0 <= t < n ==> #[trigger] psv[t] == positions@[t].deep_view(),
            i <= n,
            collected.deep_view() =~= outer_aspects_upto(psv, i as int),
        decreases n - i,
    {
        let mut j: usize = i + 1;
        while j < n
            invariant
                psv == positions.deep_view(),
                psv.len() == n,
                n == positions@.len(),
                forall|t: int| 0 <= t < n ==> (#[trigger] positions@[t]).total_degrees < 36000,
                forall|t: int| 0 <= t < n ==> #[trigger] psv[t] == positions@[t].deep_view(),
                i < n,
                i + 1 <= j <= n,
                collected.deep_view() =~= outer_aspects_upto(psv, i as int) + inner_aspects_upto(
                    psv,
                    i as int,
                    j as int,
                ),
            decreases n - j,
        {
            let mut k: u32 = 0;
            while k < ASPECT_COUNT
                invariant
                    psv == positions.deep_view(),
                    psv.len() == n,
                    n == positions@.len(),
                    forall|t: int| 0 <= t < n ==> (#[trigger] positions@[t]).total_degrees < 36000,
                    forall|t: int| 0 <= t < n ==> #[trigger] psv[t] == positions@[t].deep_view(),
                    i < n,
                    i < j < n,
                    k <= 5,
                    collected.deep_view() =~= outer_aspects_upto(psv, i as int)
                        + inner_aspects_upto(psv, i as int, j as int) + pair_aspects_upto(
                        psv[i as int],
                        psv[j as int],
                        k as int,
                    ),
                decreases 5 - k,
            {
                let p = &positions[i];
                let q = &positions[j];
                let (_, _, degrees, orb, _) = aspect_def(k);
                let separation = angular_separation(p.total_degrees, q.total_degrees);
                let orb_distance = if separation >= degrees {
                    separation - degrees
                } else {
                    degrees - separation
                };
                proof {
                    assert(p.deep_view() == psv[i as int]);
                    assert(q.deep_view() == psv[j as int]);
                    assert(orb_distance as int == spec_orb_distance(
                        psv[i as int].total_degrees,
                        psv[j as int].total_degrees,
                        k as int,
                    ));
                }
                let ghost before = collected.deep_view();
                if orb_distance <= orb {
                    let a = make_aspect(p, q, k);
                    collected.push(a);
                    proof {
                        assert(collected.deep_view() =~= before.push(
                            spec_aspect(psv[i as int], psv[j as int], k as int),
                        ));
                    }
                }
                proof {
                    assert(pair_aspects_upto(psv[i as int], psv[j as int], k + 1)
                        == pair_aspects_upto(psv[i as int], psv[j as int], k as int) + if
                        spec_qualifies(psv[i as int], psv[j as int], k as int) {
                        seq![spec_aspect(psv[i as int], psv[j as int], k as int)]
                    } else {
                        Seq::empty()
                    });
                    assert(collected.deep_view() =~= outer_aspects_upto(psv, i as int)
                        + inner_aspects_upto(psv, i as int, j as int) + pair_aspects_upto(
                        psv[i as int],
                        psv[j as int],
                        k + 1,
                    ));
                }
                k += 1;
            }
            j += 1;
            proof {
                assert(inner_aspects_upto(psv, i as int, j as int) == inner_aspects_upto(
                    psv,
                    i as int,
                    j - 1,
                ) + pair_aspects_upto(psv[i as int], psv[j - 1], 5));
                assert(collected.deep_view() =~= outer_aspects_upto(psv, i as int)
                    + inner_aspects_upto(psv, i as int, j as int));
            }
        }
        i += 1;
        proof {
            assert(outer_aspects_upto(psv, i as int) == outer_aspects_upto(psv, i - 1)
                + inner_aspects_upto(psv, i - 1, psv.len() as int));
            assert(collected.deep_view() =~= outer_aspects_upto(psv, i as int));
        }
    }
    proof {
        assert(collected.deep_view() =~= collected_aspects(psv));
    }
    sort_aspects(collected)
}

} // verus!
