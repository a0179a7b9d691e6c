//! The equal-house wheel: twelve cusps thirty degrees apart starting at
//! the Ascendant, and the house a longitude falls in.
//!
//! `lemma_equal_houses_partition` is the partition law: on an equal-house
//! wheel every longitude lies in exactly one house, the scan finds it, and
//! its number is the longitude's offset from the Ascendant divided into
//! thirty-degree steps.

use vstd::prelude::*;

verus! {

/// Cusp `i` of an equal-house wheel: the Ascendant plus `i` thirty-degree
/// steps, wrapped into one circle. Centi-degrees.
pub open spec fn spec_cusp(asc: int, i: int) -> int {
    (asc + 3000 * i) % 36000
}

/// The twelve equal-house cusps for an Ascendant, in centi-degrees.
pub fn equal_house_cusps(ascendant: u32) -> (r: Vec<u32>)
    requires
        ascendant < 36000,
    ensures
        r@.len() == 12,
        forall|i: int| 0 <= i < 12 ==> #[trigger] r@[i] == spec_cusp(ascendant as int, i),
        forall|i: int| 0 <= i < 12 ==> #[trigger] r@[i] < 36000,
{
    let mut r: Vec<u32> = Vec::new();
    let mut i: u32 = 0;
    while i < 12
        invariant
            i <= 12,
            ascendant < 36000,
            r@.len() == i,
            forall|k: int| 0 <= k < i ==> #[trigger] r@[k] == spec_cusp(ascendant as int, k),
            forall|k: int| 0 <= k < i ==> #[trigger] r@[k] < 36000,
        decreases 12 - i,
    {
        let cusp = (ascendant + 3000 * i) % 36000;
        r.push(cusp);
        i += 1;
    }
    r
}

/// Whether a longitude lies in the arc running forward from cusp `c` to
/// cusp `next`, the arc wrapping through zero when `next <= c`.
pub open spec fn in_arc(lon: int, c: int, next: int) -> bool {
    if next > c {
        c <= lon && lon < next
    } else {
        lon >= c || lon < next
    }
}

/// The first house (scanning from house `i + 1` upward) whose arc holds
/// the longitude; house 1 when none does.
pub open spec fn spec_house_scan(lon: int, cusps: Seq<int>, i: int) -> int
    recommends
        cusps.len() == 12,
    decreases 12 - i,
{
    if i < 0 || i >= 12 {
        1
    } else if in_arc(lon, cusps[i], cusps[(i + 1) % 12]) {
        i + 1
    } else {
        spec_house_scan(lon, cusps, i + 1)
    }
}

/// The cusp sequence as mathematical integers.
pub open spec fn cusps_ints(cusps: Seq<u32>) -> Seq<int> {
    Seq::new(cusps.len(), |i: int| cusps[i] as int)
}

/// The house (1 to 12) a longitude falls in, scanning the cusp arcs in
/// order; house 1 when no arc holds it (which the partition law rules out
/// for an equal-house wheel).
pub fn house_for_longitude(longitude: u32, cusps: &Vec<u32>) -> (r: usize)
    requires
        cusps@.len() == 12,
    ensures
        1 <= r <= 12,
        r as int == spec_house_scan(longitude as int, cusps_ints(cusps@), 0),
{
    let ghost cv = cusps_ints(cusps@);
    let mut i: usize = 0;
    while i < 12
        invariant
            cusps@.len() == 12,
            cv == cusps_ints(cusps@),
            i <= 12,
            spec_house_scan(longitude as int, cv, 0) == spec_house_scan(longitude as int, cv, i as int),
        decreases 12 - i,
    {
        let cusp = cusps[i];
        let next_cusp = cusps[(i + 1) % 12];
        let hit = if next_cusp > cusp {
            longitude >= cusp && longitude < next_cusp
        } else {
            longitude >= cusp || longitude < next_cusp
        };
        proof {
            assert(cv[i as int] == cusps@[i as int] as int);
            assert(cv[((i + 1) % 12) as int] == cusps@[((i + 1) % 12) as int] as int);
            assert(hit == in_arc(longitude as int, cv[i as int], cv[((i as int) + 1) % 12]));
        }
        if hit {
            return i + 1;
        }
        i += 1;
    }
    1
}

/// The arc of house `j + 1` holds the longitude exactly when the
/// longitude's offset from the Ascendant falls in that house's thirty
/// degrees.
proof fn lemma_arc_characterization(asc: int, lon: int, j: int)
    requires
        0 <= asc < 36000,
        0 <= lon < 36000,
        0 <= j < 12,
    ensures
        in_arc(lon, spec_cusp(asc, j), spec_cusp(asc, j + 1)) <==> ((lon - asc) % 36000) / 3000
            == j,
{
    let d = (lon - asc) % 36000;
    assert(d == if lon >= asc {
        lon - asc
    } else {
        lon - asc + 36000
    }) by {
        if lon >= asc {
            vstd::arithmetic::div_mod::lemma_small_mod((lon - asc) as nat, 36000);
        } else {
            vstd::arithmetic::div_mod::lemma_mod_add_multiples_vanish(lon - asc, 36000);
            vstd::arithmetic::div_mod::lemma_small_mod((lon - asc + 36000) as nat, 36000);
        }
    }
    let cj = spec_cusp(asc, j);
    let cn = spec_cusp(asc, j + 1);
    assert(cj == if asc + 3000 * j < 36000 {
        asc + 3000 * j
    } else {
        asc + 3000 * j - 36000
    }) by {
        if asc + 3000 * j < 36000 {
            vstd::arithmetic::div_mod::lemma_small_mod((asc + 3000 * j) as nat, 36000);
        } else {
            vstd::arithmetic::div_mod::lemma_mod_sub_multiples_vanish(asc + 3000 * j, 36000);
            vstd::arithmetic::div_mod::lemma_small_mod((asc + 3000 * j - 36000) as nat, 36000);
        }
    }
    assert(cn == if asc + 3000 * (j + 1) < 36000 {
        asc + 3000 * (j + 1)
    } else {
        asc + 3000 * (j + 1) - 36000
    }) by {
        if asc + 3000 * (j + 1) < 36000 {
            vstd::arithmetic::div_mod::lemma_small_mod((asc + 3000 * (j + 1)) as nat, 36000);
        } else {
            vstd::arithmetic::div_mod::lemma_mod_sub_multiples_vanish(asc + 3000 * (j + 1), 36000);
            vstd::arithmetic::div_mod::lemma_small_mod(
                (asc + 3000 * (j + 1) - 36000) as nat,
                36000,
            );
        }
    }
    assert((d / 3000 == j) <==> (3000 * j <= d < 3000 * (j + 1))) by {
        vstd::arithmetic::div_mod::lemma_fundamental_div_mod(d, 3000);
        if 3000 * j <= d < 3000 * (j + 1) {
            assert(d / 3000 == j) by (nonlinear_arith)
                requires
                    3000 * j <= d < 3000 * (j + 1),
                    0 <= d,
            ;
        }
        if d / 3000 == j {
            assert(3000 * j <= d < 3000 * (j + 1)) by (nonlinear_arith)
                requires
                    d / 3000 == j,
                    0 <= d < 36000,
            ;
        }
    }
}

/// The partition law of the equal-house wheel: every longitude lies in
/// exactly one of the twelve houses, the one thirty-degree step its offset
/// from the Ascendant falls in, and the scan returns exactly that house.
pub proof fn lemma_equal_houses_partition(asc: int, lon: int, cusps: Seq<int>)
    requires
        0 <= asc < 36000,
        0 <= lon < 36000,
        cusps.len() == 12,
        forall|i: int| 0 <= i < 12 ==> #[trigger] cusps[i] == spec_cusp(asc, i),
    ensures
        0 <= ((lon - asc) % 36000) / 3000 < 12,
        forall|j: int|
            0 <= j < 12 ==> (in_arc(lon, #[trigger] cusps[j], cusps[(j + 1) % 12]) <==> j == ((lon
                - asc) % 36000) / 3000),
        spec_house_scan(lon, cusps, 0) == ((lon - asc) % 36000) / 3000 + 1,
{
    let d = (lon - asc) % 36000;
    let h = d / 3000;
    assert(0 <= d < 36000);
    assert(0 <= h < 12) by (nonlinear_arith)
        requires
            0 <= d < 36000,
            h == d / 3000,
    ;
    assert forall|j: int| 0 <= j < 12 implies (in_arc(
        lon,
        #[trigger] cusps[j],
        cusps[(j + 1) % 12],
    ) <==> j == h) by {
        lemma_arc_characterization(asc, lon, j);
        assert(cusps[(j + 1) % 12] == spec_cusp(asc, j + 1)) by {
            if j < 11 {
                assert((j + 1) % 12 == j + 1);
            } else {
                assert((j + 1) % 12 == 0);
                assert(spec_cusp(asc, 12) == asc % 36000) by {
                    vstd::arithmetic::div_mod::lemma_mod_sub_multiples_vanish(asc + 36000, 36000);
                }
                assert(spec_cusp(asc, 0) == asc % 36000);
            }
        }
    }
    lemma_house_scan_finds(lon, cusps, h, 0);
}

/// When house `h + 1` is the only match, the scan starting anywhere at or
/// before `h` returns `h + 1`.
proof fn lemma_house_scan_finds(lon: int, cusps: Seq<int>, h: int, i: int)
    requires
        cusps.len() == 12,
        0 <= i <= h < 12,
        forall|j: int|
            0 <= j < 12 ==> (in_arc(lon, #[trigger] cusps[j], cusps[(j + 1) % 12]) <==> j == h),
    ensures
        spec_house_scan(lon, cusps, i) == h + 1,
    decreases h - i,
{
    if i == h {
        assert(in_arc(lon, cusps[h], cusps[(h + 1) % 12]));
    } else {
        assert(!in_arc(lon, cusps[i], cusps[(i + 1) % 12]));
        lemma_house_scan_finds(lon, cusps, h, i + 1);
    }
}

} // verus!
