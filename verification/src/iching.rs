//! The I Ching engine: casting hexagrams with the three-coin method and
//! looking hexagrams and trigrams up by number or line pattern.

use vstd::prelude::*;

use crate::iching_data::{
    all_hexagrams, all_trigrams, code_to_binary, hexagram_code, hexagram_data, king_wen_number,
    lemma_king_wen_bijection, spec_binary, spec_hexagram_code, spec_king_wen, trigram_data,
};
use crate::strutil::str_eq;
use crate::random::random_bool;
use crate::types::{CastResult, Hexagram, Trigram};

verus! {

/// A coin-toss sum is one of the four classical line values.
pub open spec fn is_line_value(v: u8) -> bool {
    v == 6 || v == 7 || v == 8 || v == 9
}

/// Yang lines (7 and 9) read as 1, yin lines (6 and 8) as 0.
pub open spec fn spec_line_binary(v: u8) -> u8 {
    if v == 7 || v == 9 {
        1
    } else {
        0
    }
}

/// After change: old yin (6) becomes yang, old yang (9) becomes yin.
pub open spec fn spec_line_transformed(v: u8) -> u8 {
    if v == 6 || v == 7 {
        1
    } else {
        0
    }
}

/// A changing line is an old line: 6 or 9.
pub open spec fn is_changing(v: u8) -> bool {
    v == 6 || v == 9
}

/// The six-bit code of a cast, bottom line first.
pub open spec fn spec_lines_code(lines: Seq<u8>) -> int
    recommends
        lines.len() == 6,
{
    spec_line_binary(lines[0]) + 2 * spec_line_binary(lines[1]) + 4 * spec_line_binary(lines[2])
        + 8 * spec_line_binary(lines[3]) + 16 * spec_line_binary(lines[4]) + 32 * spec_line_binary(
        lines[5],
    )
}

/// The one-based positions of the changing (old) lines, bottom first, in
/// increasing order.
pub open spec fn spec_changing_lines(lines: Seq<u8>) -> Seq<usize>
    decreases lines.len(),
{
    if lines.len() == 0 {
        Seq::empty()
    } else {
        let rest = spec_changing_lines(lines.drop_last());
        if is_changing(lines.last()) {
            rest.push(lines.len() as usize)
        } else {
            rest
        }
    }
}

/// The changing-line list names exactly the old lines: its entries are
/// one-based positions within the cast, strictly increasing, and position
/// `j + 1` is listed exactly when line `j` is old.
pub proof fn lemma_changing_lines_positions(lines: Seq<u8>)
    requires
        lines.len() <= 6,
    ensures
        forall|k: int|
            0 <= k < spec_changing_lines(lines).len() ==> 1 <= #[trigger] spec_changing_lines(
                lines,
            )[k] <= lines.len(),
        forall|k1: int, k2: int|
            0 <= k1 < k2 < spec_changing_lines(lines).len() ==> spec_changing_lines(lines)[k1]
                < spec_changing_lines(lines)[k2],
        forall|j: int|
            0 <= j < lines.len() ==> (is_changing(lines[j]) <==> spec_changing_lines(
                lines,
            ).contains((j + 1) as usize)),
        spec_changing_lines(lines).len() > 0 <==> exists|j: int|
            0 <= j < lines.len() && is_changing(#[trigger] lines[j]),
    decreases lines.len(),
{
    broadcast use vstd::seq_lib::lemma_seq_contains_after_push;

    if lines.len() == 0 {
    } else {
        let prev = lines.drop_last();
        let n = lines.len() as int;
        lemma_changing_lines_positions(prev);
        let pcl = spec_changing_lines(prev);
        let cur = spec_changing_lines(lines);
        assert(forall|j: int| 0 <= j < n - 1 ==> prev[j] == lines[j]);
        if is_changing(lines.last()) {
            assert(cur == pcl.push(n as usize));
            assert forall|k: int| 0 <= k < cur.len() implies 1 <= #[trigger] cur[k] <= n by {
                if k < pcl.len() {
                    assert(cur[k] == pcl[k]);
                } else {
                    assert(cur[k] == n as usize);
                }
            }
            assert forall|k1: int, k2: int|
                0 <= k1 < k2 < cur.len() implies cur[k1] < cur[k2] by {
                if k2 < pcl.len() {
                    assert(cur[k1] == pcl[k1] && cur[k2] == pcl[k2]);
                } else {
                    assert(cur[k2] == n as usize);
                    assert(cur[k1] == pcl[k1]);
                    assert(pcl[k1] <= n - 1);
                }
            }
            assert forall|j: int|
                0 <= j < n implies (is_changing(lines[j]) <==> cur.contains(
                (j + 1) as usize,
            )) by {
                assert(cur.contains((j + 1) as usize) <==> (pcl.contains((j + 1) as usize) || (j
                    + 1) as usize == n as usize));
                if j < n - 1 {
                    assert((j + 1) as usize != n as usize);
                    assert(is_changing(lines[j]) <==> pcl.contains((j + 1) as usize));
                } else {
                    assert(is_changing(lines[j]));
                }
            }
            assert(0 <= n - 1 < n && is_changing(lines[n - 1]));
        } else {
            assert(cur == pcl);
            assert forall|j: int|
                0 <= j < n implies (is_changing(lines[j]) <==> cur.contains(
                (j + 1) as usize,
            )) by {
                if j < n - 1 {
                    assert(is_changing(lines[j]) <==> pcl.contains((j + 1) as usize));
                } else {
                    assert(!is_changing(lines[j]));
                    if cur.contains((j + 1) as usize) {
                        let k = choose|k: int|
                            0 <= k < pcl.len() && pcl[k] == (j + 1) as usize;
                        assert(pcl[k] <= n - 1);
                        assert(false);
                    }
                }
            }
            if cur.len() > 0 {
                assert(exists|j: int| 0 <= j < n - 1 && is_changing(#[trigger] prev[j]));
                let j = choose|j: int| 0 <= j < n - 1 && is_changing(#[trigger] prev[j]);
                assert(0 <= j < n && is_changing(lines[j]));
            }
            if exists|j: int| 0 <= j < n && is_changing(#[trigger] lines[j]) {
                let j = choose|j: int| 0 <= j < n && is_changing(#[trigger] lines[j]);
                assert(j != n - 1);
                assert(is_changing(prev[j]));
                assert(pcl.len() > 0);
            }
        }
    }
}

/// The six-bit code of the transformed cast, bottom line first.
pub open spec fn spec_transformed_code(lines: Seq<u8>) -> int
    recommends
        lines.len() == 6,
{
    spec_line_transformed(lines[0]) + 2 * spec_line_transformed(lines[1]) + 4
        * spec_line_transformed(lines[2]) + 8 * spec_line_transformed(lines[3]) + 16
        * spec_line_transformed(lines[4]) + 32 * spec_line_transformed(lines[5])
}

/// A well-formed cast: six classical lines, the changing-line list naming
/// exactly the old lines bottom to top, the line pattern and King Wen
/// number matching the lines, and the transformed reading present exactly
/// when some line changes.
pub open spec fn cast_wf(r: CastResult) -> bool {
    &&& r.lines@.len() == 6
    &&& forall|i: int| 0 <= i < 6 ==> is_line_value(#[trigger] r.lines@[i])
    &&& r.binary@ == spec_binary(spec_lines_code(r.lines@), 6)
    &&& r.hexagram_number as int == spec_king_wen(spec_lines_code(r.lines@))
    &&& 1 <= r.hexagram_number <= 64
    &&& r.changing_lines@ == spec_changing_lines(r.lines@)
    &&& if r.changing_lines@.len() > 0 {
        &&& r.transformed_binary matches Some(tb) && tb@ == spec_binary(
            spec_transformed_code(r.lines@),
            6,
        )
        &&& r.transformed_hexagram_number matches Some(tn) && tn as int == spec_king_wen(
            spec_transformed_code(r.lines@),
        )
    } else {
        &&& r.transformed_binary is None
        &&& r.transformed_hexagram_number is None
    }
}

/// A cast names its own hexagram: looking the cast's King Wen number up
/// gives the hexagram whose line pattern is the cast's.
pub proof fn lemma_cast_names_its_hexagram(r: CastResult)
    requires
        cast_wf(r),
    ensures
        spec_binary(spec_hexagram_code(r.hexagram_number as int), 6) == r.binary@,
{
    lemma_king_wen_bijection();
    let code = spec_lines_code(r.lines@);
    assert(0 <= code < 64);
    assert(spec_hexagram_code(spec_king_wen(code)) == code);
}

/// Toss three coins for one line: heads counts 3, tails 2, so the sum is
/// 6, 7, 8 or 9.
fn cast_line() -> (v: u8)
    ensures
        is_line_value(v),
{
    let c1: u8 = if random_bool() {
        3
    } else {
        2
    };
    let c2: u8 = if random_bool() {
        3
    } else {
        2
    };
    let c3: u8 = if random_bool() {
        3
    } else {
        2
    };
    c1 + c2 + c3
}

/// The binary digit of a line value: yang lines (7, 9) give 1.
pub fn line_value_to_binary(value: u8) -> (r: u8)
    ensures
        r == spec_line_binary(value),
{
    if value == 7 || value == 9 {
        1
    } else {
        0
    }
}

/// The binary digit of a line value after change: old lines flip, young
/// lines keep their digit.
pub fn line_value_to_transformed_binary(value: u8) -> (r: u8)
    ensures
        is_line_value(value) ==> r == spec_line_transformed(value),
{
    match value {
        6 => 1,
        9 => 0,
        _ => line_value_to_binary(value),
    }
}

/// Cast a full hexagram by six three-coin tosses, bottom line first.
///
/// The cast always names a hexagram: every six-line pattern has a King Wen
/// number. The transformed hexagram is present exactly when a line changes.
pub fn cast_hexagram() -> (r: CastResult)
    ensures
        cast_wf(r),
{
    let l0 = cast_line();
    let l1 = cast_line();
    let l2 = cast_line();
    let l3 = cast_line();
    let l4 = cast_line();
    let l5 = cast_line();
    let lines: Vec<u8> = vec![l0, l1, l2, l3, l4, l5];
    build_cast_result(lines)
}

/// Assemble the reading for six cast lines: pattern, King Wen number,
/// changing lines and the transformed hexagram if any line is old.
pub fn build_cast_result(lines: Vec<u8>) -> (r: CastResult)
    requires
        lines@.len() == 6,
        forall|i: int| 0 <= i < 6 ==> is_line_value(#[trigger] lines@[i]),
    ensures
        cast_wf(r),
        r.lines == lines,
{
    let mut changing_lines: Vec<usize> = Vec::new();
    let mut i: usize = 0;
    while i < 6
        invariant
            lines@.len() == 6,
            i <= 6,
            changing_lines@ == spec_changing_lines(lines@.subrange(0, i as int)),
        decreases 6 - i,
    {
        let v = lines[i];
        proof {
            assert(lines@.subrange(0, i + 1).drop_last() =~= lines@.subrange(0, i as int));
            assert(lines@.subrange(0, i + 1).last() == lines@[i as int]);
        }
        if v == 6 || v == 9 {
            changing_lines.push(i + 1);
        }
        i += 1;
        proof {
            assert(changing_lines@ =~= spec_changing_lines(lines@.subrange(0, i as int)));
        }
    }
    proof {
        assert(lines@.subrange(0, 6) =~= lines@);
    }

    let d0 = line_value_to_binary(lines[0]);
    let d1 = line_value_to_binary(lines[1]);
    let d2 = line_value_to_binary(lines[2]);
    let d3 = line_value_to_binary(lines[3]);
    let d4 = line_value_to_binary(lines[4]);
    let d5 = line_value_to_binary(lines[5]);
    let code: u8 = d0 + 2 * d1 + 4 * d2 + 8 * d3 + 16 * d4 + 32 * d5;
    proof {
        assert(code as int == spec_lines_code(lines@));
    }
    let binary = code_to_binary(code, 6);
    let hexagram_number = king_wen_number(code);

    let (transformed_hexagram_number, transformed_binary) = if changing_lines.len() > 0 {
        let t0 = line_value_to_transformed_binary(lines[0]);
        let t1 = line_value_to_transformed_binary(lines[1]);
        let t2 = line_value_to_transformed_binary(lines[2]);
        let t3 = line_value_to_transformed_binary(lines[3]);
        let t4 = line_value_to_transformed_binary(lines[4]);
        let t5 = line_value_to_transformed_binary(lines[5]);
        let tcode: u8 = t0 + 2 * t1 + 4 * t2 + 8 * t3 + 16 * t4 + 32 * t5;
        proof {
            assert(tcode as int == spec_transformed_code(lines@));
        }
        let tb = code_to_binary(tcode, 6);
        let tn = king_wen_number(tcode);
        (Some(tn), Some(tb))
    } else {
        (None, None)
    };

    CastResult {
        lines,
        changing_lines,
        hexagram_number,
        transformed_hexagram_number,
        binary,
        transformed_binary,
    }
}

/// The King Wen number of the hexagram whose binary text is `binary`,
/// or an error when no hexagram's pattern reads so.
pub fn binary_to_hexagram_number(binary: &str) -> (r: Result<u32, String>)
    ensures
        r matches Ok(n) ==> {
            &&& 1 <= n <= 64
            &&& binary@ == spec_binary(spec_hexagram_code(n as int), 6)
        },
        r is Err <==> forall|n: int|
            1 <= n <= 64 ==> binary@ != spec_binary(#[trigger] spec_hexagram_code(n), 6),
{
    let mut n: u32 = 1;
    while n <= 64
        invariant
            1 <= n <= 65,
            forall|m: int|
                1 <= m < n ==> binary@ != spec_binary(#[trigger] spec_hexagram_code(m), 6),
        decreases 65 - n,
    {
        let code = hexagram_code(n);
        let candidate = code_to_binary(code, 6);
        if str_eq(binary, candidate.as_str()) {
            return Ok(n);
        }
        n += 1;
    }
    let msg = String::from_str("Unknown hexagram binary pattern: ").concat(binary);
    Err(msg)
}

/// The hexagram with the given King Wen number; numbers outside 1 to 64
/// are an error.
pub fn get_hexagram(number: u32) -> (r: Result<Hexagram, String>)
    ensures
        r is Ok <==> 1 <= number <= 64,
        r matches Ok(h) ==> {
            &&& h.number == number
            &&& h.binary@ == spec_binary(spec_hexagram_code(number as int), 6)
        },
{
    if 1 <= number && number <= 64 {
        Ok(hexagram_data(number))
    } else {
        let mut msg = String::from_str("Hexagram number ");
        msg.append(number.to_string().as_str());
        msg.append(" not found (valid range: 1-64)");
        Err(msg)
    }
}

/// The trigram with the given number; numbers outside 1 to 8 are an error.
pub fn get_trigram(number: u32) -> (r: Result<Trigram, String>)
    ensures
        r is Ok <==> 1 <= number <= 8,
        r matches Ok(t) ==> t.number == number,
{
    if 1 <= number && number <= 8 {
        Ok(trigram_data(number))
    } else {
        let mut msg = String::from_str("Trigram number ");
        msg.append(number.to_string().as_str());
        msg.append(" not found (valid range: 1-8)");
        Err(msg)
    }
}

/// The lower (bottom) trigram of a hexagram.
pub fn get_lower_trigram(hexagram: &Hexagram) -> (r: Result<Trigram, String>)
    ensures
        r is Ok <==> 1 <= hexagram.bottom_trigram <= 8,
        r matches Ok(t) ==> t.number == hexagram.bottom_trigram,
{
    get_trigram(hexagram.bottom_trigram)
}

/// The upper (top) trigram of a hexagram.
pub fn get_upper_trigram(hexagram: &Hexagram) -> (r: Result<Trigram, String>)
    ensures
        r is Ok <==> 1 <= hexagram.top_trigram <= 8,
        r matches Ok(t) ==> t.number == hexagram.top_trigram,
{
    get_trigram(hexagram.top_trigram)
}

// ---------------------------------------------------------------------------
// IChingEngine — stateful wrapper
// ---------------------------------------------------------------------------

/// An I Ching engine holding the 64 hexagrams and the eight trigrams.
pub struct IChingEngine {
    hexagrams: Vec<Hexagram>,
    trigrams: Vec<Trigram>,
}

impl IChingEngine {
    /// The hexagram table: entry `i` is the King Wen hexagram `i + 1`.
    pub closed spec fn hexagrams_view(&self) -> Seq<Hexagram> {
        self.hexagrams@
    }

    /// The trigram table: entry `i` is the trigram `i + 1`.
    pub closed spec fn trigrams_view(&self) -> Seq<Trigram> {
        self.trigrams@
    }

    /// The tables are complete and numbered in order.
    pub open spec fn wf(&self) -> bool {
        &&& self.hexagrams_view().len() == 64
        &&& forall|i: int| 0 <= i < 64 ==> (#[trigger] self.hexagrams_view()[i]).number as int == i + 1
        &&& self.trigrams_view().len() == 8
        &&& forall|i: int| 0 <= i < 8 ==> (#[trigger] self.trigrams_view()[i]).number as int == i + 1
    }

    /// A fresh engine with the full tables.
    pub fn new() -> (r: Self)
        ensures
            r.wf(),
    {
        IChingEngine { hexagrams: all_hexagrams(), trigrams: all_trigrams() }
    }

    /// Cast a full hexagram with the three-coin method.
    pub fn cast_hexagram(&self) -> (r: CastResult)
        ensures
            cast_wf(r),
    {
        cast_hexagram()
    }

    /// The hexagram with the given King Wen number, if it is 1 to 64.
    pub fn get_hexagram(&self, number: u32) -> (r: Option<&Hexagram>)
        requires
            self.wf(),
        ensures
            r is Some <==> 1 <= number <= 64,
            r matches Some(h) ==> h.number == number && *h == self.hexagrams_view()[number as int
                - 1],
    {
        if 1 <= number && number <= 64 {
            Some(&self.hexagrams[(number - 1) as usize])
        } else {
            None
        }
    }

    /// The trigram with the given number, if it is 1 to 8.
    pub fn get_trigram(&self, number: u32) -> (r: Option<&Trigram>)
        requires
            self.wf(),
        ensures
            r is Some <==> 1 <= number <= 8,
            r matches Some(t) ==> t.number == number && *t == self.trigrams_view()[number as int
                - 1],
    {
        if 1 <= number && number <= 8 {
            Some(&self.trigrams[(number - 1) as usize])
        } else {
            None
        }
    }

    /// The King Wen number whose hexagram has the given binary text, if any.
    pub fn binary_to_hexagram_number(&self, binary: &str) -> (r: Option<u32>)
        ensures
            r matches Some(n) ==> {
                &&& 1 <= n <= 64
                &&& binary@ == spec_binary(spec_hexagram_code(n as int), 6)
            },
            r is None <==> forall|n: int|
                1 <= n <= 64 ==> binary@ != spec_binary(#[trigger] spec_hexagram_code(n), 6),
    {
        match binary_to_hexagram_number(binary) {
            Ok(n) => Some(n),
            Err(_) => None,
        }
    }

    /// The lower (bottom) trigram of a hexagram.
    pub fn get_lower_trigram(&self, hexagram: &Hexagram) -> (r: Option<&Trigram>)
        requires
            self.wf(),
        ensures
            r is Some <==> 1 <= hexagram.bottom_trigram <= 8,
            r matches Some(t) ==> t.number == hexagram.bottom_trigram,
    {
        self.get_trigram(hexagram.bottom_trigram)
    }

    /// The upper (top) trigram of a hexagram.
    pub fn get_upper_trigram(&self, hexagram: &Hexagram) -> (r: Option<&Trigram>)
        requires
            self.wf(),
        ensures
            r is Some <==> 1 <= hexagram.top_trigram <= 8,
            r matches Some(t) ==> t.number == hexagram.top_trigram,
    {
        self.get_trigram(hexagram.top_trigram)
    }
}

impl Default for IChingEngine {
    /// A fresh engine, as `new` builds it.
    fn default() -> (r: Self)
        ensures
            r.wf(),
    {
        IChingEngine::new()
    }
}

} // verus!
