//! The King Wen table: the 64 hexagrams, the eight trigrams, and the
//! correspondence between a hexagram's six lines and its King Wen number.
//!
//! A hexagram's lines are encoded as a six-bit code, bottom line first,
//! yang = 1; a trigram's three lines likewise. `spec_king_wen` and
//! `spec_hexagram_code` are the two directions of the King Wen ordering,
//! and `lemma_king_wen_bijection` proves they invert each other.

use vstd::prelude::*;

use crate::types::{Hexagram, Trigram};

verus! {

/// The code shifted down by `i` lines: bit 0 of the result is line `i`.
pub open spec fn shr_bits(code: int, i: nat) -> int
    decreases i,
{
    if i == 0 {
        code
    } else {
        shr_bits(code, (i - 1) as nat) / 2
    }
}

/// The '0' or '1' character standing for line `i` of a code.
pub open spec fn line_char(code: int, i: int) -> char {
    if shr_bits(code, i as nat) % 2 == 1 {
        '1'
    } else {
        '0'
    }
}

/// The binary text of the bottom `len` lines of a code, bottom line first.
pub open spec fn spec_binary(code: int, len: nat) -> Seq<char> {
    Seq::new(len, |i: int| line_char(code, i))
}

/// The King Wen number of the hexagram whose lines form `code`.
pub open spec fn spec_king_wen(code: int) -> int {
    if code == 0 {
        2
    } else if code == 1 {
        24
    } else if code == 2 {
        7
    } else if code == 3 {
        19
    } else if code == 4 {
        15
    } else if code == 5 {
        36
    } else if code == 6 {
        46
    } else if code == 7 {
        11
    } else if code == 8 {
        16
    } else if code == 9 {
        51
    } else if code == 10 {
        40
    } else if code == 11 {
        54
    } else if code == 12 {
        62
    } else if code == 13 {
        55
    } else if code == 14 {
        32
    } else if code == 15 {
        34
    } else if code == 16 {
        8
    } else if code == 17 {
        3
    } else if code == 18 {
        29
    } else if code == 19 {
        60
    } else if code == 20 {
        39
    } else if code == 21 {
        63
    } else if code == 22 {
        48
    } else if code == 23 {
        5
    } else if code == 24 {
        45
    } else if code == 25 {
        17
    } else if code == 26 {
        47
    } else if code == 27 {
        58
    } else if code == 28 {
        31
    } else if code == 29 {
        49
    } else if code == 30 {
        28
    } else if code == 31 {
        43
    } else if code == 32 {
        23
    } else if code == 33 {
        27
    } else if code == 34 {
        4
    } else if code == 35 {
        41
    } else if code == 36 {
        52
    } else if code == 37 {
        22
    } else if code == 38 {
        18
    } else if code == 39 {
        26
    } else if code == 40 {
        35
    } else if code == 41 {
        21
    } else if code == 42 {
        64
    } else if code == 43 {
        38
    } else if code == 44 {
        56
    } else if code == 45 {
        30
    } else if code == 46 {
        50
    } else if code == 47 {
        14
    } else if code == 48 {
        20
    } else if code == 49 {
        42
    } else if code == 50 {
        59
    } else if code == 51 {
        61
    } else if code == 52 {
        53
    } else if code == 53 {
        37
    } else if code == 54 {
        57
    } else if code == 55 {
        9
    } else if code == 56 {
        12
    } else if code == 57 {
        25
    } else if code == 58 {
        6
    } else if code == 59 {
        10
    } else if code == 60 {
        33
    } else if code == 61 {
        13
    } else if code == 62 {
        44
    } else {
        1
    }
}

/// The line code of the King Wen hexagram `n`.
pub open spec fn spec_hexagram_code(n: int) -> int {
    if n == 1 {
        63
    } else if n == 2 {
        0
    } else if n == 3 {
        17
    } else if n == 4 {
        34
    } else if n == 5 {
        23
    } else if n == 6 {
        58
    } else if n == 7 {
        2
    } else if n == 8 {
        16
    } else if n == 9 {
        55
    } else if n == 10 {
        59
    } else if n == 11 {
        7
    } else if n == 12 {
        56
    } else if n == 13 {
        61
    } else if n == 14 {
        47
    } else if n == 15 {
        4
    } else if n == 16 {
        8
    } else if n == 17 {
        25
    } else if n == 18 {
        38
    } else if n == 19 {
        3
    } else if n == 20 {
        48
    } else if n == 21 {
        41
    } else if n == 22 {
        37
    } else if n == 23 {
        32
    } else if n == 24 {
        1
    } else if n == 25 {
        57
    } else if n == 26 {
        39
    } else if n == 27 {
        33
    } else if n == 28 {
        30
    } else if n == 29 {
        18
    } else if n == 30 {
        45
    } else if n == 31 {
        28
    } else if n == 32 {
        14
    } else if n == 33 {
        60
    } else if n == 34 {
        15
    } else if n == 35 {
        40
    } else if n == 36 {
        5
    } else if n == 37 {
        53
    } else if n == 38 {
        43
    } else if n == 39 {
        20
    } else if n == 40 {
        10
    } else if n == 41 {
        35
    } else if n == 42 {
        49
    } else if n == 43 {
        31
    } else if n == 44 {
        62
    } else if n == 45 {
        24
    } else if n == 46 {
        6
    } else if n == 47 {
        26
    } else if n == 48 {
        22
    } else if n == 49 {
        29
    } else if n == 50 {
        46
    } else if n == 51 {
        9
    } else if n == 52 {
        36
    } else if n == 53 {
        52
    } else if n == 54 {
        11
    } else if n == 55 {
        13
    } else if n == 56 {
        44
    } else if n == 57 {
        54
    } else if n == 58 {
        27
    } else if n == 59 {
        50
    } else if n == 60 {
        19
    } else if n == 61 {
        51
    } else if n == 62 {
        12
    } else if n == 63 {
        21
    } else     {
        42
    }
}

/// The King Wen number for a six-line code.
pub fn king_wen_number(code: u8) -> (n: u32)
    requires
        code < 64,
    ensures
        1 <= n <= 64,
        n == spec_king_wen(code as int),
{
    match code {
        0 => 2,
        1 => 24,
        2 => 7,
        3 => 19,
        4 => 15,
        5 => 36,
        6 => 46,
        7 => 11,
        8 => 16,
        9 => 51,
        10 => 40,
        11 => 54,
        12 => 62,
        13 => 55,
        14 => 32,
        15 => 34,
        16 => 8,
        17 => 3,
        18 => 29,
        19 => 60,
        20 => 39,
        21 => 63,
        22 => 48,
        23 => 5,
        24 => 45,
        25 => 17,
        26 => 47,
        27 => 58,
        28 => 31,
        29 => 49,
        30 => 28,
        31 => 43,
        32 => 23,
        33 => 27,
        34 => 4,
        35 => 41,
        36 => 52,
        37 => 22,
        38 => 18,
        39 => 26,
        40 => 35,
        41 => 21,
        42 => 64,
        43 => 38,
        44 => 56,
        45 => 30,
        46 => 50,
        47 => 14,
        48 => 20,
        49 => 42,
        50 => 59,
        51 => 61,
        52 => 53,
        53 => 37,
        54 => 57,
        55 => 9,
        56 => 12,
        57 => 25,
        58 => 6,
        59 => 10,
        60 => 33,
        61 => 13,
        62 => 44,
        _ => 1,
    }
}

/// The six-line code of the King Wen hexagram `n`.
pub fn hexagram_code(n: u32) -> (c: u8)
    requires
        1 <= n <= 64,
    ensures
        c < 64,
        c == spec_hexagram_code(n as int),
        spec_king_wen(c as int) == n as int,
{
    match n {
        1 => 63,
        2 => 0,
        3 => 17,
        4 => 34,
        5 => 23,
        6 => 58,
        7 => 2,
        8 => 16,
        9 => 55,
        10 => 59,
        11 => 7,
        12 => 56,
        13 => 61,
        14 => 47,
        15 => 4,
        16 => 8,
        17 => 25,
        18 => 38,
        19 => 3,
        20 => 48,
        21 => 41,
        22 => 37,
        23 => 32,
        24 => 1,
        25 => 57,
        26 => 39,
        27 => 33,
        28 => 30,
        29 => 18,
        30 => 45,
        31 => 28,
        32 => 14,
        33 => 60,
        34 => 15,
        35 => 40,
        36 => 5,
        37 => 53,
        38 => 43,
        39 => 20,
        40 => 10,
        41 => 35,
        42 => 49,
        43 => 31,
        44 => 62,
        45 => 24,
        46 => 6,
        47 => 26,
        48 => 22,
        49 => 29,
        50 => 46,
        51 => 9,
        52 => 36,
        53 => 52,
        54 => 11,
        55 => 13,
        56 => 44,
        57 => 54,
        58 => 27,
        59 => 50,
        60 => 19,
        61 => 51,
        62 => 12,
        63 => 21,
        _ => 42,
    }
}

/// Each direction of the King Wen ordering undoes the other: a hexagram's
/// lines name its number, and that number names its lines.
#[verifier::rlimit(60)]
pub proof fn lemma_king_wen_bijection()
    ensures
        forall|c: int|
            0 <= c < 64 ==> spec_hexagram_code(#[trigger] spec_king_wen(c)) == c,
        forall|n: int|
            1 <= n <= 64 ==> spec_king_wen(#[trigger] spec_hexagram_code(n)) == n,
{
    assert(forall|c: int|
        0 <= c < 64 ==> spec_hexagram_code(#[trigger] spec_king_wen(c)) == c);
    assert(forall|n: int|
        1 <= n <= 64 ==> spec_king_wen(#[trigger] spec_hexagram_code(n)) == n);
}

/// The binary text of the bottom `len` lines of `code`, bottom line first.
pub fn code_to_binary(code: u8, len: usize) -> (r: String)
    requires
        len <= 6,
    ensures
        r@ == spec_binary(code as int, len as nat),
{
    let mut s = String::new();
    let mut c: u8 = code;
    let mut k: usize = 0;
    while k < len
        invariant
            k <= len,
            c as int == shr_bits(code as int, k as nat),
            s@.len() == k,
            forall|i: int| 0 <= i < k ==> s@[i] == line_char(code as int, i),
        decreases len - k,
    {
        proof {
            reveal_strlit("0");
            reveal_strlit("1");
            assert(shr_bits(code as int, (k + 1) as nat) == shr_bits(code as int, k as nat) / 2);
        }
        if c % 2 == 1 {
            s.append("1");
        } else {
            s.append("0");
        }
        c = c / 2;
        k += 1;
    }
    proof {
        assert(s@ =~= spec_binary(code as int, len as nat));
    }
    s
}

/// The traditional number of the trigram whose lines form `code`.
pub open spec fn spec_trigram_number(code: int) -> int {
    if code == 7 {
        1
    } else if code == 3 {
        2
    } else if code == 5 {
        3
    } else if code == 1 {
        4
    } else if code == 6 {
        5
    } else if code == 2 {
        6
    } else if code == 4 {
        7
    } else {
        8
    }
}

/// The three-line code of the trigram numbered `n`.
pub open spec fn spec_trigram_code(n: int) -> int {
    if n == 1 {
        7
    } else if n == 2 {
        3
    } else if n == 3 {
        5
    } else if n == 4 {
        1
    } else if n == 5 {
        6
    } else if n == 6 {
        2
    } else if n == 7 {
        4
    } else {
        0
    }
}

/// The trigram number for a three-line code.
pub fn trigram_number(code: u8) -> (n: u32)
    requires
        code < 8,
    ensures
        1 <= n <= 8,
        n == spec_trigram_number(code as int),
{
    match code {
        7 => 1,
        3 => 2,
        5 => 3,
        1 => 4,
        6 => 5,
        2 => 6,
        4 => 7,
        _ => 8,
    }
}

/// The three-line code of the trigram numbered `n`.
pub fn trigram_code(n: u32) -> (c: u8)
    requires
        1 <= n <= 8,
    ensures
        c < 8,
        c == spec_trigram_code(n as int),
        spec_trigram_number(c as int) == n as int,
{
    match n {
        1 => 7,
        2 => 3,
        3 => 5,
        4 => 1,
        5 => 6,
        6 => 2,
        7 => 4,
        _ => 0,
    }
}

/// The trigram record numbered `n`: name, lines and traditional imagery.
pub fn trigram_data(n: u32) -> (t: Trigram)
    requires
        1 <= n <= 8,
    ensures
        t.number == n,
        t.binary@ == spec_binary(spec_trigram_code(n as int), 3),
{
    let code = trigram_code(n);
    let binary = code_to_binary(code, 3);
    let lines: Vec<u8> = vec![code % 2, (code / 2) % 2, (code / 4) % 2];
    let (name, english_name, character) = match n {
        1 => ("Qian", "Heaven", "☰"),
        2 => ("Dui", "Lake", "☱"),
        3 => ("Li", "Fire", "☲"),
        4 => ("Zhen", "Thunder", "☳"),
        5 => ("Xun", "Wind", "☴"),
        6 => ("Kan", "Water", "☵"),
        7 => ("Gen", "Mountain", "☶"),
        _ => ("Kun", "Earth", "☷"),
    };
    let (attribute, image, family) = match n {
        1 => ("strong", "heaven", "father"),
        2 => ("joyful", "lake", "youngest daughter"),
        3 => ("light-giving", "fire", "middle daughter"),
        4 => ("arousing", "thunder", "eldest son"),
        5 => ("gentle", "wind", "eldest daughter"),
        6 => ("abysmal", "water", "middle son"),
        7 => ("resting", "mountain", "youngest son"),
        _ => ("devoted", "earth", "mother"),
    };
    let (element, direction, body_part) = match n {
        1 => ("metal", "northwest", "head"),
        2 => ("metal", "west", "mouth"),
        3 => ("fire", "south", "eye"),
        4 => ("wood", "east", "foot"),
        5 => ("wood", "southeast", "thigh"),
        6 => ("water", "north", "ear"),
        7 => ("earth", "northeast", "hand"),
        _ => ("earth", "southwest", "belly"),
    };
    Trigram {
        number: n,
        name: String::from_str(name),
        english_name: String::from_str(english_name),
        character: String::from_str(character),
        binary,
        lines,
        attribute: String::from_str(attribute),
        image: String::from_str(image),
        family: String::from_str(family),
        element: String::from_str(element),
        direction: String::from_str(direction),
        body_part: String::from_str(body_part),
    }
}

/// The eight trigrams in traditional order.
pub fn all_trigrams() -> (r: Vec<Trigram>)
    ensures
        r@.len() == 8,
        forall|i: int| 0 <= i < 8 ==> (#[trigger] r@[i]).number as int == i + 1,
{
    let mut r: Vec<Trigram> = Vec::new();
    let mut n: u32 = 1;
    while n <= 8
        invariant
            1 <= n <= 9,
            r@.len() == n - 1,
            forall|i: int| 0 <= i < n - 1 ==> (#[trigger] r@[i]).number as int == i + 1,
        decreases 9 - n,
    {
        let t = trigram_data(n);
        r.push(t);
        n += 1;
    }
    r
}

/// The pinyin and translated names of the King Wen hexagram `n`.
fn hexagram_names(n: u32) -> (&'static str, &'static str, &'static str)
    requires
        1 <= n <= 64,
{
    match n {
        1 => ("Qian", "The Creative", "䷀"),
        2 => ("Kun", "The Receptive", "䷁"),
        3 => ("Zhun", "Difficulty at the Beginning", "䷂"),
        4 => ("Meng", "Youthful Folly", "䷃"),
        5 => ("Xu", "Waiting", "䷄"),
        6 => ("Song", "Conflict", "䷅"),
        7 => ("Shi", "The Army", "䷆"),
        8 => ("Bi", "Holding Together", "䷇"),
        9 => ("Xiao Chu", "The Taming Power of the Small", "䷈"),
        10 => ("Lü", "Treading", "䷉"),
        11 => ("Tai", "Peace", "䷊"),
        12 => ("Pi", "Standstill", "䷋"),
        13 => ("Tong Ren", "Fellowship with Men", "䷌"),
        14 => ("Da You", "Possession in Great Measure", "䷍"),
        15 => ("Qian", "Modesty", "䷎"),
        16 => ("Yu", "Enthusiasm", "䷏"),
        17 => ("Sui", "Following", "䷐"),
        18 => ("Gu", "Work on What Has Been Spoiled", "䷑"),
        19 => ("Lin", "Approach", "䷒"),
        20 => ("Guan", "Contemplation", "䷓"),
        21 => ("Shi He", "Biting Through", "䷔"),
        22 => ("Bi", "Grace", "䷕"),
        23 => ("Bo", "Splitting Apart", "䷖"),
        24 => ("Fu", "Return", "䷗"),
        25 => ("Wu Wang", "Innocence", "䷘"),
        26 => ("Da Chu", "The Taming Power of the Great", "䷙"),
        27 => ("Yi", "The Corners of the Mouth", "䷚"),
        28 => ("Da Guo", "Preponderance of the Great", "䷛"),
        29 => ("Kan", "The Abysmal", "䷜"),
        30 => ("Li", "The Clinging", "䷝"),
        31 => ("Xian", "Influence", "䷞"),
        32 => ("Heng", "Duration", "䷟"),
        33 => ("Dun", "Retreat", "䷠"),
        34 => ("Da Zhuang", "The Power of the Great", "䷡"),
        35 => ("Jin", "Progress", "䷢"),
        36 => ("Ming Yi", "Darkening of the Light", "䷣"),
        37 => ("Jia Ren", "The Family", "䷤"),
        38 => ("Kui", "Opposition", "䷥"),
        39 => ("Jian", "Obstruction", "䷦"),
        40 => ("Jie", "Deliverance", "䷧"),
        41 => ("Sun", "Decrease", "䷨"),
        42 => ("Yi", "Increase", "䷩"),
        43 => ("Guai", "Break-through", "䷪"),
        44 => ("Gou", "Coming to Meet", "䷫"),
        45 => ("Cui", "Gathering Together", "䷬"),
        46 => ("Sheng", "Pushing Upward", "䷭"),
        47 => ("Kun", "Oppression", "䷮"),
        48 => ("Jing", "The Well", "䷯"),
        49 => ("Ge", "Revolution", "䷰"),
        50 => ("Ding", "The Caldron", "䷱"),
        51 => ("Zhen", "The Arousing", "䷲"),
        52 => ("Gen", "Keeping Still", "䷳"),
        53 => ("Jian", "Development", "䷴"),
        54 => ("Gui Mei", "The Marrying Maiden", "䷵"),
        55 => ("Feng", "Abundance", "䷶"),
        56 => ("Lü", "The Wanderer", "䷷"),
        57 => ("Xun", "The Gentle", "䷸"),
        58 => ("Dui", "The Joyous", "䷹"),
        59 => ("Huan", "Dispersion", "䷺"),
        60 => ("Jie", "Limitation", "䷻"),
        61 => ("Zhong Fu", "Inner Truth", "䷼"),
        62 => ("Xiao Guo", "Preponderance of the Small", "䷽"),
        63 => ("Ji Ji", "After Completion", "䷾"),
        _ => ("Wei Ji", "Before Completion", "䷿"),
    }
}

/// The hexagram record numbered `n`: names, lines and trigram parts.
pub fn hexagram_data(n: u32) -> (h: Hexagram)
    requires
        1 <= n <= 64,
    ensures
        h.number == n,
        h.binary@ == spec_binary(spec_hexagram_code(n as int), 6),
        h.bottom_trigram as int == spec_trigram_number(spec_hexagram_code(n as int) % 8),
        h.top_trigram as int == spec_trigram_number(spec_hexagram_code(n as int) / 8),
        1 <= h.bottom_trigram <= 8,
        1 <= h.top_trigram <= 8,
{
    let code = hexagram_code(n);
    let binary = code_to_binary(code, 6);
    let bottom_trigram = trigram_number(code % 8);
    let top_trigram = trigram_number(code / 8);
    let (name, english_name, character) = hexagram_names(n);
    let judgment = String::from_str(english_name).concat(
        ": weigh the moment before acting on it.",
    );
    let image = String::from_str("The image joins the trigrams that form ").concat(name).concat(
        ".",
    );
    let description = String::from_str(name).concat(", ").concat(english_name).concat(
        ", one of the sixty-four hexagrams of the King Wen sequence.",
    );
    let keywords: Vec<String> = vec![String::from_str(name), String::from_str(english_name)];
    Hexagram {
        number: n,
        name: String::from_str(name),
        english_name: String::from_str(english_name),
        character: String::from_str(character),
        binary,
        top_trigram,
        bottom_trigram,
        judgment,
        image,
        lines: Vec::new(),
        keywords,
        description,
    }
}

/// The 64 hexagrams in King Wen order.
pub fn all_hexagrams() -> (r: Vec<Hexagram>)
    ensures
        r@.len() == 64,
        forall|i: int| 0 <= i < 64 ==> (#[trigger] r@[i]).number as int == i + 1,
        forall|i: int|
            0 <= i < 64 ==> (#[trigger] r@[i]).binary@ == spec_binary(spec_hexagram_code(i + 1), 6),
{
    let mut r: Vec<Hexagram> = Vec::new();
    let mut n: u32 = 1;
    while n <= 64
        invariant
            1 <= n <= 65,
            r@.len() == n - 1,
            forall|i: int| 0 <= i < n - 1 ==> (#[trigger] r@[i]).number as int == i + 1,
            forall|i: int|
                0 <= i < n - 1 ==> (#[trigger] r@[i]).binary@ == spec_binary(
                    spec_hexagram_code(i + 1),
                    6,
                ),
        decreases 65 - n,
    {
        let h = hexagram_data(n);
        r.push(h);
        n += 1;
    }
    r
}

} // verus!
