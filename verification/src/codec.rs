use vstd::prelude::*;
use rand::Rng;

verus! {

/// A character accepted in user-supplied slugs: an ASCII letter or digit.
pub open spec fn is_whitelist_char(c: char) -> bool {
    ||| 'A' as u32 <= c as u32 && c as u32 <= 'Z' as u32
    ||| 'a' as u32 <= c as u32 && c as u32 <= 'z' as u32
    ||| '0' as u32 <= c as u32 && c as u32 <= '9' as u32
}

/// A user-supplied slug is acceptable exactly when every one of its
/// characters belongs to the whitelist.
pub open spec fn is_valid_custom(s: Seq<char>) -> bool {
    forall|i: int| 0 <= i < s.len() ==> is_whitelist_char(#[trigger] s[i])
}

/// A character of the generated-slug alphabet: the whitelist without the
/// visually ambiguous characters `0`, `O`, `1`, `I` and `l`.
pub open spec fn is_slug_char(c: char) -> bool {
    &&& is_whitelist_char(c)
    &&& c != '0'
    &&& c != 'O'
    &&& c != '1'
    &&& c != 'I'
    &&& c != 'l'
}

/// The generated-slug alphabet in drawing order: index by index, the
/// character a drawn index maps to.
pub open spec fn slug_alphabet() -> Seq<char> {
    "ABCDEFGHJKLMNPQRSTUVWXYZabcdefghijkmnopqrstuvwxyz23456789"@
}

/// Every character of `s` comes from the generated-slug alphabet.
pub open spec fn all_slug_chars(s: Seq<char>) -> bool {
    forall|i: int| 0 <= i < s.len() ==> is_slug_char(#[trigger] s[i])
}

/// Decide whether a user-supplied slug is made of whitelist characters only.
pub fn is_clean(slug: &str) -> (r: bool)
    ensures
        r == is_valid_custom(slug@),
{
    let n: usize = slug.unicode_len();
    let mut i: usize = 0;
    while i < n
        invariant
            i <= n,
            n == slug@.len(),
            forall|j: int| 0 <= j < i ==> is_whitelist_char(#[trigger] slug@[j]),
        decreases n - i,
    {
        let c: char = slug.get_char(i);
        let u: u32 = c as u32;
        if !((65 <= u && u <= 90) || (97 <= u && u <= 122) || (48 <= u && u <= 57)) {
            assert(!is_whitelist_char(slug@[i as int]));
            return false;
        }
        i += 1;
    }
    true
}

/// Relies on rand's `gen_range`: a draw from `0..bound`, uniform over that
/// range, which panics only when the range is empty.
#[verifier::external_body]
fn random_index(bound: usize) -> (r: usize)
    requires
        1 <= bound,
    ensures
        r < bound,
{
    rand::thread_rng().gen_range(0..bound)
}

/// One character of the generated-slug alphabet, as a one-character
/// string: the ASCII letters and digits without `0`, `O`, `1`, `I` and `l`.
fn slug_piece(i: usize) -> (p: &'static str)
    requires
        i < 57,
    ensures
        p@.len() == 1,
        p@[0] == slug_alphabet()[i as int],
        is_slug_char(p@[0]),
{
    proof {
        reveal_strlit("ABCDEFGHJKLMNPQRSTUVWXYZabcdefghijkmnopqrstuvwxyz23456789");
        reveal_strlit("A");
        reveal_strlit("B");
        reveal_strlit("C");
        reveal_strlit("D");
        reveal_strlit("E");
        reveal_strlit("F");
        reveal_strlit("G");
        reveal_strlit("H");
        reveal_strlit("J");
        reveal_strlit("K");
        reveal_strlit("L");
        reveal_strlit("M");
        reveal_strlit("N");
        reveal_strlit("P");
        reveal_strlit("Q");
        reveal_strlit("R");
        reveal_strlit("S");
        reveal_strlit("T");
        reveal_strlit("U");
        reveal_strlit("V");
        reveal_strlit("W");
        reveal_strlit("X");
        reveal_strlit("Y");
        reveal_strlit("Z");
        reveal_strlit("a");
        reveal_strlit("b");
        reveal_strlit("c");
        reveal_strlit("d");
        reveal_strlit("e");
        reveal_strlit("f");
        reveal_strlit("g");
        reveal_strlit("h");
        reveal_strlit("i");
        reveal_strlit("j");
        reveal_strlit("k");
        reveal_strlit("m");
        reveal_strlit("n");
        reveal_strlit("o");
        reveal_strlit("p");
        reveal_strlit("q");
        reveal_strlit("r");
        reveal_strlit("s");
        reveal_strlit("t");
        reveal_strlit("u");
        reveal_strlit("v");
        reveal_strlit("w");
        reveal_strlit("x");
        reveal_strlit("y");
        reveal_strlit("z");
        reveal_strlit("2");
        reveal_strlit("3");
        reveal_strlit("4");
        reveal_strlit("5");
        reveal_strlit("6");
        reveal_strlit("7");
        reveal_strlit("8");
        reveal_strlit("9");
    }
    match i {
        0 => "A",
        1 => "B",
        2 => "C",
        3 => "D",
        4 => "E",
        5 => "F",
        6 => "G",
        7 => "H",
        8 => "J",
        9 => "K",
        10 => "L",
        11 => "M",
        12 => "N",
        13 => "P",
        14 => "Q",
        15 => "R",
        16 => "S",
        17 => "T",
        18 => "U",
        19 => "V",
        20 => "W",
        21 => "X",
        22 => "Y",
        23 => "Z",
        24 => "a",
        25 => "b",
        26 => "c",
        27 => "d",
        28 => "e",
        29 => "f",
        30 => "g",
        31 => "h",
        32 => "i",
        33 => "j",
        34 => "k",
        35 => "m",
        36 => "n",
        37 => "o",
        38 => "p",
        39 => "q",
        40 => "r",
        41 => "s",
        42 => "t",
        43 => "u",
        44 => "v",
        45 => "w",
        46 => "x",
        47 => "y",
        48 => "z",
        49 => "2",
        50 => "3",
        51 => "4",
        52 => "5",
        53 => "6",
        54 => "7",
        55 => "8",
        _ => "9",
    }
}

/// Build a random slug of exactly `len` characters, each drawn from the
/// generated-slug alphabet.
pub fn generate_slug(len: usize) -> (r: String)
    ensures
        r@.len() == len,
        all_slug_chars(r@),
{
    let mut s: String = String::new();
    let mut k: usize = 0;
    while k < len
        invariant
            k <= len,
            s@.len() == k,
            all_slug_chars(s@),
        decreases len - k,
    {
        let i: usize = random_index(57);
        let piece: &str = slug_piece(i);
        s.append(piece);
        k += 1;
    }
    s
}

} // verus!
