//! Content hashes and comparison of contents.

use vstd::prelude::*;
use vstd::string::*;

verus! {

/// The hash of bytes, as std's `DefaultHasher` computes it.
pub uninterp spec fn hashed(data: Seq<u8>) -> u64;

/// Hashes bytes with std's `DefaultHasher`: calls `DefaultHasher::new`,
/// `Hash::hash` on the bytes and `Hasher::finish`. The algorithm is std's
/// own and may change between versions of std, so the result only gets a
/// name: all hashers made by `new` are the same, so the same bytes give the
/// same hash.
#[verifier::external_body]
pub fn simple_hash(data: &[u8]) -> (hash: u64)
    ensures
        hash == hashed(data@),
{
    let mut hasher = std::collections::hash_map::DefaultHasher::new();
    std::hash::Hash::hash(data, &mut hasher);
    std::hash::Hasher::finish(&hasher)
}

/// The hexadecimal digit for a value below sixteen, in lowercase.
pub open spec fn hex_digit(d: int) -> char {
    if d == 0 {
        '0'
    } else if d == 1 {
        '1'
    } else if d == 2 {
        '2'
    } else if d == 3 {
        '3'
    } else if d == 4 {
        '4'
    } else if d == 5 {
        '5'
    } else if d == 6 {
        '6'
    } else if d == 7 {
        '7'
    } else if d == 8 {
        '8'
    } else if d == 9 {
        '9'
    } else if d == 10 {
        'a'
    } else if d == 11 {
        'b'
    } else if d == 12 {
        'c'
    } else if d == 13 {
        'd'
    } else if d == 14 {
        'e'
    } else {
        'f'
    }
}

/// Hexadecimal notation of a natural number, in lowercase, without leading
/// zeros.
pub open spec fn hexadecimal(n: nat) -> Seq<char>
    decreases n,
{
    if n < 16 {
        seq![hex_digit(n as int)]
    } else {
        hexadecimal(n / 16).push(hex_digit((n % 16) as int))
    }
}

fn hex_str(d: u64) -> (s: &'static str)
    requires
        d < 16,
    ensures
        s@ == seq![hex_digit(d as int)],
{
    proof {
        reveal_strlit("0");
        reveal_strlit("1");
        reveal_strlit("2");
        reveal_strlit("3");
        reveal_strlit("4");
        reveal_strlit("5");
        reveal_strlit("6");
        reveal_strlit("7");
        reveal_strlit("8");
        reveal_strlit("9");
        reveal_strlit("a");
        reveal_strlit("b");
        reveal_strlit("c");
        reveal_strlit("d");
        reveal_strlit("e");
        reveal_strlit("f");
    }
    let s = if d == 0 {
        "0"
    } else if d == 1 {
        "1"
    } else if d == 2 {
        "2"
    } else if d == 3 {
        "3"
    } else if d == 4 {
        "4"
    } else if d == 5 {
        "5"
    } else if d == 6 {
        "6"
    } else if d == 7 {
        "7"
    } else if d == 8 {
        "8"
    } else if d == 9 {
        "9"
    } else if d == 10 {
        "a"
    } else if d == 11 {
        "b"
    } else if d == 12 {
        "c"
    } else if d == 13 {
        "d"
    } else if d == 14 {
        "e"
    } else {
        "f"
    };
    assert(s@ =~= seq![hex_digit(d as int)]);
    s
}

/// Writes a number in hexadecimal notation.
pub fn hexadecimal_string(n: u64) -> (s: String)
    ensures
        s@ == hexadecimal(n as nat),
    decreases n,
{
    if n < 16 {
        String::from_str(hex_str(n))
    } else {
        let head = hexadecimal_string(n / 16);
        let s = head.concat(hex_str(n % 16));
        assert(s@ =~= hexadecimal(n as nat));
        s
    }
}

/// The id that goes with a content hash: "content_" and the hash in
/// hexadecimal notation.
pub fn content_id_of(hash: u64) -> (id: String)
    ensures
        id@ == "content_"@ + hexadecimal(hash as nat),
{
    String::from_str("content_").concat(hexadecimal_string(hash).as_str())
}

/// Generates a content-based id from data: "content_" and the hash of the
/// data in hexadecimal notation. The same content gives the same id.
pub fn content_id(data: &[u8]) -> (id: String)
    ensures
        id@ == "content_"@ + hexadecimal(hashed(data@) as nat),
{
    content_id_of(simple_hash(data))
}

/// Checks if two byte arrays have the same content.
pub fn content_equal(data1: &[u8], data2: &[u8]) -> (b: bool)
    ensures
        b == (data1@ == data2@),
{
    if data1.len() != data2.len() {
        return false;
    }
    let mut i: usize = 0;
    while i < data1.len()
        invariant
            i <= data1@.len(),
            data1@.len() == data2@.len(),
            forall|j: int| 0 <= j < i ==> data1@[j] == data2@[j],
        decreases data1@.len() - i,
    {
        if data1[i] != data2[i] {
            return false;
        }
        i += 1;
    }
    assert(data1@ =~= data2@);
    true
}

} // verus!
