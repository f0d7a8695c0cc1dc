//! Catalog names (`NameData`): a fixed buffer of 64 C characters holding a
//! NUL-terminated UTF-8 name of at most 63 bytes.

use vstd::prelude::*;
use vstd::utf8::{decode_utf8, encode_utf8, encode_utf8_decode_utf8, encode_utf8_valid_utf8, valid_utf8};

verus! {

/// The size of a `NameData` buffer.
pub const NAMEDATALEN: usize = 64;

/// The longest name, in bytes, that a `NameData` buffer holds.
pub const NAME_MAX_BYTES: usize = 63;

/// The buffer's C characters read as bytes.
pub open spec fn unsigned_bytes(arr: Seq<i8>) -> Seq<u8> {
    arr.map_values(|b: i8| b as u8)
}

/// The index of the first NUL byte at or after `i`, or the length when
/// there is none.
pub open spec fn first_nul_from(bytes: Seq<u8>, i: nat) -> nat
    decreases bytes.len() - i,
{
    if i >= bytes.len() {
        bytes.len()
    } else if bytes[i as int] == 0 {
        i
    } else {
        first_nul_from(bytes, i + 1)
    }
}

/// The bytes of the C string held in a buffer: everything before the first
/// NUL, or the whole buffer when it has none.
pub open spec fn c_string_bytes(arr: Seq<i8>) -> Seq<u8> {
    let u = unsigned_bytes(arr);
    u.take(first_nul_from(u, 0) as int)
}

/// The buffer that stores a name whose UTF-8 encoding is `bytes`: its first
/// 63 bytes at most, then NUL characters up to 64.
pub open spec fn name_data_spec(bytes: Seq<u8>) -> Seq<i8> {
    Seq::new(
        NAMEDATALEN as nat,
        |i: int| if i < bytes.len() && i < NAME_MAX_BYTES { bytes[i] as i8 } else { 0i8 },
    )
}

/// `std::str::from_utf8`: it accepts exactly the byte strings that are
/// well-formed UTF-8, and the string it returns is encoded by those bytes.
#[verifier::external_body]
fn utf8_str(bytes: &[u8]) -> (r: Option<&str>)
    ensures
        r is Some <==> valid_utf8(bytes@),
        r matches Some(s) ==> encode_utf8(s@) == bytes@,
{
    std::str::from_utf8(bytes).ok()
}

/// The bytes of the C string held in a name buffer.
pub fn c_string_bytes_of(arr: &[i8; 64]) -> (r: Vec<u8>)
    ensures
        r@ == c_string_bytes(arr@),
{
    let ghost u = unsigned_bytes(arr@);
    let mut out: Vec<u8> = Vec::new();
    let mut i: usize = 0;
    while i < NAMEDATALEN
        invariant
            i <= NAMEDATALEN,
            arr@.len() == NAMEDATALEN,
            u == unsigned_bytes(arr@),
            out@ == u.take(i as int),
            first_nul_from(u, 0) == first_nul_from(u, i as nat),
        decreases NAMEDATALEN - i,
    {
        let b: u8 = arr[i] as u8;
        assert(b == u[i as int]);
        if b == 0 {
            return out;
        }
        out.push(b);
        assert(out@ =~= u.take(i + 1));
        i = i + 1;
    }
    assert(u.take(i as int) =~= u);
    out
}

/// Reads the name held in a buffer: `None` when its bytes are not UTF-8.
pub fn decode_name_data(arr: &[i8; 64]) -> (r: Option<String>)
    ensures
        r is Some <==> valid_utf8(c_string_bytes(arr@)),
        r matches Some(s) ==> s@ == decode_utf8(c_string_bytes(arr@)),
{
    let bytes = c_string_bytes_of(arr);
    match utf8_str(bytes.as_slice()) {
        Some(s) => {
            proof {
                encode_utf8_decode_utf8(s@);
            }
            Some(s.to_owned())
        },
        None => None,
    }
}

/// Reads the name held in a catalog name buffer: the UTF-8 text before the
/// first NUL.
pub fn char_arr_to_string(arr: &[i8; 64]) -> (r: String)
    requires
        valid_utf8(c_string_bytes(arr@)),
    ensures
        r@ == decode_utf8(c_string_bytes(arr@)),
{
    match decode_name_data(arr) {
        Some(s) => s,
        None => String::new(),
    }
}

/// The buffer that stores `name` in the catalog: its UTF-8 bytes, cut at
/// 63, then NUL characters up to 64.
pub fn name_data(name: &str) -> (r: Vec<i8>)
    ensures
        r@ == name_data_spec(encode_utf8(name@)),
{
    let bytes = name.as_bytes();
    let len: usize = if bytes.len() < NAME_MAX_BYTES { bytes.len() } else { NAME_MAX_BYTES };
    let mut out: Vec<i8> = Vec::new();
    let mut i: usize = 0;
    while i < NAMEDATALEN
        invariant
            i <= NAMEDATALEN,
            bytes@ == encode_utf8(name@),
            len <= bytes@.len(),
            len == if bytes@.len() < NAME_MAX_BYTES { bytes@.len() } else { NAME_MAX_BYTES as nat },
            out@ == name_data_spec(encode_utf8(name@)).take(i as int),
        decreases NAMEDATALEN - i,
    {
        let c: i8 = if i < len { bytes[i] as i8 } else { 0i8 };
        out.push(c);
        assert(out@ =~= name_data_spec(encode_utf8(name@)).take(i + 1));
        i = i + 1;
    }
    assert(out@ =~= name_data_spec(encode_utf8(name@)));
    out
}

proof fn lemma_first_nul_of_stored(u: Seq<u8>, len: nat, i: nat)
    requires
        len < u.len(),
        i <= len,
        u[len as int] == 0,
        forall|j: int| 0 <= j < len ==> u[j] != 0,
    ensures
        first_nul_from(u, i) == len,
    decreases len - i,
{
    if i < len {
        lemma_first_nul_of_stored(u, len, i + 1);
    }
}

/// Storing a name and reading it back gives the name again, for every name
/// the buffer can hold whole: at most 63 bytes, none of them NUL.
pub proof fn law_name_data_round_trip(name: Seq<char>)
    requires
        encode_utf8(name).len() <= NAME_MAX_BYTES,
        forall|i: int| 0 <= i < encode_utf8(name).len() ==> encode_utf8(name)[i] != 0,
    ensures
        c_string_bytes(name_data_spec(encode_utf8(name))) == encode_utf8(name),
        valid_utf8(c_string_bytes(name_data_spec(encode_utf8(name)))),
        decode_utf8(c_string_bytes(name_data_spec(encode_utf8(name)))) == name,
{
    let b = encode_utf8(name);
    let u = unsigned_bytes(name_data_spec(b));
    assert forall|j: int| 0 <= j < b.len() implies u[j] == b[j] by {
        let x = b[j];
        assert((x as i8) as u8 == x) by (bit_vector);
    }
    assert(u[b.len() as int] == 0);
    lemma_first_nul_of_stored(u, b.len(), 0);
    assert(u.take(b.len() as int) =~= b);
    encode_utf8_valid_utf8(name);
    encode_utf8_decode_utf8(name);
}

} // verus!
