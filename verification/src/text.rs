//! Text on the wire: UTF-8 and NUL bytes.

use vstd::prelude::*;
use vstd::slice::{slice_subrange, slice_to_vec};
use vstd::utf8::{decode_utf8, encode_utf8, valid_utf8};

verus! {

/// Calls `String::from_utf8`: bytes that form valid UTF-8 become the text they encode, all
/// others are turned down.
#[verifier::external_body]
fn string_from_utf8(bytes: Vec<u8>) -> (text: Option<String>)
    ensures
        text is Some <==> valid_utf8(bytes@),
        text matches Some(s) ==> s@ == decode_utf8(bytes@),
{
    String::from_utf8(bytes).ok()
}

/// The strings that a payload holds: each ends at a NUL byte, the last one may also end with
/// the payload.
pub open spec fn split_nul(bytes: Seq<u8>) -> Seq<Seq<u8>>
    decreases bytes.len(),
{
    if bytes.len() == 0 {
        seq![]
    } else {
        let end = first_nul(bytes);
        if 0 <= end < bytes.len() {
            seq![bytes.take(end)] + split_nul(bytes.skip(end + 1))
        } else {
            seq![bytes]
        }
    }
}

/// Where the first NUL byte stands; the length where there is none.
pub open spec fn first_nul(bytes: Seq<u8>) -> int
    decreases bytes.len(),
{
    if bytes.len() == 0 || bytes[0] == 0 {
        0
    } else {
        1 + first_nul(bytes.skip(1))
    }
}

/// `end` is where the first NUL byte stands exactly if no NUL byte stands before it and it is
/// the position of one, or the length.
pub proof fn lemma_first_nul(bytes: Seq<u8>, end: int)
    requires
        0 <= end <= bytes.len(),
        forall|i: int| 0 <= i < end ==> bytes[i] != 0,
        end < bytes.len() ==> bytes[end] == 0,
    ensures
        first_nul(bytes) == end,
    decreases bytes.len(),
{
    if end > 0 {
        let rest = bytes.skip(1);
        assert forall|i: int| 0 <= i < end - 1 implies rest[i] != 0 by {
            assert(rest[i] == bytes[i + 1]);
        }
        lemma_first_nul(rest, end - 1);
    }
}

/// The first NUL byte lies inside the byte string or just behind it.
pub proof fn lemma_first_nul_bounds(bytes: Seq<u8>)
    ensures
        0 <= first_nul(bytes) <= bytes.len(),
        forall|i: int| 0 <= i < first_nul(bytes) ==> bytes[i] != 0,
        first_nul(bytes) < bytes.len() ==> bytes[first_nul(bytes)] == 0,
    decreases bytes.len(),
{
    if bytes.len() > 0 && bytes[0] != 0 {
        let rest = bytes.skip(1);
        lemma_first_nul_bounds(rest);
        assert forall|i: int| 0 <= i < first_nul(bytes) implies bytes[i] != 0 by {
            if i > 0 {
                assert(rest[i - 1] == bytes[i]);
            }
        }
    }
}

/// True if every one of the byte strings is UTF-8.
pub open spec fn all_utf8(pieces: Seq<Seq<u8>>) -> bool {
    forall|i: int| 0 <= i < pieces.len() ==> valid_utf8(#[trigger] pieces[i])
}

/// The texts that the byte strings hold.
pub open spec fn decode_all(pieces: Seq<Seq<u8>>) -> Seq<Seq<char>> {
    pieces.map_values(|piece: Seq<u8>| decode_utf8(piece))
}

/// The characters of each of the strings.
pub open spec fn views(strings: Seq<String>) -> Seq<Seq<char>> {
    strings.map_values(|s: String| s@)
}

/// The characters of each of the string slices.
pub open spec fn str_views(strings: Seq<&str>) -> Seq<Seq<char>> {
    strings.map_values(|s: &str| s@)
}

/// The payload that holds the given strings: a NUL byte after each, except that the last one
/// goes without where the payload is not to end in one.
pub open spec fn join_nul(strings: Seq<Seq<char>>, nul_terminated: bool) -> Seq<u8>
    decreases strings.len(),
{
    if strings.len() == 0 {
        seq![]
    } else if strings.len() == 1 && !nul_terminated {
        encode_utf8(strings[0])
    } else {
        encode_utf8(strings[0]) + seq![0u8] + join_nul(strings.skip(1), nul_terminated)
    }
}

/// Returns where the first NUL byte at or behind `start` stands; the length where there is none.
fn next_nul(bytes: &Vec<u8>, start: usize) -> (end: usize)
    requires
        start <= bytes@.len(),
    ensures
        start <= end <= bytes@.len(),
        end == start + first_nul(bytes@.skip(start as int)),
{
    let mut end: usize = start;
    while end < bytes.len() && bytes[end] != 0
        invariant
            start <= end <= bytes@.len(),
            forall|i: int| start <= i < end ==> bytes@[i] != 0,
        decreases bytes@.len() - end,
    {
        end = end + 1;
    }
    proof {
        lemma_first_nul(bytes@.skip(start as int), end - start);
    }
    end
}

/// Reads the text between two positions.
fn text_between(bytes: &Vec<u8>, start: usize, end: usize) -> (text: Option<String>)
    requires
        start <= end <= bytes@.len(),
    ensures
        text is Some <==> valid_utf8(bytes@.subrange(start as int, end as int)),
        text matches Some(s) ==> s@ == decode_utf8(bytes@.subrange(start as int, end as int)),
{
    string_from_utf8(slice_to_vec(slice_subrange(bytes.as_slice(), start, end)))
}

/// Reads the strings that a payload holds, `None` where one of them is not UTF-8.
pub fn read_strings(payload: &Vec<u8>) -> (strings: Option<Vec<String>>)
    ensures
        strings is Some <==> all_utf8(split_nul(payload@)),
        strings matches Some(list) ==> views(list@) == decode_all(split_nul(payload@)),
{
    let mut list: Vec<String> = Vec::new();
    let mut start: usize = 0;
    let ghost pieces = split_nul(payload@);
    assert(payload@.skip(0) =~= payload@);
    while start < payload.len()
        invariant
            start <= payload@.len(),
            pieces == split_nul(payload@),
            list@.len() <= pieces.len(),
            split_nul(payload@.skip(start as int)) == pieces.skip(list@.len() as int),
            forall|i: int| 0 <= i < list@.len() ==> valid_utf8(#[trigger] pieces[i]),
            forall|i: int|
                0 <= i < list@.len() ==> (#[trigger] list@[i])@ == decode_utf8(pieces[i]),
        decreases payload@.len() - start,
    {
        let ghost rest = payload@.skip(start as int);
        let end = next_nul(payload, start);
        let ghost done = list@.len() as int;
        proof {
            lemma_first_nul_bounds(rest);
            assert(rest.take(end - start) =~= payload@.subrange(start as int, end as int));
            if end < payload@.len() {
                assert(rest.skip(end - start + 1) =~= payload@.skip(end + 1));
                assert(split_nul(rest).skip(1) =~= split_nul(payload@.skip(end + 1)));
            } else {
                assert(rest =~= payload@.subrange(start as int, end as int));
                assert(split_nul(rest).skip(1) =~= Seq::empty());
                assert(payload@.skip(end as int) =~= Seq::empty());
            }
            assert(split_nul(rest)[0] == pieces[done]);
            assert(split_nul(rest).skip(1) =~= pieces.skip(done + 1));
        }
        match text_between(payload, start, end) {
            Some(text) => {
                list.push(text);
            },
            None => {
                return None;
            },
        }
        if end < payload.len() {
            start = end + 1;
        } else {
            start = end;
        }
    }
    assert(payload@.skip(start as int) =~= Seq::empty());
    assert(pieces.skip(list@.len() as int).len() == 0);
    assert(views(list@) =~= decode_all(pieces));
    Some(list)
}

/// The bytes in front of the first NUL byte of a payload.
pub open spec fn first_piece(payload: Seq<u8>) -> Seq<u8> {
    payload.take(first_nul(payload))
}

/// Reads the text in front of the first NUL byte, `None` where it is not UTF-8.
pub fn read_first(payload: &Vec<u8>) -> (text: Option<String>)
    ensures
        text is Some <==> valid_utf8(first_piece(payload@)),
        text matches Some(s) ==> s@ == decode_utf8(first_piece(payload@)),
{
    let end = next_nul(payload, 0);
    assert(payload@.skip(0) =~= payload@);
    assert(payload@.subrange(0, end as int) =~= first_piece(payload@));
    text_between(payload, 0, end)
}

/// Appends the UTF-8 encoding of a string.
fn push_text(bytes: &mut Vec<u8>, text: &str)
    ensures
        final(bytes)@ == old(bytes)@ + encode_utf8(text@),
{
    let encoded: &[u8] = text.as_bytes();
    let mut i: usize = 0;
    while i < encoded.len()
        invariant
            i <= encoded@.len(),
            encoded@ == encode_utf8(text@),
            bytes@ == old(bytes)@ + encoded@.take(i as int),
        decreases encoded@.len() - i,
    {
        bytes.push(encoded[i]);
        i = i + 1;
    }
    assert(encoded@.take(i as int) =~= encoded@);
}

/// Builds the payload that holds the given strings.
pub fn write_strings(strings: &[&str], nul_terminated: bool) -> (payload: Vec<u8>)
    ensures
        payload@ == join_nul(str_views(strings@), nul_terminated),
{
    let mut payload: Vec<u8> = Vec::new();
    let mut i: usize = 0;
    let ghost all = str_views(strings@);
    assert(all.skip(0) =~= all);
    while i < strings.len()
        invariant
            i <= strings@.len(),
            all == str_views(strings@),
            payload@ + join_nul(all.skip(i as int), nul_terminated) == join_nul(
                all,
                nul_terminated,
            ),
        decreases strings@.len() - i,
    {
        let ghost before = payload@;
        let ghost rest = all.skip(i as int);
        push_text(&mut payload, strings[i]);
        if nul_terminated || i + 1 < strings.len() {
            payload.push(0);
        }
        proof {
            assert(rest[0] == strings@[i as int]@);
            assert(rest.skip(1) =~= all.skip(i + 1));
            if !nul_terminated && rest.len() == 1 {
                assert(join_nul(all.skip(i + 1), nul_terminated) =~= Seq::empty());
            }
            assert(payload@ + join_nul(all.skip(i + 1), nul_terminated) =~= before + join_nul(
                rest,
                nul_terminated,
            ));
        }
        i = i + 1;
    }
    assert(join_nul(all.skip(i as int), nul_terminated) =~= Seq::empty());
    assert(payload@ =~= join_nul(all, nul_terminated));
    payload
}

} // verus!
