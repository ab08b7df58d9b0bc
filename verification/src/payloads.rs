//! What payloads hold: the strings that are put into one and read out of one.

use vstd::prelude::*;
use vstd::utf8::{
    decode_utf8, decode_utf8_encode_utf8, encode_utf8, encode_utf8_decode_utf8,
    encode_utf8_valid_utf8, valid_utf8,
};

use crate::error::XsError;
use crate::text::{
    all_utf8, decode_all, first_nul, first_piece, join_nul, lemma_first_nul,
    lemma_first_nul_bounds, read_first, read_strings, split_nul, write_strings,
};
use crate::wire::{XsMessage, XsMessageType};

verus! {

/// The byte strings one after the other, each with a NUL byte behind it.
pub open spec fn lines(pieces: Seq<Seq<u8>>) -> Seq<u8> {
    pieces.map_values(|piece: Seq<u8>| piece.push(0u8)).flatten()
}

/// The payload with a NUL byte behind its last string, where it does not end in one.
pub open spec fn terminated(payload: Seq<u8>) -> Seq<u8> {
    if payload.len() == 0 || payload.last() == 0 {
        payload
    } else {
        payload.push(0u8)
    }
}

/// True if the payload is made of just these texts: their UTF-8, none of it a NUL byte, with one
/// NUL byte behind each, which may be missing behind the last.
pub open spec fn holds(payload: Seq<u8>, texts: Seq<Seq<char>>) -> bool {
    &&& forall|i: int|
        0 <= i < texts.len() ==> !(#[trigger] encode_utf8(texts[i])).contains(0u8)
    &&& lines(texts.map_values(|text: Seq<char>| encode_utf8(text))) == terminated(payload)
}

/// True if the payload begins with this text: its UTF-8, none of it a NUL byte, and then a NUL
/// byte or nothing.
pub open spec fn begins(payload: Seq<u8>, text: Seq<char>) -> bool {
    let bytes = encode_utf8(text);
    &&& !bytes.contains(0u8)
    &&& bytes.len() <= payload.len()
    &&& payload.take(bytes.len() as int) == bytes
    &&& bytes.len() < payload.len() ==> payload[bytes.len() as int] == 0
}

/// The first line stands in front of the others.
proof fn lemma_lines_first(pieces: Seq<Seq<u8>>)
    requires
        pieces.len() > 0,
    ensures
        lines(pieces) == pieces[0].push(0u8) + lines(pieces.skip(1)),
{
    let all = pieces.map_values(|piece: Seq<u8>| piece.push(0u8));
    let rest = pieces.skip(1).map_values(|piece: Seq<u8>| piece.push(0u8));
    assert(all.drop_first() =~= rest);
    assert(all.first() == pieces[0].push(0u8));
}

/// Lines end in a NUL byte, unless there are none.
pub(crate) proof fn lemma_lines_end(pieces: Seq<Seq<u8>>)
    ensures
        terminated(lines(pieces)) == lines(pieces),
    decreases pieces.len(),
{
    if pieces.len() > 0 {
        let rest = pieces.skip(1);
        lemma_lines_first(pieces);
        lemma_lines_end(rest);
        if lines(rest).len() > 0 {
            assert(lines(pieces).last() == lines(rest).last());
        }
    }
}

/// Nothing is lost or added when a payload is taken apart: its strings hold no NUL byte, and with
/// one behind each they make up the payload again.
pub proof fn law_strings_make_up_the_payload(payload: Seq<u8>)
    ensures
        forall|i: int|
            0 <= i < split_nul(payload).len() ==> !(#[trigger] split_nul(payload)[i]).contains(
                0u8,
            ),
        lines(split_nul(payload)) == terminated(payload),
    decreases payload.len(),
{
    let pieces = split_nul(payload);
    if payload.len() == 0 {
        assert(lines(pieces) =~= payload);
    } else {
        let end = first_nul(payload);
        lemma_first_nul_bounds(payload);
        lemma_lines_first(pieces);
        if end < payload.len() {
            let rest = payload.skip(end + 1);
            law_strings_make_up_the_payload(rest);
            assert(pieces.skip(1) =~= split_nul(rest));
            assert forall|i: int| 0 <= i < pieces.len() implies !(
            #[trigger] pieces[i]).contains(0u8) by {
                if i > 0 {
                    assert(pieces[i] == split_nul(rest)[i - 1]);
                }
            }
            assert(payload =~= payload.take(end).push(0u8) + rest);
            if rest.len() > 0 {
                assert(rest.last() == payload.last());
            } else {
                assert(payload.last() == payload[end]);
            }
            assert(lines(pieces) =~= terminated(payload));
        } else {
            assert(pieces.skip(1) =~= Seq::empty());
            assert(lines(pieces.skip(1)) =~= Seq::empty());
            assert(payload.last() == payload[payload.len() - 1]);
            assert(lines(pieces) =~= terminated(payload));
        }
    }
}

/// A payload is taken apart in one way only: strings without NUL bytes that make it up with one
/// NUL byte behind each are the strings that it holds.
pub proof fn law_payload_has_one_reading(payload: Seq<u8>, pieces: Seq<Seq<u8>>)
    requires
        forall|i: int| 0 <= i < pieces.len() ==> !(#[trigger] pieces[i]).contains(0u8),
        lines(pieces) == terminated(payload),
    ensures
        split_nul(payload) == pieces,
    decreases pieces.len(),
{
    if pieces.len() == 0 {
        assert(lines(pieces).len() == 0);
        assert(payload.len() == 0) by {
            assert(payload.push(0u8).len() > 0);
        }
        assert(split_nul(payload) =~= pieces);
    } else {
        let head = pieces[0];
        let end = head.len() as int;
        let tail = pieces.skip(1);
        let whole = terminated(payload);
        lemma_lines_first(pieces);
        assert(whole.len() > 0);
        assert forall|i: int| 0 <= i < end implies payload[i] == head[i] && payload[i] != 0 by {
            assert(whole[i] == head[i]);
            assert(head.contains(head[i]));
        }
        assert(whole[end] == 0);
        lemma_first_nul(payload, end);
        assert(payload.take(end) =~= head);
        assert forall|i: int| 0 <= i < tail.len() implies !(#[trigger] tail[i]).contains(0u8) by {
            assert(tail[i] == pieces[i + 1]);
        }
        if end < payload.len() {
            let rest = payload.skip(end + 1);
            assert(lines(tail) =~= whole.skip(end + 1));
            if rest.len() > 0 {
                assert(rest.last() == payload.last());
            }
            assert(terminated(rest) =~= whole.skip(end + 1));
            law_payload_has_one_reading(rest, tail);
            assert(split_nul(payload) =~= pieces);
        } else {
            assert(whole =~= payload.push(0u8));
            assert(lines(tail) =~= Seq::empty());
            if tail.len() > 0 {
                lemma_lines_first(tail);
            }
            assert(payload =~= head);
            assert(split_nul(payload) =~= pieces);
        }
    }
}

/// The texts that are read out of a payload are those that it is made of.
pub(crate) proof fn lemma_reads_what_it_holds(payload: Seq<u8>)
    ensures
        all_utf8(split_nul(payload)) ==> holds(payload, decode_all(split_nul(payload))),
        forall|texts: Seq<Seq<char>>| #[trigger]
            holds(payload, texts) ==> all_utf8(split_nul(payload)) && decode_all(
                split_nul(payload),
            ) == texts,
{
    let pieces = split_nul(payload);
    law_strings_make_up_the_payload(payload);
    if all_utf8(pieces) {
        let texts = decode_all(pieces);
        let encoded = texts.map_values(|text: Seq<char>| encode_utf8(text));
        assert forall|i: int| 0 <= i < pieces.len() implies encode_utf8(#[trigger] texts[i])
            == pieces[i] by {
            assert(valid_utf8(pieces[i]));
            decode_utf8_encode_utf8(pieces[i]);
        }
        assert(encoded =~= pieces);
    }
    assert forall|texts: Seq<Seq<char>>| #[trigger] holds(payload, texts) implies all_utf8(pieces)
        && decode_all(pieces) == texts by {
        let encoded = texts.map_values(|text: Seq<char>| encode_utf8(text));
        assert forall|i: int| 0 <= i < encoded.len() implies !(#[trigger] encoded[i]).contains(
            0u8,
        ) by {
            assert(encoded[i] == encode_utf8(texts[i]));
        }
        law_payload_has_one_reading(payload, encoded);
        assert forall|i: int| 0 <= i < pieces.len() implies valid_utf8(#[trigger] pieces[i])
            && decode_utf8(pieces[i]) == texts[i] by {
            assert(pieces[i] == encode_utf8(texts[i]));
            encode_utf8_valid_utf8(texts[i]);
            encode_utf8_decode_utf8(texts[i]);
        }
        assert(decode_all(pieces) =~= texts);
    }
}

/// The first text that is read out of a payload is the one that it begins with.
pub(crate) proof fn lemma_reads_what_it_begins_with(payload: Seq<u8>)
    ensures
        valid_utf8(first_piece(payload)) ==> begins(payload, decode_utf8(first_piece(payload))),
        forall|text: Seq<char>| #[trigger]
            begins(payload, text) ==> valid_utf8(first_piece(payload)) && decode_utf8(
                first_piece(payload),
            ) == text,
{
    let piece = first_piece(payload);
    lemma_first_nul_bounds(payload);
    if valid_utf8(piece) {
        decode_utf8_encode_utf8(piece);
    }
    assert forall|text: Seq<char>| #[trigger] begins(payload, text) implies valid_utf8(piece)
        && decode_utf8(piece) == text by {
        let bytes = encode_utf8(text);
        assert forall|i: int| 0 <= i < bytes.len() implies payload[i] != 0 by {
            assert(payload.take(bytes.len() as int)[i] == bytes[i]);
            assert(bytes.contains(bytes[i]));
        }
        lemma_first_nul(payload, bytes.len() as int);
        encode_utf8_valid_utf8(text);
        encode_utf8_decode_utf8(text);
    }
}

/// Strings are read out of a payload exactly if it is made of texts, and those texts are what is
/// read.
pub proof fn law_list_is_what_the_payload_holds(
    message: XsMessage,
    strings: Option<Vec<String>>,
    list: Result<Vec<String>, XsError>,
)
    requires
        call_ensures(read_strings, (&message.payload,), strings),
        call_ensures(XsMessage::parse_payload_list, (&message,), list),
    ensures
        strings matches Some(s) ==> holds(message.payload@, s@.map_values(|t: String| t@)),
        list matches Ok(l) ==> holds(message.payload@, l@.map_values(|t: String| t@)),
        list matches Err(e) ==> e is InvalidUtf8,
        forall|texts: Seq<Seq<char>>| #[trigger]
            holds(message.payload@, texts) ==> {
                &&& strings matches Some(s)
                &&& s@.map_values(|t: String| t@) == texts
                &&& list matches Ok(l)
                &&& l@.map_values(|t: String| t@) == texts
            },
{
    lemma_reads_what_it_holds(message.payload@);
}

/// The first string is read out of a payload exactly if it begins with a text, and that text is
/// what is read; an empty payload has no first string.
pub proof fn law_string_is_what_the_payload_begins_with(
    message: XsMessage,
    first: Option<String>,
    string: Result<Option<String>, XsError>,
)
    requires
        call_ensures(read_first, (&message.payload,), first),
        call_ensures(XsMessage::parse_payload_str, (&message,), string),
    ensures
        first matches Some(s) ==> begins(message.payload@, s@),
        string matches Ok(Some(s)) ==> begins(message.payload@, s@),
        string matches Ok(found) ==> (found is None <==> message.payload@.len() == 0),
        string matches Err(e) ==> e is InvalidUtf8,
        forall|text: Seq<char>| #[trigger]
            begins(message.payload@, text) ==> {
                &&& first matches Some(s)
                &&& s@ == text
                &&& string matches Ok(found)
                &&& found matches Some(t) ==> t@ == text
            },
{
    lemma_reads_what_it_begins_with(message.payload@);
}

/// An error response tells the reason that it begins with, whatever the reason; where it begins
/// with no text, it tells that.
pub proof fn law_error_tells_what_the_payload_begins_with(message: XsMessage, error: XsError)
    requires
        call_ensures(XsMessage::parse_error, (&message,), error),
    ensures
        error is Refused || error is InvalidUtf8,
        error matches XsError::Refused(reason) ==> begins(message.payload@, reason@),
        forall|reason: Seq<char>| #[trigger]
            begins(message.payload@, reason) ==> (error matches XsError::Refused(r) && r@
                == reason),
{
    lemma_reads_what_it_begins_with(message.payload@);
}

/// A payload without strings is empty, one around a single string is its UTF-8, and strings in
/// front of others end in a NUL byte each.
pub proof fn law_join_by_parts(
    front: Seq<Seq<char>>,
    back: Seq<Seq<char>>,
    text: Seq<char>,
    nul_terminated: bool,
)
    ensures
        join_nul(seq![], nul_terminated) == Seq::<u8>::empty(),
        join_nul(seq![text], false) == encode_utf8(text),
        join_nul(seq![text], true) == encode_utf8(text).push(0u8),
        back.len() > 0 ==> join_nul(front + back, nul_terminated) == join_nul(front, true)
            + join_nul(back, nul_terminated),
    decreases front.len(),
{
    let one = seq![text];
    assert(one.skip(1) =~= Seq::empty());
    assert(join_nul(one.skip(1), true) =~= Seq::empty());
    assert(join_nul(one, true) =~= encode_utf8(text).push(0u8));
    if back.len() > 0 {
        if front.len() == 0 {
            assert(front + back =~= back);
            assert(join_nul(front, true) + join_nul(back, nul_terminated) =~= join_nul(
                back,
                nul_terminated,
            ));
        } else {
            law_join_by_parts(front.skip(1), back, text, nul_terminated);
            assert((front + back).skip(1) =~= front.skip(1) + back);
            assert(join_nul(front + back, nul_terminated) =~= join_nul(front, true) + join_nul(
                back,
                nul_terminated,
            ));
        }
    }
}

/// Strings with a NUL byte behind each are put one after the other.
pub(crate) proof fn lemma_join_lines(strings: Seq<Seq<char>>)
    ensures
        join_nul(strings, true) == lines(strings.map_values(|text: Seq<char>| encode_utf8(text))),
    decreases strings.len(),
{
    let encoded = strings.map_values(|text: Seq<char>| encode_utf8(text));
    if strings.len() == 0 {
        assert(lines(encoded) =~= Seq::empty());
    } else {
        lemma_join_lines(strings.skip(1));
        lemma_lines_first(encoded);
        assert(encoded.skip(1) =~= strings.skip(1).map_values(
            |text: Seq<char>| encode_utf8(text),
        ));
        assert(join_nul(strings, true) =~= lines(encoded));
    }
}

/// Only the NUL byte behind the last string is missing where a payload is not to end in one.
proof fn lemma_join_unterminated(strings: Seq<Seq<char>>)
    requires
        strings.len() > 0,
    ensures
        join_nul(strings, false).push(0u8) == join_nul(strings, true),
    decreases strings.len(),
{
    if strings.len() == 1 {
        assert(join_nul(strings.skip(1), true) =~= Seq::empty());
        assert(join_nul(strings, false).push(0u8) =~= join_nul(strings, true));
    } else {
        lemma_join_unterminated(strings.skip(1));
        assert(join_nul(strings, false).push(0u8) =~= join_nul(strings, true));
    }
}

/// A payload is built of the UTF-8 of every string, all of it and in order, with one NUL byte
/// behind each; only the last one goes without where the payload is not to end in a NUL byte.
pub proof fn law_payload_is_built_of_all_strings(
    msg_type: XsMessageType,
    request_id: u32,
    strings: &[&str],
    nul_terminated: bool,
    payload: Vec<u8>,
    message: XsMessage,
)
    requires
        call_ensures(write_strings, (strings, nul_terminated), payload),
        call_ensures(
            XsMessage::from_string_slice,
            (msg_type, request_id, strings, nul_terminated),
            message,
        ),
    ensures
        message.msg_type == msg_type,
        message.request_id == request_id,
        message.payload@ == payload@,
        ({
            let all = lines(strings@.map_values(|s: &str| encode_utf8(s@)));
            if nul_terminated || strings@.len() == 0 {
                payload@ == all
            } else {
                payload@.push(0u8) == all
            }
        }),
{
    let texts = strings@.map_values(|s: &str| s@);
    lemma_join_lines(texts);
    assert(texts.map_values(|text: Seq<char>| encode_utf8(text)) =~= strings@.map_values(
        |s: &str| encode_utf8(s@),
    ));
    if texts.len() > 0 {
        lemma_join_unterminated(texts);
    }
}

/// A message around one string carries its UTF-8, all of it, and one NUL byte.
pub proof fn law_message_carries_its_string(
    msg_type: XsMessageType,
    request_id: u32,
    string: &str,
    message: XsMessage,
)
    requires
        call_ensures(XsMessage::from_string, (msg_type, request_id, string), message),
    ensures
        message.msg_type == msg_type,
        message.request_id == request_id,
        message.payload@ == encode_utf8(string@).push(0u8),
{
    law_join_by_parts(seq![], seq![], string@, true);
}

} // verus!
