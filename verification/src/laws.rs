//! What holds of requests and their replies.

use vstd::prelude::*;
use vstd::utf8::{
    char_is_scalar, char_u32_cast, decode_utf8, encode_scalar, encode_utf8, encode_utf8_decode_utf8,
    encode_utf8_valid_utf8, has_width_1_encoding, last_continuation_byte, leading_byte_width_1,
    leading_byte_width_2, leading_byte_width_3, leading_byte_width_4,
    second_last_continuation_byte, third_last_continuation_byte, valid_utf8,
};

use crate::decimal::{decimal, law_decimal_round_trip};
use crate::error::{XsError, XsErrorKind};
use crate::interface::XsWatchToken;
use crate::permission::{law_permission_round_trip, text_permission, XsPermission};
use crate::text::{
    all_utf8, decode_all, first_nul, first_piece, join_nul, lemma_first_nul, split_nul,
};
use crate::wire::{string_payload, XsMessage, XsMessageType};
use crate::xs_async::{
    answer, failure, permission_texts, stand_for, watch_failure, yielded, XsReply, XsWatchReply,
};

verus! {

/// True if the text holds no NUL character.
pub open spec fn nul_free(text: Seq<char>) -> bool {
    forall|i: int| 0 <= i < text.len() ==> text[i] != '\0'
}

proof fn lemma_encode_scalar_nul_free(scalar: u32)
    requires
        scalar != 0,
        scalar <= 0x10ffff,
    ensures
        forall|i: int| 0 <= i < encode_scalar(scalar).len() ==> encode_scalar(scalar)[i] != 0,
{
    assert(has_width_1_encoding(scalar) ==> leading_byte_width_1(scalar) != 0) by (bit_vector)
        requires
            scalar != 0,
    ;
    assert(leading_byte_width_2(scalar) != 0) by (bit_vector);
    assert(leading_byte_width_3(scalar) != 0) by (bit_vector);
    assert(leading_byte_width_4(scalar) != 0) by (bit_vector);
    assert(last_continuation_byte(scalar) != 0) by (bit_vector);
    assert(second_last_continuation_byte(scalar) != 0) by (bit_vector);
    assert(third_last_continuation_byte(scalar) != 0) by (bit_vector);
}

/// The encoding of a text without NUL characters holds no NUL byte.
pub(crate) proof fn lemma_encode_nul_free(text: Seq<char>)
    requires
        nul_free(text),
    ensures
        !encode_utf8(text).contains(0u8),
        forall|i: int| 0 <= i < encode_utf8(text).len() ==> encode_utf8(text)[i] != 0,
    decreases text.len(),
{
    if text.len() > 0 {
        let head = encode_scalar(text[0] as u32);
        let tail = encode_utf8(text.drop_first());
        assert(text[0] != '\0');
        char_is_scalar(text[0]);
        assert(text[0] as u32 != 0) by {
            char_u32_cast(text[0], text[0] as u32);
            char_u32_cast('\0', 0);
        }
        lemma_encode_scalar_nul_free(text[0] as u32);
        lemma_encode_nul_free(text.drop_first());
        assert forall|i: int| 0 <= i < encode_utf8(text).len() implies encode_utf8(text)[i]
            != 0 by {
            if i < head.len() {
                assert(encode_utf8(text)[i] == head[i]);
            } else {
                assert(encode_utf8(text)[i] == tail[i - head.len()]);
            }
        }
    }
}

/// Strings come back from a payload as they were put in: all of them, in their order. They must
/// hold no NUL character, and the last one must not be empty where the payload does not end in a
/// NUL byte.
pub proof fn law_strings_round_trip(strings: Seq<Seq<char>>, nul_terminated: bool)
    requires
        forall|i: int| 0 <= i < strings.len() ==> nul_free(#[trigger] strings[i]),
        nul_terminated || strings.len() == 0 || strings.last().len() > 0,
    ensures
        all_utf8(split_nul(join_nul(strings, nul_terminated))),
        decode_all(split_nul(join_nul(strings, nul_terminated))) == strings,
    decreases strings.len(),
{
    let payload = join_nul(strings, nul_terminated);
    let pieces = split_nul(payload);
    if strings.len() == 0 {
        assert(decode_all(pieces) =~= strings);
    } else {
        let head = encode_utf8(strings[0]);
        let rest = strings.skip(1);
        lemma_encode_nul_free(strings[0]);
        encode_utf8_valid_utf8(strings[0]);
        encode_utf8_decode_utf8(strings[0]);
        if strings.len() == 1 && !nul_terminated {
            assert(head.len() > 0) by {
                if head.len() == 0 {
                    assert(decode_utf8(head) =~= Seq::empty());
                }
            }
            lemma_first_nul(payload, head.len() as int);
            assert(pieces =~= seq![head]);
        } else {
            let tail = join_nul(rest, nul_terminated);
            assert forall|i: int| 0 <= i < rest.len() implies nul_free(#[trigger] rest[i]) by {
                assert(rest[i] == strings[i + 1]);
            }
            law_strings_round_trip(rest, nul_terminated);
            assert forall|i: int| 0 <= i < head.len() implies payload[i] != 0 by {
                assert(payload[i] == head[i]);
            }
            assert(payload[head.len() as int] == 0);
            lemma_first_nul(payload, head.len() as int);
            assert(payload.take(head.len() as int) =~= head);
            assert(payload.skip(head.len() as int + 1) =~= tail);
            assert(pieces =~= seq![head] + split_nul(tail));
            assert forall|i: int| 0 <= i < pieces.len() implies valid_utf8(
                #[trigger] pieces[i],
            ) by {
                if i > 0 {
                    assert(pieces[i] == split_nul(tail)[i - 1]);
                }
            }
            assert forall|i: int| 0 <= i < pieces.len() implies decode_all(pieces)[i]
                == strings[i] by {
                if i > 0 {
                    assert(pieces[i] == split_nul(tail)[i - 1]);
                    assert(decode_all(split_nul(tail))[i - 1] == rest[i - 1]);
                    assert(rest[i - 1] == strings[i]);
                }
            }
            assert(decode_all(split_nul(tail)).len() == rest.len());
        }
        assert(decode_all(pieces) =~= strings);
    }
}

/// A text without NUL characters is the first string of the payload that holds its encoding.
pub proof fn law_text_round_trip(text: Seq<char>)
    requires
        nul_free(text),
    ensures
        valid_utf8(first_piece(encode_utf8(text))),
        decode_utf8(first_piece(encode_utf8(text))) == text,
{
    let bytes = encode_utf8(text);
    lemma_encode_nul_free(text);
    lemma_first_nul(bytes, bytes.len() as int);
    assert(first_piece(bytes) =~= bytes);
    encode_utf8_valid_utf8(text);
    encode_utf8_decode_utf8(text);
}

/// Once the task that serves the connection has died, whether before a request was handed over or
/// after, the request has no answer and fails with a broken pipe. A request that got a response
/// never fails that way.
pub proof fn law_dead_task_breaks_the_pipe(
    req_msg_type: XsMessageType,
    reply: XsReply,
    error: XsError,
)
    requires
        failure(req_msg_type, reply, error),
    ensures
        answer(req_msg_type, reply) is None,
        error.spec_kind() == XsErrorKind::BrokenPipe <==> !(reply is Response),
{
}

/// Once the task that serves the connection has died, whether before a subscription was handed
/// over or after, the subscription fails with a broken pipe. A subscription that got an answer
/// fails only if the answer says so, and with the error that it tells.
pub proof fn law_dead_task_breaks_subscriptions(reply: XsWatchReply, error: XsError)
    requires
        watch_failure(reply, error),
    ensures
        !(reply is Answer) ==> error.spec_kind() == XsErrorKind::BrokenPipe,
        reply matches XsWatchReply::Answer(answer) ==> answer == Err::<XsWatchToken, XsError>(
            error,
        ),
{
}

/// A watch yields nothing exactly if no event can arrive any more, which is so once the task that
/// serves the connection has died and left nothing behind.
pub proof fn law_dead_task_silences_watches(received: Result<String, flume::RecvError>)
    ensures
        yielded(received) is None <==> received is Err,
{
}

/// A reply either answers a request or fails it, never both.
pub proof fn law_answer_or_failure(req_msg_type: XsMessageType, reply: XsReply, error: XsError)
    requires
        answer(req_msg_type, reply) is Some,
    ensures
        !failure(req_msg_type, reply, error),
        reply matches XsReply::Response(response) && response.msg_type == req_msg_type,
{
}

/// A refused request fails with the reason that Xenstore gives for it, whatever the request.
pub proof fn law_refusal_gives_the_reason(
    req_msg_type: XsMessageType,
    response: XsMessage,
    reason: Seq<char>,
    error: XsError,
)
    requires
        req_msg_type != XsMessageType::Error,
        response.msg_type == XsMessageType::Error,
        response.payload@ == string_payload(reason),
        nul_free(reason),
        failure(req_msg_type, XsReply::Response(response), error),
    ensures
        error matches XsError::Refused(text) && text@ == reason,
{
    lemma_string_payload(reason);
}

/// A payload around one string has that string in front of its first NUL byte.
proof fn lemma_string_payload(text: Seq<char>)
    requires
        nul_free(text),
    ensures
        first_piece(string_payload(text)) == encode_utf8(text),
        valid_utf8(encode_utf8(text)),
        decode_utf8(encode_utf8(text)) == text,
{
    let payload = string_payload(text);
    let bytes = encode_utf8(text);
    lemma_join_skip(seq![text], true);
    assert(payload.take(bytes.len() as int) =~= bytes);
    encode_utf8_valid_utf8(text);
    encode_utf8_decode_utf8(text);
}

/// Behind the first NUL byte of a payload stand the strings other than the first.
proof fn lemma_join_skip(strings: Seq<Seq<char>>, nul_terminated: bool)
    requires
        strings.len() > 0,
        nul_free(strings[0]),
        strings.len() > 1 || nul_terminated,
    ensures
        first_nul(join_nul(strings, nul_terminated)) == encode_utf8(strings[0]).len(),
        first_nul(join_nul(strings, nul_terminated)) < join_nul(strings, nul_terminated).len(),
        join_nul(strings, nul_terminated).skip(encode_utf8(strings[0]).len() as int + 1)
            == join_nul(strings.skip(1), nul_terminated),
{
    let payload = join_nul(strings, nul_terminated);
    let head = encode_utf8(strings[0]);
    lemma_encode_nul_free(strings[0]);
    assert forall|i: int| 0 <= i < head.len() implies payload[i] != 0 by {
        assert(payload[i] == head[i]);
    }
    assert(payload[head.len() as int] == 0);
    lemma_first_nul(payload, head.len() as int);
    assert(payload.skip(head.len() as int + 1) =~= join_nul(strings.skip(1), nul_terminated));
}

/// What is read is what was written: a write carries the path up to the first NUL byte and the
/// data behind it, and those bytes, sent back for a read, are read as the data.
pub proof fn law_read_returns_what_was_written(path: Seq<char>, data: Seq<char>)
    requires
        nul_free(path),
        nul_free(data),
    ensures
        ({
            let payload = join_nul(seq![path, data], false);
            let value = payload.skip(first_nul(payload) + 1);
            &&& first_piece(payload) == encode_utf8(path)
            &&& valid_utf8(first_piece(value))
            &&& decode_utf8(first_piece(value)) == data
        }),
{
    let strings = seq![path, data];
    let payload = join_nul(strings, false);
    lemma_join_skip(strings, false);
    assert(strings.skip(1) =~= seq![data]);
    assert(payload.take(first_nul(payload)) =~= encode_utf8(path));
    law_text_round_trip(data);
}

/// The permissions read are those that were set: setting permissions carries the path up to the
/// first NUL byte and the list behind it, and that list, sent back, is read as the permissions,
/// one for one.
pub proof fn law_permissions_read_as_set(path: Seq<char>, perms: Seq<XsPermission>)
    requires
        nul_free(path),
    ensures
        ({
            let payload = join_nul(seq![path] + permission_texts(perms), true);
            let list = payload.skip(first_nul(payload) + 1);
            &&& first_piece(payload) == encode_utf8(path)
            &&& all_utf8(split_nul(list))
            &&& stand_for(decode_all(split_nul(list)), perms)
        }),
{
    let texts = permission_texts(perms);
    let strings = seq![path] + texts;
    let payload = join_nul(strings, true);
    lemma_join_skip(strings, true);
    assert(strings.skip(1) =~= texts);
    assert(payload.take(first_nul(payload)) =~= encode_utf8(path));
    assert forall|i: int| 0 <= i < texts.len() implies nul_free(#[trigger] texts[i])
        && text_permission(texts[i]) == Some(perms[i]) by {
        law_permission_round_trip(perms[i]);
        lemma_decimal_nul_free(perms[i].domid as nat);
    }
    law_strings_round_trip(texts, true);
}

pub(crate) proof fn lemma_decimal_nul_free(n: nat)
    ensures
        nul_free(decimal(n)),
{
    law_decimal_round_trip(n);
    assert forall|i: int| 0 <= i < decimal(n).len() implies decimal(n)[i] != '\0' by {
        assert('0' <= decimal(n)[i]);
    }
}

} // verus!
