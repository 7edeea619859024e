//! What written texts say.

use crate::error::{error_message, operation_name, reply_text, KvOperation, RunnerErrorView};
use crate::protocol::KvResponseDataView;
use crate::text::{
    bracketed, byte_runs_listed, bytes_listed, decimal, digit, digits, replaced, trimmed_end, with_commas, zero_padded,
};
use vstd::prelude::*;

verus! {

// Numbers
// ---------------------------------------------------------------------------------------------
/// What a digit stands for.
pub open spec fn digit_value(ch: char) -> int {
    if '0' <= ch <= '9' {
        ch as int - '0' as int
    } else {
        ch as int - 'a' as int + 10
    }
}

/// Whether a character is a digit of a base, in lower case.
pub open spec fn is_digit(ch: char, base: nat) -> bool {
    ('0' <= ch <= '9' || 'a' <= ch <= 'f') && digit_value(ch) < base
}

/// The number that some digits of a base spell.
pub open spec fn value_read(text: Seq<char>, base: nat) -> int
    decreases text.len(),
{
    if text.len() == 0 {
        0
    } else {
        value_read(text.drop_last(), base) * base + digit_value(text.last())
    }
}

/// A number that is written out can be read back. It is written in digits of its base only, at least
/// one, and without a zero in front unless it is zero.
pub proof fn law_written_number_can_be_read(number: nat, base: nat)
    requires
        2 <= base <= 16,
    ensures
        value_read(digits(number, base), base) == number,
        digits(number, base).len() > 0,
        number > 0 ==> digits(number, base)[0] != '0',
        forall|i: int| 0 <= i < digits(number, base).len() ==> is_digit(#[trigger] digits(number, base)[i], base),
    decreases number,
{
    let text = digits(number, base);
    if number < base {
        assert(text == seq![digit(number)]);
        assert(text.drop_last() =~= Seq::<char>::empty());
        assert(value_read(text.drop_last(), base) == 0);
        assert(value_read(text, base) == 0 * base + digit_value(digit(number)));
        assert(0 * base == 0) by (nonlinear_arith);
    } else {
        assert(0 < number / base < number) by (nonlinear_arith)
            requires
                number >= base,
                base >= 2,
        ;
        assert(number / base * base + number % base == number && 0 <= number % base < base) by (nonlinear_arith)
            requires
                base >= 2,
        ;
        law_written_number_can_be_read(number / base, base);
        let front = digits(number / base, base);
        assert(text == front.push(digit(number % base)));
        assert(text.drop_last() =~= front);
        assert(text[0] == front[0]);
        assert forall|i: int| 0 <= i < text.len() implies is_digit(#[trigger] text[i], base) by {
            if i < front.len() {
                assert(text[i] == front[i]);
            }
        }
    }
}

/// In decimal a number is written in base ten.
pub proof fn law_decimal_number_can_be_read(number: nat)
    ensures
        decimal(number) == digits(number, 10),
        value_read(decimal(number), 10) == number,
        number > 0 ==> decimal(number)[0] != '0',
        number == 0 ==> decimal(number) == seq!['0'],
{
    law_written_number_can_be_read(number, 10);
}

/// A run of zeros.
pub open spec fn zeros(count: nat) -> Seq<char> {
    Seq::new(count, |i: int| '0')
}

/// A text that is too short gets as many zeros in front as it lacks; another stays as it is.
pub proof fn law_zeros_fill_up(text: Seq<char>, width: nat)
    ensures
        text.len() < width ==> zero_padded(text, width) == zeros((width - text.len()) as nat) + text,
        text.len() >= width ==> zero_padded(text, width) == text,
    decreases width - text.len(),
{
    if text.len() < width {
        law_zeros_fill_up(seq!['0'] + text, width);
        let less = zeros((width - text.len() - 1) as nat);
        assert(less + (seq!['0'] + text) =~= zeros((width - text.len()) as nat) + text);
        if text.len() + 1 == width {
            assert(seq!['0'] + text =~= zeros(1) + text);
        }
    }
}

// Trimming and replacing
// ---------------------------------------------------------------------------------------------
/// Trimming takes off the end all of what is not wanted and nothing else.
pub proof fn law_only_the_end_is_trimmed(text: Seq<char>, unwanted: char)
    ensures
        ({
            let trimmed = trimmed_end(text, unwanted);
            &&& trimmed.len() <= text.len()
            &&& trimmed == text.take(trimmed.len() as int)
            &&& forall|i: int| trimmed.len() <= i < text.len() ==> #[trigger] text[i] == unwanted
            &&& trimmed.len() > 0 ==> trimmed.last() != unwanted
        }),
    decreases text.len(),
{
    let trimmed = trimmed_end(text, unwanted);
    if text.len() > 0 && text.last() == unwanted {
        let front = text.drop_last();
        law_only_the_end_is_trimmed(front, unwanted);
        assert(front.take(trimmed.len() as int) =~= text.take(trimmed.len() as int));
        assert forall|i: int| trimmed.len() <= i < text.len() implies #[trigger] text[i] == unwanted by {
            if i < front.len() {
                assert(front[i] == text[i]);
            }
        }
    } else {
        assert(text.take(text.len() as int) =~= text);
    }
}

/// Whether a part stands in a text at a place.
pub open spec fn stands_in(text: Seq<char>, part: Seq<char>, at: int) -> bool {
    &&& 0 <= at
    &&& at + part.len() <= text.len()
    &&& text.subrange(at, at + part.len()) == part
}

/// A text in which the part to replace does not stand stays as it is. Where it stands, what is in
/// front of its first place stays, the part there is replaced, and what is behind is treated
/// likewise.
pub proof fn law_every_occurrence_is_replaced(text: Seq<char>, from: Seq<char>, to: Seq<char>, at: int)
    requires
        from.len() > 0,
    ensures
        (forall|i: int| !#[trigger] stands_in(text, from, i)) ==> replaced(text, from, to) == text,
        stands_in(text, from, at) && (forall|i: int| 0 <= i < at ==> !#[trigger] stands_in(text, from, i)) ==> replaced(
            text,
            from,
            to,
        ) == text.take(at) + to + replaced(text.skip(at + from.len()), from, to),
    decreases text.len(),
{
    if text.len() >= from.len() {
        assert(text.subrange(0, from.len() as int) =~= text.take(from.len() as int));
        if stands_in(text, from, 0) {
            assert(text.take(0) + to =~= to);
        } else {
            let rest = text.skip(1);
            law_every_occurrence_is_replaced(rest, from, to, at - 1);
            assert forall|i: int| 0 <= i implies #[trigger] stands_in(rest, from, i) == stands_in(text, from, i + 1) by {
                if i + from.len() <= rest.len() {
                    assert(rest.subrange(i, i + from.len()) =~= text.subrange(i + 1, i + 1 + from.len()));
                }
            }
            if forall|i: int| !#[trigger] stands_in(text, from, i) {
                assert forall|i: int| !#[trigger] stands_in(rest, from, i) by {
                    if 0 <= i {
                        assert(!stands_in(text, from, i + 1));
                    }
                }
                assert(seq![text[0]] + rest =~= text);
            }
            if stands_in(text, from, at) && (forall|i: int| 0 <= i < at ==> !#[trigger] stands_in(text, from, i)) {
                assert(at > 0);
                assert forall|i: int| 0 <= i < at - 1 implies !#[trigger] stands_in(rest, from, i) by {
                    assert(!stands_in(text, from, i + 1));
                }
                assert(stands_in(rest, from, at - 1));
                assert(rest.skip(at - 1 + from.len()) =~= text.skip(at + from.len()));
                let tail = replaced(text.skip(at + from.len()), from, to);
                assert(seq![text[0]] + (rest.take(at - 1) + to + tail) =~= text.take(at) + to + tail);
            }
        }
    }
}

// Lists
// ---------------------------------------------------------------------------------------------
/// A list of texts begins with the first of them, and each further one follows behind a comma and a
/// blank. In brackets it stands between a pair of them.
pub proof fn law_texts_are_listed(texts: Seq<Seq<char>>, text: Seq<char>)
    ensures
        with_commas(Seq::empty()) == Seq::<char>::empty(),
        with_commas(seq![text]) == text,
        texts.len() > 0 ==> with_commas(texts.push(text)) == with_commas(texts) + seq![',', ' '] + text,
        bracketed(texts) == seq!['['] + with_commas(texts) + seq![']'],
{
    reveal_strlit(", ");
    reveal_strlit("[");
    reveal_strlit("]");
    assert(", "@ =~= seq![',', ' ']);
    assert("["@ =~= seq!['[']);
    assert("]"@ =~= seq![']']);
    assert(texts.push(text).drop_last() =~= texts);
}

/// Bytes are listed each by its decimal number, and runs of bytes each by its list.
pub proof fn law_bytes_are_listed(bytes: Seq<u8>, runs: Seq<Seq<u8>>, texts: Seq<Seq<char>>)
    ensures
        texts.len() == bytes.len() && (forall|i: int|
            0 <= i < bytes.len() ==> #[trigger] texts[i] == decimal(bytes[i] as nat)) ==> bytes_listed(bytes)
            == bracketed(texts),
        texts.len() == runs.len() && (forall|i: int|
            0 <= i < runs.len() ==> #[trigger] texts[i] == bytes_listed(runs[i])) ==> byte_runs_listed(runs)
            == bracketed(texts),
{
    if texts.len() == bytes.len() && (forall|i: int|
        0 <= i < bytes.len() ==> #[trigger] texts[i] == decimal(bytes[i] as nat)) {
        assert(bytes.map_values(|byte: u8| decimal(byte as nat)) =~= texts);
    }
    if texts.len() == runs.len() && (forall|i: int|
        0 <= i < runs.len() ==> #[trigger] texts[i] == bytes_listed(runs[i])) {
        assert(runs.map_values(|bytes: Seq<u8>| bytes_listed(bytes)) =~= texts);
    }
}

// Errors
// ---------------------------------------------------------------------------------------------
/// The text of an error tells everything that the error holds.
pub proof fn law_error_tells_what_it_holds(
    name: Seq<char>,
    message: Seq<char>,
    first: u32,
    second: u32,
    length: usize,
    operation: KvOperation,
    response: KvResponseDataView,
)
    ensures
        error_message(RunnerErrorView::ActorNotFound { actor_id: name }) == "actor "@ + name + " not found"@,
        error_message(RunnerErrorView::GenerationExpected { expected: first, got: second })
            == "actor generation mismatch, expected "@ + decimal(first as nat) + ", got "@ + decimal(second as nat),
        error_message(RunnerErrorView::AlreadyRestored { actor_id: name }) == "actor "@ + name
            + " already restored hibernating requests"@,
        error_message(RunnerErrorView::InvalidHeader { message: message }) == message,
        error_message(RunnerErrorView::KvFailed { operation: operation, message: message }) == "kv "@
            + operation_name(operation) + " failed: "@ + message,
        error_message(RunnerErrorView::UnexpectedKvResponse { operation: operation, response: response })
            == "unexpected kv "@ + operation_name(operation) + " response: "@ + reply_text(response),
        error_message(RunnerErrorView::KvValueLength { length: length }) == "expected u64 value to be 8 bytes, got "@
            + decimal(length as nat),
        error_message(RunnerErrorView::WebSocketCallbackFailed { message: message })
            == "websocket callback failed: "@ + message,
        error_message(RunnerErrorView::ActorNotRegistered { actor_name: name }) == "actor '"@ + name
            + "' is not registered"@,
        error_message(RunnerErrorView::UpsertFailed { status: name, body: message })
            == "serverless runner config upsert failed: "@ + name + " "@ + message,
{
}

/// The text of an error that holds nothing says what went wrong.
pub proof fn law_texts_of_plain_errors()
    ensures
        error_message(RunnerErrorView::EndpointRequired) == "endpoint is required"@,
        error_message(RunnerErrorView::NamespaceRequired) == "namespace is required"@,
        error_message(RunnerErrorView::RunnerAppRequired) == "runner app is required; call RunnerBuilder::app"@,
        error_message(RunnerErrorView::ServerlessAppRequired)
            == "runner app is required; call ServerlessRunnerBuilder::app"@,
        error_message(RunnerErrorView::AlreadyStarted) == "runner.start called more than once"@,
        error_message(RunnerErrorView::GenerationMismatch) == "actor generation mismatch"@,
        error_message(RunnerErrorView::SenderUnavailable) == "runner websocket sender unavailable"@,
        error_message(RunnerErrorView::SenderClosed) == "failed to queue message to websocket writer"@,
        error_message(RunnerErrorView::InvalidProtocolHeader) == "invalid protocol header"@,
        error_message(RunnerErrorView::InvalidMethod) == "invalid method"@,
        error_message(RunnerErrorView::InvalidUri) == "invalid uri"@,
        error_message(RunnerErrorView::KvTimedOut) == "timed out waiting for kv response"@,
        error_message(RunnerErrorView::KvChannelClosed) == "kv response channel closed"@,
        error_message(RunnerErrorView::ActorStopCallbackFailed) == "actor stop callback failed"@,
        error_message(RunnerErrorView::WebSocketCloseCallbackFailed) == "websocket close callback failed"@,
        error_message(RunnerErrorView::StaleWebSocketCloseCallbackFailed)
            == "stale websocket close callback failed"@,
        error_message(RunnerErrorView::ConnectedCallbackFailed) == "runner app on_connected callback failed"@,
        error_message(RunnerErrorView::ShutdownCallbackFailed) == "runner app shutdown callback failed"@,
        error_message(RunnerErrorView::DatacentersUndecodable) == "failed to decode datacenters response"@,
        error_message(RunnerErrorView::InitPacketUnavailable) == "runner init packet unavailable"@,
        operation_name(KvOperation::Get) == "get"@,
        operation_name(KvOperation::List) == "list"@,
        operation_name(KvOperation::Put) == "put"@,
        operation_name(KvOperation::Delete) == "delete"@,
        operation_name(KvOperation::Drop) == "drop"@,
{
}

/// A reply that is written out names its kind and shows all its keys and values.
pub proof fn law_reply_shows_what_it_holds(keys: Seq<Seq<u8>>, values: Seq<Seq<u8>>, message: Seq<char>)
    ensures
        reply_text(KvResponseDataView::Get { keys: keys, values: values })
            == "KvGetResponse(KvGetResponse { keys: "@ + byte_runs_listed(keys) + ", values: "@ + byte_runs_listed(
            values,
        ) + " })"@,
        reply_text(KvResponseDataView::List { keys: keys, values: values })
            == "KvListResponse(KvListResponse { keys: "@ + byte_runs_listed(keys) + ", values: "@ + byte_runs_listed(
            values,
        ) + " })"@,
        reply_text(KvResponseDataView::Error { message: message })
            == "KvErrorResponse(KvErrorResponse { message: \""@ + message + "\" })"@,
        reply_text(KvResponseDataView::Put) == "KvPutResponse"@,
        reply_text(KvResponseDataView::Delete) == "KvDeleteResponse"@,
        reply_text(KvResponseDataView::Drop) == "KvDropResponse"@,
{
    reveal_strlit("KvGetResponse(KvGetResponse { keys: ");
    reveal_strlit("KvGetResponse(KvGetResponse ");
    reveal_strlit("KvListResponse(KvListResponse { keys: ");
    reveal_strlit("KvListResponse(KvListResponse ");
    reveal_strlit("{ keys: ");
    reveal_strlit(" }");
    reveal_strlit(" })");
    reveal_strlit(")");
    assert("KvGetResponse(KvGetResponse { keys: "@ =~= "KvGetResponse(KvGetResponse "@ + "{ keys: "@);
    assert("KvListResponse(KvListResponse { keys: "@ =~= "KvListResponse(KvListResponse "@ + "{ keys: "@);
    assert(" })"@ =~= " }"@ + ")"@);

    assert(reply_text(KvResponseDataView::Get { keys: keys, values: values })
        =~= "KvGetResponse(KvGetResponse { keys: "@ + byte_runs_listed(keys) + ", values: "@ + byte_runs_listed(values)
        + " })"@);
    assert(reply_text(KvResponseDataView::List { keys: keys, values: values })
        =~= "KvListResponse(KvListResponse { keys: "@ + byte_runs_listed(keys) + ", values: "@ + byte_runs_listed(
        values,
    ) + " })"@);
}

} // verus!
