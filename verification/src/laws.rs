//! Laws on where each value of an error shows in its message and in its
//! response: a value stands right after its label, and changing the value
//! changes that place and nothing else.

use vstd::prelude::*;

use crate::error::{BlockSimError, PreconfApiError};
use crate::text::{bool_text, debug_list, decimal, str_debug_text, string_views};

verus! {

/// Whether `s` ends with `label`.
pub open spec fn ends_with(s: Seq<char>, label: Seq<char>) -> bool {
    label.len() <= s.len() && s.skip(s.len() - label.len()) == label
}

/// Texts `s1` and `s2` are the same text with `v1` and `v2` in one place,
/// and that place comes right after `label`.
pub open spec fn shown_after(
    s1: Seq<char>,
    s2: Seq<char>,
    v1: Seq<char>,
    v2: Seq<char>,
    label: Seq<char>,
) -> bool {
    exists|a: Seq<char>, b: Seq<char>|
        #![trigger a + v1 + b, a + v2 + b]
        s1 == a + v1 + b && s2 == a + v2 + b && ends_with(a, label)
}

proof fn lemma_shown(
    s1: Seq<char>,
    s2: Seq<char>,
    x: Seq<char>,
    label: Seq<char>,
    v1: Seq<char>,
    v2: Seq<char>,
    b: Seq<char>,
)
    requires
        s1 == x + label + v1 + b,
        s2 == x + label + v2 + b,
    ensures
        shown_after(s1, s2, v1, v2, label),
{
    let a = x + label;
    assert(a.skip(a.len() - label.len()) =~= label);
    assert(s1 == a + v1 + b);
    assert(s2 == a + v2 + b);
}

/// Every error except a bid below the floor (`202`), a bad API key (`401`),
/// an internal or datastore failure (`500`) and a block simulation that
/// timed out (`504`) is answered with exactly `400 Bad Request`.
pub proof fn lemma_status_of_every_error(e: PreconfApiError)
    ensures
        e is BidBelowFloor ==> e.spec_status().spec_code() == 202,
        e is InvalidApiKey ==> e.spec_status().spec_code() == 401,
        e is InternalError ==> e.spec_status().spec_code() == 500,
        e is AuctioneerError ==> e.spec_status().spec_code() == 500,
        e == PreconfApiError::BlockValidationError(BlockSimError::Timeout) ==> e.spec_status().spec_code() == 504,
        !(e is BidBelowFloor || e is InvalidApiKey || e is InternalError || e is AuctioneerError
            || e == PreconfApiError::BlockValidationError(BlockSimError::Timeout))
            ==> e.spec_status().spec_code() == 400,
{
}

/// The `Debug` text of a list grows by one entry per added item: the empty
/// list prints as `[]`, and adding `x` puts `x`'s entry before the closing
/// bracket, after a `", "` unless it is the first entry. So every item
/// shows, in order.
pub proof fn lemma_debug_list_push(items: Seq<Seq<char>>, x: Seq<char>)
    ensures
        debug_list(Seq::empty()) == "["@ + "]"@,
        items.len() == 0 ==> debug_list(items.push(x)) == "["@ + str_debug_text(x) + "]"@,
        items.len() > 0 ==> debug_list(items.push(x)) == debug_list(items).drop_last() + ", "@
            + str_debug_text(x) + "]"@,
{
    reveal_strlit("]");
    let e = crate::text::debug_entries(items);
    assert(items.push(x).drop_last() =~= items);
    assert(crate::text::debug_entries(Seq::<Seq<char>>::empty()) =~= Seq::<char>::empty());
    if items.len() == 0 {
        assert(items.push(x) =~= seq![x]);
    } else {
        assert(("["@ + e + "]"@).drop_last() =~= "["@ + e);
    }
}

/// The message and the response body of a builder missing from the
/// proposer's trusted list end with the same text, the `Debug` list of all
/// the builders; adding a builder adds its entry to both.
pub proof fn lemma_trusted_list_entries(builders: Vec<String>, more: Vec<String>, x: String)
    requires
        more@ == builders@.push(x),
    ensures
        ({
            let e = PreconfApiError::BuilderNotInProposersTrustedList { proposer_trusted_builders: builders };
            let m = "builder not in proposer's trusted list: "@;
            &&& e.spec_message().skip(m.len() as int) == e.spec_body().skip(m.len() as int)
            &&& e.spec_message().skip(m.len() as int) == debug_list(string_views(builders@))
        }),
        ({
            let e = PreconfApiError::BuilderNotInProposersTrustedList { proposer_trusted_builders: builders };
            let f = PreconfApiError::BuilderNotInProposersTrustedList { proposer_trusted_builders: more };
            &&& builders@.len() == 0 ==> f.spec_message() == e.spec_message().drop_last()
                + str_debug_text(x@) + "]"@
            &&& builders@.len() > 0 ==> f.spec_message() == e.spec_message().drop_last() + ", "@
                + str_debug_text(x@) + "]"@
            &&& builders@.len() == 0 ==> f.spec_body() == e.spec_body().drop_last()
                + str_debug_text(x@) + "]"@
            &&& builders@.len() > 0 ==> f.spec_body() == e.spec_body().drop_last() + ", "@
                + str_debug_text(x@) + "]"@
        }),
{
    reveal_strlit("]");
    let m = "builder not in proposer's trusted list: "@;
    let v = string_views(builders@);
    assert(string_views(more@) =~= v.push(x@));
    lemma_debug_list_push(v, x@);
    let d = debug_list(v);
    let d2 = debug_list(v.push(x@));
    assert((m + d).skip(m.len() as int) =~= d);
    assert(d == "["@ + crate::text::debug_entries(v) + "]"@);
    assert((m + d).drop_last() =~= m + d.drop_last());
    assert(d.drop_last() =~= "["@ + crate::text::debug_entries(v));
    if v.len() == 0 {
        assert(crate::text::debug_entries(v) =~= Seq::<char>::empty());
        assert(m + d2 =~= (m + d).drop_last() + str_debug_text(x@) + "]"@);
    } else {
        assert(m + d2 =~= (m + d).drop_last() + ", "@ + str_debug_text(x@) + "]"@);
    }
}

/// The words `true` and `false` that a flag prints as.
pub proof fn lemma_bool_text()
    ensures
        bool_text(true) == seq!['t', 'r', 'u', 'e'],
        bool_text(false) == seq!['f', 'a', 'l', 's', 'e'],
{
    reveal_strlit("true");
    reveal_strlit("false");
    assert(bool_text(true) =~= seq!['t', 'r', 'u', 'e']);
    assert(bool_text(false) =~= seq!['f', 'a', 'l', 's', 'e']);
}

/// In the response body and the message of `HyperError`, each of `err` stands
/// right after its label, and changing it changes that place and nothing else.
pub proof fn lemma_hyper_error_fields(err: String, err_2: String)
    ensures
        ({
            let e = (PreconfApiError::HyperError(err));
            let e_err = (PreconfApiError::HyperError(err_2));
            &&& shown_after(e.spec_body(), e_err.spec_body(), err@, err_2@, "Hyper error: "@)
            &&& shown_after(e.spec_message(), e_err.spec_message(), err@, err_2@, "hyper error: "@)
        }),
{
    let e = (PreconfApiError::HyperError(err));
    let e_err = (PreconfApiError::HyperError(err_2));
    {
        let x = Seq::<char>::empty();
        let b = Seq::<char>::empty();
        assert(e.spec_body() =~= x + "Hyper error: "@ + err@ + b);
        assert(e_err.spec_body() =~= x + "Hyper error: "@ + err_2@ + b);
        lemma_shown(e.spec_body(), e_err.spec_body(), x, "Hyper error: "@, err@, err_2@, b);
    }
    {
        let x = Seq::<char>::empty();
        let b = Seq::<char>::empty();
        assert(e.spec_message() =~= x + "hyper error: "@ + err@ + b);
        assert(e_err.spec_message() =~= x + "hyper error: "@ + err_2@ + b);
        lemma_shown(e.spec_message(), e_err.spec_message(), x, "hyper error: "@, err@, err_2@, b);
    }
}

/// In the response body and the message of `AxumError`, each of `err` stands
/// right after its label, and changing it changes that place and nothing else.
pub proof fn lemma_axum_error_fields(err: String, err_2: String)
    ensures
        ({
            let e = (PreconfApiError::AxumError(err));
            let e_err = (PreconfApiError::AxumError(err_2));
            &&& shown_after(e.spec_body(), e_err.spec_body(), err@, err_2@, "Axum error: "@)
            &&& shown_after(e.spec_message(), e_err.spec_message(), err@, err_2@, "axum error: "@)
        }),
{
    let e = (PreconfApiError::AxumError(err));
    let e_err = (PreconfApiError::AxumError(err_2));
    {
        let x = Seq::<char>::empty();
        let b = Seq::<char>::empty();
        assert(e.spec_body() =~= x + "Axum error: "@ + err@ + b);
        assert(e_err.spec_body() =~= x + "Axum error: "@ + err_2@ + b);
        lemma_shown(e.spec_body(), e_err.spec_body(), x, "Axum error: "@, err@, err_2@, b);
    }
    {
        let x = Seq::<char>::empty();
        let b = Seq::<char>::empty();
        assert(e.spec_message() =~= x + "axum error: "@ + err@ + b);
        assert(e_err.spec_message() =~= x + "axum error: "@ + err_2@ + b);
        lemma_shown(e.spec_message(), e_err.spec_message(), x, "axum error: "@, err@, err_2@, b);
    }
}

/// In the response body and the message of `SerdeDecodeError`, each of `err` stands
/// right after its label, and changing it changes that place and nothing else.
pub proof fn lemma_serde_decode_error_fields(err: String, err_2: String)
    ensures
        ({
            let e = (PreconfApiError::SerdeDecodeError(err));
            let e_err = (PreconfApiError::SerdeDecodeError(err_2));
            &&& shown_after(e.spec_body(), e_err.spec_body(), err@, err_2@, "Serde decode error: "@)
            &&& shown_after(e.spec_message(), e_err.spec_message(), err@, err_2@, "serde decode error: "@)
        }),
{
    let e = (PreconfApiError::SerdeDecodeError(err));
    let e_err = (PreconfApiError::SerdeDecodeError(err_2));
    {
        let x = Seq::<char>::empty();
        let b = Seq::<char>::empty();
        assert(e.spec_body() =~= x + "Serde decode error: "@ + err@ + b);
        assert(e_err.spec_body() =~= x + "Serde decode error: "@ + err_2@ + b);
        lemma_shown(e.spec_body(), e_err.spec_body(), x, "Serde decode error: "@, err@, err_2@, b);
    }
    {
        let x = Seq::<char>::empty();
        let b = Seq::<char>::empty();
        assert(e.spec_message() =~= x + "serde decode error: "@ + err@ + b);
        assert(e_err.spec_message() =~= x + "serde decode error: "@ + err_2@ + b);
        lemma_shown(e.spec_message(), e_err.spec_message(), x, "serde decode error: "@, err@, err_2@, b);
    }
}

/// In the response body and the message of `IOError`, each of `err` stands
/// right after its label, and changing it changes that place and nothing else.
pub proof fn lemma_ioerror_fields(err: String, err_2: String)
    ensures
        ({
            let e = (PreconfApiError::IOError(err));
            let e_err = (PreconfApiError::IOError(err_2));
            &&& shown_after(e.spec_body(), e_err.spec_body(), err@, err_2@, "IO error: "@)
            &&& shown_after(e.spec_message(), e_err.spec_message(), err@, err_2@, "IO error: "@)
        }),
{
    let e = (PreconfApiError::IOError(err));
    let e_err = (PreconfApiError::IOError(err_2));
    {
        let x = Seq::<char>::empty();
        let b = Seq::<char>::empty();
        assert(e.spec_body() =~= x + "IO error: "@ + err@ + b);
        assert(e_err.spec_body() =~= x + "IO error: "@ + err_2@ + b);
        lemma_shown(e.spec_body(), e_err.spec_body(), x, "IO error: "@, err@, err_2@, b);
    }
    {
        let x = Seq::<char>::empty();
        let b = Seq::<char>::empty();
        assert(e.spec_message() =~= x + "IO error: "@ + err@ + b);
        assert(e_err.spec_message() =~= x + "IO error: "@ + err_2@ + b);
        lemma_shown(e.spec_message(), e_err.spec_message(), x, "IO error: "@, err@, err_2@, b);
    }
}

/// In the response body and the message of `SszDeserializeError`, each of `err` stands
/// right after its label, and changing it changes that place and nothing else.
pub proof fn lemma_ssz_deserialize_error_fields(err: String, err_2: String)
    ensures
        ({
            let e = (PreconfApiError::SszDeserializeError(err));
            let e_err = (PreconfApiError::SszDeserializeError(err_2));
            &&& shown_after(e.spec_body(), e_err.spec_body(), err@, err_2@, "SSZ deserialize error: "@)
            &&& shown_after(e.spec_message(), e_err.spec_message(), err@, err_2@, "ssz deserialize error: "@)
        }),
{
    let e = (PreconfApiError::SszDeserializeError(err));
    let e_err = (PreconfApiError::SszDeserializeError(err_2));
    {
        let x = Seq::<char>::empty();
        let b = Seq::<char>::empty();
        assert(e.spec_body() =~= x + "SSZ deserialize error: "@ + err@ + b);
        assert(e_err.spec_body() =~= x + "SSZ deserialize error: "@ + err_2@ + b);
        lemma_shown(e.spec_body(), e_err.spec_body(), x, "SSZ deserialize error: "@, err@, err_2@, b);
    }
    {
        let x = Seq::<char>::empty();
        let b = Seq::<char>::empty();
        assert(e.spec_message() =~= x + "ssz deserialize error: "@ + err@ + b);
        assert(e_err.spec_message() =~= x + "ssz deserialize error: "@ + err_2@ + b);
        lemma_shown(e.spec_message(), e_err.spec_message(), x, "ssz deserialize error: "@, err@, err_2@, b);
    }
}

/// In the response body and the message of `AuctioneerError`, each of `err` stands
/// right after its label, and changing it changes that place and nothing else.
pub proof fn lemma_auctioneer_error_fields(err: String, err_2: String)
    ensures
        ({
            let e = (PreconfApiError::AuctioneerError(err));
            let e_err = (PreconfApiError::AuctioneerError(err_2));
            &&& shown_after(e.spec_body(), e_err.spec_body(), err@, err_2@, "Auctioneer error: "@)
            &&& shown_after(e.spec_message(), e_err.spec_message(), err@, err_2@, "datastore error: "@)
        }),
{
    let e = (PreconfApiError::AuctioneerError(err));
    let e_err = (PreconfApiError::AuctioneerError(err_2));
    {
        let x = Seq::<char>::empty();
        let b = Seq::<char>::empty();
        assert(e.spec_body() =~= x + "Auctioneer error: "@ + err@ + b);
        assert(e_err.spec_body() =~= x + "Auctioneer error: "@ + err_2@ + b);
        lemma_shown(e.spec_body(), e_err.spec_body(), x, "Auctioneer error: "@, err@, err_2@, b);
    }
    {
        let x = Seq::<char>::empty();
        let b = Seq::<char>::empty();
        assert(e.spec_message() =~= x + "datastore error: "@ + err@ + b);
        assert(e_err.spec_message() =~= x + "datastore error: "@ + err_2@ + b);
        lemma_shown(e.spec_message(), e_err.spec_message(), x, "datastore error: "@, err@, err_2@, b);
    }
}

/// In the response body and the message of `PayloadTooLarge`, each of `max_size`, `size` stands
/// right after its label, and changing it changes that place and nothing else.
pub proof fn lemma_payload_too_large_fields(max_size: usize, max_size_2: usize, size: usize, size_2: usize)
    ensures
        ({
            let e = (PreconfApiError::PayloadTooLarge { max_size, size });
            let e_max_size = (PreconfApiError::PayloadTooLarge { max_size: max_size_2, size });
            let e_size = (PreconfApiError::PayloadTooLarge { max_size, size: size_2 });
            &&& shown_after(e.spec_body(), e_max_size.spec_body(), decimal(max_size as nat), decimal(max_size_2 as nat), "Payload too large. max size: "@)
            &&& shown_after(e.spec_body(), e_size.spec_body(), decimal(size as nat), decimal(size_2 as nat), ", size: "@)
            &&& shown_after(e.spec_message(), e_max_size.spec_message(), decimal(max_size as nat), decimal(max_size_2 as nat), "payload too large. max size: "@)
            &&& shown_after(e.spec_message(), e_size.spec_message(), decimal(size as nat), decimal(size_2 as nat), ", size: "@)
        }),
{
    let e = (PreconfApiError::PayloadTooLarge { max_size, size });
    let e_max_size = (PreconfApiError::PayloadTooLarge { max_size: max_size_2, size });
    let e_size = (PreconfApiError::PayloadTooLarge { max_size, size: size_2 });
    {
        let x = Seq::<char>::empty();
        let b = (", size: "@ + decimal(size as nat));
        assert(e.spec_body() =~= x + "Payload too large. max size: "@ + decimal(max_size as nat) + b);
        assert(e_max_size.spec_body() =~= x + "Payload too large. max size: "@ + decimal(max_size_2 as nat) + b);
        lemma_shown(e.spec_body(), e_max_size.spec_body(), x, "Payload too large. max size: "@, decimal(max_size as nat), decimal(max_size_2 as nat), b);
    }
    {
        let x = ("Payload too large. max size: "@ + decimal(max_size as nat));
        let b = Seq::<char>::empty();
        assert(e.spec_body() =~= x + ", size: "@ + decimal(size as nat) + b);
        assert(e_size.spec_body() =~= x + ", size: "@ + decimal(size_2 as nat) + b);
        lemma_shown(e.spec_body(), e_size.spec_body(), x, ", size: "@, decimal(size as nat), decimal(size_2 as nat), b);
    }
    {
        let x = Seq::<char>::empty();
        let b = (", size: "@ + decimal(size as nat));
        assert(e.spec_message() =~= x + "payload too large. max size: "@ + decimal(max_size as nat) + b);
        assert(e_max_size.spec_message() =~= x + "payload too large. max size: "@ + decimal(max_size_2 as nat) + b);
        lemma_shown(e.spec_message(), e_max_size.spec_message(), x, "payload too large. max size: "@, decimal(max_size as nat), decimal(max_size_2 as nat), b);
    }
    {
        let x = ("payload too large. max size: "@ + decimal(max_size as nat));
        let b = Seq::<char>::empty();
        assert(e.spec_message() =~= x + ", size: "@ + decimal(size as nat) + b);
        assert(e_size.spec_message() =~= x + ", size: "@ + decimal(size_2 as nat) + b);
        lemma_shown(e.spec_message(), e_size.spec_message(), x, ", size: "@, decimal(size as nat), decimal(size_2 as nat), b);
    }
}

/// In the response body and the message of `SubmissionForPastSlot`, each of `current_slot`, `submission_slot` stands
/// right after its label, and changing it changes that place and nothing else.
pub proof fn lemma_submission_for_past_slot_fields(current_slot: u64, current_slot_2: u64, submission_slot: u64, submission_slot_2: u64)
    ensures
        ({
            let e = (PreconfApiError::SubmissionForPastSlot { current_slot, submission_slot });
            let e_current_slot = (PreconfApiError::SubmissionForPastSlot { current_slot: current_slot_2, submission_slot });
            let e_submission_slot = (PreconfApiError::SubmissionForPastSlot { current_slot, submission_slot: submission_slot_2 });
            &&& shown_after(e.spec_body(), e_current_slot.spec_body(), decimal(current_slot as nat), decimal(current_slot_2 as nat), "Submission for past slot. current slot: "@)
            &&& shown_after(e.spec_body(), e_submission_slot.spec_body(), decimal(submission_slot as nat), decimal(submission_slot_2 as nat), ", submission slot: "@)
            &&& shown_after(e.spec_message(), e_current_slot.spec_message(), decimal(current_slot as nat), decimal(current_slot_2 as nat), "submission for past slot. current slot: "@)
            &&& shown_after(e.spec_message(), e_submission_slot.spec_message(), decimal(submission_slot as nat), decimal(submission_slot_2 as nat), ", submission slot: "@)
        }),
{
    let e = (PreconfApiError::SubmissionForPastSlot { current_slot, submission_slot });
    let e_current_slot = (PreconfApiError::SubmissionForPastSlot { current_slot: current_slot_2, submission_slot });
    let e_submission_slot = (PreconfApiError::SubmissionForPastSlot { current_slot, submission_slot: submission_slot_2 });
    {
        let x = Seq::<char>::empty();
        let b = (", submission slot: "@ + decimal(submission_slot as nat));
        assert(e.spec_body() =~= x + "Submission for past slot. current slot: "@ + decimal(current_slot as nat) + b);
        assert(e_current_slot.spec_body() =~= x + "Submission for past slot. current slot: "@ + decimal(current_slot_2 as nat) + b);
        lemma_shown(e.spec_body(), e_current_slot.spec_body(), x, "Submission for past slot. current slot: "@, decimal(current_slot as nat), decimal(current_slot_2 as nat), b);
    }
    {
        let x = ("Submission for past slot. current slot: "@ + decimal(current_slot as nat));
        let b = Seq::<char>::empty();
        assert(e.spec_body() =~= x + ", submission slot: "@ + decimal(submission_slot as nat) + b);
        assert(e_submission_slot.spec_body() =~= x + ", submission slot: "@ + decimal(submission_slot_2 as nat) + b);
        lemma_shown(e.spec_body(), e_submission_slot.spec_body(), x, ", submission slot: "@, decimal(submission_slot as nat), decimal(submission_slot_2 as nat), b);
    }
    {
        let x = Seq::<char>::empty();
        let b = (", submission slot: "@ + decimal(submission_slot as nat));
        assert(e.spec_message() =~= x + "submission for past slot. current slot: "@ + decimal(current_slot as nat) + b);
        assert(e_current_slot.spec_message() =~= x + "submission for past slot. current slot: "@ + decimal(current_slot_2 as nat) + b);
        lemma_shown(e.spec_message(), e_current_slot.spec_message(), x, "submission for past slot. current slot: "@, decimal(current_slot as nat), decimal(current_slot_2 as nat), b);
    }
    {
        let x = ("submission for past slot. current slot: "@ + decimal(current_slot as nat));
        let b = Seq::<char>::empty();
        assert(e.spec_message() =~= x + ", submission slot: "@ + decimal(submission_slot as nat) + b);
        assert(e_submission_slot.spec_message() =~= x + ", submission slot: "@ + decimal(submission_slot_2 as nat) + b);
        lemma_shown(e.spec_message(), e_submission_slot.spec_message(), x, ", submission slot: "@, decimal(submission_slot as nat), decimal(submission_slot_2 as nat), b);
    }
}

/// In the response body and the message of `IncorrectTimestamp`, each of `got`, `expected` stands
/// right after its label, and changing it changes that place and nothing else.
pub proof fn lemma_incorrect_timestamp_fields(got: u64, got_2: u64, expected: u64, expected_2: u64)
    ensures
        ({
            let e = (PreconfApiError::IncorrectTimestamp { got, expected });
            let e_got = (PreconfApiError::IncorrectTimestamp { got: got_2, expected });
            let e_expected = (PreconfApiError::IncorrectTimestamp { got, expected: expected_2 });
            &&& shown_after(e.spec_body(), e_got.spec_body(), decimal(got as nat), decimal(got_2 as nat), "Incorrect timestamp. got: "@)
            &&& shown_after(e.spec_body(), e_expected.spec_body(), decimal(expected as nat), decimal(expected_2 as nat), ", expected: "@)
            &&& shown_after(e.spec_message(), e_got.spec_message(), decimal(got as nat), decimal(got_2 as nat), "incorrect timestamp. got: "@)
            &&& shown_after(e.spec_message(), e_expected.spec_message(), decimal(expected as nat), decimal(expected_2 as nat), ", expected: "@)
        }),
{
    let e = (PreconfApiError::IncorrectTimestamp { got, expected });
    let e_got = (PreconfApiError::IncorrectTimestamp { got: got_2, expected });
    let e_expected = (PreconfApiError::IncorrectTimestamp { got, expected: expected_2 });
    {
        let x = Seq::<char>::empty();
        let b = (", expected: "@ + decimal(expected as nat));
        assert(e.spec_body() =~= x + "Incorrect timestamp. got: "@ + decimal(got as nat) + b);
        assert(e_got.spec_body() =~= x + "Incorrect timestamp. got: "@ + decimal(got_2 as nat) + b);
        lemma_shown(e.spec_body(), e_got.spec_body(), x, "Incorrect timestamp. got: "@, decimal(got as nat), decimal(got_2 as nat), b);
    }
    {
        let x = ("Incorrect timestamp. got: "@ + decimal(got as nat));
        let b = Seq::<char>::empty();
        assert(e.spec_body() =~= x + ", expected: "@ + decimal(expected as nat) + b);
        assert(e_expected.spec_body() =~= x + ", expected: "@ + decimal(expected_2 as nat) + b);
        lemma_shown(e.spec_body(), e_expected.spec_body(), x, ", expected: "@, decimal(expected as nat), decimal(expected_2 as nat), b);
    }
    {
        let x = Seq::<char>::empty();
        let b = (", expected: "@ + decimal(expected as nat));
        assert(e.spec_message() =~= x + "incorrect timestamp. got: "@ + decimal(got as nat) + b);
        assert(e_got.spec_message() =~= x + "incorrect timestamp. got: "@ + decimal(got_2 as nat) + b);
        lemma_shown(e.spec_message(), e_got.spec_message(), x, "incorrect timestamp. got: "@, decimal(got as nat), decimal(got_2 as nat), b);
    }
    {
        let x = ("incorrect timestamp. got: "@ + decimal(got as nat));
        let b = Seq::<char>::empty();
        assert(e.spec_message() =~= x + ", expected: "@ + decimal(expected as nat) + b);
        assert(e_expected.spec_message() =~= x + ", expected: "@ + decimal(expected_2 as nat) + b);
        lemma_shown(e.spec_message(), e_expected.spec_message(), x, ", expected: "@, decimal(expected as nat), decimal(expected_2 as nat), b);
    }
}

/// In the response body and the message of `PayloadSlotMismatchWithPayloadAttributes`, each of `got`, `expected` stands
/// right after its label, and changing it changes that place and nothing else.
pub proof fn lemma_payload_slot_mismatch_with_payload_attributes_fields(got: u64, got_2: u64, expected: u64, expected_2: u64)
    ensures
        ({
            let e = (PreconfApiError::PayloadSlotMismatchWithPayloadAttributes { got, expected });
            let e_got = (PreconfApiError::PayloadSlotMismatchWithPayloadAttributes { got: got_2, expected });
            let e_expected = (PreconfApiError::PayloadSlotMismatchWithPayloadAttributes { got, expected: expected_2 });
            &&& shown_after(e.spec_body(), e_got.spec_body(), decimal(got as nat), decimal(got_2 as nat), "payload slot mismatches with current payload attributes slot. got: "@)
            &&& shown_after(e.spec_body(), e_expected.spec_body(), decimal(expected as nat), decimal(expected_2 as nat), ", expected: "@)
            &&& shown_after(e.spec_message(), e_got.spec_message(), decimal(got as nat), decimal(got_2 as nat), "payload slot mismatches with current payload attributes slot. got: "@)
            &&& shown_after(e.spec_message(), e_expected.spec_message(), decimal(expected as nat), decimal(expected_2 as nat), ", expected: "@)
        }),
{
    let e = (PreconfApiError::PayloadSlotMismatchWithPayloadAttributes { got, expected });
    let e_got = (PreconfApiError::PayloadSlotMismatchWithPayloadAttributes { got: got_2, expected });
    let e_expected = (PreconfApiError::PayloadSlotMismatchWithPayloadAttributes { got, expected: expected_2 });
    {
        let x = Seq::<char>::empty();
        let b = (", expected: "@ + decimal(expected as nat));
        assert(e.spec_body() =~= x + "payload slot mismatches with current payload attributes slot. got: "@ + decimal(got as nat) + b);
        assert(e_got.spec_body() =~= x + "payload slot mismatches with current payload attributes slot. got: "@ + decimal(got_2 as nat) + b);
        lemma_shown(e.spec_body(), e_got.spec_body(), x, "payload slot mismatches with current payload attributes slot. got: "@, decimal(got as nat), decimal(got_2 as nat), b);
    }
    {
        let x = ("payload slot mismatches with current payload attributes slot. got: "@ + decimal(got as nat));
        let b = Seq::<char>::empty();
        assert(e.spec_body() =~= x + ", expected: "@ + decimal(expected as nat) + b);
        assert(e_expected.spec_body() =~= x + ", expected: "@ + decimal(expected_2 as nat) + b);
        lemma_shown(e.spec_body(), e_expected.spec_body(), x, ", expected: "@, decimal(expected as nat), decimal(expected_2 as nat), b);
    }
    {
        let x = Seq::<char>::empty();
        let b = (", expected: "@ + decimal(expected as nat));
        assert(e.spec_message() =~= x + "payload slot mismatches with current payload attributes slot. got: "@ + decimal(got as nat) + b);
        assert(e_got.spec_message() =~= x + "payload slot mismatches with current payload attributes slot. got: "@ + decimal(got_2 as nat) + b);
        lemma_shown(e.spec_message(), e_got.spec_message(), x, "payload slot mismatches with current payload attributes slot. got: "@, decimal(got as nat), decimal(got_2 as nat), b);
    }
    {
        let x = ("payload slot mismatches with current payload attributes slot. got: "@ + decimal(got as nat));
        let b = Seq::<char>::empty();
        assert(e.spec_message() =~= x + ", expected: "@ + decimal(expected as nat) + b);
        assert(e_expected.spec_message() =~= x + ", expected: "@ + decimal(expected_2 as nat) + b);
        lemma_shown(e.spec_message(), e_expected.spec_message(), x, ", expected: "@, decimal(expected as nat), decimal(expected_2 as nat), b);
    }
}

/// In the response body and the message of `BlockHashMismatch`, each of `message`, `payload` stands
/// right after its label, and changing it changes that place and nothing else.
pub proof fn lemma_block_hash_mismatch_fields(message: String, message_2: String, payload: String, payload_2: String)
    ensures
        ({
            let e = (PreconfApiError::BlockHashMismatch { message, payload });
            let e_message = (PreconfApiError::BlockHashMismatch { message: message_2, payload });
            let e_payload = (PreconfApiError::BlockHashMismatch { message, payload: payload_2 });
            &&& shown_after(e.spec_body(), e_message.spec_body(), message@, message_2@, "Block hash mismatch. message: "@)
            &&& shown_after(e.spec_body(), e_payload.spec_body(), payload@, payload_2@, ", payload: "@)
            &&& shown_after(e.spec_message(), e_message.spec_message(), message@, message_2@, "block hash mismatch. message: "@)
            &&& shown_after(e.spec_message(), e_payload.spec_message(), payload@, payload_2@, ", payload: "@)
        }),
{
    let e = (PreconfApiError::BlockHashMismatch { message, payload });
    let e_message = (PreconfApiError::BlockHashMismatch { message: message_2, payload });
    let e_payload = (PreconfApiError::BlockHashMismatch { message, payload: payload_2 });
    {
        let x = Seq::<char>::empty();
        let b = (", payload: "@ + payload@);
        assert(e.spec_body() =~= x + "Block hash mismatch. message: "@ + message@ + b);
        assert(e_message.spec_body() =~= x + "Block hash mismatch. message: "@ + message_2@ + b);
        lemma_shown(e.spec_body(), e_message.spec_body(), x, "Block hash mismatch. message: "@, message@, message_2@, b);
    }
    {
        let x = ("Block hash mismatch. message: "@ + message@);
        let b = Seq::<char>::empty();
        assert(e.spec_body() =~= x + ", payload: "@ + payload@ + b);
        assert(e_payload.spec_body() =~= x + ", payload: "@ + payload_2@ + b);
        lemma_shown(e.spec_body(), e_payload.spec_body(), x, ", payload: "@, payload@, payload_2@, b);
    }
    {
        let x = Seq::<char>::empty();
        let b = (", payload: "@ + payload@);
        assert(e.spec_message() =~= x + "block hash mismatch. message: "@ + message@ + b);
        assert(e_message.spec_message() =~= x + "block hash mismatch. message: "@ + message_2@ + b);
        lemma_shown(e.spec_message(), e_message.spec_message(), x, "block hash mismatch. message: "@, message@, message_2@, b);
    }
    {
        let x = ("block hash mismatch. message: "@ + message@);
        let b = Seq::<char>::empty();
        assert(e.spec_message() =~= x + ", payload: "@ + payload@ + b);
        assert(e_payload.spec_message() =~= x + ", payload: "@ + payload_2@ + b);
        lemma_shown(e.spec_message(), e_payload.spec_message(), x, ", payload: "@, payload@, payload_2@, b);
    }
}

/// In the response body and the message of `ParentHashMismatch`, each of `message`, `payload` stands
/// right after its label, and changing it changes that place and nothing else.
pub proof fn lemma_parent_hash_mismatch_fields(message: String, message_2: String, payload: String, payload_2: String)
    ensures
        ({
            let e = (PreconfApiError::ParentHashMismatch { message, payload });
            let e_message = (PreconfApiError::ParentHashMismatch { message: message_2, payload });
            let e_payload = (PreconfApiError::ParentHashMismatch { message, payload: payload_2 });
            &&& shown_after(e.spec_body(), e_message.spec_body(), message@, message_2@, "Parent hash mismatch. message: "@)
            &&& shown_after(e.spec_body(), e_payload.spec_body(), payload@, payload_2@, ", payload: "@)
            &&& shown_after(e.spec_message(), e_message.spec_message(), message@, message_2@, "parent hash mismatch. message: "@)
            &&& shown_after(e.spec_message(), e_payload.spec_message(), payload@, payload_2@, ", payload: "@)
        }),
{
    let e = (PreconfApiError::ParentHashMismatch { message, payload });
    let e_message = (PreconfApiError::ParentHashMismatch { message: message_2, payload });
    let e_payload = (PreconfApiError::ParentHashMismatch { message, payload: payload_2 });
    {
        let x = Seq::<char>::empty();
        let b = (", payload: "@ + payload@);
        assert(e.spec_body() =~= x + "Parent hash mismatch. message: "@ + message@ + b);
        assert(e_message.spec_body() =~= x + "Parent hash mismatch. message: "@ + message_2@ + b);
        lemma_shown(e.spec_body(), e_message.spec_body(), x, "Parent hash mismatch. message: "@, message@, message_2@, b);
    }
    {
        let x = ("Parent hash mismatch. message: "@ + message@);
        let b = Seq::<char>::empty();
        assert(e.spec_body() =~= x + ", payload: "@ + payload@ + b);
        assert(e_payload.spec_body() =~= x + ", payload: "@ + payload_2@ + b);
        lemma_shown(e.spec_body(), e_payload.spec_body(), x, ", payload: "@, payload@, payload_2@, b);
    }
    {
        let x = Seq::<char>::empty();
        let b = (", payload: "@ + payload@);
        assert(e.spec_message() =~= x + "parent hash mismatch. message: "@ + message@ + b);
        assert(e_message.spec_message() =~= x + "parent hash mismatch. message: "@ + message_2@ + b);
        lemma_shown(e.spec_message(), e_message.spec_message(), x, "parent hash mismatch. message: "@, message@, message_2@, b);
    }
    {
        let x = ("parent hash mismatch. message: "@ + message@);
        let b = Seq::<char>::empty();
        assert(e.spec_message() =~= x + ", payload: "@ + payload@ + b);
        assert(e_payload.spec_message() =~= x + ", payload: "@ + payload_2@ + b);
        lemma_shown(e.spec_message(), e_payload.spec_message(), x, ", payload: "@, payload@, payload_2@, b);
    }
}

/// In the response body and the message of `FeeRecipientMismatch`, each of `got`, `expected` stands
/// right after its label, and changing it changes that place and nothing else.
pub proof fn lemma_fee_recipient_mismatch_fields(got: String, got_2: String, expected: String, expected_2: String)
    ensures
        ({
            let e = (PreconfApiError::FeeRecipientMismatch { got, expected });
            let e_got = (PreconfApiError::FeeRecipientMismatch { got: got_2, expected });
            let e_expected = (PreconfApiError::FeeRecipientMismatch { got, expected: expected_2 });
            &&& shown_after(e.spec_body(), e_got.spec_body(), got@, got_2@, "Fee recipient mismatch. got: "@)
            &&& shown_after(e.spec_body(), e_expected.spec_body(), expected@, expected_2@, ", expected: "@)
            &&& shown_after(e.spec_message(), e_got.spec_message(), got@, got_2@, "fee recipient mismatch. got: "@)
            &&& shown_after(e.spec_message(), e_expected.spec_message(), expected@, expected_2@, ", expected: "@)
        }),
{
    let e = (PreconfApiError::FeeRecipientMismatch { got, expected });
    let e_got = (PreconfApiError::FeeRecipientMismatch { got: got_2, expected });
    let e_expected = (PreconfApiError::FeeRecipientMismatch { got, expected: expected_2 });
    {
        let x = Seq::<char>::empty();
        let b = (", expected: "@ + expected@);
        assert(e.spec_body() =~= x + "Fee recipient mismatch. got: "@ + got@ + b);
        assert(e_got.spec_body() =~= x + "Fee recipient mismatch. got: "@ + got_2@ + b);
        lemma_shown(e.spec_body(), e_got.spec_body(), x, "Fee recipient mismatch. got: "@, got@, got_2@, b);
    }
    {
        let x = ("Fee recipient mismatch. got: "@ + got@);
        let b = Seq::<char>::empty();
        assert(e.spec_body() =~= x + ", expected: "@ + expected@ + b);
        assert(e_expected.spec_body() =~= x + ", expected: "@ + expected_2@ + b);
        lemma_shown(e.spec_body(), e_expected.spec_body(), x, ", expected: "@, expected@, expected_2@, b);
    }
    {
        let x = Seq::<char>::empty();
        let b = (", expected: "@ + expected@);
        assert(e.spec_message() =~= x + "fee recipient mismatch. got: "@ + got@ + b);
        assert(e_got.spec_message() =~= x + "fee recipient mismatch. got: "@ + got_2@ + b);
        lemma_shown(e.spec_message(), e_got.spec_message(), x, "fee recipient mismatch. got: "@, got@, got_2@, b);
    }
    {
        let x = ("fee recipient mismatch. got: "@ + got@);
        let b = Seq::<char>::empty();
        assert(e.spec_message() =~= x + ", expected: "@ + expected@ + b);
        assert(e_expected.spec_message() =~= x + ", expected: "@ + expected_2@ + b);
        lemma_shown(e.spec_message(), e_expected.spec_message(), x, ", expected: "@, expected@, expected_2@, b);
    }
}

/// In the response body and the message of `ProposerPublicKeyMismatch`, each of `got`, `expected` stands
/// right after its label, and changing it changes that place and nothing else.
pub proof fn lemma_proposer_public_key_mismatch_fields(got: String, got_2: String, expected: String, expected_2: String)
    ensures
        ({
            let e = (PreconfApiError::ProposerPublicKeyMismatch { got, expected });
            let e_got = (PreconfApiError::ProposerPublicKeyMismatch { got: got_2, expected });
            let e_expected = (PreconfApiError::ProposerPublicKeyMismatch { got, expected: expected_2 });
            &&& shown_after(e.spec_body(), e_got.spec_body(), got@, got_2@, "Proposer public key mismatch. got: "@)
            &&& shown_after(e.spec_body(), e_expected.spec_body(), expected@, expected_2@, ", expected: "@)
            &&& shown_after(e.spec_message(), e_got.spec_message(), got@, got_2@, "proposer public key mismatch. got: "@)
            &&& shown_after(e.spec_message(), e_expected.spec_message(), expected@, expected_2@, ", expected: "@)
        }),
{
    let e = (PreconfApiError::ProposerPublicKeyMismatch { got, expected });
    let e_got = (PreconfApiError::ProposerPublicKeyMismatch { got: got_2, expected });
    let e_expected = (PreconfApiError::ProposerPublicKeyMismatch { got, expected: expected_2 });
    {
        let x = Seq::<char>::empty();
        let b = (", expected: "@ + expected@);
        assert(e.spec_body() =~= x + "Proposer public key mismatch. got: "@ + got@ + b);
        assert(e_got.spec_body() =~= x + "Proposer public key mismatch. got: "@ + got_2@ + b);
        lemma_shown(e.spec_body(), e_got.spec_body(), x, "Proposer public key mismatch. got: "@, got@, got_2@, b);
    }
    {
        let x = ("Proposer public key mismatch. got: "@ + got@);
        let b = Seq::<char>::empty();
        assert(e.spec_body() =~= x + ", expected: "@ + expected@ + b);
        assert(e_expected.spec_body() =~= x + ", expected: "@ + expected_2@ + b);
        lemma_shown(e.spec_body(), e_expected.spec_body(), x, ", expected: "@, expected@, expected_2@, b);
    }
    {
        let x = Seq::<char>::empty();
        let b = (", expected: "@ + expected@);
        assert(e.spec_message() =~= x + "proposer public key mismatch. got: "@ + got@ + b);
        assert(e_got.spec_message() =~= x + "proposer public key mismatch. got: "@ + got_2@ + b);
        lemma_shown(e.spec_message(), e_got.spec_message(), x, "proposer public key mismatch. got: "@, got@, got_2@, b);
    }
    {
        let x = ("proposer public key mismatch. got: "@ + got@);
        let b = Seq::<char>::empty();
        assert(e.spec_message() =~= x + ", expected: "@ + expected@ + b);
        assert(e_expected.spec_message() =~= x + ", expected: "@ + expected_2@ + b);
        lemma_shown(e.spec_message(), e_expected.spec_message(), x, ", expected: "@, expected@, expected_2@, b);
    }
}

/// In the response body and the message of `SlotMismatch`, each of `got`, `expected` stands
/// right after its label, and changing it changes that place and nothing else.
pub proof fn lemma_slot_mismatch_fields(got: u64, got_2: u64, expected: u64, expected_2: u64)
    ensures
        ({
            let e = (PreconfApiError::SlotMismatch { got, expected });
            let e_got = (PreconfApiError::SlotMismatch { got: got_2, expected });
            let e_expected = (PreconfApiError::SlotMismatch { got, expected: expected_2 });
            &&& shown_after(e.spec_body(), e_got.spec_body(), decimal(got as nat), decimal(got_2 as nat), "Slot mismatch. got: "@)
            &&& shown_after(e.spec_body(), e_expected.spec_body(), decimal(expected as nat), decimal(expected_2 as nat), ", expected: "@)
            &&& shown_after(e.spec_message(), e_got.spec_message(), decimal(got as nat), decimal(got_2 as nat), "slot mismatch. got: "@)
            &&& shown_after(e.spec_message(), e_expected.spec_message(), decimal(expected as nat), decimal(expected_2 as nat), ", expected: "@)
        }),
{
    let e = (PreconfApiError::SlotMismatch { got, expected });
    let e_got = (PreconfApiError::SlotMismatch { got: got_2, expected });
    let e_expected = (PreconfApiError::SlotMismatch { got, expected: expected_2 });
    {
        let x = Seq::<char>::empty();
        let b = (", expected: "@ + decimal(expected as nat));
        assert(e.spec_body() =~= x + "Slot mismatch. got: "@ + decimal(got as nat) + b);
        assert(e_got.spec_body() =~= x + "Slot mismatch. got: "@ + decimal(got_2 as nat) + b);
        lemma_shown(e.spec_body(), e_got.spec_body(), x, "Slot mismatch. got: "@, decimal(got as nat), decimal(got_2 as nat), b);
    }
    {
        let x = ("Slot mismatch. got: "@ + decimal(got as nat));
        let b = Seq::<char>::empty();
        assert(e.spec_body() =~= x + ", expected: "@ + decimal(expected as nat) + b);
        assert(e_expected.spec_body() =~= x + ", expected: "@ + decimal(expected_2 as nat) + b);
        lemma_shown(e.spec_body(), e_expected.spec_body(), x, ", expected: "@, decimal(expected as nat), decimal(expected_2 as nat), b);
    }
    {
        let x = Seq::<char>::empty();
        let b = (", expected: "@ + decimal(expected as nat));
        assert(e.spec_message() =~= x + "slot mismatch. got: "@ + decimal(got as nat) + b);
        assert(e_got.spec_message() =~= x + "slot mismatch. got: "@ + decimal(got_2 as nat) + b);
        lemma_shown(e.spec_message(), e_got.spec_message(), x, "slot mismatch. got: "@, decimal(got as nat), decimal(got_2 as nat), b);
    }
    {
        let x = ("slot mismatch. got: "@ + decimal(got as nat));
        let b = Seq::<char>::empty();
        assert(e.spec_message() =~= x + ", expected: "@ + decimal(expected as nat) + b);
        assert(e_expected.spec_message() =~= x + ", expected: "@ + decimal(expected_2 as nat) + b);
        lemma_shown(e.spec_message(), e_expected.spec_message(), x, ", expected: "@, decimal(expected as nat), decimal(expected_2 as nat), b);
    }
}

/// In the response body and the message of `WithdrawalsRootMismatch`, each of `got`, `expected` stands
/// right after its label, and changing it changes that place and nothing else.
pub proof fn lemma_withdrawals_root_mismatch_fields(got: String, got_2: String, expected: String, expected_2: String)
    ensures
        ({
            let e = (PreconfApiError::WithdrawalsRootMismatch { got, expected });
            let e_got = (PreconfApiError::WithdrawalsRootMismatch { got: got_2, expected });
            let e_expected = (PreconfApiError::WithdrawalsRootMismatch { got, expected: expected_2 });
            &&& shown_after(e.spec_body(), e_got.spec_body(), got@, got_2@, "Withdrawals root mismatch. got: "@)
            &&& shown_after(e.spec_body(), e_expected.spec_body(), expected@, expected_2@, ", expected: "@)
            &&& shown_after(e.spec_message(), e_got.spec_message(), got@, got_2@, "withdrawls root mismatch. got: "@)
            &&& shown_after(e.spec_message(), e_expected.spec_message(), expected@, expected_2@, ", expected: "@)
        }),
{
    let e = (PreconfApiError::WithdrawalsRootMismatch { got, expected });
    let e_got = (PreconfApiError::WithdrawalsRootMismatch { got: got_2, expected });
    let e_expected = (PreconfApiError::WithdrawalsRootMismatch { got, expected: expected_2 });
    {
        let x = Seq::<char>::empty();
        let b = (", expected: "@ + expected@);
        assert(e.spec_body() =~= x + "Withdrawals root mismatch. got: "@ + got@ + b);
        assert(e_got.spec_body() =~= x + "Withdrawals root mismatch. got: "@ + got_2@ + b);
        lemma_shown(e.spec_body(), e_got.spec_body(), x, "Withdrawals root mismatch. got: "@, got@, got_2@, b);
    }
    {
        let x = ("Withdrawals root mismatch. got: "@ + got@);
        let b = Seq::<char>::empty();
        assert(e.spec_body() =~= x + ", expected: "@ + expected@ + b);
        assert(e_expected.spec_body() =~= x + ", expected: "@ + expected_2@ + b);
        lemma_shown(e.spec_body(), e_expected.spec_body(), x, ", expected: "@, expected@, expected_2@, b);
    }
    {
        let x = Seq::<char>::empty();
        let b = (", expected: "@ + expected@);
        assert(e.spec_message() =~= x + "withdrawls root mismatch. got: "@ + got@ + b);
        assert(e_got.spec_message() =~= x + "withdrawls root mismatch. got: "@ + got_2@ + b);
        lemma_shown(e.spec_message(), e_got.spec_message(), x, "withdrawls root mismatch. got: "@, got@, got_2@, b);
    }
    {
        let x = ("withdrawls root mismatch. got: "@ + got@);
        let b = Seq::<char>::empty();
        assert(e.spec_message() =~= x + ", expected: "@ + expected@ + b);
        assert(e_expected.spec_message() =~= x + ", expected: "@ + expected_2@ + b);
        lemma_shown(e.spec_message(), e_expected.spec_message(), x, ", expected: "@, expected@, expected_2@, b);
    }
}

/// In the response body and the message of `PrevRandaoMismatch`, each of `got`, `expected` stands
/// right after its label, and changing it changes that place and nothing else.
pub proof fn lemma_prev_randao_mismatch_fields(got: String, got_2: String, expected: String, expected_2: String)
    ensures
        ({
            let e = (PreconfApiError::PrevRandaoMismatch { got, expected });
            let e_got = (PreconfApiError::PrevRandaoMismatch { got: got_2, expected });
            let e_expected = (PreconfApiError::PrevRandaoMismatch { got, expected: expected_2 });
            &&& shown_after(e.spec_body(), e_got.spec_body(), got@, got_2@, "Prev randao mismatch. got: "@)
            &&& shown_after(e.spec_body(), e_expected.spec_body(), expected@, expected_2@, ", expected: "@)
            &&& shown_after(e.spec_message(), e_got.spec_message(), got@, got_2@, "incorrect prev_randao - got: "@)
            &&& shown_after(e.spec_message(), e_expected.spec_message(), expected@, expected_2@, ", expected: "@)
        }),
{
    let e = (PreconfApiError::PrevRandaoMismatch { got, expected });
    let e_got = (PreconfApiError::PrevRandaoMismatch { got: got_2, expected });
    let e_expected = (PreconfApiError::PrevRandaoMismatch { got, expected: expected_2 });
    {
        let x = Seq::<char>::empty();
        let b = (", expected: "@ + expected@);
        assert(e.spec_body() =~= x + "Prev randao mismatch. got: "@ + got@ + b);
        assert(e_got.spec_body() =~= x + "Prev randao mismatch. got: "@ + got_2@ + b);
        lemma_shown(e.spec_body(), e_got.spec_body(), x, "Prev randao mismatch. got: "@, got@, got_2@, b);
    }
    {
        let x = ("Prev randao mismatch. got: "@ + got@);
        let b = Seq::<char>::empty();
        assert(e.spec_body() =~= x + ", expected: "@ + expected@ + b);
        assert(e_expected.spec_body() =~= x + ", expected: "@ + expected_2@ + b);
        lemma_shown(e.spec_body(), e_expected.spec_body(), x, ", expected: "@, expected@, expected_2@, b);
    }
    {
        let x = Seq::<char>::empty();
        let b = (", expected: "@ + expected@);
        assert(e.spec_message() =~= x + "incorrect prev_randao - got: "@ + got@ + b);
        assert(e_got.spec_message() =~= x + "incorrect prev_randao - got: "@ + got_2@ + b);
        lemma_shown(e.spec_message(), e_got.spec_message(), x, "incorrect prev_randao - got: "@, got@, got_2@, b);
    }
    {
        let x = ("incorrect prev_randao - got: "@ + got@);
        let b = Seq::<char>::empty();
        assert(e.spec_message() =~= x + ", expected: "@ + expected@ + b);
        assert(e_expected.spec_message() =~= x + ", expected: "@ + expected_2@ + b);
        lemma_shown(e.spec_message(), e_expected.spec_message(), x, ", expected: "@, expected@, expected_2@, b);
    }
}

/// In the response body and the message of `BuilderBlacklisted`, each of `pubkey` stands
/// right after its label, and changing it changes that place and nothing else.
pub proof fn lemma_builder_blacklisted_fields(pubkey: String, pubkey_2: String)
    ensures
        ({
            let e = (PreconfApiError::BuilderBlacklisted { pubkey });
            let e_pubkey = (PreconfApiError::BuilderBlacklisted { pubkey: pubkey_2 });
            &&& shown_after(e.spec_body(), e_pubkey.spec_body(), pubkey@, pubkey_2@, "Builder blacklisted. pubkey: "@)
            &&& shown_after(e.spec_message(), e_pubkey.spec_message(), pubkey@, pubkey_2@, "builder blacklisted. pubkey: "@)
        }),
{
    let e = (PreconfApiError::BuilderBlacklisted { pubkey });
    let e_pubkey = (PreconfApiError::BuilderBlacklisted { pubkey: pubkey_2 });
    {
        let x = Seq::<char>::empty();
        let b = Seq::<char>::empty();
        assert(e.spec_body() =~= x + "Builder blacklisted. pubkey: "@ + pubkey@ + b);
        assert(e_pubkey.spec_body() =~= x + "Builder blacklisted. pubkey: "@ + pubkey_2@ + b);
        lemma_shown(e.spec_body(), e_pubkey.spec_body(), x, "Builder blacklisted. pubkey: "@, pubkey@, pubkey_2@, b);
    }
    {
        let x = Seq::<char>::empty();
        let b = Seq::<char>::empty();
        assert(e.spec_message() =~= x + "builder blacklisted. pubkey: "@ + pubkey@ + b);
        assert(e_pubkey.spec_message() =~= x + "builder blacklisted. pubkey: "@ + pubkey_2@ + b);
        lemma_shown(e.spec_message(), e_pubkey.spec_message(), x, "builder blacklisted. pubkey: "@, pubkey@, pubkey_2@, b);
    }
}

/// In the response body and the message of `DuplicateBlockHash`, each of `block_hash` stands
/// right after its label, and changing it changes that place and nothing else.
pub proof fn lemma_duplicate_block_hash_fields(block_hash: String, block_hash_2: String)
    ensures
        ({
            let e = (PreconfApiError::DuplicateBlockHash { block_hash });
            let e_block_hash = (PreconfApiError::DuplicateBlockHash { block_hash: block_hash_2 });
            &&& shown_after(e.spec_body(), e_block_hash.spec_body(), block_hash@, block_hash_2@, "block already received: "@)
            &&& shown_after(e.spec_message(), e_block_hash.spec_message(), block_hash@, block_hash_2@, "block already received: "@)
        }),
{
    let e = (PreconfApiError::DuplicateBlockHash { block_hash });
    let e_block_hash = (PreconfApiError::DuplicateBlockHash { block_hash: block_hash_2 });
    {
        let x = Seq::<char>::empty();
        let b = Seq::<char>::empty();
        assert(e.spec_body() =~= x + "block already received: "@ + block_hash@ + b);
        assert(e_block_hash.spec_body() =~= x + "block already received: "@ + block_hash_2@ + b);
        lemma_shown(e.spec_body(), e_block_hash.spec_body(), x, "block already received: "@, block_hash@, block_hash_2@, b);
    }
    {
        let x = Seq::<char>::empty();
        let b = Seq::<char>::empty();
        assert(e.spec_message() =~= x + "block already received: "@ + block_hash@ + b);
        assert(e_block_hash.spec_message() =~= x + "block already received: "@ + block_hash_2@ + b);
        lemma_shown(e.spec_message(), e_block_hash.spec_message(), x, "block already received: "@, block_hash@, block_hash_2@, b);
    }
}

/// In the response body and the message of `BuilderNotOptimistic`, each of `builder_pub_key` stands
/// right after its label, and changing it changes that place and nothing else.
pub proof fn lemma_builder_not_optimistic_fields(builder_pub_key: String, builder_pub_key_2: String)
    ensures
        ({
            let e = (PreconfApiError::BuilderNotOptimistic { builder_pub_key });
            let e_builder_pub_key = (PreconfApiError::BuilderNotOptimistic { builder_pub_key: builder_pub_key_2 });
            &&& shown_after(e.spec_body(), e_builder_pub_key.spec_body(), builder_pub_key@, builder_pub_key_2@, "builder is not optimistic. builder_pub_key: "@)
            &&& shown_after(e.spec_message(), e_builder_pub_key.spec_message(), builder_pub_key@, builder_pub_key_2@, "builder is not optimistic. builder_pub_key: "@)
        }),
{
    let e = (PreconfApiError::BuilderNotOptimistic { builder_pub_key });
    let e_builder_pub_key = (PreconfApiError::BuilderNotOptimistic { builder_pub_key: builder_pub_key_2 });
    {
        let x = Seq::<char>::empty();
        let b = Seq::<char>::empty();
        assert(e.spec_body() =~= x + "builder is not optimistic. builder_pub_key: "@ + builder_pub_key@ + b);
        assert(e_builder_pub_key.spec_body() =~= x + "builder is not optimistic. builder_pub_key: "@ + builder_pub_key_2@ + b);
        lemma_shown(e.spec_body(), e_builder_pub_key.spec_body(), x, "builder is not optimistic. builder_pub_key: "@, builder_pub_key@, builder_pub_key_2@, b);
    }
    {
        let x = Seq::<char>::empty();
        let b = Seq::<char>::empty();
        assert(e.spec_message() =~= x + "builder is not optimistic. builder_pub_key: "@ + builder_pub_key@ + b);
        assert(e_builder_pub_key.spec_message() =~= x + "builder is not optimistic. builder_pub_key: "@ + builder_pub_key_2@ + b);
        lemma_shown(e.spec_message(), e_builder_pub_key.spec_message(), x, "builder is not optimistic. builder_pub_key: "@, builder_pub_key@, builder_pub_key_2@, b);
    }
}

/// In the response body and the message of `NotEnoughOptimisticCollateral`, each of `builder_pub_key`, `collateral`, `collateral_required`, `is_optimistic` stands
/// right after its label, and changing it changes that place and nothing else;
/// the message does not read `is_optimistic`.
pub proof fn lemma_not_enough_optimistic_collateral_fields(builder_pub_key: String, builder_pub_key_2: String, collateral: String, collateral_2: String, collateral_required: String, collateral_required_2: String, is_optimistic: bool, is_optimistic_2: bool)
    ensures
        ({
            let e = (PreconfApiError::NotEnoughOptimisticCollateral { builder_pub_key, collateral, collateral_required, is_optimistic });
            let e_builder_pub_key = (PreconfApiError::NotEnoughOptimisticCollateral { builder_pub_key: builder_pub_key_2, collateral, collateral_required, is_optimistic });
            let e_collateral = (PreconfApiError::NotEnoughOptimisticCollateral { builder_pub_key, collateral: collateral_2, collateral_required, is_optimistic });
            let e_collateral_required = (PreconfApiError::NotEnoughOptimisticCollateral { builder_pub_key, collateral, collateral_required: collateral_required_2, is_optimistic });
            let e_is_optimistic = (PreconfApiError::NotEnoughOptimisticCollateral { builder_pub_key, collateral, collateral_required, is_optimistic: is_optimistic_2 });
            &&& shown_after(e.spec_body(), e_builder_pub_key.spec_body(), builder_pub_key@, builder_pub_key_2@, "not enough optimistic collateral. builder_pub_key: "@)
            &&& shown_after(e.spec_body(), e_collateral.spec_body(), collateral@, collateral_2@, ". \n                    collateral: "@)
            &&& shown_after(e.spec_body(), e_collateral_required.spec_body(), collateral_required@, collateral_required_2@, ", collateral required: "@)
            &&& shown_after(e.spec_body(), e_is_optimistic.spec_body(), bool_text(is_optimistic), bool_text(is_optimistic_2), ". is_optimistic: "@)
            &&& shown_after(e.spec_message(), e_builder_pub_key.spec_message(), builder_pub_key@, builder_pub_key_2@, "not enough optimistic collateral. builder_pub_key: "@)
            &&& shown_after(e.spec_message(), e_collateral.spec_message(), collateral@, collateral_2@, ". \n        collateral: "@)
            &&& shown_after(e.spec_message(), e_collateral_required.spec_message(), collateral_required@, collateral_required_2@, ", collateral required: "@)
            &&& e.spec_message() == e_is_optimistic.spec_message()
        }),
{
    let e = (PreconfApiError::NotEnoughOptimisticCollateral { builder_pub_key, collateral, collateral_required, is_optimistic });
    let e_builder_pub_key = (PreconfApiError::NotEnoughOptimisticCollateral { builder_pub_key: builder_pub_key_2, collateral, collateral_required, is_optimistic });
    let e_collateral = (PreconfApiError::NotEnoughOptimisticCollateral { builder_pub_key, collateral: collateral_2, collateral_required, is_optimistic });
    let e_collateral_required = (PreconfApiError::NotEnoughOptimisticCollateral { builder_pub_key, collateral, collateral_required: collateral_required_2, is_optimistic });
    let e_is_optimistic = (PreconfApiError::NotEnoughOptimisticCollateral { builder_pub_key, collateral, collateral_required, is_optimistic: is_optimistic_2 });
    {
        let x = Seq::<char>::empty();
        let b = (". \n                    collateral: "@ + collateral@ + ", collateral required: "@ + collateral_required@ + ". is_optimistic: "@ + bool_text(is_optimistic));
        assert(e.spec_body() =~= x + "not enough optimistic collateral. builder_pub_key: "@ + builder_pub_key@ + b);
        assert(e_builder_pub_key.spec_body() =~= x + "not enough optimistic collateral. builder_pub_key: "@ + builder_pub_key_2@ + b);
        lemma_shown(e.spec_body(), e_builder_pub_key.spec_body(), x, "not enough optimistic collateral. builder_pub_key: "@, builder_pub_key@, builder_pub_key_2@, b);
    }
    {
        let x = ("not enough optimistic collateral. builder_pub_key: "@ + builder_pub_key@);
        let b = (", collateral required: "@ + collateral_required@ + ". is_optimistic: "@ + bool_text(is_optimistic));
        assert(e.spec_body() =~= x + ". \n                    collateral: "@ + collateral@ + b);
        assert(e_collateral.spec_body() =~= x + ". \n                    collateral: "@ + collateral_2@ + b);
        lemma_shown(e.spec_body(), e_collateral.spec_body(), x, ". \n                    collateral: "@, collateral@, collateral_2@, b);
    }
    {
        let x = ("not enough optimistic collateral. builder_pub_key: "@ + builder_pub_key@ + ". \n                    collateral: "@ + collateral@);
        let b = (". is_optimistic: "@ + bool_text(is_optimistic));
        assert(e.spec_body() =~= x + ", collateral required: "@ + collateral_required@ + b);
        assert(e_collateral_required.spec_body() =~= x + ", collateral required: "@ + collateral_required_2@ + b);
        lemma_shown(e.spec_body(), e_collateral_required.spec_body(), x, ", collateral required: "@, collateral_required@, collateral_required_2@, b);
    }
    {
        let x = ("not enough optimistic collateral. builder_pub_key: "@ + builder_pub_key@ + ". \n                    collateral: "@ + collateral@ + ", collateral required: "@ + collateral_required@);
        let b = Seq::<char>::empty();
        assert(e.spec_body() =~= x + ". is_optimistic: "@ + bool_text(is_optimistic) + b);
        assert(e_is_optimistic.spec_body() =~= x + ". is_optimistic: "@ + bool_text(is_optimistic_2) + b);
        lemma_shown(e.spec_body(), e_is_optimistic.spec_body(), x, ". is_optimistic: "@, bool_text(is_optimistic), bool_text(is_optimistic_2), b);
    }
    {
        let x = Seq::<char>::empty();
        let b = (". \n        collateral: "@ + collateral@ + ", collateral required: "@ + collateral_required@);
        assert(e.spec_message() =~= x + "not enough optimistic collateral. builder_pub_key: "@ + builder_pub_key@ + b);
        assert(e_builder_pub_key.spec_message() =~= x + "not enough optimistic collateral. builder_pub_key: "@ + builder_pub_key_2@ + b);
        lemma_shown(e.spec_message(), e_builder_pub_key.spec_message(), x, "not enough optimistic collateral. builder_pub_key: "@, builder_pub_key@, builder_pub_key_2@, b);
    }
    {
        let x = ("not enough optimistic collateral. builder_pub_key: "@ + builder_pub_key@);
        let b = (", collateral required: "@ + collateral_required@);
        assert(e.spec_message() =~= x + ". \n        collateral: "@ + collateral@ + b);
        assert(e_collateral.spec_message() =~= x + ". \n        collateral: "@ + collateral_2@ + b);
        lemma_shown(e.spec_message(), e_collateral.spec_message(), x, ". \n        collateral: "@, collateral@, collateral_2@, b);
    }
    {
        let x = ("not enough optimistic collateral. builder_pub_key: "@ + builder_pub_key@ + ". \n        collateral: "@ + collateral@);
        let b = Seq::<char>::empty();
        assert(e.spec_message() =~= x + ", collateral required: "@ + collateral_required@ + b);
        assert(e_collateral_required.spec_message() =~= x + ", collateral required: "@ + collateral_required_2@ + b);
        lemma_shown(e.spec_message(), e_collateral_required.spec_message(), x, ", collateral required: "@, collateral_required@, collateral_required_2@, b);
    }
}

/// In the response body and the message of `BlockValidationError`, each of `message`, `debug` stands
/// right after its label, and changing it changes that place and nothing else;
/// the message does not read `message`.
pub proof fn lemma_block_validation_error_fields(message: String, message_2: String, debug: String, debug_2: String)
    ensures
        ({
            let e = (PreconfApiError::BlockValidationError(BlockSimError::Failed { message, debug }));
            let e_message = (PreconfApiError::BlockValidationError(BlockSimError::Failed { message: message_2, debug }));
            let e_debug = (PreconfApiError::BlockValidationError(BlockSimError::Failed { message, debug: debug_2 }));
            &&& shown_after(e.spec_body(), e_message.spec_body(), message@, message_2@, "Block validation error: "@)
            &&& e.spec_body() == e_debug.spec_body()
            &&& e.spec_message() == e_message.spec_message()
            &&& shown_after(e.spec_message(), e_debug.spec_message(), debug@, debug_2@, "block validation error: "@)
        }),
{
    let e = (PreconfApiError::BlockValidationError(BlockSimError::Failed { message, debug }));
    let e_message = (PreconfApiError::BlockValidationError(BlockSimError::Failed { message: message_2, debug }));
    let e_debug = (PreconfApiError::BlockValidationError(BlockSimError::Failed { message, debug: debug_2 }));
    {
        let x = Seq::<char>::empty();
        let b = Seq::<char>::empty();
        assert(e.spec_body() =~= x + "Block validation error: "@ + message@ + b);
        assert(e_message.spec_body() =~= x + "Block validation error: "@ + message_2@ + b);
        lemma_shown(e.spec_body(), e_message.spec_body(), x, "Block validation error: "@, message@, message_2@, b);
    }
    {
        let x = Seq::<char>::empty();
        let b = Seq::<char>::empty();
        assert(e.spec_message() =~= x + "block validation error: "@ + debug@ + b);
        assert(e_debug.spec_message() =~= x + "block validation error: "@ + debug_2@ + b);
        lemma_shown(e.spec_message(), e_debug.spec_message(), x, "block validation error: "@, debug@, debug_2@, b);
    }
}

} // verus!
