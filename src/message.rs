use vstd::prelude::*;
use vstd::utf8::{decode_utf8, decode_utf8_encode_utf8, encode_utf8, valid_utf8};

verus! {

/// The most bytes that one read takes from a connection, and so the most
/// bytes in one message.
pub const MAX_MESSAGE_SIZE: usize = 256;

/// What one read from a connection gave.
pub enum ReadOutcome {
    /// The bytes that the read returned; none means the peer closed.
    Data(Vec<u8>),
    /// A non-blocking socket had nothing ready.
    WouldBlock,
    /// The read failed.
    Failed,
}

/// What a reader does after a read.
pub enum ReadStep {
    /// Pass this message on.
    Deliver(String),
    /// Nothing arrived; read again later.
    Idle,
    /// The connection is over: closed by the peer, failed, or it sent bytes
    /// that are not UTF-8.
    Close,
}

/// Relies on `String::from_utf8`: it accepts exactly the valid UTF-8 byte
/// sequences and keeps their characters.
#[verifier::external_body]
fn string_from_utf8(bytes: Vec<u8>) -> (r: Option<String>)
    ensures
        r is Some <==> valid_utf8(bytes@),
        r matches Some(s) ==> s@ == decode_utf8(bytes@),
{
    String::from_utf8(bytes).ok()
}

/// Decides what a reader does with the outcome of one read: a read of no
/// bytes, a failure or bytes that are not UTF-8 end the connection; bytes
/// that are UTF-8 become one message; a read that would block changes
/// nothing.
pub fn classify_read(outcome: ReadOutcome) -> (r: ReadStep)
    ensures
        match outcome {
            ReadOutcome::Data(b) => if b@.len() > 0 && valid_utf8(b@) {
                r matches ReadStep::Deliver(s) && s@ == decode_utf8(b@)
            } else {
                r is Close
            },
            ReadOutcome::WouldBlock => r is Idle,
            ReadOutcome::Failed => r is Close,
        },
{
    match outcome {
        ReadOutcome::Data(bytes) => {
            if bytes.len() == 0 {
                ReadStep::Close
            } else {
                match string_from_utf8(bytes) {
                    Some(s) => ReadStep::Deliver(s),
                    None => ReadStep::Close,
                }
            }
        },
        ReadOutcome::WouldBlock => ReadStep::Idle,
        ReadOutcome::Failed => ReadStep::Close,
    }
}

/// The bytes of the messages that reads of `chunks` deliver, in order: each
/// message is sent on as the UTF-8 encoding of its characters.
pub open spec fn delivered_bytes(chunks: Seq<Seq<u8>>) -> Seq<u8>
    decreases chunks.len(),
{
    if chunks.len() == 0 {
        Seq::empty()
    } else {
        delivered_bytes(chunks.drop_last()) + encode_utf8(decode_utf8(chunks.last()))
    }
}

/// A message of `MAX_MESSAGE_SIZE` bytes that arrives split over several
/// reads, each of them UTF-8, is delivered as messages whose bytes, one
/// after another, are the message itself: nothing lost, nothing repeated,
/// nothing reordered.
pub proof fn lemma_reads_reassemble(sent: Seq<u8>, chunks: Seq<Seq<u8>>)
    requires
        sent.len() == MAX_MESSAGE_SIZE,
        chunks.flatten() == sent,
        forall|i: int|
            0 <= i < chunks.len() ==> 0 < #[trigger] chunks[i].len() <= MAX_MESSAGE_SIZE
                && valid_utf8(chunks[i]),
    ensures
        delivered_bytes(chunks) == sent,
{
    chunks.lemma_flatten_and_flatten_alt_are_equivalent();
    lemma_delivered_bytes(chunks);
}

proof fn lemma_delivered_bytes(chunks: Seq<Seq<u8>>)
    requires
        forall|i: int| 0 <= i < chunks.len() ==> valid_utf8(#[trigger] chunks[i]),
    ensures
        delivered_bytes(chunks) == chunks.flatten_alt(),
    decreases chunks.len(),
{
    if chunks.len() > 0 {
        let front = chunks.drop_last();
        assert forall|i: int| 0 <= i < front.len() implies valid_utf8(#[trigger] front[i]) by {
            assert(front[i] == chunks[i]);
        }
        lemma_delivered_bytes(front);
        assert(valid_utf8(chunks[chunks.len() - 1]));
        decode_utf8_encode_utf8(chunks.last());
    }
}

} // verus!
