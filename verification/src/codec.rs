//! The gzip codec, which is flate2's. Nothing in this file is proved: each
//! item states what the rest of the crate takes on trust about flate2's
//! streaming encoder and decoder, run over an in-memory sink.
//!
//! Over such a sink the codec's answers depend on the bytes it is given and
//! on nothing else, and not on how the bytes are cut into calls. Whether a
//! call succeeds is therefore given a name over the bytes; none of these
//! names is a promise that it does.

use flate2::write::{GzDecoder, GzEncoder};
use flate2::Compression;
use std::io::Write;
use vstd::prelude::*;

verus! {

/// A `flate2::write::GzEncoder` that compresses into a `Vec<u8>`, opaque to
/// the verifier.
#[verifier::external_body]
pub struct Encoder {
    inner: GzEncoder<Vec<u8>>,
}

/// A `flate2::write::GzDecoder` that decompresses into a `Vec<u8>`, opaque to
/// the verifier.
#[verifier::external_body]
pub struct Decoder {
    inner: GzDecoder<Vec<u8>>,
}

/// `std::io::Error`, opaque to the verifier: the codec's failures are of this
/// type, and only their message is ever asked of them.
#[verifier::external_type_specification]
#[verifier::external_body]
pub struct ExIoError(std::io::Error);

/// The content of the gzip member that `stream` begins with, as flate2's
/// `GzDecoder` delivers it once it has read that member to its end and found
/// its checksum and length to match; `None` where `stream` does not begin
/// with such a member. Bytes that follow the member do not count.
pub uninterp spec fn gunzip(stream: Seq<u8>) -> Option<Seq<u8>>;

/// Whether flate2's encoder, having been given `consumed`, takes `data` as
/// well: whether `Write::write_all` returns `Ok`.
pub uninterp spec fn deflate_takes(consumed: Seq<u8>, data: Seq<u8>) -> bool;

/// Whether flate2's encoder, having been given `content`, ends its stream:
/// whether `GzEncoder::finish` returns `Ok`.
pub uninterp spec fn deflates(content: Seq<u8>) -> bool;

/// Whether flate2's decoder reads `stream` from its first byte to its last
/// without finding fault: whether no `Write::write` on the way returns `Err`.
pub uninterp spec fn inflates(stream: Seq<u8>) -> bool;

/// Whether the decoder has read its gzip member to the end, trailer
/// included, so that it accepts no further byte.
pub uninterp spec fn decoder_done(dec: Decoder) -> bool;

/// Every byte written into the encoder since it was made.
pub uninterp spec fn encoder_consumed(enc: Encoder) -> Seq<u8>;

/// Every byte taken out of the encoder's sink since it was made.
pub uninterp spec fn encoder_released(enc: Encoder) -> Seq<u8>;

/// Every byte the decoder has accepted since it was made.
pub uninterp spec fn decoder_consumed(dec: Decoder) -> Seq<u8>;

/// Every byte taken out of the decoder's sink since it was made.
pub uninterp spec fn decoder_released(dec: Decoder) -> Seq<u8>;

/// `GzEncoder::new` over an empty `Vec`, at flate2's default level. The new
/// encoder has been given nothing and has given nothing out.
#[verifier::external_body]
pub(crate) fn encoder_new() -> (enc: Encoder)
    ensures
        encoder_consumed(enc) == Seq::<u8>::empty(),
        encoder_released(enc) == Seq::<u8>::empty(),
{
    Encoder { inner: GzEncoder::new(Vec::new(), Compression::default()) }
}

/// `Write::write_all` on the encoder. Whether it returns `Ok` depends on the
/// bytes alone and is given a name, not promised. When it returns `Ok`, the
/// whole of `data` has been written into the encoder. It takes nothing out
/// of the sink either way.
#[verifier::external_body]
pub(crate) fn encoder_write_all(enc: &mut Encoder, data: &[u8]) -> (r: Result<
    (),
    std::io::Error,
>)
    ensures
        encoder_released(*final(enc)) == encoder_released(*old(enc)),
        r is Ok <==> deflate_takes(encoder_consumed(*old(enc)), data@),
        r is Ok ==> encoder_consumed(*final(enc)) == encoder_consumed(*old(enc)) + data@,
{
    enc.inner.write_all(data)
}

/// `GzEncoder::get_mut`, whose target is moved out and left empty: the bytes
/// that the encoder has put into its sink since the sink was last emptied.
/// flate2 documents that the outputs taken this way, in order, make up the
/// encoder's stream.
#[verifier::external_body]
pub(crate) fn encoder_take(enc: &mut Encoder) -> (out: Vec<u8>)
    ensures
        encoder_consumed(*final(enc)) == encoder_consumed(*old(enc)),
        encoder_released(*final(enc)) == encoder_released(*old(enc)) + out@,
{
    std::mem::take(enc.inner.get_mut())
}

/// `GzEncoder::finish`, which ends the stream and hands back the sink.
/// Whether it returns `Ok` depends on the bytes alone and is given a name,
/// not promised. When it returns `Ok`, what was taken out before, followed
/// by what the sink holds now, is one gzip member whose content is what was
/// written in.
#[verifier::external_body]
pub(crate) fn encoder_finish(enc: Encoder) -> (r: Result<Vec<u8>, std::io::Error>)
    ensures
        r is Ok <==> deflates(encoder_consumed(enc)),
        r matches Ok(tail) ==> gunzip(encoder_released(enc) + tail@) == Some(
            encoder_consumed(enc),
        ),
{
    enc.inner.finish()
}

/// `GzDecoder::new` over an empty `Vec`. The new decoder has been given
/// nothing and has given nothing out.
#[verifier::external_body]
pub(crate) fn decoder_new() -> (dec: Decoder)
    ensures
        decoder_consumed(dec) == Seq::<u8>::empty(),
        decoder_released(dec) == Seq::<u8>::empty(),
{
    Decoder { inner: GzDecoder::new(Vec::new()) }
}

/// `Write::write` on the decoder. It takes nothing out of the sink.
///
/// When it returns `Ok(n)`, the decoder has accepted the first `n` bytes of
/// `data` and no more, and has found no fault in what it has accepted so
/// far. It answers `0` to bytes that are not empty only once its member is
/// behind it, and from then on finds fault with nothing that follows.
///
/// When it returns `Err`, the decoder has found a fault in the stream: the
/// bytes accepted before, followed by `data`, are not read without fault,
/// and nothing that begins with them begins with an intact gzip member.
#[verifier::external_body]
pub(crate) fn decoder_write(dec: &mut Decoder, data: &[u8]) -> (r: Result<
    usize,
    std::io::Error,
>)
    ensures
        decoder_released(*final(dec)) == decoder_released(*old(dec)),
        r matches Ok(n) ==> n <= data@.len() && decoder_consumed(*final(dec))
            == decoder_consumed(*old(dec)) + data@.take(n as int),
        r is Ok ==> inflates(decoder_consumed(*final(dec))),
        r matches Ok(n) ==> (n == 0 && data@.len() > 0 ==> decoder_done(*final(dec))),
        decoder_done(*final(dec)) ==> forall|rest: Seq<u8>| #[trigger]
            inflates(decoder_consumed(*final(dec)) + rest),
        r is Err ==> !inflates(decoder_consumed(*old(dec)) + data@),
        r is Err ==> forall|rest: Seq<u8>| #[trigger]
            gunzip(decoder_consumed(*old(dec)) + data@ + rest) is None,
{
    dec.inner.write(data)
}

/// `GzDecoder::get_mut`, whose target is moved out and left empty: the bytes
/// that the decoder has put into its sink since the sink was last emptied.
/// Where the decoder stands in its input is untouched.
#[verifier::external_body]
pub(crate) fn decoder_take(dec: &mut Decoder) -> (out: Vec<u8>)
    ensures
        decoder_consumed(*final(dec)) == decoder_consumed(*old(dec)),
        decoder_released(*final(dec)) == decoder_released(*old(dec)) + out@,
        decoder_done(*final(dec)) == decoder_done(*old(dec)),
{
    std::mem::take(dec.inner.get_mut())
}

/// `GzDecoder::finish`, which ends the stream, checks the member's checksum
/// and length, and hands back the sink.
///
/// When it returns `Ok`, the bytes that the decoder accepted are one whole
/// gzip member, and what was taken out before, followed by what the sink
/// holds now, is that member's content.
///
/// When it returns `Err`, the bytes that the decoder accepted are no intact
/// gzip member: the member is cut short, or its trailer does not match. If
/// the decoder had read its member to the end, nothing that follows can mend
/// it.
#[verifier::external_body]
pub(crate) fn decoder_finish(dec: Decoder) -> (r: Result<Vec<u8>, std::io::Error>)
    ensures
        r matches Ok(tail) ==> forall|rest: Seq<u8>|
            #[trigger] gunzip(decoder_consumed(dec) + rest) == Some(
                decoder_released(dec) + tail@,
            ),
        r is Err ==> gunzip(decoder_consumed(dec)) is None,
        r is Err && decoder_done(dec) ==> forall|rest: Seq<u8>| #[trigger]
            gunzip(decoder_consumed(dec) + rest) is None,
{
    dec.inner.finish()
}

} // verus!
