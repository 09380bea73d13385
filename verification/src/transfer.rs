//! One transfer, from request to finished output.
//!
//! A transfer passes through the same stations whichever way it goes. It is
//! validated by [`compress_file`] or [`decompress_file`], which give a
//! [`Transfer`]; once both files are open it becomes a [`Stream`]; once its
//! input is exhausted it is [`Finalizing`]; and it is done when it has a
//! [`TransferResult`]. Each step consumes the station before it, so no step
//! can be taken out of turn, and every failure is a [`TransferError`] that
//! ends the transfer. The caller owns the two files: it reads the input in
//! chunks, hands them to [`Stream::feed`], and writes what comes back.

use crate::codec::{
    decoder_consumed, decoder_done, decoder_finish, decoder_new, decoder_released, decoder_take,
    decoder_write, deflate_takes, deflates, encoder_consumed, encoder_finish, encoder_new,
    encoder_released, encoder_take, encoder_write_all, gunzip, inflates, Decoder, Encoder,
};
use crate::error::{Direction, ErrorView, FileRole, TransferError};
use crate::naming::{
    default_out_compress, default_out_decompress, has_marker, validate_distinct, with_marker,
    without_marker,
};
use crate::path::{ends_in_file_name, names_a_file, same_path};
use vstd::prelude::*;
use vstd::slice::slice_subrange;
use vstd::string::*;

verus! {

/// The largest chunk a driver needs to read at a time. Memory in use does not
/// grow with the file: a chunk is fed, and what the codec gave out for it is
/// handed back, before the next is read.
pub const CHUNK_SIZE: usize = 8192;

/// What a validated request amounts to.
pub ghost struct TransferView {
    pub direction: Direction,
    pub input: Seq<char>,
    pub output: Seq<char>,
}

/// What a stream has done so far.
pub ghost struct StreamView {
    pub direction: Direction,
    pub output: Seq<char>,
    /// Every byte fed in, in order.
    pub consumed: Seq<u8>,
    /// Every byte handed out, in order.
    pub emitted: Seq<u8>,
    /// A decompressing stream has seen the end of its gzip member. Never
    /// true of a compressing stream.
    pub ended: bool,
}

/// `archive` begins with a gzip member whose content is `content`.
pub open spec fn unpacks_to(archive: Seq<u8>, content: Seq<u8>) -> bool {
    gunzip(archive) == Some(content)
}

/// Nothing that begins with `stream` begins with an intact gzip member:
/// `stream` is no such member and no beginning of one.
pub open spec fn begins_no_member(stream: Seq<u8>) -> bool {
    forall|rest: Seq<u8>| #[trigger] gunzip(stream + rest) is None
}

/// The decoder has its member behind it at `stream`: it finds no fault with
/// anything that follows.
pub open spec fn accepts_all_after(stream: Seq<u8>) -> bool {
    forall|rest: Seq<u8>| #[trigger] inflates(stream + rest)
}

/// The text of an optional path.
pub open spec fn path_view(path: Option<&str>) -> Option<Seq<char>> {
    match path {
        Some(p) => Some(p@),
        None => None,
    }
}

/// The plan that is no plan: the request is refused with `e`.
pub open spec fn refused(e: ErrorView) -> Result<TransferView, ErrorView> {
    Err(e)
}

/// The plan for a request whose input exists and whose output is resolved:
/// refused where the two are the same path.
pub open spec fn settled(direction: Direction, input: Seq<char>, output: Seq<char>) -> Result<
    TransferView,
    ErrorView,
> {
    if same_path(input, output) {
        refused(ErrorView::SamePath { path: input })
    } else {
        Ok(TransferView { direction, input, output })
    }
}

/// What validating a compression request gives: the input must exist, and
/// the output, which is the one given or else the input with the marker
/// appended, must not be the same path.
pub open spec fn compress_plan(input: Seq<char>, out: Option<Seq<char>>, input_exists: bool)
    -> Result<TransferView, ErrorView> {
    if !input_exists {
        refused(ErrorView::NotFound { path: input })
    } else {
        match out {
            Some(p) => settled(Direction::Compress, input, p),
            None => settled(Direction::Compress, input, with_marker(input)),
        }
    }
}

/// What validating a decompression request gives: the input must exist; an
/// output that was given must not be the same path; where none was given,
/// the input must end in the marker, what is left of it without the marker
/// must end in the name of a file, and that is the output.
pub open spec fn decompress_plan(input: Seq<char>, out: Option<Seq<char>>, input_exists: bool)
    -> Result<TransferView, ErrorView> {
    if !input_exists {
        refused(ErrorView::NotFound { path: input })
    } else {
        match out {
            Some(p) => settled(Direction::Decompress, input, p),
            None => if has_marker(input) && names_a_file(without_marker(input)) {
                settled(Direction::Decompress, input, without_marker(input))
            } else {
                refused(ErrorView::InvalidInput { path: input })
            },
        }
    }
}

/// What validation guarantees, whichever way the transfer goes. A missing
/// input is refused as not found, whatever else is wrong with the request. A
/// request whose output is the same path as its input is refused as such,
/// however the two are written. A request that passes keeps its input, uses
/// the output that was given as it stands, and never has its input as its
/// output. A decompression without a given output passes only where the
/// input is a file's name followed by the marker.
pub proof fn lemma_plan_sound(input: Seq<char>, out: Option<Seq<char>>, input_exists: bool)
    ensures
        !input_exists ==> compress_plan(input, out, input_exists) == refused(
            ErrorView::NotFound { path: input },
        ) && decompress_plan(input, out, input_exists) == refused(
            ErrorView::NotFound { path: input },
        ),
        input_exists && (out matches Some(p) && same_path(input, p)) ==> compress_plan(
            input,
            out,
            input_exists,
        ) == refused(ErrorView::SamePath { path: input }) && decompress_plan(
            input,
            out,
            input_exists,
        ) == refused(ErrorView::SamePath { path: input }),
        compress_plan(input, out, input_exists) matches Ok(t) ==> input_exists && t.input == input
            && !same_path(input, t.output) && t.output != input && t.output == (match out {
            Some(p) => p,
            None => with_marker(input),
        }),
        decompress_plan(input, out, input_exists) matches Ok(t) ==> input_exists && t.input
            == input && !same_path(input, t.output) && t.output != input && t.output == (match out {
            Some(p) => p,
            None => without_marker(input),
        }),
        decompress_plan(input, out, input_exists) is Ok && out is None ==> has_marker(input)
            && names_a_file(without_marker(input)),
{
}

/// A validated request: the input exists, the output path is resolved and is
/// not the same path as the input. Neither file has been opened yet.
pub struct Transfer {
    direction: Direction,
    input: String,
    output: String,
}

impl View for Transfer {
    type V = TransferView;

    closed spec fn view(&self) -> TransferView {
        TransferView { direction: self.direction, input: self.input@, output: self.output@ }
    }
}

/// The mathematical content of what validation returned.
pub open spec fn plan_view(r: Result<Transfer, TransferError>) -> Result<TransferView, ErrorView> {
    match r {
        Ok(t) => Ok(t@),
        Err(e) => Err(e@),
    }
}

/// Validates a compression of `input` into `out`, or into the input path
/// with `.gz` appended where `out` is `None`. `input_exists` is the caller's
/// answer to whether the input is there. Nothing has been opened, created or
/// truncated when this fails.
pub fn compress_file(input: &str, out: Option<&str>, input_exists: bool) -> (r: Result<
    Transfer,
    TransferError,
>)
    ensures
        plan_view(r) == compress_plan(input@, path_view(out), input_exists),
{
    if !input_exists {
        return Err(TransferError::NotFound { path: String::from_str(input) });
    }
    let output = match out {
        Some(p) => String::from_str(p),
        None => default_out_compress(input),
    };
    match validate_distinct(input, output.as_str()) {
        Ok(()) => Ok(
            Transfer { direction: Direction::Compress, input: String::from_str(input), output },
        ),
        Err(e) => Err(e),
    }
}

/// Validates a decompression of `input` into `out`, or into the input path
/// without its `.gz` where `out` is `None`. `input_exists` is the caller's
/// answer to whether the input is there. Nothing has been opened, created or
/// truncated when this fails.
pub fn decompress_file(input: &str, out: Option<&str>, input_exists: bool) -> (r: Result<
    Transfer,
    TransferError,
>)
    ensures
        plan_view(r) == decompress_plan(input@, path_view(out), input_exists),
{
    if !input_exists {
        return Err(TransferError::NotFound { path: String::from_str(input) });
    }
    let output = match out {
        Some(p) => String::from_str(p),
        None => {
            let derived = default_out_decompress(input)?;
            if !ends_in_file_name(derived.as_str()) {
                return Err(TransferError::InvalidInput { path: String::from_str(input) });
            }
            derived
        },
    };
    match validate_distinct(input, output.as_str()) {
        Ok(()) => Ok(
            Transfer { direction: Direction::Decompress, input: String::from_str(input), output },
        ),
        Err(e) => Err(e),
    }
}

impl Transfer {
    /// Which way this transfer goes.
    pub fn direction(&self) -> (d: Direction)
        ensures
            d == self@.direction,
    {
        self.direction
    }

    /// The path to read from.
    pub fn input(&self) -> (p: &str)
        ensures
            p@ == self@.input,
    {
        self.input.as_str()
    }

    /// The path to write to.
    pub fn output(&self) -> (p: &str)
        ensures
            p@ == self@.output,
    {
        self.output.as_str()
    }

    /// The failure to report when the file in the given role could not be
    /// opened or created.
    pub fn open_failed(self, role: FileRole, cause: String) -> (e: TransferError)
        ensures
            e@ == (ErrorView::IoOpen {
                role,
                path: if role == FileRole::Input {
                    self@.input
                } else {
                    self@.output
                },
                cause: cause@,
            }),
    {
        match role {
            FileRole::Input => TransferError::IoOpen { role, path: self.input, cause },
            FileRole::Output => TransferError::IoOpen { role, path: self.output, cause },
        }
    }

    /// Both files are open: streaming begins, with nothing fed and nothing
    /// handed out.
    pub fn opened(self) -> (s: Stream)
        ensures
            s@ == (StreamView {
                direction: self@.direction,
                output: self@.output,
                consumed: Seq::<u8>::empty(),
                emitted: Seq::<u8>::empty(),
                ended: false,
            }),
    {
        let codec = match self.direction {
            Direction::Compress => Codec::Deflate(encoder_new()),
            Direction::Decompress => Codec::Inflate(decoder_new()),
        };
        Stream { output: self.output, codec, ended: false, skipped: Ghost(Seq::empty()) }
    }
}

/// The codec of a stream.
enum Codec {
    Deflate(Encoder),
    Inflate(Decoder),
}

/// A transfer whose bytes are streaming.
pub struct Stream {
    output: String,
    codec: Codec,
    /// The decoder has reached the end of its gzip member: what follows in
    /// the input is passed over.
    ended: bool,
    /// The bytes passed over.
    skipped: Ghost<Seq<u8>>,
}

impl View for Stream {
    type V = StreamView;

    closed spec fn view(&self) -> StreamView {
        match self.codec {
            Codec::Deflate(enc) => StreamView {
                direction: Direction::Compress,
                output: self.output@,
                consumed: encoder_consumed(enc),
                emitted: encoder_released(enc),
                ended: self.ended,
            },
            Codec::Inflate(dec) => StreamView {
                direction: Direction::Decompress,
                output: self.output@,
                consumed: decoder_consumed(dec) + self.skipped@,
                emitted: decoder_released(dec),
                ended: self.ended,
            },
        }
    }
}

/// The failure of a read, a write or the codec while bytes stream.
pub fn copy_failure(direction: Direction, cause: String) -> (e: TransferError)
    ensures
        e@ == (ErrorView::IoCopy { direction, cause: cause@ }),
{
    TransferError::IoCopy { direction, cause }
}

/// The failure to produce the last bytes or to get them to the output.
pub fn finalize_failure(cause: String) -> (e: TransferError)
    ensures
        e@ == (ErrorView::IoFinalize { cause: cause@ }),
{
    TransferError::IoFinalize { cause }
}

/// Whether `e` is a failure of the streaming phase in the given direction,
/// whatever its cause.
pub open spec fn streaming_failure(direction: Direction, e: ErrorView) -> bool {
    e matches ErrorView::IoCopy { direction: d, .. } && d == direction
}

/// Whether `e` is the failure that a codec's refusal to end its stream is
/// reported as: the last bytes are missing where the stream compresses; the
/// input was not one intact gzip member where it decompresses.
pub open spec fn ending_failure(direction: Direction, e: ErrorView) -> bool {
    match direction {
        Direction::Compress => e is IoFinalize,
        Direction::Decompress => streaming_failure(direction, e),
    }
}

/// Whether a finished stream did its work: what came out of a compression
/// unpacks to what went in, and what came out of a decompression is what its
/// input unpacks to.
pub open spec fn faithful(direction: Direction, consumed: Seq<u8>, emitted: Seq<u8>) -> bool {
    match direction {
        Direction::Compress => unpacks_to(emitted, consumed),
        Direction::Decompress => unpacks_to(consumed, emitted),
    }
}

impl Stream {
    #[verifier::type_invariant]
    spec fn inv(self) -> bool {
        &&& !self.ended ==> self.skipped@.len() == 0
        &&& self.ended ==> (self.codec matches Codec::Inflate(dec) && decoder_done(dec)
            && accepts_all_after(decoder_consumed(dec)))
    }

    /// Which way this stream goes.
    pub fn direction(&self) -> (d: Direction)
        ensures
            d == self@.direction,
    {
        match &self.codec {
            Codec::Deflate(_) => Direction::Compress,
            Codec::Inflate(_) => Direction::Decompress,
        }
    }

    /// The path that the bytes handed out are meant for.
    pub fn output(&self) -> (p: &str)
        ensures
            p@ == self@.output,
    {
        self.output.as_str()
    }

    /// Whether a decompressing stream has seen the end of its gzip member, so
    /// that nothing more needs to be read from the input.
    pub fn ended(&self) -> (b: bool)
        ensures
            b == self@.ended,
    {
        self.ended
    }

    /// Feeds the next chunk of the input and hands back the bytes to append
    /// to the output.
    ///
    /// An empty chunk changes nothing, and a decompressing stream that has
    /// seen the end of its gzip member passes over whatever follows: both
    /// succeed. Otherwise the chunk goes to the codec, and the feed succeeds
    /// exactly when the codec takes it: when compressing, on
    /// `deflate_takes`; when decompressing, when the decoder finds no fault
    /// with the input up to the end of this chunk. A decompression therefore
    /// never fails on the beginning of an intact gzip member.
    ///
    /// When it succeeds, the whole chunk counts as consumed and the stream
    /// keeps nothing of what the codec has given out. A stream counts as
    /// ended only once the decoder has its member behind it.
    pub fn feed(self, chunk: &[u8]) -> (r: Result<(Stream, Vec<u8>), TransferError>)
        ensures
            match r {
                Ok((next, bytes)) => {
                    &&& next@.direction == self@.direction
                    &&& next@.output == self@.output
                    &&& next@.consumed == self@.consumed + chunk@
                    &&& next@.emitted == self@.emitted + bytes@
                    &&& self@.ended || chunk@.len() == 0 ==> bytes@.len() == 0 && next@.ended
                        == self@.ended
                    &&& next@.ended ==> next@.direction == Direction::Decompress
                        && accepts_all_after(next@.consumed)
                },
                Err(e) => streaming_failure(self@.direction, e@) && !self@.ended && chunk@.len()
                    > 0,
            },
            self@.direction == Direction::Compress && chunk@.len() > 0 ==> (r is Ok
                <==> deflate_takes(self@.consumed, chunk@)),
            self@.direction == Direction::Decompress && !self@.ended && chunk@.len() > 0 ==> (r
                is Ok <==> inflates(self@.consumed + chunk@)),
            self@.direction == Direction::Decompress && r is Err ==> begins_no_member(
                self@.consumed + chunk@,
            ),
    {
        proof {
            use_type_invariant(&self);
        }
        if chunk.len() == 0 || self.ended {
            let ghost before = self@;
            let Stream { output, codec, ended, skipped } = self;
            let ghost passed = skipped@ + chunk@;
            let next = Stream { output, codec, ended, skipped: Ghost(passed) };
            let bytes: Vec<u8> = Vec::new();
            proof {
                assert(next@.consumed =~= before.consumed + chunk@);
                assert(next@.emitted =~= before.emitted + bytes@);
                if ended {
                    let dec = codec->Inflate_0;
                    assert forall|rest: Seq<u8>| #[trigger]
                        inflates(next@.consumed + rest) by {
                        assert(next@.consumed + rest =~= decoder_consumed(dec) + (passed + rest));
                    }
                }
            }
            return Ok((next, bytes));
        }
        let Stream { output, codec, ended, skipped } = self;
        match codec {
            Codec::Deflate(mut enc) => {
                match encoder_write_all(&mut enc, chunk) {
                    Ok(()) => {
                        let bytes = encoder_take(&mut enc);
                        Ok((Stream { output, codec: Codec::Deflate(enc), ended, skipped }, bytes))
                    },
                    Err(e) => Err(copy_failure(Direction::Compress, e.to_string())),
                }
            },
            Codec::Inflate(mut dec) => {
                let ghost before = dec;
                let mut ended = false;
                let mut bytes: Vec<u8> = Vec::new();
                let mut pos: usize = 0;
                assert(self@.consumed =~= decoder_consumed(before));
                while pos < chunk.len() && !ended
                    invariant
                        self@.direction == Direction::Decompress,
                        !self@.ended,
                        self@.consumed == decoder_consumed(before),
                        chunk@.len() > 0,
                        pos <= chunk.len(),
                        decoder_consumed(dec) == decoder_consumed(before) + chunk@.take(
                            pos as int,
                        ),
                        decoder_released(dec) == decoder_released(before) + bytes@,
                        pos > 0 ==> inflates(decoder_consumed(dec)),
                        ended ==> decoder_done(dec) && accepts_all_after(decoder_consumed(dec)),
                    decreases chunk.len() - pos, if ended { 0int } else { 1int },
                {
                    let rest = slice_subrange(chunk, pos, chunk.len());
                    assert(decoder_consumed(dec) + rest@ =~= self@.consumed + chunk@);
                    match decoder_write(&mut dec, rest) {
                        Ok(n) => {
                            assert(chunk@.take(pos as int) + rest@.take(n as int)
                                =~= chunk@.take(pos + n));
                            if n == 0 {
                                ended = true;
                            } else {
                                pos = pos + n;
                            }
                        },
                        Err(e) => {
                            return Err(copy_failure(Direction::Decompress, e.to_string()));
                        },
                    }
                    let mut fresh = decoder_take(&mut dec);
                    bytes.append(&mut fresh);
                }
                let ghost passed = chunk@.skip(pos as int);
                let next = Stream {
                    output,
                    codec: Codec::Inflate(dec),
                    ended,
                    skipped: Ghost(passed),
                };
                proof {
                    assert(decoder_consumed(dec) + passed =~= self@.consumed + chunk@);
                    if ended {
                        assert forall|rest: Seq<u8>| #[trigger]
                            inflates(next@.consumed + rest) by {
                            assert(next@.consumed + rest =~= decoder_consumed(dec) + (passed
                                + rest));
                        }
                        assert(next@.consumed + Seq::<u8>::empty() =~= next@.consumed);
                    } else {
                        assert(passed.len() == 0);
                        assert(decoder_consumed(dec) =~= self@.consumed + chunk@);
                    }
                }
                Ok((next, bytes))
            },
        }
    }

    /// Ends the stream once the input is exhausted and hands back the last
    /// bytes to append to the output. The transfer is not complete yet: the
    /// bytes still have to reach the output.
    ///
    /// A compression ends exactly when the encoder ends its stream, on
    /// `deflates`. A decompression ends exactly when the input that was fed
    /// begins with an intact gzip member. When the stream ends, everything
    /// handed out, these bytes included, is faithful to everything fed.
    pub fn finish(self) -> (r: Result<(Finalizing, Vec<u8>), TransferError>)
        ensures
            match r {
                Ok((closing, bytes)) => closing@ == self@.output && faithful(
                    self@.direction,
                    self@.consumed,
                    self@.emitted + bytes@,
                ),
                Err(e) => ending_failure(self@.direction, e@),
            },
            self@.direction == Direction::Compress ==> (r is Ok <==> deflates(self@.consumed)),
            self@.direction == Direction::Decompress ==> (r is Ok <==> gunzip(self@.consumed)
                is Some),
    {
        proof {
            use_type_invariant(&self);
        }
        let Stream { output, codec, skipped, .. } = self;
        match codec {
            Codec::Deflate(enc) => match encoder_finish(enc) {
                Ok(bytes) => Ok((Finalizing { output }, bytes)),
                Err(e) => Err(finalize_failure(e.to_string())),
            },
            Codec::Inflate(dec) => match decoder_finish(dec) {
                Ok(bytes) => {
                    assert(gunzip(decoder_consumed(dec) + skipped@) == Some(
                        decoder_released(dec) + bytes@,
                    ));
                    Ok((Finalizing { output }, bytes))
                },
                Err(e) => {
                    proof {
                        if skipped@.len() == 0 {
                            assert(decoder_consumed(dec) + skipped@ =~= decoder_consumed(dec));
                        } else {
                            assert(gunzip(decoder_consumed(dec) + skipped@) is None);
                        }
                    }
                    Err(copy_failure(Direction::Decompress, e.to_string()))
                },
            },
        }
    }
}

/// A transfer whose last bytes have been produced and are on their way to
/// the output. Its view is the output path.
pub struct Finalizing {
    output: String,
}

impl View for Finalizing {
    type V = Seq<char>;

    closed spec fn view(&self) -> Seq<char> {
        self.output@
    }
}

/// A completed transfer.
#[derive(Debug, Clone, PartialEq, Eq)]
pub struct TransferResult {
    /// Where the result was written.
    pub output_path: String,
}

impl Finalizing {
    /// Ends the transfer. `flushed` says whether the last bytes were written
    /// and flushed to the output: only then is the transfer a success,
    /// however many bytes were copied before.
    pub fn complete(self, flushed: Result<(), String>) -> (r: Result<
        TransferResult,
        TransferError,
    >)
        ensures
            match r {
                Ok(done) => flushed is Ok && done.output_path@ == self@,
                Err(e) => flushed matches Err(cause) && e@ == (ErrorView::IoFinalize {
                    cause: cause@,
                }),
            },
    {
        match flushed {
            Ok(()) => Ok(TransferResult { output_path: self.output }),
            Err(cause) => Err(finalize_failure(cause)),
        }
    }
}

/// A decompression that is fed what a finished compression handed out cannot
/// fail. Let `archive` be everything that a finished compression of
/// `content` handed out, and let it be fed in any chunks: wherever a chunk
/// ends, what has been fed so far is the beginning of an intact gzip member,
/// which is when [`Stream::feed`] does not fail; and once all of it has been
/// fed, it begins with an intact gzip member, which is when
/// [`Stream::finish`] succeeds.
pub proof fn lemma_archive_is_accepted(
    content: Seq<u8>,
    archive: Seq<u8>,
    fed: Seq<u8>,
    rest: Seq<u8>,
)
    requires
        faithful(Direction::Compress, content, archive),
        archive == fed + rest,
    ensures
        !begins_no_member(fed),
        gunzip(archive) is Some,
{
    assert(gunzip(fed + rest) is Some);
}

/// Decompression undoes compression. Let `archive` be everything that a
/// finished compression of `content` handed out, and `restored` everything
/// that a finished decompression of `archive` handed out: then `restored` is
/// `content`, byte for byte.
pub proof fn lemma_round_trip(content: Seq<u8>, archive: Seq<u8>, restored: Seq<u8>)
    requires
        faithful(Direction::Compress, content, archive),
        faithful(Direction::Decompress, archive, restored),
    ensures
        restored == content,
{
}

} // verus!
