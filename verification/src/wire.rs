//! Wire codec: the frame header, its sixteen-byte serialized form, and the
//! chunk padding applied to every payload.

use vstd::prelude::*;

verus! {

/// Unit of socket I/O for payload bytes.
pub const CHUNK_SIZE: u32 = 65536;

/// Number of bytes a serialized [`Header`] occupies on the wire.
pub const HEADER_SIZE: usize = 16;

/// Layout of one pixel inside a payload.
#[derive(Clone, Copy, Debug, PartialEq, Eq, Structural)]
pub enum PixelFormat {
    /// Three bytes per pixel: red, green, blue.
    Rgb,
    /// Four bytes per pixel: three colour channels and alpha.
    Rgba,
}

impl PixelFormat {
    /// Bytes one pixel occupies.
    pub open spec fn spec_bytes_per_pixel(self) -> u32 {
        match self {
            PixelFormat::Rgb => 3,
            PixelFormat::Rgba => 4,
        }
    }

    /// Bytes one pixel occupies.
    #[verifier::when_used_as_spec(spec_bytes_per_pixel)]
    pub fn bytes_per_pixel(self) -> (n: u32)
        ensures
            n == self.spec_bytes_per_pixel(),
    {
        match self {
            PixelFormat::Rgb => 3,
            PixelFormat::Rgba => 4,
        }
    }
}

/// Bytes a `width` by `height` image takes in `format`.
pub open spec fn image_len(width: u32, height: u32, format: PixelFormat) -> nat {
    (width as nat) * (height as nat) * (format.spec_bytes_per_pixel() as nat)
}

/// Metadata that precedes every payload on the wire.
#[derive(Clone, Copy, Debug, PartialEq, Eq, Structural)]
pub struct Header {
    /// Sequence number the sender gave the frame; the first frame carries 1.
    pub frame_number: u32,
    /// Exact length of the payload before padding.
    pub len: u32,
    /// Width of the frame in pixels.
    pub frame_width: u32,
    /// Height of the frame in pixels.
    pub frame_height: u32,
}

/// Why a block of bytes is not a header.
#[derive(Clone, Copy, Debug, PartialEq, Eq, Structural)]
pub enum DecodeError {
    /// The block is not exactly [`HEADER_SIZE`] bytes long.
    WrongSize,
    /// The payload length fits neither three nor four bytes per pixel of the
    /// stated dimensions.
    InconsistentDimensions,
}

/// The four bytes of `x`, least significant first.
pub open spec fn le_bytes(x: u32) -> Seq<u8> {
    seq![
        (x % 256) as u8,
        (x / 256 % 256) as u8,
        (x / 65536 % 256) as u8,
        (x / 16777216) as u8,
    ]
}

/// The number whose little-endian form starts at `at` in `s`.
pub open spec fn le_u32(s: Seq<u8>, at: int) -> u32 {
    (s[at] + 256 * s[at + 1] + 65536 * s[at + 2] + 16777216 * s[at + 3]) as u32
}

/// Four numbers laid out one after another, each little-endian.
pub open spec fn fields_bytes(a: u32, b: u32, c: u32, d: u32) -> Seq<u8> {
    le_bytes(a) + le_bytes(b) + le_bytes(c) + le_bytes(d)
}

impl Header {
    /// A header with the given fields.
    pub fn new(frame_number: u32, len: u32, image_width: u32, image_height: u32) -> (h: Self)
        ensures
            h.frame_number == frame_number,
            h.len == len,
            h.frame_width == image_width,
            h.frame_height == image_height,
    {
        Self { frame_number, len, frame_width: image_width, frame_height: image_height }
    }

    /// The payload length is what the dimensions take in `format`.
    pub open spec fn describes(self, format: PixelFormat) -> bool {
        self.len == image_len(self.frame_width, self.frame_height, format)
    }

    /// The payload length agrees with the dimensions for one of the pixel
    /// formats.
    pub open spec fn is_valid(self) -> bool {
        self.describes(PixelFormat::Rgb) || self.describes(PixelFormat::Rgba)
    }

    /// The serialized form: the four fields in declaration order, each as four
    /// little-endian bytes, with nothing between or after them.
    pub open spec fn wire_bytes(self) -> Seq<u8> {
        fields_bytes(self.frame_number, self.len, self.frame_width, self.frame_height)
    }

    /// The header whose fields are read from the first sixteen bytes of `bytes`.
    pub open spec fn from_wire(bytes: Seq<u8>) -> Header {
        Header {
            frame_number: le_u32(bytes, 0),
            len: le_u32(bytes, 4),
            frame_width: le_u32(bytes, 8),
            frame_height: le_u32(bytes, 12),
        }
    }

    /// Whether the payload length agrees with the dimensions.
    pub fn check_valid(&self) -> (ok: bool)
        ensures
            ok == self.is_valid(),
    {
        let w: u64 = self.frame_width as u64;
        let h: u64 = self.frame_height as u64;
        assert(w * h <= 0xffff_ffff * 0xffff_ffff) by (nonlinear_arith)
            requires
                w <= 0xffff_ffff,
                h <= 0xffff_ffff,
        ;
        let pixels: u64 = w * h;
        if pixels > u32::MAX as u64 {
            false
        } else {
            let len: u64 = self.len as u64;
            len == pixels * 3 || len == pixels * 4
        }
    }
}

impl Default for Header {
    fn default() -> (h: Self)
        ensures
            h == (Header { frame_number: 0, len: 0, frame_width: 0, frame_height: 0 }),
    {
        Header { frame_number: 0, len: 0, frame_width: 0, frame_height: 0 }
    }
}

/// What [`decode_header`] makes of a block of bytes.
pub open spec fn decoded(bytes: Seq<u8>) -> Result<Header, DecodeError> {
    if bytes.len() != HEADER_SIZE {
        Err(DecodeError::WrongSize)
    } else if Header::from_wire(bytes).is_valid() {
        Ok(Header::from_wire(bytes))
    } else {
        Err(DecodeError::InconsistentDimensions)
    }
}

/// `bincode::ErrorKind`, the error of the two calls below; nothing is read from
/// it.
#[verifier::external_type_specification]
#[verifier::external_body]
pub struct ExBincodeErrorKind(bincode::ErrorKind);

/// `bincode::serialize` applied to a tuple of four `u32`. With the crate's
/// default options every integer is written at its fixed width in little-endian
/// order and a tuple adds no framing, so the call cannot fail and yields
/// sixteen bytes.
#[verifier::external_body]
fn serialize_fields(a: u32, b: u32, c: u32, d: u32) -> (r: Result<Vec<u8>, Box<bincode::ErrorKind>>)
    ensures
        r is Ok,
        r matches Ok(bytes) ==> bytes@ == fields_bytes(a, b, c, d),
{
    bincode::serialize(&(a, b, c, d))
}

/// `bincode::deserialize` reading a tuple of four `u32`. It consumes the first
/// sixteen bytes as four little-endian integers, ignores what follows them, and
/// fails exactly when fewer than sixteen bytes are there.
#[verifier::external_body]
fn deserialize_fields(bytes: &[u8]) -> (r: Result<(u32, u32, u32, u32), Box<bincode::ErrorKind>>)
    ensures
        r is Ok <==> bytes@.len() >= 16,
        r matches Ok(f) ==> f == (
            le_u32(bytes@, 0),
            le_u32(bytes@, 4),
            le_u32(bytes@, 8),
            le_u32(bytes@, 12),
        ),
{
    bincode::deserialize(bytes)
}

/// Serializes `header` into its [`HEADER_SIZE`] bytes.
pub fn encode_header(header: &Header) -> (bytes: Vec<u8>)
    ensures
        bytes@ == header.wire_bytes(),
        bytes@.len() == HEADER_SIZE,
{
    let r = serialize_fields(
        header.frame_number,
        header.len,
        header.frame_width,
        header.frame_height,
    );
    match r {
        Ok(bytes) => bytes,
        Err(_) => vstd::pervasive::unreached(),
    }
}

/// Reads a header back from a block of bytes.
///
/// A block of any other length than [`HEADER_SIZE`] is refused, and so is one
/// whose payload length contradicts its dimensions; neither is fatal to the
/// caller.
pub fn decode_header(bytes: &[u8]) -> (r: Result<Header, DecodeError>)
    ensures
        r == decoded(bytes@),
{
    if bytes.len() != HEADER_SIZE {
        return Err(DecodeError::WrongSize);
    }
    match deserialize_fields(bytes) {
        Ok(f) => {
            let header = Header::new(f.0, f.1, f.2, f.3);
            if header.check_valid() {
                Ok(header)
            } else {
                Err(DecodeError::InconsistentDimensions)
            }
        },
        Err(_) => Err(DecodeError::WrongSize),
    }
}

/// Decoding undoes encoding: a header whose payload length agrees with its
/// dimensions is read back unchanged from its serialized form.
pub proof fn lemma_header_round_trip(header: Header)
    requires
        header.is_valid(),
    ensures
        header.wire_bytes().len() == HEADER_SIZE,
        decoded(header.wire_bytes()) == Ok::<Header, DecodeError>(header),
{
    lemma_le_round_trip(header.frame_number);
    lemma_le_round_trip(header.len);
    lemma_le_round_trip(header.frame_width);
    lemma_le_round_trip(header.frame_height);
    let s = header.wire_bytes();
    assert(Header::from_wire(s) == header);
}

/// For every frame number, width, height and pixel format whose payload length
/// a header can hold, the header of such a frame survives encoding and
/// decoding.
pub proof fn lemma_image_header_round_trip(
    frame_number: u32,
    width: u32,
    height: u32,
    format: PixelFormat,
)
    requires
        image_len(width, height, format) <= u32::MAX,
    ensures
        ({
            let header = Header {
                frame_number,
                len: image_len(width, height, format) as u32,
                frame_width: width,
                frame_height: height,
            };
            decoded(header.wire_bytes()) == Ok::<Header, DecodeError>(header)
        }),
{
    let header = Header {
        frame_number,
        len: image_len(width, height, format) as u32,
        frame_width: width,
        frame_height: height,
    };
    assert(header.describes(format));
    lemma_header_round_trip(header);
}

/// Reading four little-endian bytes gives back the number they were written
/// from.
pub proof fn lemma_le_round_trip(x: u32)
    ensures
        le_bytes(x).len() == 4,
        le_u32(le_bytes(x), 0) == x,
{
}

/// Number of chunks needed to carry `len` payload bytes.
pub open spec fn chunks_for(len: nat) -> nat {
    ((len + CHUNK_SIZE - 1) / (CHUNK_SIZE as int)) as nat
}

/// Length of a payload of `len` bytes once padded to whole chunks.
pub open spec fn padded_len(len: nat) -> nat {
    chunks_for(len) * (CHUNK_SIZE as nat)
}

/// Number of zero bytes appended to a payload of `len` bytes.
pub open spec fn pad_len(len: nat) -> nat {
    (padded_len(len) - len) as nat
}

/// A run of `n` zero bytes.
pub open spec fn zeros(n: nat) -> Seq<u8> {
    Seq::new(n, |i: int| 0u8)
}

/// The padded form of `payload`: the payload followed by zeros up to the next
/// chunk boundary.
pub open spec fn padded(payload: Seq<u8>) -> Seq<u8> {
    payload + zeros(pad_len(payload.len()))
}

/// The padded length is the least multiple of the chunk size that holds `len`
/// bytes.
pub proof fn lemma_padded_len(len: nat)
    ensures
        padded_len(len) % (CHUNK_SIZE as nat) == 0,
        len <= padded_len(len) < len + CHUNK_SIZE,
        len % (CHUNK_SIZE as nat) == 0 ==> padded_len(len) == len,
        len % (CHUNK_SIZE as nat) != 0 ==> pad_len(len) == CHUNK_SIZE - len % (CHUNK_SIZE as nat),
{
}

/// Number of chunk reads a payload of `len` bytes takes.
pub fn chunk_count(len: u32) -> (n: u32)
    ensures
        n == chunks_for(len as nat),
        n <= 65536,
{
    let whole: u32 = len / CHUNK_SIZE;
    if len % CHUNK_SIZE == 0 {
        whole
    } else {
        whole + 1
    }
}

/// Appends zero bytes to `payload` until its length is a multiple of
/// [`CHUNK_SIZE`]; a payload that already ends on a chunk boundary, the empty
/// one included, comes back unchanged.
pub fn pad_to_chunk(payload: Vec<u8>) -> (out: Vec<u8>)
    ensures
        out@ == padded(payload@),
        out@.len() == padded_len(payload@.len()),
        out@.len() % (CHUNK_SIZE as nat) == 0,
        out@.subrange(0, payload@.len() as int) == payload@,
        forall|i: int| payload@.len() <= i < out@.len() ==> out@[i] == 0u8,
{
    let mut out: Vec<u8> = payload;
    let rest: usize = out.len() % (CHUNK_SIZE as usize);
    if rest != 0 {
        let pad: usize = CHUNK_SIZE as usize - rest;
        let mut i: usize = 0;
        while i < pad
            invariant
                i <= pad,
                out@ == payload@ + zeros(i as nat),
            decreases pad - i,
        {
            out.push(0u8);
            i = i + 1;
        }
    }
    proof {
        lemma_padded_len(payload@.len());
    }
    out
}

} // verus!
