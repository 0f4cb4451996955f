use vstd::prelude::*;
use vstd::slice::slice_subrange;
use vstd::slice::slice_to_vec;
use vstd::arithmetic::div_mod::lemma_add_mod_noop;
use vstd::arithmetic::div_mod::lemma_div_denominator;
use vstd::arithmetic::div_mod::lemma_fundamental_div_mod;
use vstd::arithmetic::div_mod::lemma_small_mod;
use byteorder::ByteOrder;
use byteorder::LittleEndian;
use bytes::BufMut;
use crate::crypto::sign_data;
use crate::error::ProtocolError;

verus! {

/// Command codes: four ASCII letters read as a little-endian integer.
pub const A_SYNC: u32 = 0x434e5953;
pub const A_CNXN: u32 = 0x4e584e43;
pub const A_OPEN: u32 = 0x4e45504f;
pub const A_OKAY: u32 = 0x59414b4f;
pub const A_CLSE: u32 = 0x45534c43;
pub const A_WRTE: u32 = 0x45545257;
pub const A_AUTH: u32 = 0x48545541;

/// Protocol version advertised in `arg0` of a connect frame.
pub const VERSION: u32 = 0x01000000;
/// `arg0` of an `AUTH` frame that carries a challenge.
pub const AUTH_TOKEN: u32 = 1;
/// `arg0` of an `AUTH` frame that carries a signature.
pub const AUTH_SIGNATURE: u32 = 2;
/// `arg0` of an `AUTH` frame that carries a public key.
pub const AUTH_PUBLICKEY: u32 = 3;
/// Largest payload advertised in `arg1` of a connect frame.
pub const MAX_PAYLOAD: u32 = 4096;
/// Size of the fixed frame header.
pub const MESSAGE_HEADER_LENGTH: usize = 24;

/// The integer that the first four bytes of `b` hold, least significant first.
pub open spec fn le_u32(b: Seq<u8>) -> u32
    recommends
        b.len() >= 4,
{
    (b[0] as int + b[1] as int * 256 + b[2] as int * 65536 + b[3] as int * 16777216) as u32
}

/// The four bytes of `n`, least significant first.
pub open spec fn le_bytes(n: u32) -> Seq<u8> {
    seq![
        (n as int % 256) as u8,
        (n as int / 256 % 256) as u8,
        (n as int / 65536 % 256) as u8,
        (n as int / 16777216 % 256) as u8,
    ]
}

/// Sum of all bytes, without bound.
pub open spec fn byte_sum(s: Seq<u8>) -> nat
    decreases s.len(),
{
    if s.len() == 0 {
        0
    } else {
        byte_sum(s.drop_last()) + s.last() as nat
    }
}

/// The frame checksum: the sum of the bytes modulo 2^32.
pub open spec fn checksum_of(s: Seq<u8>) -> u32 {
    (byte_sum(s) % 0x1_0000_0000) as u32
}

/// The identification payload of a connect frame: `host::notadb` and a NUL.
pub open spec fn connect_payload() -> Seq<u8> {
    seq![104u8, 111u8, 115u8, 116u8, 58u8, 58u8, 110u8, 111u8, 116u8, 97u8, 100u8, 98u8, 0u8]
}

/// A frame as plain values.
pub struct FrameModel {
    pub cmd: u32,
    pub arg0: u32,
    pub arg1: u32,
    pub length: u32,
    pub checksum: u32,
    pub magic: u32,
    pub payload: Seq<u8>,
}

/// The frame that `Message::new` builds: length, checksum and magic derived
/// from the other fields.
pub open spec fn made(cmd: u32, arg0: u32, arg1: u32, payload: Seq<u8>) -> FrameModel {
    FrameModel {
        cmd,
        arg0,
        arg1,
        length: payload.len() as u32,
        checksum: checksum_of(payload),
        magic: cmd ^ 0xFFFFFFFF,
        payload,
    }
}

/// A frame is valid when its magic is the complement of its command and, if it
/// carries a payload, its checksum matches that payload.
pub open spec fn valid(f: FrameModel) -> bool {
    &&& f.magic == f.cmd ^ 0xFFFFFFFF
    &&& f.payload.len() != 0 ==> f.checksum == checksum_of(f.payload)
}

/// The wire bytes of a frame: six little-endian header fields, then the payload.
pub open spec fn encoding(f: FrameModel) -> Seq<u8> {
    le_bytes(f.cmd) + le_bytes(f.arg0) + le_bytes(f.arg1) + le_bytes(f.length)
        + le_bytes(f.checksum) + le_bytes(f.magic) + f.payload
}

/// The payload length that a header declares.
pub open spec fn declared_len(s: Seq<u8>) -> u32 {
    le_u32(s.subrange(12, 16))
}

/// `s` starts with a whole frame: a header and the payload it declares.
pub open spec fn frame_complete(s: Seq<u8>) -> bool {
    s.len() >= 24 && s.len() >= 24 + declared_len(s)
}

/// The frame at the start of `s`.
pub open spec fn parse(s: Seq<u8>) -> FrameModel {
    FrameModel {
        cmd: le_u32(s.subrange(0, 4)),
        arg0: le_u32(s.subrange(4, 8)),
        arg1: le_u32(s.subrange(8, 12)),
        length: declared_len(s),
        checksum: le_u32(s.subrange(16, 20)),
        magic: le_u32(s.subrange(20, 24)),
        payload: s.subrange(24, 24 + declared_len(s)),
    }
}

/// Relies on byteorder's `LittleEndian::read_u32`: the integer that the first
/// four bytes hold, least significant first.
#[verifier::external_body]
fn read_u32_le(buf: &[u8]) -> (r: u32)
    requires
        buf@.len() >= 4,
    ensures
        r == le_u32(buf@),
{
    LittleEndian::read_u32(buf)
}

/// Relies on byteorder's `LittleEndian::write_u32`: the four bytes of `n`,
/// least significant first.
#[verifier::external_body]
fn u32_le_bytes(n: u32) -> (r: [u8; 4])
    ensures
        r@ == le_bytes(n),
{
    let mut buf = [0u8; 4];
    LittleEndian::write_u32(&mut buf, n);
    buf
}

/// Relies on bytes' `BufMut::put_slice` for `Vec<u8>`: appends `src`.
#[verifier::external_body]
fn put_slice(buf: &mut Vec<u8>, src: &[u8])
    ensures
        final(buf)@ == old(buf)@ + src@,
{
    buf.put_slice(src)
}

/// Reading back the bytes of an integer gives the integer.
pub proof fn lemma_le_round_trip(n: u32)
    ensures
        le_u32(le_bytes(n)) == n,
{
    let x = n as int;
    lemma_fundamental_div_mod(x, 256);
    lemma_fundamental_div_mod(x / 256, 256);
    lemma_fundamental_div_mod(x / 65536, 256);
    lemma_div_denominator(x, 256, 256);
    lemma_div_denominator(x, 65536, 256);
    assert(x / 16777216 < 256);
    assert(x / 16777216 % 256 == x / 16777216) by {
        lemma_small_mod((x / 16777216) as nat, 256);
    }
    let b = le_bytes(n);
    assert(b[0] as int + b[1] as int * 256 + b[2] as int * 65536 + b[3] as int * 16777216 == x)
        by (nonlinear_arith)
        requires
            b[0] as int == x % 256,
            b[1] as int == x / 256 % 256,
            b[2] as int == x / 65536 % 256,
            b[3] as int == x / 16777216,
            x == 256 * (x / 256) + x % 256,
            x / 256 == 256 * (x / 256 / 256) + x / 256 % 256,
            x / 65536 == 256 * (x / 65536 / 256) + x / 65536 % 256,
            x / 256 / 256 == x / 65536,
            x / 65536 / 256 == x / 16777216,
    ;
}

/// One frame of the protocol.
#[derive(Debug)]
pub struct Message {
    pub cmd: u32,
    pub arg0: u32,
    pub arg1: u32,
    pub length: u32,
    pub checksum: u32,
    pub magic: u32,
    pub payload: Vec<u8>,
}

impl View for Message {
    type V = FrameModel;

    open spec fn view(&self) -> FrameModel {
        FrameModel {
            cmd: self.cmd,
            arg0: self.arg0,
            arg1: self.arg1,
            length: self.length,
            checksum: self.checksum,
            magic: self.magic,
            payload: self.payload@,
        }
    }
}

proof fn lemma_byte_sum_push(s: Seq<u8>, b: u8)
    ensures
        byte_sum(s.push(b)) == byte_sum(s) + b as nat,
{
    assert(s.push(b).drop_last() =~= s);
}

proof fn lemma_byte_sum_update(s: Seq<u8>, j: int, b: u8)
    requires
        0 <= j < s.len(),
    ensures
        byte_sum(s.update(j, b)) + s[j] as nat == byte_sum(s) + b as nat,
    decreases s.len(),
{
    if j == s.len() - 1 {
        assert(s.update(j, b).drop_last() =~= s.drop_last());
    } else {
        assert(s.update(j, b).drop_last() =~= s.drop_last().update(j, b));
        lemma_byte_sum_update(s.drop_last(), j, b);
    }
}

/// Sums that differ by less than 2^32, and do differ, leave different residues.
proof fn lemma_mod_distinct(x: int, y: int)
    requires
        x >= 0,
        y >= 0,
        x != y,
        -0x1_0000_0000 < x - y < 0x1_0000_0000,
    ensures
        x % 0x1_0000_0000 != y % 0x1_0000_0000,
{
    let m: int = 0x1_0000_0000;
    lemma_fundamental_div_mod(x, m);
    lemma_fundamental_div_mod(y, m);
    if x % m == y % m {
        let k = x / m - y / m;
        assert(x - y == m * k) by (nonlinear_arith)
            requires
                x == m * (x / m) + x % m,
                y == m * (y / m) + y % m,
                x % m == y % m,
                k == x / m - y / m,
        ;
        assert(false) by (nonlinear_arith)
            requires
                x - y == m * k,
                x != y,
                -m < x - y < m,
                m == 0x1_0000_0000,
        ;
    }
}

/// The encoding of a frame built by `Message::new` is a whole frame, reads
/// back as the same frame in every field, and that frame is valid.
pub proof fn lemma_round_trip(cmd: u32, arg0: u32, arg1: u32, payload: Seq<u8>)
    requires
        payload.len() <= u32::MAX,
    ensures
        frame_complete(encoding(made(cmd, arg0, arg1, payload))),
        parse(encoding(made(cmd, arg0, arg1, payload))) == made(cmd, arg0, arg1, payload),
        valid(made(cmd, arg0, arg1, payload)),
{
    let f = made(cmd, arg0, arg1, payload);
    let e = encoding(f);
    assert(e.subrange(0, 4) =~= le_bytes(f.cmd));
    assert(e.subrange(4, 8) =~= le_bytes(f.arg0));
    assert(e.subrange(8, 12) =~= le_bytes(f.arg1));
    assert(e.subrange(12, 16) =~= le_bytes(f.length));
    assert(e.subrange(16, 20) =~= le_bytes(f.checksum));
    assert(e.subrange(20, 24) =~= le_bytes(f.magic));
    lemma_le_round_trip(f.cmd);
    lemma_le_round_trip(f.arg0);
    lemma_le_round_trip(f.arg1);
    lemma_le_round_trip(f.length);
    lemma_le_round_trip(f.checksum);
    lemma_le_round_trip(f.magic);
    assert(e.subrange(24, 24 + declared_len(e)) =~= payload);
    assert(parse(e) =~= f);
}

proof fn lemma_update_payload_byte(e: Seq<u8>, i: int, b: u8)
    requires
        frame_complete(e),
        parse(e).checksum == checksum_of(parse(e).payload),
        24 <= i < 24 + declared_len(e),
        b != e[i],
    ensures
        frame_complete(e.update(i, b)),
        !valid(parse(e.update(i, b))),
{
    let e2 = e.update(i, b);
    let j = i - 24;
    let p = parse(e).payload;
    let p2 = p.update(j, b);
    assert(e2.subrange(12, 16) =~= e.subrange(12, 16));
    assert(e2.subrange(16, 20) =~= e.subrange(16, 20));
    assert(e2.subrange(24, 24 + declared_len(e2)) =~= p2);
    lemma_byte_sum_update(p, j, b);
    lemma_mod_distinct(byte_sum(p2) as int, byte_sum(p) as int);
}

/// Changing any one payload byte of an encoded frame built by `Message::new`
/// leaves a whole frame that reads back as invalid.
pub proof fn lemma_checksum_sensitivity(
    cmd: u32,
    arg0: u32,
    arg1: u32,
    payload: Seq<u8>,
    i: int,
    b: u8,
)
    requires
        payload.len() <= u32::MAX,
        24 <= i < 24 + payload.len(),
        b != encoding(made(cmd, arg0, arg1, payload))[i],
    ensures
        frame_complete(encoding(made(cmd, arg0, arg1, payload)).update(i, b)),
        !valid(parse(encoding(made(cmd, arg0, arg1, payload)).update(i, b))),
{
    lemma_round_trip(cmd, arg0, arg1, payload);
    lemma_update_payload_byte(encoding(made(cmd, arg0, arg1, payload)), i, b);
}

impl Message {
    /// Builds an outbound frame; length, checksum and magic follow from the
    /// other fields.
    pub fn new(cmd: u32, arg0: u32, arg1: u32, payload: Vec<u8>) -> (r: Message)
        requires
            payload@.len() <= u32::MAX,
        ensures
            r@ == made(cmd, arg0, arg1, payload@),
            r.magic == cmd ^ 0xFFFFFFFF,
    {
        let checksum = Self::payload_checksum(payload.as_slice());
        Message {
            cmd,
            arg0,
            arg1,
            length: payload.len() as u32,
            checksum,
            magic: cmd ^ 0xFFFFFFFF,
            payload,
        }
    }

    /// Sum of the payload bytes, wrapping on overflow.
    pub fn payload_checksum(payload: &[u8]) -> (r: u32)
        ensures
            r == checksum_of(payload@),
    {
        let mut checksum: u32 = 0;
        let mut i: usize = 0;
        while i < payload.len()
            invariant
                i <= payload@.len(),
                checksum == checksum_of(payload@.subrange(0, i as int)),
            decreases payload@.len() - i,
        {
            let b = payload[i];
            proof {
                let pre = payload@.subrange(0, i as int);
                assert(payload@.subrange(0, i + 1) =~= pre.push(b));
                lemma_byte_sum_push(pre, b);
                lemma_add_mod_noop(byte_sum(pre) as int, b as int, 0x1_0000_0000);
                lemma_small_mod(b as nat, 0x1_0000_0000);
            }
            checksum = checksum.wrapping_add(b as u32);
            i = i + 1;
        }
        assert(payload@.subrange(0, i as int) =~= payload@);
        checksum
    }

    /// Whether the magic matches the command and, for a frame with a payload,
    /// the checksum matches the payload.
    pub fn is_validate_message(msg: &Message) -> (r: bool)
        ensures
            r == valid(msg@),
    {
        if msg.magic != msg.cmd ^ 0xFFFFFFFF {
            return false;
        }
        if msg.payload.len() != 0 {
            if Self::payload_checksum(msg.payload.as_slice()) != msg.checksum {
                return false;
            }
        }
        true
    }

    /// The wire bytes of the frame.
    pub fn encode(msg: Message) -> (r: Vec<u8>)
        ensures
            r@ == encoding(msg@),
    {
        let mut buff: Vec<u8> = Vec::new();
        let b = u32_le_bytes(msg.cmd);
        put_slice(&mut buff, &b);
        let b = u32_le_bytes(msg.arg0);
        put_slice(&mut buff, &b);
        let b = u32_le_bytes(msg.arg1);
        put_slice(&mut buff, &b);
        let b = u32_le_bytes(msg.length);
        put_slice(&mut buff, &b);
        let b = u32_le_bytes(msg.checksum);
        put_slice(&mut buff, &b);
        let b = u32_le_bytes(msg.magic);
        put_slice(&mut buff, &b);
        put_slice(&mut buff, msg.payload.as_slice());
        buff
    }

    /// The payload length that a 24-byte header declares.
    pub fn declared_length(header: &[u8]) -> (r: u32)
        requires
            header@.len() >= 24,
        ensures
            r == declared_len(header@),
    {
        read_u32_le(slice_subrange(header, 12, 16))
    }

    /// Reads the frame at the start of `bytes`: the header, then as many payload
    /// bytes as it declares. Checksum and magic are not checked here.
    pub fn decode(bytes: &[u8]) -> (r: Result<Message, ProtocolError>)
        ensures
            match r {
                Ok(m) => frame_complete(bytes@) && m@ == parse(bytes@),
                Err(e) => !frame_complete(bytes@) && e == ProtocolError::TruncatedFrame,
            },
    {
        if bytes.len() < MESSAGE_HEADER_LENGTH {
            return Err(ProtocolError::TruncatedFrame);
        }
        let length = Self::declared_length(bytes);
        if bytes.len() - MESSAGE_HEADER_LENGTH < length as usize {
            return Err(ProtocolError::TruncatedFrame);
        }
        let cmd = read_u32_le(slice_subrange(bytes, 0, 4));
        let arg0 = read_u32_le(slice_subrange(bytes, 4, 8));
        let arg1 = read_u32_le(slice_subrange(bytes, 8, 12));
        let checksum = read_u32_le(slice_subrange(bytes, 16, 20));
        let magic = read_u32_le(slice_subrange(bytes, 20, 24));
        let payload = slice_to_vec(
            slice_subrange(bytes, MESSAGE_HEADER_LENGTH, MESSAGE_HEADER_LENGTH + length as usize),
        );
        Ok(Message { cmd, arg0, arg1, length, checksum, magic, payload })
    }

    /// The connect frame: protocol version, largest payload, and the host
    /// identification string with its NUL terminator.
    pub fn cnnx_msg() -> (r: Message)
        ensures
            r@ == made(A_CNXN, VERSION, MAX_PAYLOAD, connect_payload()),
    {
        let payload: Vec<u8> = vec![
            104u8, 111u8, 115u8, 116u8, 58u8, 58u8, 110u8, 111u8, 116u8, 97u8, 100u8, 98u8, 0u8,
        ];
        assert(payload@ =~= connect_payload());
        Message::new(A_CNXN, VERSION, MAX_PAYLOAD, payload)
    }

    /// The `AUTH` frame that hands the peer a public key.
    pub fn pkey_msg(pk: Vec<u8>) -> (r: Message)
        requires
            pk@.len() <= u32::MAX,
        ensures
            r@ == made(A_AUTH, AUTH_PUBLICKEY, 0, pk@),
    {
        Message::new(A_AUTH, AUTH_PUBLICKEY, 0, pk)
    }

    /// Answers the challenge that `msg` carries: signs its payload with a fresh
    /// key and returns the `AUTH` signature frame, together with the public key
    /// in DER form followed by a NUL, ready for `pkey_msg`.
    pub fn sign_msg(msg: Message) -> (r: Result<(Message, Vec<u8>), ProtocolError>)
        ensures
            match r {
                Ok((m, pk)) => {
                    &&& m@ == made(A_AUTH, AUTH_SIGNATURE, 0, m.payload@)
                    &&& m.payload@.len() <= u32::MAX
                    &&& pk@.len() >= 1
                    &&& pk@.len() <= u32::MAX
                    &&& pk@.last() == 0
                },
                Err(e) => e == ProtocolError::SigningError,
            },
    {
        Self::sign_challenge(msg.payload.as_slice())
    }

    /// Signs `challenge` with a fresh key and hands what the signer returned to
    /// `signature_reply`: the `AUTH` signature frame and the DER public key
    /// followed by a NUL.
    pub fn sign_challenge(challenge: &[u8]) -> (r: Result<(Message, Vec<u8>), ProtocolError>)
        ensures
            match r {
                Ok((m, pk)) => {
                    &&& m@ == made(A_AUTH, AUTH_SIGNATURE, 0, m.payload@)
                    &&& m.payload@.len() <= u32::MAX
                    &&& pk@.len() >= 1
                    &&& pk@.len() <= u32::MAX
                    &&& pk@.last() == 0
                },
                Err(e) => e == ProtocolError::SigningError,
            },
    {
        match sign_data(challenge) {
            Ok((signature, public_key)) => Self::signature_reply(signature, public_key),
            Err(_) => Err(ProtocolError::SigningError),
        }
    }

    /// What answers a challenge, given the signer's output: the `AUTH` frame
    /// carrying `signature`, and `public_key` with a NUL appended, ready for
    /// `pkey_msg`. Fails with `SigningError` when either would not fit in a
    /// frame.
    pub fn signature_reply(signature: Vec<u8>, public_key: Vec<u8>) -> (r: Result<
        (Message, Vec<u8>),
        ProtocolError,
    >)
        ensures
            (r is Ok) == (signature@.len() <= u32::MAX && public_key@.len() < u32::MAX),
            match r {
                Ok((m, pk)) => m@ == made(A_AUTH, AUTH_SIGNATURE, 0, signature@) && pk@
                    == public_key@.push(0u8),
                Err(e) => e == ProtocolError::SigningError,
            },
    {
        if signature.len() > u32::MAX as usize || public_key.len() >= u32::MAX as usize {
            return Err(ProtocolError::SigningError);
        }
        let mut pk = public_key;
        pk.push(0u8);
        Ok((Message::signature_msg(signature), pk))
    }

    /// The `AUTH` frame that answers a challenge with a signature.
    pub fn signature_msg(signature: Vec<u8>) -> (r: Message)
        requires
            signature@.len() <= u32::MAX,
        ensures
            r@ == made(A_AUTH, AUTH_SIGNATURE, 0, signature@),
    {
        Message::new(A_AUTH, AUTH_SIGNATURE, 0, signature)
    }
}

} // verus!
