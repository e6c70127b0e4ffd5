//! What the protocol modules share: the packet traits, the error types, peer
//! addresses and the join code that carries the host's address to the client.

use vstd::prelude::*;
use vstd::utf8::{encode_utf8, is_ascii_chars, is_ascii_chars_encode_utf8};

verus! {

/// Turn the data into bytes ready to be sent over the network. The packet is
/// in BE (Big Endian) order.
pub trait ToPacket {
    /// The bytes that stand for the value on the wire.
    spec fn wire(&self) -> Seq<u8>;

    fn to_packet(&self) -> (bytes: Vec<u8>)
        ensures
            bytes@ == self.wire(),
    ;
}

/// Turn BE (Big Endian) bytes into data.
pub trait FromPacket: Sized + View {
    /// What the bytes of a packet stand for, or why they stand for nothing.
    spec fn parse(packet: Seq<u8>) -> Result<Self::V, PacketErrorView>;

    fn from_packet(packet: Vec<u8>) -> (parsed: Result<Self, PacketError>)
        ensures
            match parsed {
                Ok(value) => Self::parse(packet@) == Ok::<Self::V, PacketErrorView>(value@),
                Err(error) => Self::parse(packet@) == Err::<Self::V, PacketErrorView>(error@),
            },
    ;
}

/// What can travel between the peers: values that can be written to a packet
/// and read back from one, and that may cross threads.
pub trait NetworkSendable: ToPacket + FromPacket + Send + Sync {

}

/// The one-byte code of a value.
pub trait ToByte {
    spec fn byte(&self) -> u8;

    fn to_u8(&self) -> (code: u8)
        ensures
            code == self.byte(),
    ;
}

/// Why a packet could not be read.
#[derive(Debug, PartialEq, Eq)]
pub enum PacketError {
    /// The packet is shorter than its kind needs, or has not the length
    /// that its kind fixes.
    InvalidLength { expected: usize, got: usize },
    /// A kind byte that the protocol does not know.
    InavlidType,
    /// No bytes at all.
    Empty,
    /// A field holds a value that stands for nothing.
    DataError { reason: String },
}

/// The mathematical content of a [`PacketError`].
pub enum PacketErrorView {
    InvalidLength { expected: usize, got: usize },
    InavlidType,
    Empty,
    DataError { reason: Seq<char> },
}

impl View for PacketError {
    type V = PacketErrorView;

    open spec fn view(&self) -> PacketErrorView {
        match self {
            PacketError::InvalidLength { expected, got } => PacketErrorView::InvalidLength {
                expected: *expected,
                got: *got,
            },
            PacketError::InavlidType => PacketErrorView::InavlidType,
            PacketError::Empty => PacketErrorView::Empty,
            PacketError::DataError { reason } => PacketErrorView::DataError { reason: reason@ },
        }
    }
}

impl PacketError {
    pub fn invalid_length(expected: usize, got: usize) -> (error: Self)
        ensures
            error@ == (PacketErrorView::InvalidLength { expected, got }),
    {
        PacketError::InvalidLength { expected, got }
    }

    pub fn data_error(reason: &str) -> (error: Self)
        ensures
            error@ == (PacketErrorView::DataError { reason: reason@ }),
    {
        PacketError::DataError { reason: reason.to_owned() }
    }
}

/// What can go wrong between the peers, apart from unreadable packets.
#[derive(Debug, PartialEq, Eq)]
pub enum NetworkError {
    /// No free port in the range 6000..=7000.
    PortBindingError,
    /// The address is not an IPv4 address.
    GetIpV4Error,
    SendError { details: String },
    RecieveError { details: String },
    /// A response of the wrong kind came back.
    ResponseTypeError,
}

/// The mathematical content of a [`NetworkError`].
pub enum NetworkErrorView {
    PortBindingError,
    GetIpV4Error,
    SendError { details: Seq<char> },
    RecieveError { details: Seq<char> },
    ResponseTypeError,
}

impl View for NetworkError {
    type V = NetworkErrorView;

    open spec fn view(&self) -> NetworkErrorView {
        match self {
            NetworkError::PortBindingError => NetworkErrorView::PortBindingError,
            NetworkError::GetIpV4Error => NetworkErrorView::GetIpV4Error,
            NetworkError::SendError { details } => NetworkErrorView::SendError { details: details@ },
            NetworkError::RecieveError { details } => NetworkErrorView::RecieveError {
                details: details@,
            },
            NetworkError::ResponseTypeError => NetworkErrorView::ResponseTypeError,
        }
    }
}

impl NetworkError {
    pub fn send_error(details: &str) -> (error: Self)
        ensures
            error@ == (NetworkErrorView::SendError { details: details@ }),
    {
        NetworkError::SendError { details: details.to_owned() }
    }

    pub fn recieve_error(details: &str) -> (error: Self)
        ensures
            error@ == (NetworkErrorView::RecieveError { details: details@ }),
    {
        NetworkError::RecieveError { details: details.to_owned() }
    }
}

/// An internet address, as far as the protocol looks at it.
#[derive(Clone, Copy, Debug, PartialEq, Eq, Structural)]
pub enum IpAddress {
    /// The four bytes of an IPv4 address, the first one highest.
    V4(u32),
    /// The sixteen bytes of an IPv6 address, the first one highest.
    V6(u128),
}

/// The address of a peer: where its datagrams come from and go to.
#[derive(Clone, Copy, Debug, PartialEq, Eq, Structural)]
pub struct SocketAddress {
    pub ip: IpAddress,
    pub port: u16,
}

/// Why a join code names no address.
#[derive(Clone, Copy, Debug, PartialEq, Eq, Structural)]
pub enum JoinCodeError {
    /// The code is not an even number of hex digits.
    NotHex,
    /// The code does not stand for six bytes.
    WrongLength,
}

/// The two bytes of `value`, the high one first.
pub open spec fn u16_be(value: u16) -> Seq<u8> {
    seq![(value / 256) as u8, (value % 256) as u8]
}

/// The number that two bytes stand for, the high one first.
pub open spec fn be_u16(high: u8, low: u8) -> u16 {
    (high * 256 + low) as u16
}

/// The four bytes of `value`, the highest first.
pub open spec fn u32_be(value: u32) -> Seq<u8> {
    seq![
        (value / 0x100_0000) as u8,
        ((value / 0x1_0000) % 256) as u8,
        ((value / 0x100) % 256) as u8,
        (value % 256) as u8,
    ]
}

/// The number that four bytes stand for, the highest first.
pub open spec fn be_u32(b0: u8, b1: u8, b2: u8, b3: u8) -> u32 {
    (b0 * 0x100_0000 + b1 * 0x1_0000 + b2 * 0x100 + b3) as u32
}

/// The six bytes behind a join code: the IPv4 address, then the port, both
/// big-endian.
pub open spec fn join_payload(ip: u32, port: u16) -> Seq<u8> {
    u32_be(ip) + u16_be(port)
}

/// The lower-case hex digit of a number below 16.
pub open spec fn hex_digit(nibble: int) -> char {
    if nibble < 10 {
        ((48 + nibble) as u8) as char
    } else {
        ((87 + nibble) as u8) as char
    }
}

/// The lower-case hex text of `bytes`: two digits a byte, the high digit first.
pub open spec fn hex_text(bytes: Seq<u8>) -> Seq<char> {
    Seq::new(
        2 * bytes.len(),
        |i: int|
            if i % 2 == 0 {
                hex_digit(bytes[i / 2] as int / 16)
            } else {
                hex_digit(bytes[i / 2] as int % 16)
            },
    )
}

/// The value of a hex digit given as a byte of text, in either case.
pub open spec fn hex_value(digit: u8) -> Option<int> {
    if 48 <= digit <= 57 {
        Some(digit - 48)
    } else if 97 <= digit <= 102 {
        Some(digit - 87)
    } else if 65 <= digit <= 70 {
        Some(digit - 55)
    } else {
        None
    }
}

/// The bytes that a hex text stands for: `None` unless the text is an even
/// number of hex digits.
pub open spec fn hex_bytes(text: Seq<u8>) -> Option<Seq<u8>> {
    if text.len() % 2 != 0 {
        None
    } else if exists|i: int| 0 <= i < text.len() && hex_value(#[trigger] text[i]) is None {
        None
    } else {
        Some(
            Seq::new(
                text.len() / 2,
                |j: int| (hex_value(text[2 * j])->Some_0 * 16 + hex_value(text[2 * j + 1])->Some_0) as u8,
            ),
        )
    }
}

/// The address that a join code names.
pub open spec fn join_code_address(code: Seq<char>) -> Result<SocketAddress, JoinCodeError> {
    match hex_bytes(encode_utf8(code)) {
        None => Err(JoinCodeError::NotHex),
        Some(bytes) => if bytes.len() != 6 {
            Err(JoinCodeError::WrongLength)
        } else {
            Ok(
                SocketAddress {
                    ip: IpAddress::V4(be_u32(bytes[0], bytes[1], bytes[2], bytes[3])),
                    port: be_u16(bytes[4], bytes[5]),
                },
            )
        },
    }
}

/// The error that `hex::decode` reports.
#[verifier::external_type_specification]
#[verifier::external_body]
pub struct ExFromHexError(hex::FromHexError);

/// `hex::encode`: the lower-case hex text of the bytes, two digits a byte.
#[verifier::external_body]
fn hex_encode(data: &Vec<u8>) -> (text: String)
    ensures
        text@ == hex_text(data@),
{
    hex::encode(data)
}

/// `hex::decode`: the bytes that the text stands for. It fails exactly when
/// the text has an odd number of bytes or holds a byte that is no hex digit;
/// digits of either case are taken.
#[verifier::external_body]
fn hex_decode(data: &str) -> (decoded: Result<Vec<u8>, hex::FromHexError>)
    ensures
        match decoded {
            Ok(bytes) => hex_bytes(encode_utf8(data@)) == Some(bytes@),
            Err(_) => hex_bytes(encode_utf8(data@)) is None,
        },
{
    hex::decode(data)
}

/// The big-endian bytes of `value`, added to `bytes`.
pub fn push_u16(bytes: &mut Vec<u8>, value: u16)
    ensures
        final(bytes)@ == old(bytes)@ + u16_be(value),
{
    let high: u16 = value / 256;
    let low: u16 = value % 256;
    bytes.push(high as u8);
    bytes.push(low as u8);
    assert(bytes@ =~= old(bytes)@ + u16_be(value));
}

/// The number that two bytes stand for, the high one first.
pub fn read_u16(high: u8, low: u8) -> (value: u16)
    ensures
        value == be_u16(high, low),
{
    (high as u16) * 256 + (low as u16)
}

/// The join code for a host that listens on `addr`: the hex text of its IPv4
/// address and port. An IPv6 address has no join code.
pub fn hex_encode_ip(addr: SocketAddress) -> (code: Result<String, NetworkError>)
    ensures
        match addr.ip {
            IpAddress::V4(ip) => code is Ok && code->Ok_0@ == hex_text(join_payload(ip, addr.port)),
            IpAddress::V6(_) => code is Err && code->Err_0@ == NetworkErrorView::GetIpV4Error,
        },
{
    if let IpAddress::V4(ip) = addr.ip {
        let mut bytes: Vec<u8> = Vec::new();
        let b0: u32 = ip / 0x100_0000;
        let b1: u32 = (ip / 0x1_0000) % 256;
        let b2: u32 = (ip / 0x100) % 256;
        let b3: u32 = ip % 256;
        bytes.push(b0 as u8);
        bytes.push(b1 as u8);
        bytes.push(b2 as u8);
        bytes.push(b3 as u8);
        push_u16(&mut bytes, addr.port);
        assert(bytes@ =~= join_payload(ip, addr.port));
        Ok(hex_encode(&bytes))
    } else {
        Err(NetworkError::GetIpV4Error)
    }
}

/// The address that a join code names.
pub fn hex_decode_ip(data: &str) -> (addr: Result<SocketAddress, JoinCodeError>)
    ensures
        addr == join_code_address(data@),
{
    let bytes = match hex_decode(data) {
        Ok(bytes) => bytes,
        Err(_) => {
            return Err(JoinCodeError::NotHex);
        },
    };
    if bytes.len() != 6 {
        return Err(JoinCodeError::WrongLength);
    }
    let ip: u32 = (bytes[0] as u32) * 0x100_0000 + (bytes[1] as u32) * 0x1_0000 + (bytes[2] as u32)
        * 0x100 + (bytes[3] as u32);
    let port = read_u16(bytes[4], bytes[5]);
    Ok(SocketAddress { ip: IpAddress::V4(ip), port })
}

/// A hex digit is a character of ASCII and has the value it was made from.
proof fn lemma_hex_digit(nibble: int)
    requires
        0 <= nibble < 16,
    ensures
        (hex_digit(nibble) as u32) < 128,
        hex_value(hex_digit(nibble) as u8) == Some(nibble),
{
}

/// Hex text is ASCII: its bytes are its characters.
pub proof fn lemma_hex_text_is_ascii(bytes: Seq<u8>)
    ensures
        is_ascii_chars(hex_text(bytes)),
        encode_utf8(hex_text(bytes)).len() == 2 * bytes.len(),
        forall|i: int|
            0 <= i < 2 * bytes.len() ==> #[trigger] encode_utf8(hex_text(bytes))[i] == hex_text(
                bytes,
            )[i] as u8,
{
    let text = hex_text(bytes);
    assert forall|i: int| 0 <= i < text.len() implies (#[trigger] text[i] as u32) < 128 by {
        lemma_hex_digit(bytes[i / 2] as int / 16);
        lemma_hex_digit(bytes[i / 2] as int % 16);
    }
    is_ascii_chars_encode_utf8(text);
}

/// Reading hex text gives back the bytes that it was written from.
pub proof fn law_hex_round_trip(bytes: Seq<u8>)
    ensures
        hex_bytes(encode_utf8(hex_text(bytes))) == Some(bytes),
{
    let text = hex_text(bytes);
    let raw = encode_utf8(text);
    lemma_hex_text_is_ascii(bytes);
    assert forall|i: int| 0 <= i < raw.len() implies hex_value(#[trigger] raw[i]) == Some(
        if i % 2 == 0 {
            bytes[i / 2] as int / 16
        } else {
            bytes[i / 2] as int % 16
        },
    ) by {
        lemma_hex_digit(bytes[i / 2] as int / 16);
        lemma_hex_digit(bytes[i / 2] as int % 16);
        assert(raw[i] == text[i] as u8);
    }
    let back = hex_bytes(raw)->Some_0;
    assert(hex_bytes(raw) is Some);
    assert(back.len() == bytes.len());
    assert forall|j: int| 0 <= j < bytes.len() implies back[j] == bytes[j] by {
        assert(hex_value(raw[2 * j]) == Some(bytes[j] as int / 16));
        assert(hex_value(raw[2 * j + 1]) == Some(bytes[j] as int % 16));
    }
    assert(back =~= bytes);
}

/// Two bytes written big-endian read back as the number they were written
/// from.
pub proof fn lemma_u16_round_trip(value: u16)
    ensures
        be_u16(u16_be(value)[0], u16_be(value)[1]) == value,
{
}

/// Four bytes written big-endian read back as the number they were written
/// from.
pub proof fn lemma_u32_round_trip(value: u32)
    ensures
        be_u32(u32_be(value)[0], u32_be(value)[1], u32_be(value)[2], u32_be(value)[3]) == value,
{
}

/// A join code leads back to the address it was made for.
pub proof fn law_join_code_round_trip(ip: u32, port: u16)
    ensures
        join_code_address(hex_text(join_payload(ip, port))) == Ok::<SocketAddress, JoinCodeError>(
            SocketAddress { ip: IpAddress::V4(ip), port },
        ),
        encode_utf8(hex_text(join_payload(ip, port))).len() == 12,
{
    let payload = join_payload(ip, port);
    law_hex_round_trip(payload);
    lemma_hex_text_is_ascii(payload);
    lemma_u16_round_trip(port);
    lemma_u32_round_trip(ip);
    assert(payload.len() == 6);
    assert(payload[0] == u32_be(ip)[0]);
    assert(payload[1] == u32_be(ip)[1]);
    assert(payload[2] == u32_be(ip)[2]);
    assert(payload[3] == u32_be(ip)[3]);
    assert(payload[4] == u16_be(port)[0]);
    assert(payload[5] == u16_be(port)[1]);
}

} // verus!
