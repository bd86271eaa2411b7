//! Client-side frames of the text protocol on a network socket: one final
//! text frame, payload masked with a four-byte key.
use vstd::prelude::*;
use vstd::string::*;
use vstd::utf8::encode_utf8;

verus! {

/// Relies on rand::thread_rng and Rng::fill: four random bytes.
#[verifier::external_body]
fn random_mask() -> (r: [u8; 4]) {
    let mut key = [0u8; 4];
    rand::Rng::fill(&mut rand::thread_rng(), &mut key);
    key
}

/// A text frame to send.
pub struct Frame {
    pub payload: Vec<u8>,
}

/// The payload bytes XOR-ed with the key, cycling through its four bytes.
pub open spec fn masked(payload: Seq<u8>, key: Seq<u8>) -> Seq<u8> {
    Seq::new(payload.len(), |i: int| payload[i] ^ key[i % 4])
}

/// The second header byte: the mask bit over the low bits of the length.
pub open spec fn length_byte(len: nat) -> u8 {
    ((len % 256) as u8) | 0x80u8
}

/// A frame on the wire: the final-text-frame byte, the length byte, the
/// key, then the masked payload.
pub open spec fn ws_frame_bytes(payload: Seq<u8>, key: Seq<u8>) -> Seq<u8> {
    seq![0x81u8, length_byte(payload.len())] + key + masked(payload, key)
}

impl Frame {
    pub fn new(payload: String) -> (r: Frame)
        ensures
            r.payload@ == encode_utf8(payload@),
    {
        Frame { payload: payload.as_str().as_bytes_vec() }
    }

    /// The frame on the wire, masked with `key`.
    pub fn masked_bytes(&self, key: [u8; 4]) -> (r: Vec<u8>)
        ensures
            r@ == ws_frame_bytes(self.payload@, key@),
    {
        let n = self.payload.len();
        let mut bytes: Vec<u8> = Vec::new();
        bytes.push(0x81u8);
        bytes.push(((n % 256) as u8) | 0x80u8);
        let mut k: usize = 0;
        while k < 4
            invariant
                k <= 4,
                bytes@ == seq![0x81u8, length_byte(n as nat)] + key@.subrange(0, k as int),
            decreases 4 - k,
        {
            bytes.push(key[k]);
            k = k + 1;
        }
        let ghost head = bytes@;
        let mut i: usize = 0;
        while i < n
            invariant
                i <= n,
                n == self.payload@.len(),
                head == seq![0x81u8, length_byte(n as nat)] + key@,
                bytes@ == head + masked(self.payload@, key@).subrange(0, i as int),
            decreases n - i,
        {
            let b = self.payload[i] ^ key[i % 4];
            bytes.push(b);
            i = i + 1;
        }
        assert(masked(self.payload@, key@).subrange(0, n as int) =~= masked(self.payload@, key@));
        bytes
    }

    /// The frame on the wire, masked with a fresh random key.
    pub fn as_bytes(self) -> (r: Vec<u8>)
        ensures
            exists|key: Seq<u8>| key.len() == 4 && r@ == #[trigger] ws_frame_bytes(self.payload@, key),
    {
        let key = random_mask();
        self.masked_bytes(key)
    }
}

/// The opening request that asks the server to switch protocols.
pub fn handshake_message() -> (r: String)
    ensures
        r@ == HANDSHAKE_REQUEST@,
{
    String::from_str(HANDSHAKE_REQUEST)
}

/// The upgrade request, lines joined by CRLF and ended by an empty line.
pub const HANDSHAKE_REQUEST: &'static str = "GET / HTTP/1.1\r\nHost: example.com\r\nConnection: Upgrade\r\nUpgrade: websocket\r\nSec-WebSocket-Key: dGhlIHNhbXBsZSBub25jZQ==\r\nSec-WebSocket-Version: 13\r\n\r\n";

/// The status line that accepts the switch.
pub const SWITCH_PROTOCOLS_HEADER: &'static str = "HTTP/1.1 101 Switching Protocols\r\n";

/// Whether the server's reply lines accept the switch: the first line is
/// the switching-protocols status line.
pub fn switch_accepted(response: &Vec<String>) -> (r: bool)
    ensures
        r == (response@.len() > 0 && response@[0]@ == SWITCH_PROTOCOLS_HEADER@),
{
    if response.len() == 0 {
        return false;
    }
    response[0] == String::from_str(SWITCH_PROTOCOLS_HEADER)
}

} // verus!
