use vstd::prelude::*;

use crate::error::Error;
use crate::report::le_u16;

verus! {

/// The feature report that carries the handshake.
pub const AUTH_REPORT_ID: u8 = 0x06;

/// Length of every handshake feature report.
pub const AUTH_REPORT_LEN: usize = 10;

/// Mask applied to the rotated value in the response transform.
pub const AUTH_MASK: u64 = 0xa79a63f585d37bf0;

/// The key used when the selected bit of the rotated challenge matches.
pub open spec fn auth_even_key(n: u64) -> u64 {
    if n == 0 {
        0x3ae1206f97c10bc8
    } else if n == 1 {
        0x2a9ab32bebf244c6
    } else if n == 2 {
        0x20a6f8b8df9adf0a
    } else if n == 3 {
        0xaf80ece52cfc1719
    } else if n == 4 {
        0xec2ee2f7414fd151
    } else if n == 5 {
        0xb055adfd73344a15
    } else if n == 6 {
        0xa63d2e3059001187
    } else {
        0x751bf623f42e0dde
    }
}

/// The key used when the selected bit of the rotated challenge differs.
pub open spec fn auth_odd_key(n: u64) -> u64 {
    if n == 0 {
        0x3e22b34f502e7fde
    } else if n == 1 {
        0x24656b981875ab1c
    } else if n == 2 {
        0xa17f3456df7bf8c3
    } else if n == 3 {
        0x6df72e1941aef698
    } else if n == 4 {
        0x72226f011e66ab94
    } else if n == 5 {
        0x3831a3c606296b42
    } else if n == 6 {
        0xfd7ff81881332c89
    } else {
        0x61a3f6474ff236c6
    }
}

/// `v` rotated right by one byte.
pub open spec fn rotr8(v: u64) -> u64 {
    (v >> 8u64) | (v << 56u64)
}

/// `v` rotated right by `n` whole bytes.
pub open spec fn rotr_bytes(v: u64, n: nat) -> u64
    decreases n,
{
    if n == 0 {
        v
    } else {
        rotr8(rotr_bytes(v, (n - 1) as nat))
    }
}

/// The final mixing step of the response transform.
pub open spec fn auth_mix(v: u64, k: u64) -> u64 {
    v ^ (rotr8(v) & AUTH_MASK) ^ k
}

/// The response the device expects to a keyboard challenge.
pub open spec fn auth_response(challenge: u64) -> u64 {
    let n = challenge & 7;
    let v = rotr_bytes(challenge, n as nat);
    if (v & 1) == ((0x78u64 >> n) & 1) {
        auth_mix(v, auth_even_key(n))
    } else {
        auth_mix(v ^ rotr8(v), auth_odd_key(n))
    }
}

fn even_key(n: u64) -> (r: u64)
    ensures
        r == auth_even_key(n),
{
    if n == 0 {
        0x3ae1206f97c10bc8
    } else if n == 1 {
        0x2a9ab32bebf244c6
    } else if n == 2 {
        0x20a6f8b8df9adf0a
    } else if n == 3 {
        0xaf80ece52cfc1719
    } else if n == 4 {
        0xec2ee2f7414fd151
    } else if n == 5 {
        0xb055adfd73344a15
    } else if n == 6 {
        0xa63d2e3059001187
    } else {
        0x751bf623f42e0dde
    }
}

fn odd_key(n: u64) -> (r: u64)
    ensures
        r == auth_odd_key(n),
{
    if n == 0 {
        0x3e22b34f502e7fde
    } else if n == 1 {
        0x24656b981875ab1c
    } else if n == 2 {
        0xa17f3456df7bf8c3
    } else if n == 3 {
        0x6df72e1941aef698
    } else if n == 4 {
        0x72226f011e66ab94
    } else if n == 5 {
        0x3831a3c606296b42
    } else if n == 6 {
        0xfd7ff81881332c89
    } else {
        0x61a3f6474ff236c6
    }
}

fn rotate_byte(v: u64) -> (r: u64)
    ensures
        r == rotr8(v),
{
    (v >> 8u64) | (v << 56u64)
}

/// Derives the response to a keyboard challenge.
pub fn bmd_kbd_auth(challenge: u64) -> (r: u64)
    ensures
        r == auth_response(challenge),
{
    let n: u64 = challenge & 7;
    assert(challenge & 7 <= 7) by (bit_vector);
    let mut v: u64 = challenge;
    let mut i: u64 = 0;
    while i < n
        invariant
            n == challenge & 7,
            i <= n,
            v == rotr_bytes(challenge, i as nat),
        decreases n - i,
    {
        v = rotate_byte(v);
        i = i + 1;
    }
    let k = if (v & 1) == ((0x78u64 >> n) & 1) {
        even_key(n)
    } else {
        v = v ^ rotate_byte(v);
        odd_key(n)
    };
    v ^ (rotate_byte(v) & AUTH_MASK) ^ k
}

/// Responses depend on the challenge alone: equal challenges get equal responses.
pub proof fn lemma_response_deterministic(c1: u64, c2: u64)
    requires
        c1 == c2,
    ensures
        auth_response(c1) == auth_response(c2),
{
}
/// The eight little-endian bytes of a 64-bit value.
pub open spec fn u64_le_bytes(x: u64) -> Seq<u8> {
    Seq::new(8, |i: int| ((x >> (8 * i) as u64) & 0xff) as u8)
}

/// The unsigned 64-bit value of eight little-endian bytes.
pub open spec fn le_u64(b: Seq<u8>) -> u64 {
    (b[0] + 0x100 * b[1] + 0x1_0000 * b[2] + 0x100_0000 * b[3] + 0x1_0000_0000 * b[4]
        + 0x100_0000_0000 * b[5] + 0x1_0000_0000_0000 * b[6] + 0x100_0000_0000_0000 * b[7]) as u64
}

/// A handshake feature report: the report id, a sub-command, then eight payload bytes.
pub open spec fn auth_frame(command: u8, payload: Seq<u8>) -> Seq<u8> {
    seq![AUTH_REPORT_ID, command] + payload
}

/// Eight zero bytes.
pub open spec fn zero_payload() -> Seq<u8> {
    Seq::new(8, |i: int| 0u8)
}

/// Where a handshake stands.
#[derive(Debug, Clone, Copy, PartialEq, Eq, Structural)]
pub enum AuthState {
    /// The device's handshake is to be reset.
    Reset,
    /// The keyboard challenge is to be read.
    AwaitChallenge,
    /// Our own challenge is to be sent.
    SendChallenge { challenge: u64 },
    /// The device's answer to our challenge is to be read.
    AwaitDeviceResponse { challenge: u64 },
    /// Our response to the keyboard challenge is to be sent.
    SendResponse { challenge: u64 },
    /// The status is to be read.
    AwaitStatus,
    /// The handshake succeeded; authentication must be renewed within `interval` seconds.
    Done { interval: u16 },
}

/// What the transport must do next for a handshake.
#[derive(Debug, Clone, PartialEq, Eq)]
pub enum AuthAction {
    /// Send this feature report.
    SendFeature(Vec<u8>),
    /// Read the feature report, with this buffer as the request.
    GetFeature(Vec<u8>),
    /// The handshake is complete.
    Finished(u16),
}

/// True where the state waits for a feature report to be sent.
pub open spec fn is_send_state(s: AuthState) -> bool {
    s is Reset || s is SendChallenge || s is SendResponse
}

/// True where the state waits for a feature report to be read.
pub open spec fn is_receive_state(s: AuthState) -> bool {
    s is AwaitChallenge || s is AwaitDeviceResponse || s is AwaitStatus
}

/// The feature report that a send state sends.
pub open spec fn sent_frame(s: AuthState) -> Seq<u8> {
    match s {
        AuthState::SendChallenge { .. } => auth_frame(0x01, zero_payload()),
        AuthState::SendResponse { challenge } => auth_frame(0x03, u64_le_bytes(auth_response(challenge))),
        _ => auth_frame(0x00, zero_payload()),
    }
}

/// The state after a send state's report went out.
pub open spec fn after_send(s: AuthState) -> AuthState {
    match s {
        AuthState::SendChallenge { challenge } => AuthState::AwaitDeviceResponse { challenge },
        AuthState::SendResponse { .. } => AuthState::AwaitStatus,
        _ => AuthState::AwaitChallenge,
    }
}

/// True where a feature report read back has the full length and this sub-command.
pub open spec fn frame_ok(d: Seq<u8>, command: u8) -> bool {
    d.len() >= 10 && d[0] == AUTH_REPORT_ID && d[1] == command
}

/// The state after a receive state read `d`, or `None` where `d` is not the expected report.
pub open spec fn after_receive(s: AuthState, d: Seq<u8>) -> Option<AuthState> {
    match s {
        AuthState::AwaitChallenge => if frame_ok(d, 0x00) {
            Some(AuthState::SendChallenge { challenge: le_u64(d.subrange(2, 10)) })
        } else {
            None
        },
        AuthState::AwaitDeviceResponse { challenge } => if frame_ok(d, 0x02) {
            Some(AuthState::SendResponse { challenge })
        } else {
            None
        },
        _ => if frame_ok(d, 0x04) {
            Some(AuthState::Done { interval: le_u16(d[2], d[3]) })
        } else {
            None
        },
    }
}

/// The challenge/response handshake that the device requires before it sends input.
pub struct Handshake {
    pub state: AuthState,
}

fn frame(command: u8, payload: [u8; 8]) -> (r: Vec<u8>)
    ensures
        r@ == auth_frame(command, payload@),
{
    let mut r: Vec<u8> = Vec::new();
    r.push(AUTH_REPORT_ID);
    r.push(command);
    let mut i: usize = 0;
    while i < 8
        invariant
            i <= 8,
            payload@.len() == 8,
            r@ == auth_frame(command, payload@.subrange(0, i as int)),
        decreases 8 - i,
    {
        r.push(payload[i]);
        i = i + 1;
        assert(r@ =~= auth_frame(command, payload@.subrange(0, i as int)));
    }
    assert(payload@.subrange(0, 8) =~= payload@);
    r
}

fn le_bytes_u64(x: u64) -> (r: [u8; 8])
    ensures
        r@ == u64_le_bytes(x),
{
    let r = [
        (x & 0xff) as u8,
        ((x >> 8u64) & 0xff) as u8,
        ((x >> 16u64) & 0xff) as u8,
        ((x >> 24u64) & 0xff) as u8,
        ((x >> 32u64) & 0xff) as u8,
        ((x >> 40u64) & 0xff) as u8,
        ((x >> 48u64) & 0xff) as u8,
        ((x >> 56u64) & 0xff) as u8,
    ];
    assert(x >> 0u64 == x) by (bit_vector);
    assert(r@ =~= u64_le_bytes(x));
    r
}

fn read_le_u64(d: &[u8]) -> (r: u64)
    requires
        d@.len() >= 10,
    ensures
        r == le_u64(d@.subrange(2, 10)),
{
    let (b0, b1, b2, b3) = (d[2] as u64, d[3] as u64, d[4] as u64, d[5] as u64);
    let (b4, b5, b6, b7) = (d[6] as u64, d[7] as u64, d[8] as u64, d[9] as u64);
    let r = b0 | (b1 << 8u64) | (b2 << 16u64) | (b3 << 24u64) | (b4 << 32u64) | (b5 << 40u64) | (b6
        << 48u64) | (b7 << 56u64);
    assert(r == (b0 + 0x100 * b1 + 0x1_0000 * b2 + 0x100_0000 * b3 + 0x1_0000_0000 * b4
        + 0x100_0000_0000 * b5 + 0x1_0000_0000_0000 * b6 + 0x100_0000_0000_0000 * b7) as u64)
        by (bit_vector)
        requires
            b0 < 256 && b1 < 256 && b2 < 256 && b3 < 256 && b4 < 256 && b5 < 256 && b6 < 256 && b7
                < 256,
            r == b0 | (b1 << 8u64) | (b2 << 16u64) | (b3 << 24u64) | (b4 << 32u64) | (b5 << 40u64) | (
            b6 << 48u64) | (b7 << 56u64),
    ;
    r
}

impl Handshake {
    /// A handshake that starts by resetting the device's side.
    pub fn new() -> (r: Handshake)
        ensures
            r.state == AuthState::Reset,
    {
        Handshake { state: AuthState::Reset }
    }

    /// What the transport must do next.
    pub fn action(&self) -> (r: AuthAction)
        ensures
            is_send_state(self.state) ==> (r matches AuthAction::SendFeature(f) && f@ == sent_frame(
                self.state,
            )),
            is_receive_state(self.state) ==> (r matches AuthAction::GetFeature(f) && f@ == auth_frame(
                0x00,
                zero_payload(),
            )),
            self.state matches AuthState::Done { interval } ==> r == AuthAction::Finished(interval),
    {
        let zeros = [0u8; 8];
        assert(zeros@ =~= zero_payload());
        match self.state {
            AuthState::Reset => AuthAction::SendFeature(frame(0x00, zeros)),
            AuthState::SendChallenge { .. } => AuthAction::SendFeature(frame(0x01, zeros)),
            AuthState::SendResponse { challenge } => AuthAction::SendFeature(
                frame(0x03, le_bytes_u64(bmd_kbd_auth(challenge))),
            ),
            AuthState::Done { interval } => AuthAction::Finished(interval),
            _ => AuthAction::GetFeature(frame(0x00, zeros)),
        }
    }

    /// Records that the report of the current send state went out.
    pub fn sent(&mut self)
        requires
            is_send_state(old(self).state),
        ensures
            final(self).state == after_send(old(self).state),
    {
        self.state = match self.state {
            AuthState::SendChallenge { challenge } => AuthState::AwaitDeviceResponse { challenge },
            AuthState::SendResponse { .. } => AuthState::AwaitStatus,
            _ => AuthState::AwaitChallenge,
        };
    }

    /// Takes the feature report read in the current receive state. A report
    /// that is short or carries the wrong header fails the handshake.
    pub fn received(&mut self, data: &[u8]) -> (r: Result<(), Error>)
        requires
            is_receive_state(old(self).state),
        ensures
            match after_receive(old(self).state, data@) {
                Some(s) => r is Ok && final(self).state == s,
                None => r matches Err(e) && e is Driver && final(self).state == old(self).state,
            },
    {
        let expected: u8 = match self.state {
            AuthState::AwaitChallenge => 0x00,
            AuthState::AwaitDeviceResponse { .. } => 0x02,
            _ => 0x04,
        };
        if data.len() < AUTH_REPORT_LEN || data[0] != AUTH_REPORT_ID || data[1] != expected {
            return Err(Error::Driver { message: "authentication failed" });
        }
        self.state = match self.state {
            AuthState::AwaitChallenge => AuthState::SendChallenge { challenge: read_le_u64(data) },
            AuthState::AwaitDeviceResponse { challenge } => AuthState::SendResponse { challenge },
            _ => AuthState::Done { interval: crate::report::read_le_u16(data[2], data[3]) },
        };
        Ok(())
    }
}
/// A handshake whose three reads return a challenge `d1`, a device response
/// `d2` and a status `d3`, each with the expected header, sends the reset, a
/// zero challenge, then the response to the challenge in `d1`, and finishes
/// with the interval that `d3` carries.
pub proof fn lemma_handshake_run(d1: Seq<u8>, d2: Seq<u8>, d3: Seq<u8>)
    requires
        frame_ok(d1, 0x00),
        frame_ok(d2, 0x02),
        frame_ok(d3, 0x04),
    ensures
        ({
            let s0 = AuthState::Reset;
            let s1 = after_send(s0);
            let s2 = after_receive(s1, d1)->Some_0;
            let s3 = after_send(s2);
            let s4 = after_receive(s3, d2)->Some_0;
            let s5 = after_send(s4);
            let s6 = after_receive(s5, d3);
            &&& sent_frame(s0) == auth_frame(0x00, zero_payload())
            &&& is_receive_state(s1) && after_receive(s1, d1) is Some
            &&& sent_frame(s2) == auth_frame(0x01, zero_payload())
            &&& is_receive_state(s3) && after_receive(s3, d2) is Some
            &&& sent_frame(s4) == auth_frame(0x03, u64_le_bytes(auth_response(le_u64(d1.subrange(2, 10)))))
            &&& is_receive_state(s5)
            &&& s6 == Some(AuthState::Done { interval: le_u16(d3[2], d3[3]) })
        }),
{
}

} // verus!
