//! Binary encoding of the protocol messages.
//!
//! Each message is a little-endian `u32` variant tag followed by its fields in
//! order: integers little-endian at their own width, and a byte payload as a
//! `u64` length followed by the bytes. A transport frame carries exactly one
//! message, so decoding refuses bytes left over after it.

use vstd::prelude::*;
use vstd::slice::{slice_subrange, slice_to_vec};
use crate::api::{ClientMessageModel, FromClientMessage, FromServerMessage};

verus! {

/// Why a byte sequence is not the encoding of a message.
#[derive(Clone, Copy, Debug, PartialEq, Eq, Structural)]
pub enum DecodeError {
    /// The bytes end before the message does.
    UnexpectedEnd,
    /// The variant tag names no message.
    InvalidTag(u32),
    /// Bytes follow the end of the message.
    TrailingBytes,
}

/// `256` to the power `n`.
pub open spec fn pow256(n: nat) -> nat
    decreases n,
{
    if n == 0 {
        1
    } else {
        256 * pow256((n - 1) as nat)
    }
}

/// The `n` low bytes of `v`, least significant first.
pub open spec fn le_bytes(v: nat, n: nat) -> Seq<u8>
    decreases n,
{
    if n == 0 {
        Seq::empty()
    } else {
        seq![(v % 256) as u8] + le_bytes(v / 256, (n - 1) as nat)
    }
}

/// The number whose little-endian bytes are the `n` bytes of `b` from index `i`.
pub open spec fn read_le(b: Seq<u8>, i: int, n: nat) -> nat
    decreases n,
{
    if n == 0 {
        0
    } else {
        b[i] as nat + 256 * read_le(b, i + 1, (n - 1) as nat)
    }
}

/// The bytes of a device-to-host message.
pub open spec fn encode_client_spec(m: ClientMessageModel) -> Seq<u8> {
    match m {
        ClientMessageModel::Ping => le_bytes(0, 4),
        ClientMessageModel::Screen(data) => le_bytes(1, 4) + le_bytes(data.len(), 8) + data,
        ClientMessageModel::ScreenSize(w, h) => le_bytes(2, 4) + le_bytes(w as nat, 4)
            + le_bytes(h as nat, 4),
    }
}

/// The device-to-host message that `b` encodes, or why it encodes none.
pub open spec fn decode_client_spec(b: Seq<u8>) -> Result<ClientMessageModel, DecodeError> {
    if b.len() < 4 {
        Err(DecodeError::UnexpectedEnd)
    } else {
        let tag = read_le(b, 0, 4);
        if tag == 0 {
            if b.len() == 4 {
                Ok(ClientMessageModel::Ping)
            } else {
                Err(DecodeError::TrailingBytes)
            }
        } else if tag == 1 {
            if b.len() < 12 {
                Err(DecodeError::UnexpectedEnd)
            } else if b.len() - 12 < read_le(b, 4, 8) {
                Err(DecodeError::UnexpectedEnd)
            } else if b.len() - 12 > read_le(b, 4, 8) {
                Err(DecodeError::TrailingBytes)
            } else {
                Ok(ClientMessageModel::Screen(b.skip(12)))
            }
        } else if tag == 2 {
            if b.len() < 12 {
                Err(DecodeError::UnexpectedEnd)
            } else if b.len() > 12 {
                Err(DecodeError::TrailingBytes)
            } else {
                Ok(ClientMessageModel::ScreenSize(read_le(b, 4, 4) as u32, read_le(b, 8, 4) as u32))
            }
        } else {
            Err(DecodeError::InvalidTag(tag as u32))
        }
    }
}

/// The bytes of a host-to-device message.
pub open spec fn encode_server_spec(m: FromServerMessage) -> Seq<u8> {
    match m {
        FromServerMessage::Pong => le_bytes(0, 4),
        FromServerMessage::Click(x, y) => le_bytes(1, 4) + le_bytes(x as nat, 2) + le_bytes(
            y as nat,
            2,
        ),
        FromServerMessage::RequestScreen => le_bytes(2, 4),
    }
}

/// The host-to-device message that `b` encodes, or why it encodes none.
pub open spec fn decode_server_spec(b: Seq<u8>) -> Result<FromServerMessage, DecodeError> {
    if b.len() < 4 {
        Err(DecodeError::UnexpectedEnd)
    } else {
        let tag = read_le(b, 0, 4);
        if tag == 0 || tag == 2 {
            if b.len() > 4 {
                Err(DecodeError::TrailingBytes)
            } else if tag == 0 {
                Ok(FromServerMessage::Pong)
            } else {
                Ok(FromServerMessage::RequestScreen)
            }
        } else if tag == 1 {
            if b.len() < 8 {
                Err(DecodeError::UnexpectedEnd)
            } else if b.len() > 8 {
                Err(DecodeError::TrailingBytes)
            } else {
                Ok(FromServerMessage::Click(read_le(b, 4, 2) as u16, read_le(b, 6, 2) as u16))
            }
        } else {
            Err(DecodeError::InvalidTag(tag as u32))
        }
    }
}

proof fn lemma_le_bytes_len(v: nat, n: nat)
    ensures
        le_bytes(v, n).len() == n,
    decreases n,
{
    if n > 0 {
        lemma_le_bytes_len(v / 256, (n - 1) as nat);
    }
}

/// `read_le` sees only the `n` bytes that it reads.
proof fn lemma_read_le_same(s: Seq<u8>, i: int, t: Seq<u8>, j: int, n: nat)
    requires
        forall|k: int| 0 <= k < n ==> #[trigger] s[i + k] == t[j + k],
    ensures
        read_le(s, i, n) == read_le(t, j, n),
    decreases n,
{
    if n > 0 {
        assert(s[i + 0] == t[j + 0]);
        assert forall|k: int| 0 <= k < n - 1 implies #[trigger] s[(i + 1) + k] == t[(j + 1) + k] by {
            assert(s[i + (k + 1)] == t[j + (k + 1)]);
        }
        lemma_read_le_same(s, i + 1, t, j + 1, (n - 1) as nat);
    }
}

/// Reading back the bytes of a number that fits gives the number.
proof fn lemma_read_le_bytes(v: nat, n: nat)
    requires
        v < pow256(n),
    ensures
        read_le(le_bytes(v, n), 0, n) == v,
    decreases n,
{
    if n > 0 {
        let p = pow256((n - 1) as nat);
        assert(v / 256 < p) by (nonlinear_arith)
            requires
                v < 256 * p,
        ;
        lemma_read_le_bytes(v / 256, (n - 1) as nat);
        let s = le_bytes(v, n);
        let t = le_bytes(v / 256, (n - 1) as nat);
        lemma_le_bytes_len(v / 256, (n - 1) as nat);
        assert forall|k: int| 0 <= k < n - 1 implies #[trigger] s[1 + k] == t[0 + k] by {}
        lemma_read_le_same(s, 1, t, 0, (n - 1) as nat);
    }
}

proof fn lemma_pow256_values()
    ensures
        pow256(2) == 0x1_0000,
        pow256(4) == 0x1_0000_0000,
        pow256(8) == 0x1_0000_0000_0000_0000,
{
    reveal_with_fuel(pow256, 9);
}

/// Decoding the encoding of a device-to-host message gives the message back.
pub proof fn lemma_client_round_trip(m: ClientMessageModel)
    requires
        m.wf(),
    ensures
        decode_client_spec(encode_client_spec(m)) == Ok::<ClientMessageModel, DecodeError>(m),
{
    lemma_pow256_values();
    let b = encode_client_spec(m);
    lemma_le_bytes_len(0, 4);
    lemma_le_bytes_len(1, 4);
    lemma_le_bytes_len(2, 4);
    match m {
        ClientMessageModel::Ping => {
            lemma_read_le_bytes(0, 4);
        },
        ClientMessageModel::Screen(data) => {
            let a = le_bytes(1, 4);
            let l = le_bytes(data.len(), 8);
            lemma_le_bytes_len(data.len(), 8);
            lemma_read_le_bytes(1, 4);
            lemma_read_le_bytes(data.len(), 8);
            assert forall|k: int| 0 <= k < 4 implies #[trigger] b[0 + k] == a[0 + k] by {}
            lemma_read_le_same(b, 0, a, 0, 4);
            assert forall|k: int| 0 <= k < 8 implies #[trigger] b[4 + k] == l[0 + k] by {}
            lemma_read_le_same(b, 4, l, 0, 8);
            assert(b.skip(12) =~= data);
        },
        ClientMessageModel::ScreenSize(w, h) => {
            let a = le_bytes(2, 4);
            let x = le_bytes(w as nat, 4);
            let y = le_bytes(h as nat, 4);
            lemma_le_bytes_len(w as nat, 4);
            lemma_le_bytes_len(h as nat, 4);
            lemma_read_le_bytes(2, 4);
            lemma_read_le_bytes(w as nat, 4);
            lemma_read_le_bytes(h as nat, 4);
            assert forall|k: int| 0 <= k < 4 implies #[trigger] b[0 + k] == a[0 + k] by {}
            lemma_read_le_same(b, 0, a, 0, 4);
            assert forall|k: int| 0 <= k < 4 implies #[trigger] b[4 + k] == x[0 + k] by {}
            lemma_read_le_same(b, 4, x, 0, 4);
            assert forall|k: int| 0 <= k < 4 implies #[trigger] b[8 + k] == y[0 + k] by {}
            lemma_read_le_same(b, 8, y, 0, 4);
        },
    }
}

/// Every proper prefix of the encoding of a device-to-host message fails to
/// decode, with `UnexpectedEnd`.
pub proof fn lemma_client_truncated(m: ClientMessageModel, k: int)
    requires
        m.wf(),
        0 <= k < encode_client_spec(m).len(),
    ensures
        decode_client_spec(encode_client_spec(m).take(k)) == Err::<ClientMessageModel, DecodeError>(
            DecodeError::UnexpectedEnd,
        ),
{
    lemma_client_round_trip(m);
    let b = encode_client_spec(m);
    let p = b.take(k);
    if k >= 4 {
        assert forall|j: int| 0 <= j < 4 implies #[trigger] p[0 + j] == b[0 + j] by {}
        lemma_read_le_same(p, 0, b, 0, 4);
        if k >= 12 {
            assert forall|j: int| 0 <= j < 8 implies #[trigger] p[4 + j] == b[4 + j] by {}
            lemma_read_le_same(p, 4, b, 4, 8);
        }
    }
}

/// Decoding the encoding of a host-to-device message gives the message back.
pub proof fn lemma_server_round_trip(m: FromServerMessage)
    ensures
        decode_server_spec(encode_server_spec(m)) == Ok::<FromServerMessage, DecodeError>(m),
{
    lemma_pow256_values();
    let b = encode_server_spec(m);
    lemma_le_bytes_len(0, 4);
    lemma_le_bytes_len(1, 4);
    lemma_le_bytes_len(2, 4);
    match m {
        FromServerMessage::Pong => {
            lemma_read_le_bytes(0, 4);
        },
        FromServerMessage::Click(x, y) => {
            let a = le_bytes(1, 4);
            let bx = le_bytes(x as nat, 2);
            let by = le_bytes(y as nat, 2);
            lemma_le_bytes_len(x as nat, 2);
            lemma_le_bytes_len(y as nat, 2);
            lemma_read_le_bytes(1, 4);
            lemma_read_le_bytes(x as nat, 2);
            lemma_read_le_bytes(y as nat, 2);
            assert forall|k: int| 0 <= k < 4 implies #[trigger] b[0 + k] == a[0 + k] by {}
            lemma_read_le_same(b, 0, a, 0, 4);
            assert forall|k: int| 0 <= k < 2 implies #[trigger] b[4 + k] == bx[0 + k] by {}
            lemma_read_le_same(b, 4, bx, 0, 2);
            assert forall|k: int| 0 <= k < 2 implies #[trigger] b[6 + k] == by[0 + k] by {}
            lemma_read_le_same(b, 6, by, 0, 2);
        },
        FromServerMessage::RequestScreen => {
            lemma_read_le_bytes(2, 4);
        },
    }
}

/// Every proper prefix of the encoding of a host-to-device message fails to
/// decode, with `UnexpectedEnd`.
pub proof fn lemma_server_truncated(m: FromServerMessage, k: int)
    requires
        0 <= k < encode_server_spec(m).len(),
    ensures
        decode_server_spec(encode_server_spec(m).take(k)) == Err::<FromServerMessage, DecodeError>(
            DecodeError::UnexpectedEnd,
        ),
{
    lemma_server_round_trip(m);
    let b = encode_server_spec(m);
    let p = b.take(k);
    if k >= 4 {
        assert forall|j: int| 0 <= j < 4 implies #[trigger] p[0 + j] == b[0 + j] by {}
        lemma_read_le_same(p, 0, b, 0, 4);
    }
}

/// Appends the `n` low bytes of `v`, least significant first.
fn push_le(out: &mut Vec<u8>, v: u64, n: usize)
    ensures
        final(out)@ == old(out)@ + le_bytes(v as nat, n as nat),
{
    let mut rest: u64 = v;
    let mut i: usize = 0;
    while i < n
        invariant
            i <= n,
            old(out)@ + le_bytes(v as nat, n as nat) == out@ + le_bytes(
                rest as nat,
                (n - i) as nat,
            ),
        decreases n - i,
    {
        let ghost before = out@;
        let ghost tail = le_bytes(rest as nat / 256, (n - i - 1) as nat);
        out.push((rest % 256) as u8);
        assert(before + le_bytes(rest as nat, (n - i) as nat) =~= out@ + tail);
        rest = rest / 256;
        i = i + 1;
    }
    assert(out@ + le_bytes(rest as nat, 0) =~= out@);
}

/// The little-endian number in the `n` bytes of `b` from index `i`.
fn read_le_exec(b: &[u8], i: usize, n: usize) -> (r: u64)
    requires
        i + n <= b@.len(),
        n <= 8,
    ensures
        r as nat == read_le(b@, i as int, n as nat),
{
    let mut acc: u64 = 0;
    let mut j: usize = n;
    let len = b.len();
    proof {
        lemma_pow256_values();
    }
    while j > 0
        invariant
            j <= n <= 8,
            i + n <= b@.len(),
            len == b@.len(),
            acc as nat == read_le(b@, i + j, (n - j) as nat),
            acc < pow256((n - j) as nat),
            pow256(8) == 0x1_0000_0000_0000_0000,
        decreases j,
    {
        proof {
            lemma_pow256_mono((n - j + 1) as nat, 8);
        }
        j = j - 1;
        acc = acc * 256 + b[i + j] as u64;
    }
    acc
}

proof fn lemma_pow256_mono(a: nat, b: nat)
    requires
        a <= b,
    ensures
        pow256(a) <= pow256(b),
    decreases b,
{
    if a < b {
        lemma_pow256_mono(a, (b - 1) as nat);
        assert(pow256(b) == 256 * pow256((b - 1) as nat));
    }
}

/// Encodes a device-to-host message.
pub fn encode_client(m: &FromClientMessage) -> (r: Vec<u8>)
    ensures
        r@ == encode_client_spec(m@),
{
    let mut out: Vec<u8> = Vec::new();
    match m {
        FromClientMessage::Ping => {
            push_le(&mut out, 0, 4);
        },
        FromClientMessage::Screen(data) => {
            push_le(&mut out, 1, 4);
            push_le(&mut out, data.len() as u64, 8);
            let mut body = slice_to_vec(data.as_slice());
            out.append(&mut body);
        },
        FromClientMessage::ScreenSize((w, h)) => {
            push_le(&mut out, 2, 4);
            push_le(&mut out, *w as u64, 4);
            push_le(&mut out, *h as u64, 4);
        },
    }
    proof {
        assert(out@ =~= encode_client_spec(m@));
    }
    out
}

/// Decodes a device-to-host message from exactly the bytes of `data`.
pub fn decode_client(data: &[u8]) -> (r: Result<FromClientMessage, DecodeError>)
    ensures
        match r {
            Ok(m) => decode_client_spec(data@) == Ok::<ClientMessageModel, DecodeError>(m@),
            Err(e) => decode_client_spec(data@) == Err::<ClientMessageModel, DecodeError>(e),
        },
{
    let len = data.len();
    if len < 4 {
        return Err(DecodeError::UnexpectedEnd);
    }
    let tag = read_le_exec(data, 0, 4);
    if tag == 0 {
        if len == 4 {
            Ok(FromClientMessage::Ping)
        } else {
            Err(DecodeError::TrailingBytes)
        }
    } else if tag == 1 {
        if len < 12 {
            return Err(DecodeError::UnexpectedEnd);
        }
        let n = read_le_exec(data, 4, 8);
        if ((len - 12) as u64) < n {
            Err(DecodeError::UnexpectedEnd)
        } else if ((len - 12) as u64) > n {
            Err(DecodeError::TrailingBytes)
        } else {
            let body = slice_to_vec(slice_subrange(data, 12, len));
            proof {
                assert(body@ =~= data@.skip(12));
            }
            Ok(FromClientMessage::Screen(body))
        }
    } else if tag == 2 {
        if len < 12 {
            Err(DecodeError::UnexpectedEnd)
        } else if len > 12 {
            Err(DecodeError::TrailingBytes)
        } else {
            let w = read_le_exec(data, 4, 4);
            let h = read_le_exec(data, 8, 4);
            Ok(FromClientMessage::ScreenSize((w as u32, h as u32)))
        }
    } else {
        Err(DecodeError::InvalidTag(tag as u32))
    }
}

/// Encodes a host-to-device message.
pub fn encode_server(m: FromServerMessage) -> (r: Vec<u8>)
    ensures
        r@ == encode_server_spec(m),
{
    let mut out: Vec<u8> = Vec::new();
    match m {
        FromServerMessage::Pong => {
            push_le(&mut out, 0, 4);
        },
        FromServerMessage::Click(x, y) => {
            push_le(&mut out, 1, 4);
            push_le(&mut out, x as u64, 2);
            push_le(&mut out, y as u64, 2);
        },
        FromServerMessage::RequestScreen => {
            push_le(&mut out, 2, 4);
        },
    }
    proof {
        assert(out@ =~= encode_server_spec(m));
    }
    out
}

/// Decodes a host-to-device message from exactly the bytes of `data`.
pub fn decode_server(data: &[u8]) -> (r: Result<FromServerMessage, DecodeError>)
    ensures
        r == decode_server_spec(data@),
{
    let len = data.len();
    if len < 4 {
        return Err(DecodeError::UnexpectedEnd);
    }
    let tag = read_le_exec(data, 0, 4);
    if tag == 0 || tag == 2 {
        if len > 4 {
            Err(DecodeError::TrailingBytes)
        } else if tag == 0 {
            Ok(FromServerMessage::Pong)
        } else {
            Ok(FromServerMessage::RequestScreen)
        }
    } else if tag == 1 {
        if len < 8 {
            Err(DecodeError::UnexpectedEnd)
        } else if len > 8 {
            Err(DecodeError::TrailingBytes)
        } else {
            let x = read_le_exec(data, 4, 2);
            let y = read_le_exec(data, 6, 2);
            Ok(FromServerMessage::Click(x as u16, y as u16))
        }
    } else {
        Err(DecodeError::InvalidTag(tag as u32))
    }
}

} // verus!
