use vstd::prelude::*;

verus! {

/// Standard method that submits a signed transaction and returns its hash.
pub const SEND_RAW_METHOD: &'static str = "eth_sendRawTransaction";

/// Method that submits a signed transaction and returns its receipt once
/// the transaction is included.
pub const SYNC_METHOD: &'static str = "eth_sendRawTransactionSync";

/// Realtime variant of the synchronous submission method.
pub const REALTIME_METHOD: &'static str = "realtime_sendRawTransaction";

/// Lowercase hexadecimal digit of a nibble.
pub open spec fn hex_digit(n: int) -> char {
    seq!['0', '1', '2', '3', '4', '5', '6', '7', '8', '9', 'a', 'b', 'c', 'd', 'e', 'f'][n]
}

/// Two lowercase hex digits per byte, high nibble first.
pub open spec fn hex_text(b: Seq<u8>) -> Seq<char>
    decreases b.len(),
{
    if b.len() == 0 {
        Seq::empty()
    } else {
        hex_text(b.drop_last()) + seq![hex_digit(b.last() as int / 16), hex_digit(b.last() as int % 16)]
    }
}

/// The single parameter of a raw-transaction call: `0x` and the hex text.
pub open spec fn raw_param_text(b: Seq<u8>) -> Seq<char> {
    seq!['0', 'x'] + hex_text(b)
}

/// Relies on hex::encode: each byte becomes two lowercase hex digits, high
/// nibble first.
#[verifier::external_body]
fn hex_encode(bytes: &[u8]) -> (r: String)
    ensures
        r@ == hex_text(bytes@),
{
    hex::encode(bytes)
}

/// Encodes signed transaction bytes as the hex string parameter of a raw
/// transaction call.
pub fn raw_tx_param(raw: &[u8]) -> (r: String)
    ensures
        r@ == raw_param_text(raw@),
{
    proof {
        reveal_strlit("0x");
    }
    let mut out = "0x".to_owned();
    let h = hex_encode(raw);
    out.append(h.as_str());
    out
}

/// Error of a call made through one of the synchronous middlewares.
#[derive(Debug)]
pub enum SyncMiddlewareError<E> {
    /// An error of the wrapped middleware.
    MiddlewareError(E),
    /// The RPC call failed; its message.
    RpcError(String),
}

impl<E> SyncMiddlewareError<E> {
    pub fn from_err(src: E) -> (r: Self)
        ensures
            r == SyncMiddlewareError::MiddlewareError(src),
    {
        SyncMiddlewareError::MiddlewareError(src)
    }

    /// The wrapped middleware's error, if that is what this is.
    pub fn as_inner(&self) -> (r: Option<&E>)
        ensures
            match self {
                SyncMiddlewareError::MiddlewareError(e) => r == Some(e),
                SyncMiddlewareError::RpcError(_) => r is None,
            },
    {
        match self {
            SyncMiddlewareError::MiddlewareError(e) => Some(e),
            SyncMiddlewareError::RpcError(_) => None,
        }
    }
}

/// Error of a call made through the realtime middleware.
#[derive(Debug)]
pub enum RealtimeMiddlewareError<E> {
    /// An error of the wrapped middleware.
    MiddlewareError(E),
    /// The RPC call failed; its message.
    RpcError(String),
}

impl<E> RealtimeMiddlewareError<E> {
    pub fn from_err(src: E) -> (r: Self)
        ensures
            r == RealtimeMiddlewareError::MiddlewareError(src),
    {
        RealtimeMiddlewareError::MiddlewareError(src)
    }

    /// The wrapped middleware's error, if that is what this is.
    pub fn as_inner(&self) -> (r: Option<&E>)
        ensures
            match self {
                RealtimeMiddlewareError::MiddlewareError(e) => r == Some(e),
                RealtimeMiddlewareError::RpcError(_) => r is None,
            },
    {
        match self {
            RealtimeMiddlewareError::MiddlewareError(e) => Some(e),
            RealtimeMiddlewareError::RpcError(_) => None,
        }
    }
}

/// Sends signed transactions through `eth_sendRawTransactionSync`, which
/// returns the receipt in the same round trip.
#[derive(Debug, Clone)]
pub struct SyncTransactionMiddleware<M> {
    inner: M,
}

impl<M> SyncTransactionMiddleware<M> {
    pub closed spec fn inner_spec(&self) -> M {
        self.inner
    }

    pub fn new(inner: M) -> (r: Self)
        ensures
            r.inner_spec() == inner,
    {
        SyncTransactionMiddleware { inner }
    }

    pub fn inner(&self) -> (r: &M)
        ensures
            *r == self.inner_spec(),
    {
        &self.inner
    }

    /// The RPC method this middleware calls.
    pub fn method(&self) -> (r: &'static str)
        ensures
            r@ == SYNC_METHOD@,
    {
        SYNC_METHOD
    }

    /// The parameter of the call that sends `raw_tx`.
    pub fn request_param(&self, raw_tx: &[u8]) -> (r: String)
        ensures
            r@ == raw_param_text(raw_tx@),
    {
        raw_tx_param(raw_tx)
    }
}

/// Sends signed transactions through `realtime_sendRawTransaction`, which
/// returns the receipt in the same round trip.
#[derive(Debug)]
pub struct RealtimeTransactionMiddleware<M> {
    inner: M,
}

impl<M> RealtimeTransactionMiddleware<M> {
    pub closed spec fn inner_spec(&self) -> M {
        self.inner
    }

    pub fn new(inner: M) -> (r: Self)
        ensures
            r.inner_spec() == inner,
    {
        RealtimeTransactionMiddleware { inner }
    }

    pub fn inner(&self) -> (r: &M)
        ensures
            *r == self.inner_spec(),
    {
        &self.inner
    }

    /// The RPC method this middleware calls.
    pub fn method(&self) -> (r: &'static str)
        ensures
            r@ == REALTIME_METHOD@,
    {
        REALTIME_METHOD
    }

    /// The parameter of the call that sends `raw_tx`.
    pub fn request_param(&self, raw_tx: &[u8]) -> (r: String)
        ensures
            r@ == raw_param_text(raw_tx@),
    {
        raw_tx_param(raw_tx)
    }
}

} // verus!
