//! The error taxonomy: every failure of the library is a 32-bit code split
//! into a base (the family, in the upper bits) and a sub-code (the cause
//! within the family, in the low 8 bits), paired with a free-text message.

use vstd::prelude::*;

verus! {

pub const INTERNAL: i32 = 0x01 << 8;
pub const INVALID: i32 = 0x02 << 8;
pub const CHANNEL: i32 = 0x03 << 8;
pub const IO: i32 = 0x04 << 8;
pub const OTHER: i32 = 0x05 << 8;
pub const OS: i32 = 0x08 << 8;
pub const WEB3: i32 = 0x09 << 8;
pub const SQL: i32 = 0x0A << 8;

pub const SQL_CONNECTION_NUM_LIMIT: i32 = SQL | 0x01;

pub const INVALID_TYPE: i32 = INVALID | 0x01;
pub const INVALID_UTF8: i32 = INVALID | 0x02;
pub const INVALID_PATH: i32 = INVALID | 0x03;
pub const INVALID_INDEX: i32 = INVALID | 0x04;
pub const INVALID_PARAM: i32 = INVALID | 0x05;
pub const INVALID_NOT_SUPPORT: i32 = INVALID | 0x06;
pub const INVALID_AUTH: i32 = INVALID | 0x07;
pub const INVALID_DATABASE: i32 = INVALID | 0x08;
pub const INVALID_URL: i32 = INVALID | 0x09;
pub const INVALID_UTF16: i32 = INVALID | 0x10;

pub const IO_NOTFOUND: i32 = IO | 0x01;
pub const IO_PERMISSION_DENIED: i32 = IO | 0x02;
pub const IO_CONNECTION_REFUSED: i32 = IO | 0x03;
pub const IO_CONNECTION_RESET: i32 = IO | 0x04;
pub const IO_CONNECTION_ABORTED: i32 = IO | 0x05;
pub const IO_NOT_CONNECTED: i32 = IO | 0x06;
pub const IO_ADDR_INUSE: i32 = IO | 0x07;
pub const IO_ADDR_NOT_AVAILABLE: i32 = IO | 0x08;
pub const IO_BROKEN_PIPE: i32 = IO | 0x09;
pub const IO_ALREADY_EXISTS: i32 = IO | 0x10;
pub const IO_INVALID_INPUT: i32 = IO | 0x11;
pub const IO_INVALID_DATA: i32 = IO | 0x12;
pub const IO_TIMED_OUT: i32 = IO | 0x13;
pub const IO_WRITE_ZERO: i32 = IO | 0x14;
pub const IO_UNEXPECTED_EOF: i32 = IO | 0x16;
pub const IO_INTERRUPTED: i32 = IO | 0x17;
pub const IO_WOULD_BLOCK: i32 = IO | 0x18;
pub const IO_NOT_CONNECTED_HOST: i32 = IO | 0x19;

pub const CHANNEL_SEND: i32 = CHANNEL | 0x01;
pub const CHANNEL_RECV: i32 = CHANNEL | 0x02;
pub const CHANNEL_CLOSE: i32 = CHANNEL | 0x03;

pub const OS_SYSTEM: i32 = OS | 0x01;

pub const WEB_CONTRACT: i32 = WEB3 | 0x01;

/// An error value: a hierarchical code plus a human-readable message.
/// It is immutable once constructed and carries no nested cause chain.
#[derive(Debug, Clone, PartialEq, Eq)]
pub struct Error {
    pub(crate) code: i32,
    pub(crate) msg: String,
}

pub type Result<T> = core::result::Result<T, Error>;

impl Error {
    /// The code this error carries.
    pub closed spec fn spec_code(&self) -> i32 {
        self.code
    }

    /// The message this error carries.
    pub closed spec fn spec_msg(&self) -> Seq<char> {
        self.msg@
    }

    /// The base (family) part of this error's code: its upper bits.
    pub open spec fn spec_base(&self) -> i32 {
        self.spec_code() >> 8
    }

    pub fn new(code: i32, msg: &str) -> (e: Error)
        ensures
            e.spec_code() == code,
            e.spec_msg() == msg@,
    {
        Error { code, msg: msg.to_owned() }
    }

    pub fn get_code(&self) -> (code: i32)
        ensures
            code == self.spec_code(),
    {
        self.code
    }

    pub fn get_msg(&self) -> (msg: &str)
        ensures
            msg@ == self.spec_msg(),
    {
        self.msg.as_str()
    }

    /// Splits the code back into its base (upper bits) and its sub-code
    /// (low 8 bits).
    pub fn decode(&self) -> (parts: (i32, i32))
        ensures
            parts.0 == self.spec_code() >> 8,
            parts.1 == self.spec_code() & 0xFF,
    {
        let base = self.code >> 8;
        let code = self.code & 0xFF;
        (base, code)
    }

    pub fn get_base_code(&self) -> (base: i32)
        ensures
            base == self.spec_base(),
    {
        self.code >> 8
    }

    /// Packs a base and a sub-code into one error code.
    pub fn make(base: i32, sub: i32, msg: &str) -> (e: Error)
        requires
            0 <= base < 0x80_0000,
            0 <= sub < 0x100,
        ensures
            e.spec_code() == (base << 8) | sub,
            e.spec_msg() == msg@,
    {
        Error { code: (base << 8) | sub, msg: msg.to_owned() }
    }
}

impl Error {
    pub fn internal(err: &str) -> (e: Error)
        ensures
            e.spec_code() == INTERNAL,
            e.spec_msg() == err@,
    {
        Error { code: INTERNAL, msg: err.to_owned() }
    }

    pub fn invalid(err: &str) -> (e: Error)
        ensures
            e.spec_code() == INVALID,
            e.spec_msg() == err@,
    {
        Error { code: INVALID, msg: err.to_owned() }
    }

    pub fn invalid_type(err: &str) -> (e: Error)
        ensures
            e.spec_code() == INVALID_TYPE,
            e.spec_msg() == err@,
    {
        Error { code: INVALID_TYPE, msg: err.to_owned() }
    }

    pub fn invalid_utf8(err: &str) -> (e: Error)
        ensures
            e.spec_code() == INVALID_UTF8,
            e.spec_msg() == err@,
    {
        Error { code: INVALID_UTF8, msg: err.to_owned() }
    }

    pub fn invalid_utf16(err: &str) -> (e: Error)
        ensures
            e.spec_code() == INVALID_UTF16,
            e.spec_msg() == err@,
    {
        Error { code: INVALID_UTF16, msg: err.to_owned() }
    }

    pub fn invalid_url(err: &str) -> (e: Error)
        ensures
            e.spec_code() == INVALID_URL,
            e.spec_msg() == err@,
    {
        Error { code: INVALID_URL, msg: err.to_owned() }
    }

    pub fn invalid_path(err: &str) -> (e: Error)
        ensures
            e.spec_code() == INVALID_PATH,
            e.spec_msg() == err@,
    {
        Error { code: INVALID_PATH, msg: err.to_owned() }
    }

    pub fn invalid_index(err: &str) -> (e: Error)
        ensures
            e.spec_code() == INVALID_INDEX,
            e.spec_msg() == err@,
    {
        Error { code: INVALID_INDEX, msg: err.to_owned() }
    }

    pub fn invalid_auth(err: &str) -> (e: Error)
        ensures
            e.spec_code() == INVALID_AUTH,
            e.spec_msg() == err@,
    {
        Error { code: INVALID_AUTH, msg: err.to_owned() }
    }

    pub fn invalid_database(err: &str) -> (e: Error)
        ensures
            e.spec_code() == INVALID_DATABASE,
            e.spec_msg() == err@,
    {
        Error { code: INVALID_DATABASE, msg: err.to_owned() }
    }

    pub fn not_support(err: &str) -> (e: Error)
        ensures
            e.spec_code() == INVALID_NOT_SUPPORT,
            e.spec_msg() == err@,
    {
        Error { code: INVALID_NOT_SUPPORT, msg: err.to_owned() }
    }

    pub fn not_found(err: &str) -> (e: Error)
        ensures
            e.spec_code() == IO_NOTFOUND,
            e.spec_msg() == err@,
    {
        Error { code: IO_NOTFOUND, msg: err.to_owned() }
    }

    pub fn permission_denied(err: &str) -> (e: Error)
        ensures
            e.spec_code() == IO_PERMISSION_DENIED,
            e.spec_msg() == err@,
    {
        Error { code: IO_PERMISSION_DENIED, msg: err.to_owned() }
    }

    pub fn connection_refused(err: &str) -> (e: Error)
        ensures
            e.spec_code() == IO_CONNECTION_REFUSED,
            e.spec_msg() == err@,
    {
        Error { code: IO_CONNECTION_REFUSED, msg: err.to_owned() }
    }

    pub fn connection_reset(err: &str) -> (e: Error)
        ensures
            e.spec_code() == IO_CONNECTION_RESET,
            e.spec_msg() == err@,
    {
        Error { code: IO_CONNECTION_RESET, msg: err.to_owned() }
    }

    pub fn connection_aborted(err: &str) -> (e: Error)
        ensures
            e.spec_code() == IO_CONNECTION_ABORTED,
            e.spec_msg() == err@,
    {
        Error { code: IO_CONNECTION_ABORTED, msg: err.to_owned() }
    }

    pub fn not_connected(err: &str) -> (e: Error)
        ensures
            e.spec_code() == IO_NOT_CONNECTED,
            e.spec_msg() == err@,
    {
        Error { code: IO_NOT_CONNECTED, msg: err.to_owned() }
    }

    pub fn addr_inuse(err: &str) -> (e: Error)
        ensures
            e.spec_code() == IO_ADDR_INUSE,
            e.spec_msg() == err@,
    {
        Error { code: IO_ADDR_INUSE, msg: err.to_owned() }
    }

    pub fn addr_not_available(err: &str) -> (e: Error)
        ensures
            e.spec_code() == IO_ADDR_NOT_AVAILABLE,
            e.spec_msg() == err@,
    {
        Error { code: IO_ADDR_NOT_AVAILABLE, msg: err.to_owned() }
    }

    pub fn io(err: &str) -> (e: Error)
        ensures
            e.spec_code() == IO,
            e.spec_msg() == err@,
    {
        Error { code: IO, msg: err.to_owned() }
    }

    pub fn broken_pipe(err: &str) -> (e: Error)
        ensures
            e.spec_code() == IO_BROKEN_PIPE,
            e.spec_msg() == err@,
    {
        Error { code: IO_BROKEN_PIPE, msg: err.to_owned() }
    }

    pub fn already_exists(err: &str) -> (e: Error)
        ensures
            e.spec_code() == IO_ALREADY_EXISTS,
            e.spec_msg() == err@,
    {
        Error { code: IO_ALREADY_EXISTS, msg: err.to_owned() }
    }

    pub fn invalid_input(err: &str) -> (e: Error)
        ensures
            e.spec_code() == IO_INVALID_INPUT,
            e.spec_msg() == err@,
    {
        Error { code: IO_INVALID_INPUT, msg: err.to_owned() }
    }

    pub fn invalid_param(err: &str) -> (e: Error)
        ensures
            e.spec_code() == INVALID_PARAM,
            e.spec_msg() == err@,
    {
        Error { code: INVALID_PARAM, msg: err.to_owned() }
    }

    pub fn invalid_data(err: &str) -> (e: Error)
        ensures
            e.spec_code() == IO_INVALID_DATA,
            e.spec_msg() == err@,
    {
        Error { code: IO_INVALID_DATA, msg: err.to_owned() }
    }

    pub fn timeout(err: &str) -> (e: Error)
        ensures
            e.spec_code() == IO_TIMED_OUT,
            e.spec_msg() == err@,
    {
        Error { code: IO_TIMED_OUT, msg: err.to_owned() }
    }

    pub fn write_zero(err: &str) -> (e: Error)
        ensures
            e.spec_code() == IO_WRITE_ZERO,
            e.spec_msg() == err@,
    {
        Error { code: IO_WRITE_ZERO, msg: err.to_owned() }
    }

    pub fn unexpected_eof(err: &str) -> (e: Error)
        ensures
            e.spec_code() == IO_UNEXPECTED_EOF,
            e.spec_msg() == err@,
    {
        Error { code: IO_UNEXPECTED_EOF, msg: err.to_owned() }
    }

    pub fn interrupted(err: &str) -> (e: Error)
        ensures
            e.spec_code() == IO_INTERRUPTED,
            e.spec_msg() == err@,
    {
        Error { code: IO_INTERRUPTED, msg: err.to_owned() }
    }

    pub fn would_block(err: &str) -> (e: Error)
        ensures
            e.spec_code() == IO_WOULD_BLOCK,
            e.spec_msg() == err@,
    {
        Error { code: IO_WOULD_BLOCK, msg: err.to_owned() }
    }

    pub fn not_connected_host(err: &str) -> (e: Error)
        ensures
            e.spec_code() == IO_NOT_CONNECTED_HOST,
            e.spec_msg() == err@,
    {
        Error { code: IO_NOT_CONNECTED_HOST, msg: err.to_owned() }
    }

    pub fn other(err: &str) -> (e: Error)
        ensures
            e.spec_code() == OTHER,
            e.spec_msg() == err@,
    {
        Error { code: OTHER, msg: err.to_owned() }
    }

    pub fn channel_rev(err: &str) -> (e: Error)
        ensures
            e.spec_code() == CHANNEL_RECV,
            e.spec_msg() == err@,
    {
        Error { code: CHANNEL_RECV, msg: err.to_owned() }
    }

    pub fn channel_send(err: &str) -> (e: Error)
        ensures
            e.spec_code() == CHANNEL_SEND,
            e.spec_msg() == err@,
    {
        Error { code: CHANNEL_SEND, msg: err.to_owned() }
    }

    pub fn channel_close(err: &str) -> (e: Error)
        ensures
            e.spec_code() == CHANNEL_CLOSE,
            e.spec_msg() == err@,
    {
        Error { code: CHANNEL_CLOSE, msg: err.to_owned() }
    }

    pub fn sql(err: &str) -> (e: Error)
        ensures
            e.spec_code() == SQL,
            e.spec_msg() == err@,
    {
        Error { code: SQL, msg: err.to_owned() }
    }

    pub fn connection_num_limit(err: &str) -> (e: Error)
        ensures
            e.spec_code() == SQL_CONNECTION_NUM_LIMIT,
            e.spec_msg() == err@,
    {
        Error { code: SQL_CONNECTION_NUM_LIMIT, msg: err.to_owned() }
    }

    pub fn os_system(err: &str) -> (e: Error)
        ensures
            e.spec_code() == OS_SYSTEM,
            e.spec_msg() == err@,
    {
        Error { code: OS_SYSTEM, msg: err.to_owned() }
    }

    pub fn web3(err: &str) -> (e: Error)
        ensures
            e.spec_code() == WEB3,
            e.spec_msg() == err@,
    {
        Error { code: WEB3, msg: err.to_owned() }
    }

    pub fn web_contract(err: &str) -> (e: Error)
        ensures
            e.spec_code() == WEB_CONTRACT,
            e.spec_msg() == err@,
    {
        Error { code: WEB_CONTRACT, msg: err.to_owned() }
    }

    pub fn is_sql_err(&self) -> (r: bool)
        ensures
            r == (self.spec_base() == SQL >> 8),
    {
        self.get_base_code() == SQL >> 8
    }

    pub fn is_io_err(&self) -> (r: bool)
        ensures
            r == (self.spec_base() == IO >> 8),
    {
        self.get_base_code() == IO >> 8
    }

    pub fn is_invalid_err(&self) -> (r: bool)
        ensures
            r == (self.spec_base() == INVALID >> 8),
    {
        self.get_base_code() == INVALID >> 8
    }

    pub fn is_other_err(&self) -> (r: bool)
        ensures
            r == (self.spec_base() == OTHER >> 8),
    {
        self.get_base_code() == OTHER >> 8
    }

    pub fn is_os_err(&self) -> (r: bool)
        ensures
            r == (self.spec_base() == OS >> 8),
    {
        self.get_base_code() == OS >> 8
    }

    pub fn is_invalid_database_err(&self) -> (r: bool)
        ensures
            r == (self.spec_code() == INVALID_DATABASE),
    {
        self.code == INVALID_DATABASE
    }

    pub fn is_invalid_auth_err(&self) -> (r: bool)
        ensures
            r == (self.spec_code() == INVALID_AUTH),
    {
        self.code == INVALID_AUTH
    }

    pub fn is_timeout_err(&self) -> (r: bool)
        ensures
            r == (self.spec_code() == IO_TIMED_OUT),
    {
        self.code == IO_TIMED_OUT
    }

    pub fn is_addr_inuse(&self) -> (r: bool)
        ensures
            r == (self.spec_code() == IO_ADDR_INUSE || self.spec_code() == IO_ADDR_NOT_AVAILABLE),
    {
        self.code == IO_ADDR_INUSE || self.code == IO_ADDR_NOT_AVAILABLE
    }

    pub fn is_not_connected_host(&self) -> (r: bool)
        ensures
            r == (self.spec_code() == IO_NOT_CONNECTED_HOST),
    {
        self.code == IO_NOT_CONNECTED_HOST
    }

    pub fn is_connection_err(&self) -> (r: bool)
        ensures
            r == (self.spec_code() == IO_CONNECTION_ABORTED || self.spec_code() == IO_CONNECTION_REFUSED || self.spec_code() == IO_CONNECTION_RESET || self.spec_code() == IO_INTERRUPTED || self.spec_code() == IO_NOT_CONNECTED || self.spec_code() == IO_UNEXPECTED_EOF || self.spec_code() == IO_WRITE_ZERO || self.spec_code() == IO_WOULD_BLOCK),
    {
        self.code == IO_CONNECTION_ABORTED || self.code == IO_CONNECTION_REFUSED || self.code == IO_CONNECTION_RESET || self.code == IO_INTERRUPTED || self.code == IO_NOT_CONNECTED || self.code == IO_UNEXPECTED_EOF || self.code == IO_WRITE_ZERO || self.code == IO_WOULD_BLOCK
    }

    pub fn is_channel_err(&self) -> (r: bool)
        ensures
            r == (self.spec_code() == CHANNEL_SEND || self.spec_code() == CHANNEL_CLOSE || self.spec_code() == CHANNEL_RECV || self.spec_code() == CHANNEL),
    {
        self.code == CHANNEL_SEND || self.code == CHANNEL_CLOSE || self.code == CHANNEL_RECV || self.code == CHANNEL
    }

    pub fn is_connection_num_limit(&self) -> (r: bool)
        ensures
            r == (self.spec_code() == SQL_CONNECTION_NUM_LIMIT),
    {
        self.code == SQL_CONNECTION_NUM_LIMIT
    }

}


/// The kinds of platform I/O failure that the taxonomy tells apart; a kind
/// beyond these coalesces into the generic I/O code.
#[derive(Copy, Clone, Debug, PartialEq, Eq, Structural)]
pub enum IoErrorKind {
    NotFound,
    PermissionDenied,
    ConnectionRefused,
    ConnectionReset,
    ConnectionAborted,
    NotConnected,
    AddrInUse,
    AddrNotAvailable,
    BrokenPipe,
    AlreadyExists,
    WouldBlock,
    InvalidInput,
    InvalidData,
    TimedOut,
    WriteZero,
    Interrupted,
    UnexpectedEof,
    Other,
}

/// The sub-coded I/O error code that a platform failure of each kind maps
/// to, deterministically.
pub open spec fn spec_io_code_of(kind: IoErrorKind) -> i32 {
    match kind {
        IoErrorKind::NotFound => IO_NOTFOUND,
        IoErrorKind::PermissionDenied => IO_PERMISSION_DENIED,
        IoErrorKind::ConnectionRefused => IO_CONNECTION_REFUSED,
        IoErrorKind::ConnectionReset => IO_CONNECTION_RESET,
        IoErrorKind::ConnectionAborted => IO_CONNECTION_ABORTED,
        IoErrorKind::NotConnected => IO_NOT_CONNECTED,
        IoErrorKind::AddrInUse => IO_ADDR_INUSE,
        IoErrorKind::AddrNotAvailable => IO_ADDR_NOT_AVAILABLE,
        IoErrorKind::BrokenPipe => IO_BROKEN_PIPE,
        IoErrorKind::AlreadyExists => IO_ALREADY_EXISTS,
        IoErrorKind::WouldBlock => IO_WOULD_BLOCK,
        IoErrorKind::InvalidInput => IO_INVALID_INPUT,
        IoErrorKind::InvalidData => IO_INVALID_DATA,
        IoErrorKind::TimedOut => IO_TIMED_OUT,
        IoErrorKind::WriteZero => IO_WRITE_ZERO,
        IoErrorKind::Interrupted => IO_INTERRUPTED,
        IoErrorKind::UnexpectedEof => IO_UNEXPECTED_EOF,
        IoErrorKind::Other => IO,
    }
}

impl Error {
    /// Maps a platform I/O failure, by its kind, to the matching sub-code;
    /// the catch-all kind falls back to the generic I/O code.
    pub fn from_io_kind(kind: IoErrorKind, msg: &str) -> (e: Error)
        ensures
            e.spec_code() == spec_io_code_of(kind),
            e.spec_msg() == msg@,
    {
        match kind {
            IoErrorKind::NotFound => Error::not_found(msg),
            IoErrorKind::PermissionDenied => Error::permission_denied(msg),
            IoErrorKind::ConnectionRefused => Error::connection_refused(msg),
            IoErrorKind::ConnectionReset => Error::connection_reset(msg),
            IoErrorKind::ConnectionAborted => Error::connection_aborted(msg),
            IoErrorKind::NotConnected => Error::not_connected(msg),
            IoErrorKind::AddrInUse => Error::addr_inuse(msg),
            IoErrorKind::AddrNotAvailable => Error::addr_not_available(msg),
            IoErrorKind::BrokenPipe => Error::broken_pipe(msg),
            IoErrorKind::AlreadyExists => Error::already_exists(msg),
            IoErrorKind::WouldBlock => Error::would_block(msg),
            IoErrorKind::InvalidInput => Error::invalid_input(msg),
            IoErrorKind::InvalidData => Error::invalid_data(msg),
            IoErrorKind::TimedOut => Error::timeout(msg),
            IoErrorKind::WriteZero => Error::write_zero(msg),
            IoErrorKind::Interrupted => Error::interrupted(msg),
            IoErrorKind::UnexpectedEof => Error::unexpected_eof(msg),
            IoErrorKind::Other => Error::io(msg),
        }
    }

    /// The one-line text of this error: its code, then its message.
    pub fn to_text(&self) -> (r: String)
        ensures
            r@ == crate::text::spec_dec_int(self.spec_code() as int) + " : "@ + self.spec_msg(),
    {
        let mut out = crate::text::render_i64(self.code as i64);
        out.append(" : ");
        out.append(self.msg.as_str());
        proof {
            assert(out@ =~= crate::text::spec_dec_int(self.spec_code() as int) + " : "@
                + self.spec_msg());
        }
        out
    }
}


#[verifier::external_type_specification]
#[verifier::external_body]
#[verifier::reject_recursive_types(T)]
pub struct ExSendError<T>(tokio::sync::mpsc::error::SendError<T>);

#[verifier::external_type_specification]
#[verifier::external_body]
pub struct ExElapsed(tokio::time::error::Elapsed);

/// Relies on tokio's `SendError` Display impl: the message is exactly
/// `channel closed`.
#[verifier::external_body]
fn send_failure_text<T>(err: &tokio::sync::mpsc::error::SendError<T>) -> (r: String)
    ensures
        r@ == "channel closed"@,
{
    err.to_string()
}

/// Relies on tokio's `Elapsed` Display impl: the message is exactly
/// `deadline has elapsed`.
#[verifier::external_body]
fn elapsed_text(err: &tokio::time::error::Elapsed) -> (r: String)
    ensures
        r@ == "deadline has elapsed"@,
{
    err.to_string()
}

impl Error {
    /// A failed channel send, converted at the boundary: always the
    /// channel-send code, with the runtime's own message.
    pub fn from_send_error<T>(err: tokio::sync::mpsc::error::SendError<T>) -> (e: Error)
        ensures
            e.spec_code() == CHANNEL_SEND,
            e.spec_msg() == "channel closed"@,
    {
        let msg = send_failure_text(&err);
        Error::channel_send(msg.as_str())
    }

    /// An elapsed timeout, converted at the boundary: always the timed-out
    /// code, with the runtime's own message.
    pub fn from_elapsed(err: tokio::time::error::Elapsed) -> (e: Error)
        ensures
            e.spec_code() == IO_TIMED_OUT,
            e.spec_msg() == "deadline has elapsed"@,
    {
        let msg = elapsed_text(&err);
        Error::timeout(msg.as_str())
    }
}

/// Packing a base and a sub-code and then splitting the code again gives the
/// base and the sub-code back, for every base and sub-code in range.
pub proof fn lemma_code_round_trip(base: i32, sub: i32)
    requires
        0 <= base < 0x80_0000,
        0 <= sub < 0x100,
    ensures
        ((base << 8) | sub) >> 8 == base,
        ((base << 8) | sub) & 0xFF == sub,
{
    assert(0 <= base < 0x80_0000 && 0 <= sub < 0x100 ==> ((base << 8) | sub) >> 8 == base
        && ((base << 8) | sub) & 0xFF == sub) by (bit_vector);
}

} // verus!
