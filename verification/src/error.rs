use vstd::prelude::*;

verus! {

/// The error taxonomy of the bridge.
///
/// Configuration errors are fatal at startup only; session errors trigger a
/// reconnect; command errors are surfaced as a FAIL publish on the command's
/// result topic; sink errors are counted and absorbed.
#[derive(Clone, Copy, Debug, PartialEq, Eq, Structural)]
pub enum Error {
    /// Invalid configuration file; fatal at startup.
    Config,
    /// TCP connect to the inverter failed.
    ConnectFailed,
    /// No inbound frame within the configured read timeout.
    ReadTimeout,
    /// The inbound byte stream held a malformed frame.
    CodecInvalid,
    /// `values` is too long for the frame's length field.
    PayloadTooLong,
    /// No matching reply arrived within the reply timeout.
    Timeout,
    /// A write reply echoed a different value than was written.
    WriteMismatch { register: u16, got: u16, wanted: u16 },
    /// A mutating command was refused because the inverter is read-only.
    ReadOnly,
    /// An inbound frame's inverter serial differs from the configured one.
    SerialMismatch,
    /// A downstream sink (MQTT, Influx, database, cache) failed.
    SinkError,
    /// An hour/minute quadruple was out of range.
    BadTime,
    /// A malformed MQTT command topic or payload.
    BadCommand,
    /// A channel send found no consumer where one is required.
    ChannelClosed,
}

impl Error {
    /// A short stable label for logs and FAIL diagnostics.
    pub fn label(&self) -> (r: &'static str)
        ensures
            r@.len() > 0,
    {
        proof {
            reveal_strlit("config");
            reveal_strlit("connect failed");
            reveal_strlit("read timeout");
            reveal_strlit("codec invalid");
            reveal_strlit("payload too long");
            reveal_strlit("timeout");
            reveal_strlit("write mismatch");
            reveal_strlit("read only");
            reveal_strlit("serial mismatch");
            reveal_strlit("sink error");
            reveal_strlit("bad time");
            reveal_strlit("bad command");
            reveal_strlit("channel closed");
        }
        match self {
            Error::Config => "config",
            Error::ConnectFailed => "connect failed",
            Error::ReadTimeout => "read timeout",
            Error::CodecInvalid => "codec invalid",
            Error::PayloadTooLong => "payload too long",
            Error::Timeout => "timeout",
            Error::WriteMismatch { .. } => "write mismatch",
            Error::ReadOnly => "read only",
            Error::SerialMismatch => "serial mismatch",
            Error::SinkError => "sink error",
            Error::BadTime => "bad time",
            Error::BadCommand => "bad command",
            Error::ChannelClosed => "channel closed",
        }
    }
}

} // verus!
