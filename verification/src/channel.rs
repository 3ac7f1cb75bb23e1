//! The control channel's own state machine, and the address it connects to.
//! Connecting, reading and sending are the caller's work; the transitions —
//! and the guarantee that losing the connection touches nothing but the
//! channel — are defined here.

use vstd::prelude::*;
use vstd::utf8::encode_utf8;
use crate::config::SubConfig;

verus! {

/// Connectivity of the control channel.
#[derive(Debug, Clone, Copy, PartialEq, Eq, Structural)]
pub enum ChannelState {
    Disconnected,
    Connecting,
    Connected,
}

/// An event the connection loop reports.
#[derive(Debug, Clone, Copy, PartialEq, Eq, Structural)]
pub enum ChannelEvent {
    /// A connection attempt has begun.
    ConnectStarted,
    /// The attempt produced a live connection.
    ConnectSucceeded,
    /// The attempt failed.
    ConnectFailed,
    /// A read or send on the live connection failed, or the peer closed it.
    ConnectionLost,
}

/// The transition function of the channel: Disconnected -> Connecting ->
/// Connected, and back to Disconnected on any failure, forever.
pub open spec fn channel_next(s: ChannelState, e: ChannelEvent) -> ChannelState {
    match e {
        ChannelEvent::ConnectStarted => if s == ChannelState::Disconnected {
            ChannelState::Connecting
        } else {
            s
        },
        ChannelEvent::ConnectSucceeded => if s == ChannelState::Connecting {
            ChannelState::Connected
        } else {
            s
        },
        ChannelEvent::ConnectFailed => if s == ChannelState::Connecting {
            ChannelState::Disconnected
        } else {
            s
        },
        ChannelEvent::ConnectionLost => ChannelState::Disconnected,
    }
}

impl ChannelState {
    /// Apply one connection event.
    pub fn step(&mut self, e: ChannelEvent)
        ensures
            *final(self) == channel_next(*old(self), e),
    {
        match e {
            ChannelEvent::ConnectStarted => {
                if *self == ChannelState::Disconnected {
                    *self = ChannelState::Connecting;
                }
            },
            ChannelEvent::ConnectSucceeded => {
                if *self == ChannelState::Connecting {
                    *self = ChannelState::Connected;
                }
            },
            ChannelEvent::ConnectFailed => {
                if *self == ChannelState::Connecting {
                    *self = ChannelState::Disconnected;
                }
            },
            ChannelEvent::ConnectionLost => {
                *self = ChannelState::Disconnected;
            },
        }
    }
}

/// After any lost connection a new attempt can begin: the channel never
/// wedges in a state from which reconnecting is impossible.
pub proof fn lemma_reconnect_always_possible(s: ChannelState)
    ensures
        channel_next(
            channel_next(s, ChannelEvent::ConnectionLost),
            ChannelEvent::ConnectStarted,
        ) == ChannelState::Connecting,
{
}

/// True when `b` is an ASCII letter or digit.
pub open spec fn is_alphanumeric_byte(b: u8) -> bool {
    (48 <= b <= 57) || (65 <= b <= 90) || (97 <= b <= 122)
}

/// The uppercase hexadecimal digit of a value below sixteen.
pub open spec fn hex_digit_char(d: u8) -> char {
    if d == 0 {
        '0'
    } else if d == 1 {
        '1'
    } else if d == 2 {
        '2'
    } else if d == 3 {
        '3'
    } else if d == 4 {
        '4'
    } else if d == 5 {
        '5'
    } else if d == 6 {
        '6'
    } else if d == 7 {
        '7'
    } else if d == 8 {
        '8'
    } else if d == 9 {
        '9'
    } else if d == 10 {
        'A'
    } else if d == 11 {
        'B'
    } else if d == 12 {
        'C'
    } else if d == 13 {
        'D'
    } else if d == 14 {
        'E'
    } else {
        'F'
    }
}

/// How one byte is written in a percent-encoded name: an ASCII letter or
/// digit stands as itself, any other byte as `%` and two uppercase
/// hexadecimal digits.
pub open spec fn percent_byte(b: u8) -> Seq<char> {
    if is_alphanumeric_byte(b) {
        seq![b as char]
    } else {
        seq!['%', hex_digit_char(b / 16), hex_digit_char(b % 16)]
    }
}

/// The percent-encoding of a byte sequence.
pub open spec fn percent_encoded(bs: Seq<u8>) -> Seq<char>
    decreases bs.len(),
{
    if bs.len() == 0 {
        Seq::<char>::empty()
    } else {
        percent_byte(bs[0]) + percent_encoded(bs.skip(1))
    }
}

/// Relies on `percent_encoding::utf8_percent_encode` with the
/// `NON_ALPHANUMERIC` set: every byte of the UTF-8 encoding that is not an
/// ASCII letter or digit becomes `%` and two uppercase hexadecimal digits;
/// letters and digits pass through unchanged.
#[verifier::external_body]
fn percent_encode_name(s: &str) -> (r: String)
    ensures
        r@ == percent_encoded(encode_utf8(s@)),
{
    percent_encoding::utf8_percent_encode(s, percent_encoding::NON_ALPHANUMERIC).to_string()
}

/// The address the control channel connects to: the configured controller
/// address with the server's percent-encoded name as a query parameter.
pub fn control_url(config: &SubConfig) -> (r: String)
    ensures
        r@ == config.uri@ + "/ws?server_name="@ + percent_encoded(encode_utf8(
            config.server_name@,
        )),
{
    let mut out = String::from_str(config.uri.as_str());
    out.append("/ws?server_name=");
    let encoded = percent_encode_name(config.server_name.as_str());
    out.append(encoded.as_str());
    out
}

} // verus!
