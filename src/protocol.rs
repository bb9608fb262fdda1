//! The player's property protocol: one JSON request line out, one JSON reply
//! line back, per property read or write.
use vstd::prelude::*;
use crate::text::same_text;

verus! {

/// Where the player is told to listen for control requests.
pub const CONTROL_SOCKET_PATH: &'static str = "/tmp/nightride.sock";

/// The `error` text of a reply that reports success.
pub const SUCCESS: &'static str = "success";

/// The player properties this program reads or writes.
#[derive(Clone, Copy, Debug, PartialEq, Eq)]
pub enum Property {
    Pid,
    Filename,
    Pause,
    Volume,
    Metadata,
}

/// Why a property read or write, or a start of the player, did not succeed.
#[derive(Clone, Debug, PartialEq, Eq)]
pub enum PlayerError {
    /// The reply could not be read as a reply object.
    Protocol,
    /// The player answered with an error text other than success.
    Command(String),
    /// A read succeeded but carried no value.
    MissingData,
    /// Nothing listens on the control socket.
    ChannelUnavailable,
    /// The player could not be started; the text says why.
    Spawn(String),
}

/// A value written to a property.
#[derive(Clone, Copy, Debug, PartialEq, Eq)]
pub enum SetValue {
    Flag(bool),
    Level(u32),
}

/// A decoded reply: the value, if any, and the error text.
pub struct Reply<T> {
    pub data: Option<T>,
    pub error: String,
}

/// The protocol name of a property.
pub open spec fn property_name(p: Property) -> Seq<char> {
    match p {
        Property::Pid => "pid"@,
        Property::Filename => "filename"@,
        Property::Pause => "pause"@,
        Property::Volume => "volume"@,
        Property::Metadata => "metadata"@,
    }
}

/// The character of a decimal digit.
pub open spec fn digit_char(d: nat) -> char {
    (('0' as u8) + d) as char
}

/// Decimal notation of `n`, without leading zeros.
pub open spec fn decimal(n: nat) -> Seq<char>
    decreases n,
{
    if n < 10 {
        seq![digit_char(n)]
    } else {
        decimal(n / 10).push(digit_char(n % 10))
    }
}

/// JSON text of a value.
pub open spec fn json_of(v: SetValue) -> Seq<char> {
    match v {
        SetValue::Flag(b) => if b { "true"@ } else { "false"@ },
        SetValue::Level(n) => decimal(n as nat),
    }
}

/// The request line that reads `p`.
pub open spec fn get_request_text(p: Property) -> Seq<char> {
    "{\"command\":[\"get_property\",\""@ + property_name(p) + "\"]}\n"@
}

/// The request line that writes `v` to `p`.
pub open spec fn set_request_text(p: Property, v: SetValue) -> Seq<char> {
    "{\"command\":[\"set_property\",\""@ + property_name(p) + "\","@ + json_of(v) + "]}\n"@
}

/// What a read's reply means: its value when the player reports success and
/// sends one, the reported error otherwise; a reply that could not be decoded
/// is a protocol error.
pub open spec fn get_outcome_of<T>(reply: Option<Reply<T>>) -> Result<T, PlayerError> {
    match reply {
        None => Err(PlayerError::Protocol),
        Some(r) => if r.error@ != SUCCESS@ {
            Err(PlayerError::Command(r.error))
        } else {
            match r.data {
                Some(d) => Ok(d),
                None => Err(PlayerError::MissingData),
            }
        },
    }
}

/// What a write's reply means: success when the player reports it.
pub open spec fn set_outcome_of(error: Option<String>) -> Result<(), PlayerError> {
    match error {
        None => Err(PlayerError::Protocol),
        Some(e) => if e@ == SUCCESS@ {
            Ok(())
        } else {
            Err(PlayerError::Command(e))
        },
    }
}

impl Property {
    /// The protocol name of the property.
    pub fn name(&self) -> (r: &'static str)
        ensures
            r@ == property_name(*self),
    {
        match self {
            Property::Pid => "pid",
            Property::Filename => "filename",
            Property::Pause => "pause",
            Property::Volume => "volume",
            Property::Metadata => "metadata",
        }
    }
}

/// A decimal digit as text.
fn digit_text(d: u64) -> (r: &'static str)
    requires
        d < 10,
    ensures
        r@ == seq![digit_char(d as nat)],
{
    proof {
        reveal_strlit("0");
        reveal_strlit("1");
        reveal_strlit("2");
        reveal_strlit("3");
        reveal_strlit("4");
        reveal_strlit("5");
        reveal_strlit("6");
        reveal_strlit("7");
        reveal_strlit("8");
        reveal_strlit("9");
    }
    let r = match d {
        0 => "0",
        1 => "1",
        2 => "2",
        3 => "3",
        4 => "4",
        5 => "5",
        6 => "6",
        7 => "7",
        8 => "8",
        _ => "9",
    };
    assert(r@ =~= seq![digit_char(d as nat)]);
    r
}

/// Decimal notation of `n`, without leading zeros.
pub fn decimal_text(n: u64) -> (r: String)
    ensures
        r@ == decimal(n as nat),
    decreases n,
{
    if n < 10 {
        String::from_str(digit_text(n))
    } else {
        let head = decimal_text(n / 10);
        let r = head.concat(digit_text(n % 10));
        assert(r@ =~= decimal(n as nat));
        r
    }
}

/// JSON text of a value.
pub fn json_text(v: SetValue) -> (r: String)
    ensures
        r@ == json_of(v),
{
    match v {
        SetValue::Flag(b) => if b {
            String::from_str("true")
        } else {
            String::from_str("false")
        },
        SetValue::Level(n) => decimal_text(n as u64),
    }
}

/// The request line that reads `p`.
pub fn get_request(p: Property) -> (r: String)
    ensures
        r@ == get_request_text(p),
{
    let s = String::from_str("{\"command\":[\"get_property\",\"");
    let s = s.concat(p.name());
    let s = s.concat("\"]}\n");
    assert(s@ =~= get_request_text(p));
    s
}

/// The request line that writes `v` to `p`.
pub fn set_request(p: Property, v: SetValue) -> (r: String)
    ensures
        r@ == set_request_text(p, v),
{
    let s = String::from_str("{\"command\":[\"set_property\",\"");
    let s = s.concat(p.name());
    let s = s.concat("\",");
    let value = json_text(v);
    let s = s.concat(value.as_str());
    let s = s.concat("]}\n");
    assert(s@ =~= set_request_text(p, v));
    s
}

/// What a read's reply means; `None` stands for a reply that could not be decoded.
pub fn get_outcome<T>(reply: Option<Reply<T>>) -> (r: Result<T, PlayerError>)
    ensures
        r == get_outcome_of(reply),
{
    match reply {
        None => Err(PlayerError::Protocol),
        Some(r) => {
            if !same_text(r.error.as_str(), SUCCESS) {
                Err(PlayerError::Command(r.error))
            } else {
                match r.data {
                    Some(d) => Ok(d),
                    None => Err(PlayerError::MissingData),
                }
            }
        },
    }
}

/// What a write's reply means, from its error text; `None` stands for a reply
/// that could not be decoded.
pub fn set_outcome(error: Option<String>) -> (r: Result<(), PlayerError>)
    ensures
        r == set_outcome_of(error),
{
    match error {
        None => Err(PlayerError::Protocol),
        Some(e) => {
            if same_text(e.as_str(), SUCCESS) {
                Ok(())
            } else {
                Err(PlayerError::Command(e))
            }
        },
    }
}

} // verus!
