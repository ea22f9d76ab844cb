//! The provisioning agent: the out-of-band methods it offers, and the
//! decoding of a static secret typed in by the operator as hex digits.
use vstd::prelude::*;

use crate::provision::RequestError;

verus! {

pub open spec fn is_hex_digit(c: char) -> bool {
    ('0' <= c && c <= '9') || ('a' <= c && c <= 'f') || ('A' <= c && c <= 'F')
}

/// The value of a hex digit.
pub open spec fn hex_value(c: char) -> int {
    if '0' <= c && c <= '9' {
        c as int - '0' as int
    } else if 'a' <= c && c <= 'f' {
        c as int - 'a' as int + 10
    } else {
        c as int - 'A' as int + 10
    }
}

/// Whether `s` is an even number of hex digits.
pub open spec fn is_hex_text(s: Seq<char>) -> bool {
    s.len() % 2 == 0 && forall|i: int| 0 <= i < s.len() ==> is_hex_digit(#[trigger] s[i])
}

/// The bytes that pairs of hex digits stand for, high digit first.
pub open spec fn hex_bytes(s: Seq<char>) -> Seq<u8> {
    Seq::new((s.len() / 2) as nat, |i: int| (hex_value(s[2 * i]) * 16 + hex_value(s[2 * i + 1])) as u8)
}

/// What `str::trim` leaves of a text.
pub uninterp spec fn trimmed(s: Seq<char>) -> Seq<char>;

/// Relies on `str::trim`: the text without leading and trailing white space,
/// which depends on the text alone.
#[verifier::external_body]
fn trim_text(s: &str) -> (r: &str)
    ensures
        r@ == trimmed(s@),
{
    s.trim()
}

/// Relies on hex's `FromHex for Vec<u8>`: an even number of hex digits, of
/// either case, decodes pair by pair, high digit first; an odd length or any
/// other character is an error.
#[verifier::external_body]
fn decode_hex(text: &str) -> (r: Option<Vec<u8>>)
    ensures
        r is Some <==> is_hex_text(text@),
        r is Some ==> r->Some_0@ == hex_bytes(text@),
{
    <Vec<u8> as hex::FromHex>::from_hex(text).ok()
}

/// An out-of-band authentication method the agent supports.
#[derive(Debug, Clone, Copy, PartialEq, Eq, Structural)]
pub enum OobMethod {
    OutNumeric,
    StaticOob,
}

impl OobMethod {
    /// The method's name on the bus.
    pub fn name(&self) -> (r: String)
        ensures
            *self == OobMethod::OutNumeric ==> r@ == "out-numeric"@,
            *self == OobMethod::StaticOob ==> r@ == "static-oob"@,
    {
        match self {
            OobMethod::OutNumeric => String::from_str("out-numeric"),
            OobMethod::StaticOob => String::from_str("static-oob"),
        }
    }
}

/// The agent that the daemon consults while provisioning a device.
#[derive(Debug, Clone, Copy)]
pub struct ProvisionAgent {
    capabilities: [OobMethod; 2],
}

impl ProvisionAgent {
    pub open spec fn capabilities_spec() -> Seq<OobMethod> {
        seq![OobMethod::OutNumeric, OobMethod::StaticOob]
    }

    pub fn new() -> (r: Self)
        ensures
            r.wf(),
    {
        ProvisionAgent { capabilities: [OobMethod::OutNumeric, OobMethod::StaticOob] }
    }

    pub closed spec fn wf(&self) -> bool {
        self.capabilities@ == Self::capabilities_spec()
    }

    /// The out-of-band methods the agent supports: showing a number to the
    /// operator, and a static secret typed in by the operator.
    pub fn capabilities(&self) -> (r: Vec<OobMethod>)
        requires
            self.wf(),
        ensures
            r@ == Self::capabilities_spec(),
    {
        let r = vec![self.capabilities[0], self.capabilities[1]];
        assert(r@ =~= Self::capabilities_spec());
        r
    }

    /// The names of the supported methods, as the bus reports them.
    pub fn capability_names(&self) -> (r: Vec<String>)
        requires
            self.wf(),
        ensures
            r@.len() == 2,
            r@[0]@ == "out-numeric"@,
            r@[1]@ == "static-oob"@,
    {
        let a = self.capabilities[0].name();
        let b = self.capabilities[1].name();
        vec![a, b]
    }

    /// Decodes a static secret given as hex digits with nothing around them.
    pub fn decode_static_oob(&self, text: &str) -> (r: Result<Vec<u8>, RequestError>)
        ensures
            r is Ok <==> is_hex_text(text@),
            r is Ok ==> r->Ok_0@ == hex_bytes(text@),
            r is Err ==> r == Err::<Vec<u8>, RequestError>(RequestError::Failed),
    {
        match decode_hex(text) {
            Some(v) => Ok(v),
            None => Err(RequestError::Failed),
        }
    }

    /// Decodes the line the operator typed when prompted for a static secret:
    /// white space around it is ignored, and anything but an even number of
    /// hex digits fails.
    pub fn prompt_static(&self, line: &str) -> (r: Result<Vec<u8>, RequestError>)
        ensures
            r is Ok <==> is_hex_text(trimmed(line@)),
            r is Ok ==> r->Ok_0@ == hex_bytes(trimmed(line@)),
            r is Err ==> r == Err::<Vec<u8>, RequestError>(RequestError::Failed),
    {
        let t = trim_text(line);
        self.decode_static_oob(t)
    }
}

} // verus!
