//! Network addresses, and the one that the service listens on.

use std::sync::Arc;
use vstd::prelude::*;
use vstd::string::StringExecFns;

verus! {

/// A multiaddress, as its binary encoding.
#[derive(Debug, PartialEq, Eq)]
pub struct Multiaddr {
    bytes: Arc<Vec<u8>>,
}

impl View for Multiaddr {
    type V = Seq<u8>;

    closed spec fn view(&self) -> Seq<u8> {
        self.bytes@
    }
}

impl Clone for Multiaddr {
    fn clone(&self) -> (copy: Multiaddr)
        ensures
            copy == *self,
    {
        proof {
            use_type_invariant(self);
        }
        Multiaddr { bytes: self.bytes.clone() }
    }
}

/// Whether `tentacle::multiaddr` takes `bytes` for the binary encoding of an address, on a machine
/// with pointers of `pointer_bits` bits.
pub uninterp spec fn multiaddr_accepts(bytes: Seq<u8>, pointer_bits: nat) -> bool;

/// Whether `bytes` are the binary encoding of an address, on this machine.
pub open spec fn valid_multiaddr(bytes: Seq<u8>) -> bool {
    multiaddr_accepts(bytes, usize::BITS as nat)
}

/// Calls `Multiaddr::try_from` of `tentacle::multiaddr` on the bytes, and says whether it took
/// them.
///
/// Claimed of it: the answer depends on the bytes, and on the pointer width, in which the lengths in
/// them are read, alone. Which bytes it takes, is not said.
#[verifier::external_body]
fn is_multiaddr(bytes: &Vec<u8>) -> (valid: bool)
    ensures
        valid == multiaddr_accepts(bytes@, usize::BITS as nat),
{
    tentacle::multiaddr::Multiaddr::try_from(bytes.clone()).is_ok()
}

impl Multiaddr {
    #[verifier::type_invariant]
    spec fn well_formed(self) -> bool {
        valid_multiaddr(self.bytes@)
    }

    /// The address with the binary encoding `bytes`, if they are one.
    pub fn from_bytes(bytes: Vec<u8>) -> (address: Option<Multiaddr>)
        ensures
            match address {
                Some(address) => valid_multiaddr(bytes@) && address@ == bytes@,
                None => !valid_multiaddr(bytes@),
            },
    {
        if is_multiaddr(&bytes) {
            Some(Multiaddr { bytes: Arc::new(bytes) })
        } else {
            None
        }
    }

    /// The binary encoding of this address.
    pub fn as_bytes(&self) -> (bytes: &[u8])
        ensures
            bytes@ == self@,
            valid_multiaddr(bytes@),
    {
        proof {
            use_type_invariant(self);
        }
        self.bytes.as_slice()
    }
}

/// The character that stands for the digit `d`.
pub open spec fn digit(d: nat) -> char
    recommends
        d < 10,
{
    ('0' as int + d) as char
}

/// `n` written in decimal, without leading zeros.
pub open spec fn decimal(n: nat) -> Seq<char>
    decreases n,
{
    if n < 10 {
        seq![digit(n)]
    } else {
        decimal(n / 10).push(digit(n % 10))
    }
}

/// The text of the address on which the service listens at `port`: a TCP port of the loopback
/// interface.
pub open spec fn listening_text(port: u16) -> Seq<char> {
    "/ip4/127.0.0.1/tcp/"@ + decimal(port as nat)
}

/// The binary encoding of that address: the code of IPv4 and four octets, the code of TCP and the
/// port with its high byte first.
pub open spec fn listening_bytes(port: u16) -> Seq<u8> {
    seq![0x04u8, 127, 0, 0, 1, 0x06, (port / 256) as u8, (port % 256) as u8]
}

/// The binary encoding that `tentacle::multiaddr` gives to the address written `text`, or `None`
/// where it refuses the text.
pub uninterp spec fn multiaddr_of_text(text: Seq<char>) -> Option<Seq<u8>>;

/// Calls `Multiaddr::from_str` of `tentacle::multiaddr` and takes the encoding of what it parsed.
///
/// Claimed of it: the result depends on the text alone, what it parsed is the encoding of an
/// address, and the address of a TCP port of the loopback interface is parsed to the two
/// components that it names.
#[verifier::external_body]
fn parse_multiaddr(text: &str) -> (parsed: Option<Vec<u8>>)
    ensures
        match parsed {
            Some(bytes) => multiaddr_of_text(text@) == Some(bytes@),
            None => multiaddr_of_text(text@) is None,
        },
        parsed is Some ==> valid_multiaddr(parsed->0@),
        forall|port: u16|
            text@ == #[trigger] listening_text(port) ==> parsed is Some && parsed->0@
                == listening_bytes(port),
{
    let address = text.parse::<tentacle::multiaddr::Multiaddr>().ok()?;
    Some(address.to_vec())
}

/// The text of the digit `d`.
fn digit_text(d: u16) -> (text: &'static str)
    requires
        d < 10,
    ensures
        text@ == seq![digit(d as nat)],
{
    proof {
        reveal_strlit("0");
        reveal_strlit("1");
        reveal_strlit("2");
        reveal_strlit("3");
        reveal_strlit("4");
        reveal_strlit("5");
        reveal_strlit("6");
        reveal_strlit("7");
        reveal_strlit("8");
        reveal_strlit("9");
    }
    let text = match d {
        0 => "0",
        1 => "1",
        2 => "2",
        3 => "3",
        4 => "4",
        5 => "5",
        6 => "6",
        7 => "7",
        8 => "8",
        _ => "9",
    };
    assert(text@ =~= seq![digit(d as nat)]);
    text
}

/// Appends `n` in decimal.
fn append_decimal(text: &mut String, n: u16)
    ensures
        final(text)@ == old(text)@ + decimal(n as nat),
    decreases n,
{
    if n >= 10 {
        append_decimal(text, n / 10);
    }
    text.append(digit_text(n % 10));
    assert(text@ =~= old(text)@ + decimal(n as nat));
}

/// The text of the address on which the service listens at `port`.
pub fn listening_address_text(port: u16) -> (text: String)
    ensures
        text@ == listening_text(port),
{
    let mut text = String::from_str("/ip4/127.0.0.1/tcp/");
    append_decimal(&mut text, port);
    text
}

/// The address on which the service listens at `port`.
pub fn listening_address(port: u16) -> (address: Multiaddr)
    ensures
        address@ == listening_bytes(port),
        multiaddr_of_text(listening_text(port)) == Some(address@),
{
    let text = listening_address_text(port);
    let bytes = parse_multiaddr(text.as_str()).unwrap();
    Multiaddr { bytes: Arc::new(bytes) }
}

} // verus!
