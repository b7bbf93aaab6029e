use vstd::prelude::*;
use ipnetwork::IpNetwork;
use crate::models::Family;

verus! {

/// What ipnetwork reads from a text: `None` where the text is no network
/// literal, else whether the network is IPv6 and the network's own text.
pub uninterp spec fn network_of(s: Seq<char>) -> Option<(bool, Seq<char>)>;

/// The family and canonical text of a network in CIDR notation, an address
/// and a prefix length parted by `/`, if the text is one.
pub open spec fn classified(s: Seq<char>) -> Option<(Family, Seq<char>)> {
    if !s.contains('/') {
        None
    } else {
        match network_of(s) {
        Some((v6, t)) => Some((if v6 { Family::V6 } else { Family::V4 }, t)),
        None => None,
        }
    }
}

/// Relies on ipnetwork's `IpNetwork::from_str` (an IPv4 reading first, then an
/// IPv6 one) and on its `Display`, which writes `address/prefix length`: a text
/// written that way reads back as the same network.
#[verifier::external_body]
fn parse_network(s: &str) -> (r: Option<(bool, String)>)
    ensures
        network_of(s@) == (match r {
            Some((v6, t)) => Some((v6, t@)),
            None => None::<(bool, Seq<char>)>,
        }),
        r matches Some((v6, t)) ==> network_of(t@) == Some((v6, t@)),
        r matches Some((v6, t)) ==> t@.contains('/'),
{
    s.parse::<IpNetwork>().ok().map(|n| (n.is_ipv6(), n.to_string()))
}

/// A network literal that was read successfully.
pub struct Network {
    pub family: Family,
    /// The canonical text of the network.
    pub text: String,
}

/// The text is neither an IPv4 nor an IPv6 network literal.
#[derive(Clone, Copy, Debug, PartialEq, Eq, Structural)]
pub struct InvalidFormat;

/// Whether a text holds a `/`.
fn has_slash(text: &str) -> (r: bool)
    ensures
        r == text@.contains('/'),
{
    let n = text.unicode_len();
    let mut i: usize = 0;
    while i < n
        invariant
            i <= n,
            n == text@.len(),
            forall|k: int| 0 <= k < i ==> text@[k] != '/',
        decreases n - i,
    {
        if text.get_char(i) == '/' {
            return true;
        }
        i += 1;
    }
    false
}

/// Reads `text` as an IPv4 or IPv6 network in CIDR notation: an address, a
/// `/` and a prefix length. A bare address is refused.
pub fn classify(text: &str) -> (r: Result<Network, InvalidFormat>)
    ensures
        match classified(text@) {
            Some((f, t)) => r matches Ok(n) && n.family == f && n.text@ == t,
            None => r is Err,
        },
        r matches Ok(n) ==> classified(n.text@) == Some((n.family, n.text@)),
{
    if !has_slash(text) {
        return Err(InvalidFormat);
    }
    match parse_network(text) {
        Some((v6, t)) => {
            let family = if v6 { Family::V6 } else { Family::V4 };
            Ok(Network { family, text: t })
        },
        None => Err(InvalidFormat),
    }
}

} // verus!
