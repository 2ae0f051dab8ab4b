//! Which configured boot nodes the node dials at start-up.

use vstd::prelude::*;

verus! {

/// What parsing a text as a libp2p multiaddress gives: the address in its
/// canonical text form, or the parser's error message.
pub uninterp spec fn multiaddr_parse(text: Seq<char>) -> Result<Seq<char>, Seq<char>>;

/// The texts of a result of strings.
pub open spec fn result_texts(r: Result<String, String>) -> Result<Seq<char>, Seq<char>> {
    match r {
        Ok(a) => Ok(a@),
        Err(e) => Err(e@),
    }
}

/// Calls `<libp2p::Multiaddr as FromStr>::from_str` and renders the outcome
/// as text (`Display` of the address or of the error). The outcome is named
/// `multiaddr_parse` of the text. From the parser's source: a text that is
/// not empty and does not begin with `/` is refused.
#[verifier::external_body]
fn parse_multiaddr(text: &str) -> (r: Result<String, String>)
    ensures
        result_texts(r) == multiaddr_parse(text@),
        text@.len() > 0 && text@[0] != '/' ==> r is Err,
{
    match text.parse::<libp2p::Multiaddr>() {
        Ok(addr) => Ok(addr.to_string()),
        Err(err) => Err(err.to_string()),
    }
}

/// What happens to one boot node.
#[derive(Debug, Clone, PartialEq, Eq)]
pub enum BootDial {
    /// Dial this address.
    Dial(String),
    /// Skip the node; the text says why it did not parse.
    Skip(String),
}

/// A boot-node decision as text.
pub open spec fn boot_dial_view(d: BootDial) -> Result<Seq<char>, Seq<char>> {
    match d {
        BootDial::Dial(a) => Ok(a@),
        BootDial::Skip(e) => Err(e@),
    }
}

/// One decision per boot node, in order: dial the nodes that parse as
/// multiaddresses, skip the others with the parser's message. A node whose
/// text does not begin with `/` is always skipped.
pub fn plan_boot_dials(boot_nodes: &Vec<String>) -> (plan: Vec<BootDial>)
    ensures
        plan@.len() == boot_nodes@.len(),
        forall|i: int|
            0 <= i < plan@.len() ==> boot_dial_view(#[trigger] plan@[i]) == multiaddr_parse(boot_nodes@[i]@),
        forall|i: int|
            0 <= i < plan@.len() && boot_nodes@[i]@.len() > 0 && boot_nodes@[i]@[0] != '/'
                ==> #[trigger] plan@[i] is Skip,
{
    let mut plan: Vec<BootDial> = Vec::new();
    let n = boot_nodes.len();
    for i in 0..n
        invariant
            n == boot_nodes@.len(),
            plan@.len() == i,
            forall|j: int|
                0 <= j < i ==> boot_dial_view(#[trigger] plan@[j]) == multiaddr_parse(boot_nodes@[j]@),
            forall|j: int|
                0 <= j < i && boot_nodes@[j]@.len() > 0 && boot_nodes@[j]@[0] != '/'
                    ==> #[trigger] plan@[j] is Skip,
    {
        let decision = match parse_multiaddr(boot_nodes[i].as_str()) {
            Ok(addr) => BootDial::Dial(addr),
            Err(why) => BootDial::Skip(why),
        };
        plan.push(decision);
    }
    plan
}

} // verus!
