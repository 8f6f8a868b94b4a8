//! The closed set of supported network protocols, the validator that reads
//! one from a decoded node, and the duplicate-collapsing set they are
//! collected into.

use vstd::prelude::*;
use crate::node::Node;

verus! {

/// A supported network protocol, spelled `"HTTP"` or `"HTTPS"` in the
/// document, case-sensitively.
#[derive(Debug, Clone, Copy, PartialEq, Eq, Structural, Hash)]
pub enum Protocol {
    Http,
    Https,
}

/// Why one entry of the `protocols` sequence was rejected: a text value
/// outside the supported set (carrying the offending text), or a node that
/// is not a text scalar at all.
#[derive(Debug, PartialEq, Eq)]
pub enum ProtocolParseError {
    UnsupportedProtocol(String),
    InvalidYamlValue,
}

/// What reading one decoded node as a protocol yields: the matching variant
/// for the two supported spellings, `UnsupportedProtocol` with the offending
/// text for any other text value, `InvalidYamlValue` for any other shape.
pub open spec fn protocol_of(n: Node) -> Result<Protocol, ProtocolParseError> {
    match n {
        Node::Text(s) => if s@ == "HTTP"@ {
            Ok(Protocol::Http)
        } else if s@ == "HTTPS"@ {
            Ok(Protocol::Https)
        } else {
            Err(ProtocolParseError::UnsupportedProtocol(s))
        },
        _ => Err(ProtocolParseError::InvalidYamlValue),
    }
}

impl Protocol {
    /// Reads one decoded node as a protocol, exactly as `protocol_of` says.
    pub fn try_from(value: &Node) -> (r: Result<Protocol, ProtocolParseError>)
        ensures
            r == protocol_of(*value),
    {
        match value {
            Node::Text(s) => {
                if *s == "HTTP".to_owned() {
                    Ok(Protocol::Http)
                } else if *s == "HTTPS".to_owned() {
                    Ok(Protocol::Https)
                } else {
                    Err(ProtocolParseError::UnsupportedProtocol(s.clone()))
                }
            },
            _ => Err(ProtocolParseError::InvalidYamlValue),
        }
    }
}

/// A set of protocols: unordered and duplicate-free, whatever repetition the
/// document carried. Viewed as the mathematical set of its members.
#[derive(Debug)]
pub struct ProtocolSet {
    members: Vec<Protocol>,
}

impl View for ProtocolSet {
    type V = Set<Protocol>;

    closed spec fn view(&self) -> Set<Protocol> {
        self.members@.to_set()
    }
}

impl ProtocolSet {
    #[verifier::type_invariant]
    spec fn inv(self) -> bool {
        self.members@.no_duplicates()
    }

    /// The empty set.
    pub fn new() -> (r: ProtocolSet)
        ensures
            r@ == Set::<Protocol>::empty(),
    {
        let r = ProtocolSet { members: Vec::new() };
        proof {
            assert(r@ =~= Set::<Protocol>::empty());
        }
        r
    }

    /// Whether `p` is a member.
    pub fn contains(&self, p: Protocol) -> (r: bool)
        ensures
            r == self@.contains(p),
    {
        let mut i: usize = 0;
        while i < self.members.len()
            invariant
                i <= self.members@.len(),
                forall|j: int| 0 <= j < i ==> self.members@[j] != p,
            decreases self.members@.len() - i,
        {
            if self.members[i] == p {
                return true;
            }
            i += 1;
        }
        false
    }

    /// Adds `p`; a member already present is not added again.
    pub fn insert(self, p: Protocol) -> (r: ProtocolSet)
        ensures
            r@ == self@.insert(p),
    {
        proof {
            use_type_invariant(&self);
        }
        let ghost orig: Seq<Protocol> = self.members@;
        let present = self.contains(p);
        let ProtocolSet { mut members } = self;
        if !present {
            members.push(p);
            proof {
                assert forall|x: Protocol| #[trigger] members@.contains(x)
                    implies orig.contains(x) || x == p by {
                    let i = choose|i: int| 0 <= i < members@.len() && members@[i] == x;
                    if i < orig.len() {
                        assert(orig[i] == x);
                    }
                };
                assert forall|x: Protocol| #[trigger] orig.contains(x)
                    implies members@.contains(x) by {
                    let i = choose|i: int| 0 <= i < orig.len() && orig[i] == x;
                    assert(members@[i] == x);
                };
                assert(members@.contains(p)) by {
                    assert(members@[orig.len() as int] == p);
                };
                assert(members@.no_duplicates()) by {
                    assert forall|i: int, j: int|
                        0 <= i < members@.len() && 0 <= j < members@.len() && i != j
                        implies members@[i] != members@[j] by {
                        if i == orig.len() {
                            assert(members@[j] == orig[j]);
                            assert(orig.contains(orig[j]));
                        } else if j == orig.len() {
                            assert(members@[i] == orig[i]);
                            assert(orig.contains(orig[i]));
                        }
                    };
                };
            }
        }
        let r = ProtocolSet { members };
        proof {
            assert(r@ =~= self@.insert(p));
        }
        r
    }

    /// The members, each exactly once.
    pub fn as_slice(&self) -> (r: &[Protocol])
        ensures
            r@.to_set() == self@,
            r@.no_duplicates(),
    {
        proof {
            use_type_invariant(self);
        }
        self.members.as_slice()
    }

    /// How many members the set has.
    pub fn len(&self) -> (r: usize)
        ensures
            r == self@.len(),
    {
        proof {
            use_type_invariant(self);
            self.members@.unique_seq_to_set();
        }
        self.members.len()
    }
}

/// Every element of the sequence reads as a supported protocol.
pub open spec fn protocols_all_ok(elems: Seq<Node>) -> bool {
    forall|i: int| 0 <= i < elems.len() ==> (#[trigger] protocol_of(elems[i])) is Ok
}

/// The set of protocols the elements name, however often each one repeats.
pub open spec fn protocol_set_of(elems: Seq<Node>) -> Set<Protocol> {
    Set::new(
        |p: Protocol|
            exists|i: int|
                0 <= i < elems.len() && protocol_of(elems[i]) == Ok::<
                    Protocol,
                    ProtocolParseError,
                >(p),
    )
}

/// `e` is the error of the first element that does not read as a protocol.
pub open spec fn first_protocol_error(elems: Seq<Node>, e: ProtocolParseError) -> bool {
    exists|i: int|
        0 <= i < elems.len() && (#[trigger] protocol_of(elems[i])) == Err::<
            Protocol,
            ProtocolParseError,
        >(e) && (forall|j: int| 0 <= j < i ==> (#[trigger] protocol_of(elems[j])) is Ok)
}

/// Reads every element as a protocol and collects the results into a set;
/// the first element that fails aborts the whole field, and no partial set
/// comes back.
pub fn collect_protocols(elems: &Vec<Node>) -> (r: Result<ProtocolSet, ProtocolParseError>)
    ensures
        r is Ok <==> protocols_all_ok(elems@),
        r matches Ok(ps) ==> ps@ == protocol_set_of(elems@),
        r matches Err(e) ==> first_protocol_error(elems@, e),
{
    let mut acc = ProtocolSet::new();
    let mut i: usize = 0;
    proof {
        assert(acc@ =~= protocol_set_of(elems@.take(0)));
    }
    while i < elems.len()
        invariant
            i <= elems@.len(),
            forall|j: int| 0 <= j < i ==> (#[trigger] protocol_of(elems@[j])) is Ok,
            acc@ == protocol_set_of(elems@.take(i as int)),
        decreases elems@.len() - i,
    {
        match Protocol::try_from(&elems[i]) {
            Ok(p) => {
                acc = acc.insert(p);
                proof {
                    lemma_protocol_set_extend(elems@, i as int, p);
                }
                i += 1;
            },
            Err(e) => {
                proof {
                    assert(!protocols_all_ok(elems@)) by {
                        assert((protocol_of(elems@[i as int])) is Err);
                    };
                }
                return Err(e);
            },
        }
    }
    proof {
        assert(elems@.take(elems@.len() as int) =~= elems@);
    }
    Ok(acc)
}

/// Reading one more element that names `p` grows the collected set by `p`.
proof fn lemma_protocol_set_extend(elems: Seq<Node>, i: int, p: Protocol)
    requires
        0 <= i < elems.len(),
        protocol_of(elems[i]) == Ok::<Protocol, ProtocolParseError>(p),
    ensures
        protocol_set_of(elems.take(i + 1)) == protocol_set_of(elems.take(i)).insert(p),
{
    let shorter = elems.take(i);
    let longer = elems.take(i + 1);
    assert forall|q: Protocol| #[trigger] protocol_set_of(longer).contains(q)
        implies protocol_set_of(shorter).insert(p).contains(q) by {
        let k = choose|k: int|
            0 <= k < longer.len() && protocol_of(longer[k]) == Ok::<
                Protocol,
                ProtocolParseError,
            >(q);
        if k < i {
            assert(shorter[k] == longer[k]);
            assert(protocol_of(shorter[k]) == Ok::<Protocol, ProtocolParseError>(q));
        } else {
            assert(longer[k] == elems[i]);
        }
    };
    assert forall|q: Protocol| #[trigger] protocol_set_of(shorter).insert(p).contains(q)
        implies protocol_set_of(longer).contains(q) by {
        if q == p {
            assert(longer[i] == elems[i]);
            assert(protocol_of(longer[i]) == Ok::<Protocol, ProtocolParseError>(q));
        } else {
            let k = choose|k: int|
                0 <= k < shorter.len() && protocol_of(shorter[k]) == Ok::<
                    Protocol,
                    ProtocolParseError,
                >(q);
            assert(longer[k] == shorter[k]);
            assert(protocol_of(longer[k]) == Ok::<Protocol, ProtocolParseError>(q));
        }
    };
    assert(protocol_set_of(longer) =~= protocol_set_of(shorter).insert(p));
}

/// A protocol listed twice collapses to one member: repeating the last
/// element of the sequence leaves the collected set unchanged.
pub proof fn lemma_duplicate_protocol_collapses(elems: Seq<Node>, n: Node)
    ensures
        protocol_set_of(elems.push(n).push(n)) == protocol_set_of(elems.push(n)),
{
    let once = elems.push(n);
    let twice = elems.push(n).push(n);
    assert forall|q: Protocol| #[trigger] protocol_set_of(twice).contains(q)
        implies protocol_set_of(once).contains(q) by {
        let k = choose|k: int|
            0 <= k < twice.len() && protocol_of(twice[k]) == Ok::<
                Protocol,
                ProtocolParseError,
            >(q);
        if k < once.len() {
            assert(once[k] == twice[k]);
            assert(protocol_of(once[k]) == Ok::<Protocol, ProtocolParseError>(q));
        } else {
            assert(twice[k] == n);
            assert(once[elems.len() as int] == n);
            assert(protocol_of(once[elems.len() as int]) == Ok::<Protocol, ProtocolParseError>(q));
        }
    };
    assert forall|q: Protocol| #[trigger] protocol_set_of(once).contains(q)
        implies protocol_set_of(twice).contains(q) by {
        let k = choose|k: int|
            0 <= k < once.len() && protocol_of(once[k]) == Ok::<
                Protocol,
                ProtocolParseError,
            >(q);
        assert(twice[k] == once[k]);
        assert(protocol_of(twice[k]) == Ok::<Protocol, ProtocolParseError>(q));
    };
    assert(protocol_set_of(twice) =~= protocol_set_of(once));
}

} // verus!
