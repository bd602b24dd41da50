//! The passport of an instrument. An instrument is a type that gives a SIGNAL (an element and its
//! interpretation); a new instrument is born from a new interpretation. Four factors of fitness, a
//! zero in any of them zeroes the whole. Half of the passport lives in the types, half is declared
//! in a `Sheet` and checked: a rung declared where its evidence does not lie is refused by proof.
use vstd::prelude::*;

pub mod agreement;
pub mod datapath;
pub mod ask;
pub mod departure;
pub mod detect;
pub mod drift;
pub mod dismiss;
pub mod distress;
pub mod dns;
pub mod edge;
pub mod edge_detect;
pub mod edge_word;
pub mod episode;
pub mod event;
pub mod fate;
pub mod hello;
pub mod leg;
pub mod linux_common;
pub mod muted;
pub mod pace;
pub mod park;
pub mod poison;
pub mod resolve;
pub mod retransmit;
pub mod sag;
pub mod said;
pub mod swallow;
pub mod text;
pub mod tls;
pub mod trust;
pub mod unreached_replies;
pub mod wire;

verus! {

/// What an instrument speaks about, and whom the answer serves.
#[derive(Debug, Clone, Copy, PartialEq, Eq, Structural)]
pub enum Subject {
    /// The world: what the censor and the target do.
    World,
    /// Ourselves: whether an action applied, whether we went blind.
    Ourselves,
    /// The person: what they lived through.
    Person,
    /// Our work: discipline.
    OurWork,
}

/// What makes an instrument speak.
#[derive(Debug, Clone, Copy, PartialEq, Eq, Structural)]
pub enum Cadence {
    /// A foreign request: a packet, a closing window, a person's question.
    Foreign,
    /// Its own clock, with a step in milliseconds.
    Own { step_ms: u64 },
    /// A series between runs: the only cadence whose subject is change, not state.
    Series,
}

/// The form of the output; it decides which operators are lawful.
#[derive(Debug, Clone, Copy, PartialEq, Eq, Structural)]
pub enum Shape {
    /// A quantity: adds up, averages, has no transition.
    Quantity,
    /// A state: has a transition, needs equality.
    State,
    /// An event: already a transition.
    Event,
    /// A ruling that narrows the circle of fates.
    Verdict,
    /// A series: composed by concatenation.
    Series,
}

/// What an instrument says when there is nothing to say.
#[derive(Debug, Clone, Copy, PartialEq, Eq, Structural)]
pub enum Silence {
    /// Looked and saw nothing: the observation took place.
    Nothing,
    /// Could not look: the control arm is silent, the input did not come.
    Blind,
}

/// Four factors of fitness.
#[derive(Debug, Clone, Copy, PartialEq, Eq, Structural)]
pub struct Fitness {
    /// Whether the reading narrows the circle so that different troubles lead to different cures.
    pub discriminates: bool,
    /// Whether a reader exists in the live input, not only in a test.
    pub read: bool,
    /// Whether values other than empty reach the reader.
    pub fed: bool,
    /// Whether the instrument speaks within the patience of the one who waits.
    pub timely: bool,
}

impl Fitness {
    /// Whether the instrument is fit: the product, a zero in any factor zeroes the whole.
    pub fn sound(self) -> (r: bool)
        ensures
            r == (self.discriminates && self.read && self.fed && self.timely),
    {
        self.discriminates && self.read && self.fed && self.timely
    }

    /// What is broken, for the audit: the first broken factor from the cheapest cure to the
    /// dearest (wire, reader, discrimination, clock); empty when nothing is.
    pub fn broken(self) -> (r: &'static [&'static str])
        ensures
            (r@.len() == 0) == (self.discriminates && self.read && self.fed && self.timely),
            r@.len() <= 1,
            r@.len() == 1 ==> r@[0]@ == broken_factor(self),
    {
        proof {
            reveal_strlit("питание: читатель есть, значения не приходят");
            reveal_strlit("подключённость: показание никто не читает в живом входе");
            reveal_strlit("различение: разные беды дают одно показание");
            reveal_strlit("срок: прибор высказывается позже, чем человек уходит");
        }
        if !self.fed {
            let r: &'static [&'static str] = &["питание: читатель есть, значения не приходят"];
            assert(r@.len() == 1);
            r
        } else if !self.read {
            let r: &'static [&'static str] = &["подключённость: показание никто не читает в живом входе"];
            assert(r@.len() == 1);
            r
        } else if !self.discriminates {
            let r: &'static [&'static str] = &["различение: разные беды дают одно показание"];
            assert(r@.len() == 1);
            r
        } else if !self.timely {
            let r: &'static [&'static str] = &["срок: прибор высказывается позже, чем человек уходит"];
            assert(r@.len() == 1);
            r
        } else {
            let r: &'static [&'static str] = &[];
            assert(r@.len() == 0);
            r
        }
    }
}

/// The text naming the first broken factor, cheapest cure first.
pub open spec fn broken_factor(f: Fitness) -> Seq<char> {
    if !f.fed {
        "питание: читатель есть, значения не приходят"@
    } else if !f.read {
        "подключённость: показание никто не читает в живом входе"@
    } else if !f.discriminates {
        "различение: разные беды дают одно показание"@
    } else {
        "срок: прибор высказывается позже, чем человек уходит"@
    }
}

/// The level at which the evidence lies. An instrument at level `L` sees evidence at levels `≤ L`.
#[derive(Debug, Clone, Copy, PartialEq, Eq, Structural)]
pub enum Layer {
    /// The frame: interface, MAC.
    Link,
    /// The address: IP, TTL.
    Network,
    /// The transport: port, handshake, reset, window.
    Transport,
    /// The session: TLS/QUIC — name, version, identity.
    Session,
    /// The application: method, headers, body.
    Application,
}

/// The height of a level, from the frame up.
pub open spec fn height(layer: Layer) -> nat {
    match layer {
        Layer::Link => 0,
        Layer::Network => 1,
        Layer::Transport => 2,
        Layer::Session => 3,
        Layer::Application => 4,
    }
}

impl Layer {
    /// Whether two levels are the same one.
    pub fn same(self, other: Layer) -> (r: bool)
        ensures
            r == (self == other),
    {
        self == other
    }
}

/// The protocol on which evidence exists or not.
#[derive(Debug, Clone, Copy, PartialEq, Eq, Structural)]
pub enum Protocol {
    Tcp,
    Udp,
    Quic,
    Tls,
    Http,
    Dns,
}

/// What carries each protocol, one step down the stack.
pub open spec fn carriers_of(p: Protocol) -> Seq<Protocol> {
    match p {
        Protocol::Tcp | Protocol::Udp => Seq::empty(),
        Protocol::Quic => seq![Protocol::Udp],
        Protocol::Dns => seq![Protocol::Udp],
        Protocol::Tls => seq![Protocol::Tcp],
        Protocol::Http => seq![Protocol::Tcp, Protocol::Tls],
    }
}

/// How many steps lie between a protocol and the transport.
pub open spec fn depth(p: Protocol) -> nat {
    match p {
        Protocol::Tcp | Protocol::Udp => 0,
        Protocol::Quic | Protocol::Dns | Protocol::Tls => 1,
        Protocol::Http => 2,
    }
}

/// Everything a protocol is carried by, down to the transport: each carrier in order, followed by
/// what lies beneath it.
pub open spec fn beneath_of(p: Protocol) -> Seq<Protocol>
    decreases depth(p),
{
    match p {
        Protocol::Tcp | Protocol::Udp => Seq::empty(),
        Protocol::Quic | Protocol::Dns => seq![Protocol::Udp] + beneath_of(Protocol::Udp),
        Protocol::Tls => seq![Protocol::Tcp] + beneath_of(Protocol::Tcp),
        Protocol::Http => seq![Protocol::Tcp] + beneath_of(Protocol::Tcp) + seq![Protocol::Tls]
            + beneath_of(Protocol::Tls),
    }
}

impl Protocol {
    /// What carries this protocol, one step down.
    pub fn carriers(self) -> (r: &'static [Protocol])
        ensures
            r@ == carriers_of(self),
    {
        match self {
            Protocol::Tcp | Protocol::Udp => {
                let r: &'static [Protocol] = &[];
                assert(r@ =~= carriers_of(self));
                r
            },
            Protocol::Quic => {
                let r: &'static [Protocol] = &[Protocol::Udp];
                assert(r@ =~= carriers_of(self));
                r
            },
            Protocol::Dns => {
                let r: &'static [Protocol] = &[Protocol::Udp];
                assert(r@ =~= carriers_of(self));
                r
            },
            Protocol::Tls => {
                let r: &'static [Protocol] = &[Protocol::Tcp];
                assert(r@ =~= carriers_of(self));
                r
            },
            Protocol::Http => {
                let r: &'static [Protocol] = &[Protocol::Tcp, Protocol::Tls];
                assert(r@ =~= carriers_of(self));
                r
            },
        }
    }

    /// Everything this protocol is carried by, down to the transport.
    pub fn beneath(self) -> (r: Vec<Protocol>)
        ensures
            r@ == beneath_of(self),
        decreases depth(self),
    {
        let carriers = self.carriers();
        let mut out: Vec<Protocol> = Vec::new();
        let mut i: usize = 0;
        while i < carriers.len()
            invariant
                carriers@ == carriers_of(self),
                i <= carriers@.len(),
                out@ == beneath_prefix(self, i as int),
            decreases carriers@.len() - i,
        {
            let under = carriers[i];
            proof {
                lemma_carrier_is_lower(self, i as int);
            }
            let below = under.beneath();
            out.push(under);
            let mut rest = below;
            out.append(&mut rest);
            i += 1;
        }
        proof {
            lemma_beneath_prefix_whole(self);
        }
        out
    }
}

/// What lies beneath the first `k` carriers of a protocol.
pub open spec fn beneath_prefix(p: Protocol, k: int) -> Seq<Protocol>
    decreases k,
{
    if k <= 0 {
        Seq::empty()
    } else {
        beneath_prefix(p, k - 1) + seq![carriers_of(p)[k - 1]] + beneath_of(carriers_of(p)[k - 1])
    }
}

proof fn lemma_carrier_is_lower(p: Protocol, i: int)
    requires
        0 <= i < carriers_of(p).len(),
    ensures
        depth(carriers_of(p)[i]) < depth(p),
{
}

proof fn lemma_beneath_prefix_whole(p: Protocol)
    ensures
        beneath_prefix(p, carriers_of(p).len() as int) == beneath_of(p),
{
    reveal_with_fuel(beneath_prefix, 3);
    reveal_with_fuel(beneath_of, 3);
    assert(beneath_prefix(p, carriers_of(p).len() as int) =~= beneath_of(p));
}

/// Everything beneath a protocol lies lower in the stack than the protocol itself, so the descent
/// always ends at the transport.
pub proof fn beneath_is_lower(p: Protocol)
    ensures
        forall|i: int| 0 <= i < beneath_of(p).len() ==> depth(#[trigger] beneath_of(p)[i]) < depth(p),
        carriers_of(p).len() > 0 <==> beneath_of(p).len() > 0,
{
    reveal_with_fuel(beneath_of, 3);
}

/// A rung: the question a detector answers. The question is the same on every transport, the
/// evidence is specific.
#[derive(Debug, Clone, Copy, PartialEq, Eq, Structural)]
pub enum Rung {
    /// Did it reach: the client got to the target and asked.
    Reached,
    /// Was it answered: the target responded with anything.
    Answered,
    /// Was it severed, and by whom.
    Severed,
    /// Is what came authentic.
    Authentic,
}

/// Where the evidence of a rung lies on a protocol; `None` where it does not exist.
pub open spec fn evidence_of(rung: Rung, protocol: Protocol) -> Option<Layer> {
    match rung {
        Rung::Reached | Rung::Answered => Some(Layer::Transport),
        Rung::Severed => match protocol {
            Protocol::Tcp => Some(Layer::Transport),
            _ => None,
        },
        Rung::Authentic => match protocol {
            Protocol::Http | Protocol::Dns => Some(Layer::Application),
            Protocol::Tls => Some(Layer::Session),
            _ => None,
        },
    }
}

impl Rung {
    /// Where the evidence of this rung lies on `protocol`; `None` — it does not exist (blind, not
    /// nothing).
    pub fn evidence(self, protocol: Protocol) -> (r: Option<Layer>)
        ensures
            r == evidence_of(self, protocol),
    {
        match self {
            Rung::Reached | Rung::Answered => Some(Layer::Transport),
            Rung::Severed => match protocol {
                Protocol::Tcp => Some(Layer::Transport),
                Protocol::Udp | Protocol::Quic | Protocol::Tls | Protocol::Http | Protocol::Dns => None,
            },
            Rung::Authentic => match protocol {
                Protocol::Http | Protocol::Dns => Some(Layer::Application),
                Protocol::Tls => Some(Layer::Session),
                Protocol::Tcp | Protocol::Udp | Protocol::Quic => None,
            },
        }
    }
}

/// A side of a conversation.
#[derive(Debug, Clone, Copy, PartialEq, Eq, Structural)]
pub enum Side {
    /// The one in the packet's source began.
    Source,
    /// The one in the packet's destination began.
    Destination,
}

/// The two sides of a packet: the input of the "who began" evidence.
pub struct Endpoints<'a> {
    pub src: [u8; 4],
    pub dst: [u8; 4],
    pub src_port: u16,
    pub dst_port: u16,
    /// Needed only by the top floor.
    pub payload: &'a [u8],
}

/// A private address: 10/8, 172.16/12, 192.168/16, and the carrier-grade 100.64/10.
pub open spec fn private_addr(a: [u8; 4]) -> bool {
    ||| a@[0] == 10
    ||| a@[0] == 172 && 16 <= a@[1] < 32
    ||| a@[0] == 192 && a@[1] == 168
    ||| a@[0] == 100 && 64 <= a@[1] < 128
}

/// The well-known server ports.
pub open spec fn server_ports() -> Seq<u16> {
    seq![53u16, 80, 123, 443, 853, 3478, 5349, 8080, 8443]
}

/// Whether a port is a known server port.
pub open spec fn known_port(port: u16) -> bool {
    server_ports().contains(port)
}

/// The client's QUIC `Initial`: a long header and padding to 1200 bytes.
pub open spec fn client_initial(payload: Seq<u8>) -> bool {
    payload.len() >= 1200 && payload[0] & 0x80 != 0
}

/// Who began, on the lowest floor that discriminates: address, then port, then content.
pub open spec fn initiator_of(src: [u8; 4], dst: [u8; 4], src_port: u16, dst_port: u16, payload: Seq<u8>) -> Option<(Side, Layer)> {
    if private_addr(src) && !private_addr(dst) {
        Some((Side::Source, Layer::Network))
    } else if !private_addr(src) && private_addr(dst) {
        Some((Side::Destination, Layer::Network))
    } else if !known_port(src_port) && known_port(dst_port) {
        Some((Side::Source, Layer::Transport))
    } else if known_port(src_port) && !known_port(dst_port) {
        Some((Side::Destination, Layer::Transport))
    } else if client_initial(payload) {
        Some((Side::Source, Layer::Session))
    } else {
        None
    }
}

fn private(a: [u8; 4]) -> (r: bool)
    ensures
        r == private_addr(a),
{
    let first = a[0];
    let second = a[1];
    first == 10 || (first == 172 && 16 <= second && second < 32) || (first == 192 && second == 168)
        || (first == 100 && 64 <= second && second < 128)
}

fn known(port: u16) -> (r: bool)
    ensures
        r == known_port(port),
{
    let ports: [u16; 9] = [53, 80, 123, 443, 853, 3478, 5349, 8080, 8443];
    assert(ports@ =~= server_ports());
    let mut i: usize = 0;
    while i < 9
        invariant
            i <= 9,
            ports@ == server_ports(),
            forall|j: int| 0 <= j < i ==> ports@[j] != port,
        decreases 9 - i,
    {
        if ports[i] == port {
            assert(server_ports()[i as int] == port);
            return true;
        }
        i += 1;
    }
    assert(!server_ports().contains(port));
    false
}

/// Who began the conversation: the evidence on the lowest level that discriminates. `None` — nothing
/// discriminates (blind): more honest than a conversation with directions turned over.
pub fn initiator(ends: &Endpoints) -> (r: Option<(Side, Layer)>)
    ensures
        r == initiator_of(ends.src, ends.dst, ends.src_port, ends.dst_port, ends.payload@),
{
    let src_private = private(ends.src);
    let dst_private = private(ends.dst);
    if src_private && !dst_private {
        return Some((Side::Source, Layer::Network));
    }
    if !src_private && dst_private {
        return Some((Side::Destination, Layer::Network));
    }
    let src_known = known(ends.src_port);
    let dst_known = known(ends.dst_port);
    if !src_known && dst_known {
        return Some((Side::Source, Layer::Transport));
    }
    if src_known && !dst_known {
        return Some((Side::Destination, Layer::Transport));
    }
    let long_header = ends.payload.len() > 0 && ends.payload[0] & 0x80 != 0;
    if long_header && ends.payload.len() >= 1200 {
        Some((Side::Source, Layer::Session))
    } else {
        None
    }
}

/// The lowest floor answers first: whenever exactly one side is private, the address floor answers,
/// whatever the ports and the content would say.
pub proof fn lowest_floor_wins(src: [u8; 4], dst: [u8; 4], src_port: u16, dst_port: u16, payload: Seq<u8>)
    requires
        private_addr(src) != private_addr(dst),
    ensures
        initiator_of(src, dst, src_port, dst_port, payload) matches Some((_, layer)) && layer == Layer::Network,
{
}

/// Swapping the two sides of a packet swaps the answer on the address and port floors: the ladder
/// names the side that began, not a position in the packet.
pub proof fn initiator_is_symmetric(src: [u8; 4], dst: [u8; 4], src_port: u16, dst_port: u16, payload: Seq<u8>)
    requires
        private_addr(src) != private_addr(dst) || known_port(src_port) != known_port(dst_port),
    ensures
        ({
            let there = initiator_of(src, dst, src_port, dst_port, payload);
            let back = initiator_of(dst, src, dst_port, src_port, payload);
            there matches Some((side, layer)) && back matches Some((other, layer2)) && layer == layer2
                && side != other
        }),
{
}

/// A source in a private block (10/8, 172.16/12, 192.168/16, 100.64/10) talking to a destination
/// outside all of them began the conversation, by the address floor; seen from the other side, the
/// destination began.
pub proof fn a_private_source_began(src: [u8; 4], dst: [u8; 4], src_port: u16, dst_port: u16, payload: Seq<u8>)
    requires
        src[0] == 10 || (src[0] == 172 && 16 <= src[1] < 32) || (src[0] == 192 && src[1] == 168)
            || (src[0] == 100 && 64 <= src[1] < 128),
        dst[0] != 10 && dst[0] != 172 && dst[0] != 192 && dst[0] != 100,
    ensures
        initiator_of(src, dst, src_port, dst_port, payload) == Some((Side::Source, Layer::Network)),
        initiator_of(dst, src, dst_port, src_port, payload) == Some((Side::Destination, Layer::Network)),
{
}

/// Whether a passport agrees with the table of evidence: an instrument that declares a rung stands
/// where its evidence lies, on every protocol it names, and names at least one.
pub open spec fn holds(rung: Option<Rung>, protocols: Seq<Protocol>, layer: Layer) -> bool {
    match rung {
        None => true,
        Some(rung) => protocols.len() > 0 && forall|i: int| 0 <= i < protocols.len()
            ==> evidence_of(rung, #[trigger] protocols[i]) == Some(layer),
    }
}

/// Whether a passport agrees with the table of evidence.
pub fn passport_holds(rung: Option<Rung>, protocols: &[Protocol], layer: Layer) -> (r: bool)
    ensures
        r == holds(rung, protocols@, layer),
{
    let asked = match rung {
        None => return true,
        Some(asked) => asked,
    };
    if protocols.len() == 0 {
        return false;
    }
    let mut i: usize = 0;
    while i < protocols.len()
        invariant
            i <= protocols@.len(),
            protocols@.len() > 0,
            rung == Some(asked),
            forall|j: int| 0 <= j < i ==> evidence_of(asked, #[trigger] protocols@[j]) == Some(layer),
        decreases protocols@.len() - i,
    {
        match asked.evidence(protocols[i]) {
            None => {
                assert(evidence_of(asked, protocols@[i as int]) != Some(layer));
                return false;
            },
            Some(where_it_lies) => {
                if !where_it_lies.same(layer) {
                    assert(evidence_of(asked, protocols@[i as int]) != Some(layer));
                    return false;
                }
            },
        }
        i += 1;
    }
    true
}

/// The declared half of a passport.
#[derive(Debug, Clone, Copy)]
pub struct Sheet {
    /// The public name of the instrument; its readings are signed with it.
    pub instrument: &'static str,
    /// What it speaks about.
    pub subject: Subject,
    /// The level it stands at; it sees evidence at levels `≤ layer`.
    pub layer: Layer,
    /// The protocols on which its evidence lives; empty — no evidence on the wire.
    pub protocols: &'static [Protocol],
    /// The path of its type.
    pub type_path: &'static str,
    /// The question it answers; `None` — not a rung detector.
    pub rung: Option<Rung>,
    /// What makes it speak.
    pub cadence: Cadence,
    /// The form of its output.
    pub shape: Shape,
    /// What it says when there is nothing to say; `None` — the passport is incomplete.
    pub silence: Option<Silence>,
    /// How it lies: known modes of lying, each paid for by an observation.
    pub lies: &'static [&'static str],
    /// Names of the stand's scenarios that check it another way.
    pub oracles: &'static [&'static str],
    /// The condition of its death.
    pub death: &'static str,
    /// The public names of its events.
    pub events: &'static [&'static str],
}

/// An instrument's passport. Every instrument proves that its sheet agrees with the table of
/// evidence.
pub trait Instrument {
    /// What the instrument speaks about, one at a time.
    type Signal;

    /// The public name of the instrument; its readings are signed with it.
    spec fn public_name() -> Seq<char>;

    /// The declared half of the passport.
    fn sheet() -> (r: Sheet)
        ensures
            r.instrument@ == Self::public_name(),
            holds(r.rung, r.protocols@, r.layer);

    /// What a reading is called in the public circle.
    fn name(signal: &Self::Signal) -> &'static str;

    /// Whether the reading demands attention.
    fn alarming(signal: &Self::Signal) -> bool;

    /// Whom the reading is about, where the instrument knows.
    fn about(signal: &Self::Signal) -> (r: Option<String>)
        default_ensures
            r is None,
    {
        None
    }

    /// The quantity of the reading in a person's units; empty — the reading is the event itself.
    fn detail(signal: &Self::Signal) -> (r: String)
        default_ensures
            r@ == Seq::<char>::empty(),
    {
        String::new()
    }
}

} // verus!
