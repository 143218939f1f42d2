//! Label schemas and label values of the network metrics.
//!
//! The metrics themselves live in the process-wide prometheus registry; this
//! module decides under which label values each observation is recorded.
use vstd::prelude::*;

verus! {

/// The view of each string of a sequence.
pub open spec fn str_views<'a>(strs: Seq<&'a str>) -> Seq<Seq<char>> {
    strs.map_values(|s: &'a str| s@)
}

/// The view of each string of a sequence of owned strings.
pub open spec fn string_views(strs: Seq<String>) -> Seq<Seq<char>> {
    strs.map_values(|s: String| s@)
}

/// A schema of the labels of a gauge vector.
pub trait Labels {
    /// Names of the labels, in order.
    spec fn label_names() -> Seq<Seq<char>>;

    /// Names of the gauge vector labels.
    fn names() -> (names: Vec<&'static str>)
        ensures
            str_views(names@) == Self::label_names(),
    ;

    /// The label values of `self`, one for each name.
    fn values(&self) -> (values: Vec<&'static str>)
        ensures
            values@.len() == Self::label_names().len(),
    ;
}

/// The network tier a connection belongs to.
#[derive(Clone, Copy, Debug, Hash, PartialEq, Eq, Structural)]
pub enum Tier {
    /// Connections between validators and their proxies.
    T1,
    /// Regular peer-to-peer connections.
    T2,
    /// Direct connections made to serve a single request.
    T3,
}

/// The label of a tier: the name of its variant.
pub open spec fn tier_label(tier: Tier) -> Seq<char> {
    match tier {
        Tier::T1 => "T1"@,
        Tier::T2 => "T2"@,
        Tier::T3 => "T3"@,
    }
}

impl Tier {
    /// The label of the tier, as metrics record it.
    pub fn as_str(self) -> (s: &'static str)
        ensures
            s@ == tier_label(self),
    {
        match self {
            Tier::T1 => "T1",
            Tier::T2 => "T2",
            Tier::T3 => "T3",
        }
    }
}

/// Who opened a connection.
#[derive(Clone, Copy, Debug, Hash, PartialEq, Eq, Structural)]
pub enum PeerType {
    /// The peer connected to us.
    Inbound,
    /// We connected to the peer.
    Outbound,
}

/// The label of a peer type: the name of its variant.
pub open spec fn peer_type_label(peer_type: PeerType) -> Seq<char> {
    match peer_type {
        PeerType::Inbound => "Inbound"@,
        PeerType::Outbound => "Outbound"@,
    }
}

impl PeerType {
    /// The label of the peer type, as metrics record it.
    pub fn as_str(self) -> (s: &'static str)
        ensures
            s@ == peer_type_label(self),
    {
        match self {
            PeerType::Inbound => "Inbound",
            PeerType::Outbound => "Outbound",
        }
    }
}

/// The encoding of the messages of a connection.
#[derive(Clone, Copy, Debug, Hash, PartialEq, Eq, Structural)]
pub enum Encoding {
    Borsh,
    Proto,
}

/// The label of an encoding: the name of its variant.
pub open spec fn encoding_label(encoding: Encoding) -> Seq<char> {
    match encoding {
        Encoding::Borsh => "Borsh"@,
        Encoding::Proto => "Proto"@,
    }
}

impl Encoding {
    /// The label of the encoding, as metrics record it.
    pub fn as_str(self) -> (s: &'static str)
        ensures
            s@ == encoding_label(self),
    {
        match self {
            Encoding::Borsh => "Borsh",
            Encoding::Proto => "Proto",
        }
    }
}

/// A connection to a peer, as the gauge of connected peers counts it.
#[derive(Clone, Copy, Debug, PartialEq, Eq, Structural)]
pub struct Connection {
    pub tier: Tier,
    pub type_: PeerType,
    pub encoding: Option<Encoding>,
}

/// The label values of a connection: its tier, its peer type and its
/// encoding, or `unknown` where the encoding is not known yet.
pub open spec fn connection_label_values(c: Connection) -> Seq<Seq<char>> {
    seq![
        tier_label(c.tier),
        peer_type_label(c.type_),
        match c.encoding {
            Some(e) => encoding_label(e),
            None => "unknown"@,
        },
    ]
}

impl Labels for Connection {
    open spec fn label_names() -> Seq<Seq<char>> {
        seq!["tier"@, "peer_type"@, "encoding"@]
    }

    fn names() -> (names: Vec<&'static str>) {
        let names: Vec<&'static str> = vec!["tier", "peer_type", "encoding"];
        assert(str_views(names@) =~= Self::label_names());
        names
    }

    fn values(&self) -> (values: Vec<&'static str>)
        ensures
            str_views(values@) == connection_label_values(*self),
            values@.len() == 3,
            values@[0]@ == tier_label(self.tier),
            values@[1]@ == peer_type_label(self.type_),
            self.encoding == Some(Encoding::Borsh) ==> values@[2]@ == "Borsh"@,
            self.encoding == Some(Encoding::Proto) ==> values@[2]@ == "Proto"@,
            self.encoding.is_none() ==> values@[2]@ == "unknown"@,
    {
        let encoding: &'static str = match self.encoding {
            Some(e) => e.as_str(),
            None => "unknown",
        };
        let values: Vec<&'static str> = vec![self.tier.as_str(), self.type_.as_str(), encoding];
        assert(str_views(values@) =~= connection_label_values(*self));
        values
    }
}

/// The label values of a connection name its tier, its peer type and its
/// encoding: `T1`/`T2`/`T3`, `Inbound`/`Outbound`, and `Borsh` or `Proto`
/// where the encoding is known, `unknown` only where it is not. Distinct
/// encodings, and a known and an unknown one, get distinct labels.
pub proof fn lemma_connection_label_values(c: Connection)
    ensures
        connection_label_values(c).len() == 3,
        c.tier == Tier::T1 ==> connection_label_values(c)[0] == "T1"@,
        c.tier == Tier::T2 ==> connection_label_values(c)[0] == "T2"@,
        c.tier == Tier::T3 ==> connection_label_values(c)[0] == "T3"@,
        c.type_ == PeerType::Inbound ==> connection_label_values(c)[1] == "Inbound"@,
        c.type_ == PeerType::Outbound ==> connection_label_values(c)[1] == "Outbound"@,
        c.encoding == Some(Encoding::Borsh) ==> connection_label_values(c)[2] == "Borsh"@,
        c.encoding == Some(Encoding::Proto) ==> connection_label_values(c)[2] == "Proto"@,
        c.encoding.is_none() ==> connection_label_values(c)[2] == "unknown"@,
        forall|d: Connection|
            #![trigger connection_label_values(d)]
            connection_label_values(c)[2] == connection_label_values(d)[2] ==> c.encoding
                == d.encoding,
{
    reveal_strlit("Borsh");
    reveal_strlit("Proto");
    reveal_strlit("unknown");
    assert forall|d: Connection|
        #![trigger connection_label_values(d)]
        connection_label_values(c)[2] == connection_label_values(d)[2] implies c.encoding
        == d.encoding by {
        let x = connection_label_values(c)[2];
        let y = connection_label_values(d)[2];
        if c.encoding != d.encoding {
            assert(x[0] != y[0] || x.len() != y.len());
        }
    }
}

/// The label of a boolean.
pub open spec fn bool_label(b: bool) -> Seq<char> {
    if b {
        "true"@
    } else {
        "false"@
    }
}

/// The label of a boolean: `true` or `false`.
pub fn bool_to_str(b: bool) -> (s: &'static str)
    ensures
        s@ == bool_label(b),
{
    match b {
        true => "true",
        false => "false",
    }
}

/// Each label names its value: the tiers `T1`, `T2`, `T3`, the peer types
/// `Inbound` and `Outbound`, the encodings `Borsh` and `Proto`, and the
/// booleans `true` and `false`.
pub proof fn lemma_variant_labels()
    ensures
        tier_label(Tier::T1) == "T1"@,
        tier_label(Tier::T2) == "T2"@,
        tier_label(Tier::T3) == "T3"@,
        peer_type_label(PeerType::Inbound) == "Inbound"@,
        peer_type_label(PeerType::Outbound) == "Outbound"@,
        encoding_label(Encoding::Borsh) == "Borsh"@,
        encoding_label(Encoding::Proto) == "Proto"@,
        bool_label(true) == "true"@,
        bool_label(false) == "false"@,
{
}

/// Distinct booleans have distinct labels.
pub proof fn lemma_bool_label_injective(a: bool, b: bool)
    ensures
        bool_label(a) == bool_label(b) <==> a == b,
{
    reveal_strlit("true");
    reveal_strlit("false");
    if a != b {
        assert(bool_label(true)[0] != bool_label(false)[0]);
    }
}

/// The labels under which the latency of a routed message that reached its
/// destination is observed: the message body variant, the tier of the
/// connection it arrived on, and whether it was the first copy to arrive.
/// The observation itself, which needs the clock and the creation time of the
/// message, is made by the caller.
pub fn record_routed_msg_latency<'a>(body_variant: &'a str, tier: Tier, fastest: bool) -> (labels:
    Vec<&'a str>)
    ensures
        str_views(labels@) == seq![body_variant@, tier_label(tier), bool_label(fastest)],
{
    let labels: Vec<&'a str> = vec![body_variant, tier.as_str(), bool_to_str(fastest)];
    assert(str_views(labels@) =~= seq![body_variant@, tier_label(tier), bool_label(fastest)]);
    labels
}

/// Hop counts above this are recorded as this many hops, which keeps the
/// number of label values small.
pub const MAX_NUM_HOPS: u32 = 20;

/// The character of a decimal digit.
pub open spec fn digit_char(d: nat) -> char {
    (d + 48) as char
}

/// The decimal digits of `n`, most significant first, without leading zeros.
pub open spec fn decimal(n: nat) -> Seq<char>
    decreases n,
{
    if n < 10 {
        seq![digit_char(n)]
    } else {
        decimal(n / 10).push(digit_char(n % 10))
    }
}

/// `ToString::to_string` of a `u32`: its `Display` writes the decimal digits
/// of the number, without sign or padding.
#[verifier::external_body]
fn u32_to_decimal_string(n: u32) -> (s: String)
    ensures
        s@ == decimal(n as nat),
{
    n.to_string()
}

/// The number that a string of decimal digits, most significant first, spells.
pub open spec fn decimal_value(s: Seq<char>) -> int
    decreases s.len(),
{
    if s.len() == 0 {
        0
    } else {
        decimal_value(s.drop_last()) * 10 + (s.last() as int - 48)
    }
}

/// Whether a character is one of the digits `0` to `9`.
pub open spec fn is_digit(c: char) -> bool {
    48 <= c as int <= 57
}

/// `decimal(n)` is a nonempty string of digits without a leading zero (but
/// for `0` itself) that spells `n`; so distinct numbers get distinct strings.
pub proof fn lemma_decimal_round_trip(n: nat)
    ensures
        decimal(n).len() > 0,
        forall|i: int| 0 <= i < decimal(n).len() ==> is_digit(#[trigger] decimal(n)[i]),
        decimal(n)[0] == '0' ==> n == 0,
        decimal_value(decimal(n)) == n,
    decreases n,
{
    if n < 10 {
        assert(decimal(n) =~= seq![digit_char(n)]);
        assert(decimal(n).drop_last() =~= Seq::<char>::empty());
        assert(decimal_value(Seq::<char>::empty()) == 0);
        assert(decimal(n).last() as int == n + 48);
    } else {
        lemma_decimal_round_trip(n / 10);
        let s = decimal(n);
        assert(s.drop_last() =~= decimal(n / 10));
        assert(s[0] == decimal(n / 10)[0]);
        assert(n == (n / 10) * 10 + n % 10);
        assert(s.last() == digit_char(n % 10));
        assert(s.last() as int == n % 10 + 48);
        assert(decimal_value(s) == decimal_value(decimal(n / 10)) * 10 + (n % 10));
    }
}

/// Distinct numbers have distinct decimal strings.
pub proof fn lemma_decimal_injective(m: nat, n: nat)
    ensures
        decimal(m) == decimal(n) <==> m == n,
{
    lemma_decimal_round_trip(m);
    lemma_decimal_round_trip(n);
}

/// The number of hops a routed message is recorded with: its hop count,
/// capped at `MAX_NUM_HOPS`.
pub open spec fn recorded_hops(num_hops: u32) -> nat {
    if num_hops <= MAX_NUM_HOPS {
        num_hops as nat
    } else {
        MAX_NUM_HOPS as nat
    }
}

/// The hop count recorded is the smaller of the actual count and
/// `MAX_NUM_HOPS`: counts up to 20 are kept as they are, larger ones become
/// 20, and recording never raises a count.
pub proof fn lemma_recorded_hops_is_capped_count(num_hops: u32)
    ensures
        num_hops <= 20 ==> recorded_hops(num_hops) == num_hops,
        num_hops > 20 ==> recorded_hops(num_hops) == 20,
        recorded_hops(num_hops) <= num_hops,
        recorded_hops(num_hops) <= 20,
        forall|m: u32| m <= num_hops ==> #[trigger] recorded_hops(m) <= recorded_hops(num_hops),
{
}

/// The labels under which a routed message that reached its destination is
/// counted by its number of hops: its body variant and its hop count in
/// decimal, capped at `MAX_NUM_HOPS`.
pub fn record_routed_msg_hops(body_variant: &str, num_hops: u32) -> (labels: Vec<String>)
    ensures
        string_views(labels@) == seq![body_variant@, decimal(recorded_hops(num_hops))],
        labels@.len() == 2,
        labels@[0]@ == body_variant@,
        num_hops <= MAX_NUM_HOPS ==> labels@[1]@ == decimal(num_hops as nat),
        num_hops > MAX_NUM_HOPS ==> labels@[1]@ == decimal(20),
        decimal_value(labels@[1]@) == if num_hops <= 20 {
            num_hops as int
        } else {
            20
        },
{
    let hops: u32 = if num_hops < MAX_NUM_HOPS {
        num_hops
    } else {
        MAX_NUM_HOPS
    };
    proof {
        lemma_decimal_round_trip(hops as nat);
    }
    let variant: String = body_variant.to_owned();
    let labels: Vec<String> = vec![variant, u32_to_decimal_string(hops)];
    assert(string_views(labels@) =~= seq![body_variant@, decimal(recorded_hops(num_hops))]);
    labels
}

/// Why a routed message was dropped.
#[derive(Clone, Copy, Debug, Hash, PartialEq, Eq, Structural)]
pub enum MessageDropped {
    NoRouteFound,
    UnknownAccount,
    InputTooLong,
    MaxCapacityExceeded,
    TransactionsPerBlockExceeded,
    Duplicate,
}

/// The label of a reason: the name of its variant.
pub open spec fn dropped_label(reason: MessageDropped) -> Seq<char> {
    match reason {
        MessageDropped::NoRouteFound => "NoRouteFound"@,
        MessageDropped::UnknownAccount => "UnknownAccount"@,
        MessageDropped::InputTooLong => "InputTooLong"@,
        MessageDropped::MaxCapacityExceeded => "MaxCapacityExceeded"@,
        MessageDropped::TransactionsPerBlockExceeded => "TransactionsPerBlockExceeded"@,
        MessageDropped::Duplicate => "Duplicate"@,
    }
}

impl MessageDropped {
    /// The label of the reason, as metrics record it.
    pub fn as_str(self) -> (s: &'static str)
        ensures
            s@ == dropped_label(self),
    {
        match self {
            MessageDropped::NoRouteFound => "NoRouteFound",
            MessageDropped::UnknownAccount => "UnknownAccount",
            MessageDropped::InputTooLong => "InputTooLong",
            MessageDropped::MaxCapacityExceeded => "MaxCapacityExceeded",
            MessageDropped::TransactionsPerBlockExceeded => "TransactionsPerBlockExceeded",
            MessageDropped::Duplicate => "Duplicate",
        }
    }

    /// The labels under which a dropped routed message is counted: the
    /// variant of its body, then the reason.
    pub fn inc(self, msg_body_variant: &'static str) -> (labels: Vec<&'static str>)
        ensures
            str_views(labels@) == seq![msg_body_variant@, dropped_label(self)],
    {
        self.inc_msg_type(msg_body_variant)
    }

    /// The labels under which a dropped message of unknown type is counted:
    /// `unknown`, then the reason.
    pub fn inc_unknown_msg(self) -> (labels: Vec<&'static str>)
        ensures
            str_views(labels@) == seq!["unknown"@, dropped_label(self)],
    {
        self.inc_msg_type("unknown")
    }

    /// The labels under which a dropped message of type `msg_type` is
    /// counted: the type, then the reason.
    pub fn inc_msg_type<'a>(self, msg_type: &'a str) -> (labels: Vec<&'a str>)
        ensures
            str_views(labels@) == seq![msg_type@, dropped_label(self)],
    {
        let reason: &'a str = self.as_str();
        let labels: Vec<&'a str> = vec![msg_type, reason];
        assert(str_views(labels@) =~= seq![msg_type@, dropped_label(self)]);
        labels
    }
}

/// Each reason is labelled by the name of its variant.
pub proof fn lemma_dropped_labels()
    ensures
        dropped_label(MessageDropped::NoRouteFound) == "NoRouteFound"@,
        dropped_label(MessageDropped::UnknownAccount) == "UnknownAccount"@,
        dropped_label(MessageDropped::InputTooLong) == "InputTooLong"@,
        dropped_label(MessageDropped::MaxCapacityExceeded) == "MaxCapacityExceeded"@,
        dropped_label(MessageDropped::TransactionsPerBlockExceeded)
            == "TransactionsPerBlockExceeded"@,
        dropped_label(MessageDropped::Duplicate) == "Duplicate"@,
{
}

/// Distinct reasons have distinct labels, so the counts of the reasons stay
/// apart.
pub proof fn lemma_dropped_label_injective(a: MessageDropped, b: MessageDropped)
    ensures
        dropped_label(a) == dropped_label(b) <==> a == b,
{
    reveal_strlit("NoRouteFound");
    reveal_strlit("UnknownAccount");
    reveal_strlit("InputTooLong");
    reveal_strlit("MaxCapacityExceeded");
    reveal_strlit("TransactionsPerBlockExceeded");
    reveal_strlit("Duplicate");
    if a != b {
        assert(dropped_label(a)[0] != dropped_label(b)[0] || dropped_label(a).len()
            != dropped_label(b).len() || dropped_label(a)[1] != dropped_label(b)[1]);
    }
}

} // verus!
