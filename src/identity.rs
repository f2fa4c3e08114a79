use vstd::prelude::*;
use vstd::utf8::{encode_utf8, is_ascii_chars, is_ascii_chars_encode_utf8};
use crate::bounded::{ssid_bytes, ssid_new, ssid_push_str};

verus! {

/// Every node name starts with this prefix.
pub const IDENTITY_PREFIX: &'static str = "esp-m-";

/// The seed is reduced below this bound before its digits are written.
pub const SUFFIX_BOUND: u32 = 999_999_999;

/// Number of decimal digits after the prefix.
pub const SUFFIX_DIGITS: u32 = 9;

/// Number of radio channels a node picks from: channels `0..CHANNEL_COUNT`.
pub const CHANNEL_COUNT: u32 = 13;

pub open spec fn digit_char(d: nat) -> char {
    if d == 0 { '0' }
    else if d == 1 { '1' }
    else if d == 2 { '2' }
    else if d == 3 { '3' }
    else if d == 4 { '4' }
    else if d == 5 { '5' }
    else if d == 6 { '6' }
    else if d == 7 { '7' }
    else if d == 8 { '8' }
    else { '9' }
}

/// The lowest `k` decimal digits of `n`, least significant first.
pub open spec fn digits_low_first(n: nat, k: nat) -> Seq<char>
    decreases k,
{
    if k == 0 {
        Seq::empty()
    } else {
        seq![digit_char(n % 10)] + digits_low_first(n / 10, (k - 1) as nat)
    }
}

proof fn lemma_digits_ascii(n: nat, k: nat)
    ensures
        is_ascii_chars(digits_low_first(n, k)),
        digits_low_first(n, k).len() == k,
    decreases k,
{
    if k > 0 {
        lemma_digits_ascii(n / 10, (k - 1) as nat);
        let rest = digits_low_first(n / 10, (k - 1) as nat);
        let s = digits_low_first(n, k);
        assert forall|i: int| 0 <= i < s.len() implies '\0' <= #[trigger] s[i] <= '\u{7f}' by {
            if i > 0 {
                assert(s[i] == rest[i - 1]);
            }
        }
    }
}

/// A node name is plain ASCII, so its encoding has one byte per character.
pub proof fn lemma_identity_name_ascii(suffix: nat)
    ensures
        is_ascii_chars(identity_name(suffix)),
        encode_utf8(identity_name(suffix)).len() == 15,
{
    reveal_strlit("esp-m-");
    lemma_digits_ascii(suffix, SUFFIX_DIGITS as nat);
    let p = IDENTITY_PREFIX@;
    let d = digits_low_first(suffix, SUFFIX_DIGITS as nat);
    let s = identity_name(suffix);
    assert forall|i: int| 0 <= i < s.len() implies '\0' <= #[trigger] s[i] <= '\u{7f}' by {
        if i >= p.len() {
            assert(s[i] == d[i - p.len()]);
        }
    }
    is_ascii_chars_encode_utf8(s);
}

/// The broadcast name of a node whose suffix is `suffix`.
pub open spec fn identity_name(suffix: nat) -> Seq<char> {
    IDENTITY_PREFIX@ + digits_low_first(suffix, SUFFIX_DIGITS as nat)
}

/// This node's identity for the whole boot session, drawn once from a random seed.
#[derive(Copy, Clone, Debug, PartialEq, Eq, Structural)]
pub struct NodeIdentity {
    suffix: u32,
}

impl NodeIdentity {
    pub closed spec fn suffix_spec(&self) -> nat {
        self.suffix as nat
    }

    pub open spec fn wf(&self) -> bool {
        self.suffix_spec() < SUFFIX_BOUND
    }

    /// Derives the identity from one random draw.
    pub fn from_seed(seed: u32) -> (r: NodeIdentity)
        ensures
            r.wf(),
            r.suffix_spec() == seed as nat % SUFFIX_BOUND as nat,
    {
        NodeIdentity { suffix: seed % SUFFIX_BOUND }
    }

    pub fn suffix(&self) -> (r: u32)
        ensures
            r as nat == self.suffix_spec(),
    {
        self.suffix
    }

    /// The name this node broadcasts as an access point.
    pub fn name(&self) -> (r: String)
        ensures
            r@ == identity_name(self.suffix_spec()),
            r@.len() == 15,
    {
        let mut r = String::from_str(IDENTITY_PREFIX);
        let mut cur: u32 = self.suffix;
        let mut i: u32 = 0;
        proof {
            reveal_strlit("esp-m-");
        }
        while i < SUFFIX_DIGITS
            invariant
                i <= SUFFIX_DIGITS,
                r@ + digits_low_first(cur as nat, (SUFFIX_DIGITS - i) as nat)
                    == identity_name(self.suffix as nat),
                r@.len() == 6 + i,
            decreases SUFFIX_DIGITS - i,
        {
            let ghost before = r@;
            r.append(digit_str(cur % 10));
            proof {
                let rest = digits_low_first((cur / 10) as nat, (SUFFIX_DIGITS - i - 1) as nat);
                assert(digits_low_first(cur as nat, (SUFFIX_DIGITS - i) as nat)
                    == seq![digit_char((cur % 10) as nat)] + rest);
                assert(before + (seq![digit_char((cur % 10) as nat)] + rest)
                    == r@ + rest);
            }
            cur = cur / 10;
            i = i + 1;
        }
        assert(digits_low_first(cur as nat, 0) =~= Seq::empty());
        assert(r@ + Seq::<char>::empty() =~= r@);
        r
    }
}

impl NodeIdentity {
    /// The name this node broadcasts, in the fixed-capacity form the radio
    /// configuration takes.
    pub fn broadcast_ssid(&self) -> (r: heapless::String<32>)
        ensures
            ssid_bytes(r) == encode_utf8(identity_name(self.suffix_spec())),
    {
        let name = self.name();
        let mut r = ssid_new();
        proof {
            lemma_identity_name_ascii(self.suffix_spec());
        }
        let _ = ssid_push_str(&mut r, name.as_str());
        assert(Seq::<u8>::empty() + encode_utf8(identity_name(self.suffix_spec()))
            =~= encode_utf8(identity_name(self.suffix_spec())));
        r
    }
}

/// The text of one decimal digit.
fn digit_str(d: u32) -> (r: &'static str)
    requires
        d < 10,
    ensures
        r@ == seq![digit_char(d as nat)],
{
    proof {
        reveal_strlit("0");
        reveal_strlit("1");
        reveal_strlit("2");
        reveal_strlit("3");
        reveal_strlit("4");
        reveal_strlit("5");
        reveal_strlit("6");
        reveal_strlit("7");
        reveal_strlit("8");
        reveal_strlit("9");
    }
    match d {
        0 => "0",
        1 => "1",
        2 => "2",
        3 => "3",
        4 => "4",
        5 => "5",
        6 => "6",
        7 => "7",
        8 => "8",
        _ => "9",
    }
}

/// The channel this node prefers, from one random draw: always below `CHANNEL_COUNT`.
pub fn channel_from_draw(draw: u32) -> (r: u8)
    ensures
        r as nat == draw as nat % CHANNEL_COUNT as nat,
        (r as nat) < CHANNEL_COUNT as nat,
{
    (draw % CHANNEL_COUNT) as u8
}

} // verus!
