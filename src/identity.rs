//! Deterministic display identity of a client, derived from its address.
use vstd::prelude::*;

verus! {

/// The host part of a client's network address, as its octets.
#[derive(Clone, Copy, Debug, PartialEq, Eq)]
pub enum IpAddress {
    V4([u8; 4]),
    V6([u8; 16]),
}

/// A client's network address: host and port.
#[derive(Clone, Copy, Debug, PartialEq, Eq)]
pub struct ClientAddr {
    pub ip: IpAddress,
    pub port: u16,
}

/// A display color; each channel lies below `CHANNEL_BOUND`.
#[derive(Clone, Copy, Debug, PartialEq, Eq)]
pub struct Color {
    pub r: u8,
    pub g: u8,
    pub b: u8,
}

/// Channels are capped below this value, so that no color is near-white.
pub const CHANNEL_BOUND: u8 = 200;

/// The sum of a sequence of octets.
pub open spec fn octet_sum(s: Seq<u8>) -> nat
    decreases s.len(),
{
    if s.len() == 0 {
        0
    } else {
        octet_sum(s.drop_last()) + s.last() as nat
    }
}

pub open spec fn ip_octets(ip: IpAddress) -> Seq<u8> {
    match ip {
        IpAddress::V4(o) => o@,
        IpAddress::V6(o) => o@,
    }
}

/// The generator seed of an address: its host octets and its port, summed.
pub open spec fn seed_of(addr: ClientAddr) -> nat {
    octet_sum(ip_octets(addr.ip)) + addr.port as nat
}

/// What fastrand's `Rng::u8(..bound)` returns from a generator whose state is
/// `state`, together with the generator's state afterwards.
pub uninterp spec fn u8_draw(state: u64, bound: u8) -> (u8, u64);

/// The color of an address: three draws below `CHANNEL_BOUND`, in the order
/// red, green, blue, from a generator seeded with `seed_of(addr)`.
pub open spec fn color_of(addr: ClientAddr) -> Color {
    let d1 = u8_draw(seed_of(addr) as u64, CHANNEL_BOUND);
    let d2 = u8_draw(d1.1, CHANNEL_BOUND);
    let d3 = u8_draw(d2.1, CHANNEL_BOUND);
    Color { r: d1.0, g: d2.0, b: d3.0 }
}

/// Relies on fastrand's `Rng::with_seed`, `Rng::u8` and `Rng::get_seed`: a
/// generator is its `u64` state, `with_seed` sets that state, `get_seed` reads
/// it, and `u8(..bound)` returns a value below `bound` that, like the state it
/// leaves, depends on the state and `bound` alone. It panics on an empty range.
#[verifier::external_body]
fn draw_u8_below(state: u64, bound: u8) -> (r: (u8, u64))
    requires
        0 < bound,
    ensures
        r == u8_draw(state, bound),
        r.0 < bound,
{
    let mut rng = fastrand::Rng::with_seed(state);
    let v = rng.u8(..bound);
    (v, rng.get_seed())
}

proof fn lemma_octet_sum_bound(s: Seq<u8>)
    ensures
        octet_sum(s) <= 255 * s.len(),
    decreases s.len(),
{
    if s.len() > 0 {
        lemma_octet_sum_bound(s.drop_last());
    }
}

/// Sums a slice of octets.
pub fn sum_octets(octets: &[u8]) -> (r: u64)
    requires
        octets@.len() <= 16,
    ensures
        r == octet_sum(octets@),
        r <= 255 * octets@.len(),
{
    let mut total: u64 = 0;
    let mut i: usize = 0;
    while i < octets.len()
        invariant
            i <= octets@.len() <= 16,
            total == octet_sum(octets@.subrange(0, i as int)),
        decreases octets@.len() - i,
    {
        proof {
            let s = octets@.subrange(0, i as int + 1);
            assert(s.drop_last() =~= octets@.subrange(0, i as int));
            lemma_octet_sum_bound(octets@.subrange(0, i as int));
        }
        total = total + octets[i] as u64;
        i = i + 1;
    }
    assert(octets@.subrange(0, i as int) =~= octets@);
    proof {
        lemma_octet_sum_bound(octets@);
    }
    total
}

impl ClientAddr {
    /// The seed of this address's generator.
    pub fn seed(&self) -> (r: u64)
        ensures
            r == seed_of(*self),
    {
        let host = match &self.ip {
            IpAddress::V4(o) => sum_octets(o.as_slice()),
            IpAddress::V6(o) => sum_octets(o.as_slice()),
        };
        host + self.port as u64
    }
}

/// The display color of a client: a pure function of its address.
pub fn derive_color(addr: &ClientAddr) -> (c: Color)
    ensures
        c == color_of(*addr),
        c.r < CHANNEL_BOUND,
        c.g < CHANNEL_BOUND,
        c.b < CHANNEL_BOUND,
{
    let seed = addr.seed();
    let (r, s1) = draw_u8_below(seed, CHANNEL_BOUND);
    let (g, s2) = draw_u8_below(s1, CHANNEL_BOUND);
    let (b, _) = draw_u8_below(s2, CHANNEL_BOUND);
    Color { r, g, b }
}

/// The color of an address is determined by the address: equal addresses
/// get equal colors, in every call.
pub proof fn lemma_color_deterministic(a: ClientAddr, b: ClientAddr)
    requires
        a == b,
    ensures
        color_of(a) == color_of(b),
{
}

} // verus!
