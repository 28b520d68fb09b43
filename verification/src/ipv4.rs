//! IPv4 addresses and the local subnet that an access point hands out.

use vstd::prelude::*;
use vstd::arithmetic::power2::{pow2, lemma2_to64, lemma_pow2_strictly_increases, lemma_pow2_pos};
use vstd::bits::lemma_u64_shl_is_mul;
use crate::error::SetupError;

verus! {

/// An IPv4 address, first octet first.
#[derive(Clone, Copy, Debug, PartialEq, Eq, Hash)]
pub struct Ipv4Address {
    pub octets: [u8; 4],
}

/// The number that four octets spell, the first being the most significant.
pub open spec fn bits_of(octets: [u8; 4]) -> nat {
    (octets[0] as nat) * 16777216 + (octets[1] as nat) * 65536 + (octets[2] as nat) * 256
        + octets[3] as nat
}

/// How many addresses a subnet with the given prefix length spans.
pub open spec fn host_span(prefix_len: nat) -> nat
    recommends
        prefix_len <= 32,
{
    pow2((32 - prefix_len) as nat)
}

/// The first address of the block of `span` addresses that `bits` lies in.
pub open spec fn block_start(bits: nat, span: nat) -> nat
    recommends
        span > 0,
{
    (bits - bits % span) as nat
}

impl Ipv4Address {
    /// The address as one number below 2^32.
    pub open spec fn spec_bits(self) -> nat {
        bits_of(self.octets)
    }

    pub fn new(a: u8, b: u8, c: u8, d: u8) -> (addr: Ipv4Address)
        ensures
            addr.octets@ == seq![a, b, c, d],
    {
        let addr = Ipv4Address { octets: [a, b, c, d] };
        assert(addr.octets@ =~= seq![a, b, c, d]);
        addr
    }

    /// The address as one number.
    pub fn bits(self) -> (bits: u32)
        ensures
            bits == self.spec_bits(),
    {
        let a: u32 = self.octets[0] as u32;
        let b: u32 = self.octets[1] as u32;
        let c: u32 = self.octets[2] as u32;
        let d: u32 = self.octets[3] as u32;
        a * 16777216 + b * 65536 + c * 256 + d
    }

    /// The address that `bits` spells.
    pub fn from_bits(bits: u32) -> (addr: Ipv4Address)
        ensures
            addr.spec_bits() == bits,
    {
        let a: u8 = (bits / 16777216) as u8;
        let b: u8 = (bits / 65536 % 256) as u8;
        let c: u8 = (bits / 256 % 256) as u8;
        let d: u8 = (bits % 256) as u8;
        Ipv4Address { octets: [a, b, c, d] }
    }
}

/// The first address of the block of `span` addresses that `bits` lies in.
fn start_of_block(bits: u64, span: u64) -> (start: u64)
    requires
        span > 0,
    ensures
        start == block_start(bits as nat, span as nat),
        start <= bits,
{
    assert(0 <= bits % span <= bits) by (nonlinear_arith)
        requires
            span > 0,
    ;
    bits - bits % span
}

/// A local subnet: the gateway's address and the length of the network
/// prefix, which is at least 1 and at most 32.
#[derive(Clone, Copy, Debug, PartialEq, Eq, Hash)]
pub struct Subnet {
    gateway: Ipv4Address,
    prefix_len: u8,
}

impl Subnet {
    #[verifier::type_invariant]
    spec fn well_formed(self) -> bool {
        1 <= self.prefix_len <= 32
    }

    pub closed spec fn spec_gateway(self) -> Ipv4Address {
        self.gateway
    }

    pub closed spec fn spec_prefix_len(self) -> u8 {
        self.prefix_len
    }

    /// The subnet's first address as a number: the gateway's address with
    /// the host part cleared.
    pub open spec fn network_bits(self) -> nat {
        block_start(self.spec_gateway().spec_bits(), host_span(self.spec_prefix_len() as nat))
    }

    /// Whether `addr` lies in the subnet.
    pub open spec fn spec_contains(self, addr: Ipv4Address) -> bool {
        block_start(addr.spec_bits(), host_span(self.spec_prefix_len() as nat))
            == self.network_bits()
    }

    /// A subnet around `gateway`. A prefix length of 0 or above 32 is no
    /// configuration that an interface takes.
    pub fn new(gateway: Ipv4Address, prefix_len: u8) -> (result: Result<Subnet, SetupError>)
        ensures
            result is Ok <==> 1 <= prefix_len <= 32,
            result matches Ok(subnet) ==> subnet.spec_gateway() == gateway
                && subnet.spec_prefix_len() == prefix_len,
            result matches Err(e) ==> e == SetupError::NetworkConfig,
    {
        if 1 <= prefix_len && prefix_len <= 32 {
            Ok(Subnet { gateway, prefix_len })
        } else {
            Err(SetupError::NetworkConfig)
        }
    }

    #[verifier::when_used_as_spec(spec_gateway)]
    pub fn gateway(self) -> (addr: Ipv4Address)
        ensures
            addr == self.spec_gateway(),
    {
        self.gateway
    }

    #[verifier::when_used_as_spec(spec_prefix_len)]
    pub fn prefix_len(self) -> (len: u8)
        ensures
            len == self.spec_prefix_len(),
            1 <= len <= 32,
    {
        proof {
            use_type_invariant(self);
        }
        self.prefix_len
    }

    /// The number of addresses that the subnet spans.
    fn span(self) -> (span: u64)
        ensures
            span == host_span(self.spec_prefix_len() as nat),
            1 <= span <= 2147483648,
    {
        proof {
            use_type_invariant(self);
        }
        let shift: u64 = 32 - self.prefix_len as u64;
        proof {
            lemma2_to64();
            lemma_pow2_pos(shift as nat);
            if shift < 31 {
                lemma_pow2_strictly_increases(shift as nat, 31);
            }
            lemma_u64_shl_is_mul(1, shift);
        }
        1u64 << shift
    }

    /// The subnet's first address.
    pub fn network(self) -> (addr: Ipv4Address)
        ensures
            addr.spec_bits() == self.network_bits(),
    {
        let span: u64 = self.span();
        let start: u64 = start_of_block(self.gateway.bits() as u64, span);
        Ipv4Address::from_bits(start as u32)
    }

    /// The subnet mask as an address: ones over the prefix, zeros over the
    /// host part.
    pub fn netmask(self) -> (addr: Ipv4Address)
        ensures
            addr.spec_bits() == 4294967296 - host_span(self.spec_prefix_len() as nat),
    {
        let span: u64 = self.span();
        let mask: u64 = 4294967296 - span;
        Ipv4Address::from_bits(mask as u32)
    }

    /// Whether `addr` lies in the subnet.
    #[verifier::when_used_as_spec(spec_contains)]
    pub fn contains(self, addr: Ipv4Address) -> (inside: bool)
        ensures
            inside == self.spec_contains(addr),
    {
        let span: u64 = self.span();
        start_of_block(addr.bits() as u64, span) == start_of_block(self.gateway.bits() as u64, span)
    }
}

} // verus!
