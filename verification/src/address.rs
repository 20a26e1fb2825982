//! IPv4 addresses as four octets.

use crate::decimal::{decimal_digits, push_decimal};
use vstd::prelude::*;

verus! {

/// An IPv4 address, most significant octet first.
#[derive(Debug, Clone, Copy, PartialEq, Eq, Structural)]
pub struct Ipv4 {
    pub a: u8,
    pub b: u8,
    pub c: u8,
    pub d: u8,
}

impl Ipv4 {
    /// The address as one 32-bit number, most significant octet first.
    pub open spec fn bits(self) -> u32 {
        (self.a * 0x100_0000 + self.b * 0x1_0000 + self.c * 0x100 + self.d) as u32
    }

    /// Dotted-decimal notation: the four octets in decimal, separated by dots.
    pub open spec fn rendered(self) -> Seq<char> {
        decimal_digits(self.a as nat) + seq!['.'] + decimal_digits(self.b as nat) + seq!['.']
            + decimal_digits(self.c as nat) + seq!['.'] + decimal_digits(self.d as nat)
    }

    /// The address `a.b.c.d`.
    pub fn new(a: u8, b: u8, c: u8, d: u8) -> (ip: Ipv4)
        ensures
            ip == (Ipv4 { a, b, c, d }),
    {
        Ipv4 { a, b, c, d }
    }

    /// The address that the 32-bit number `bits` stands for.
    pub fn from_bits(bits: u32) -> (ip: Ipv4)
        ensures
            ip.bits() == bits,
    {
        Ipv4 {
            a: (bits / 0x100_0000) as u8,
            b: ((bits / 0x1_0000) % 0x100) as u8,
            c: ((bits / 0x100) % 0x100) as u8,
            d: (bits % 0x100) as u8,
        }
    }

    /// The address as one 32-bit number.
    pub fn to_bits(&self) -> (bits: u32)
        ensures
            bits == self.bits(),
    {
        let a: u32 = self.a as u32;
        let b: u32 = self.b as u32;
        let c: u32 = self.c as u32;
        let d: u32 = self.d as u32;
        a * 0x100_0000 + b * 0x1_0000 + c * 0x100 + d
    }

    /// Appends the dotted-decimal notation of the address to `out`.
    pub fn push_to(&self, out: &mut String)
        ensures
            final(out)@ == old(out)@ + self.rendered(),
    {
        push_decimal(out, self.a as u64);
        out.push('.');
        push_decimal(out, self.b as u64);
        out.push('.');
        push_decimal(out, self.c as u64);
        out.push('.');
        push_decimal(out, self.d as u64);
        assert(out@ =~= old(out)@ + self.rendered());
    }

    /// The dotted-decimal notation of the address.
    pub fn to_string(&self) -> (s: String)
        ensures
            s@ == self.rendered(),
    {
        let mut s = String::new();
        self.push_to(&mut s);
        assert(s@ =~= self.rendered());
        s
    }
}

/// Two addresses with the same 32-bit number are the same address.
pub proof fn lemma_bits_determine_address(x: Ipv4, y: Ipv4)
    requires
        x.bits() == y.bits(),
    ensures
        x == y,
{
}

} // verus!
