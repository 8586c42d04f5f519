//! Behaviour flags attached to a slash command.

use vstd::prelude::*;

verus! {

/// Bit of [`CommandFlags`]: responses are only visible to the invoking user.
pub const EPHEMERAL: u8 = 1;

/// Bit of [`CommandFlags`]: the command answers by itself and must not be
/// acknowledged up front.
pub const SKIP_DEFER: u8 = 2;

/// Every bit that carries a meaning.
pub const ALL_FLAGS: u8 = 3;

/// A small set of flags, stored as a bit mask.
#[derive(Clone, Copy, Debug, PartialEq, Eq, Structural)]
pub struct CommandFlags {
    bits: u8,
}

/// The mathematical content of a [`CommandFlags`] value.
pub struct CommandFlagsView {
    pub ephemeral: bool,
    pub skip_defer: bool,
}

impl View for CommandFlags {
    type V = CommandFlagsView;

    closed spec fn view(&self) -> CommandFlagsView {
        CommandFlagsView {
            ephemeral: self.bits & EPHEMERAL == EPHEMERAL,
            skip_defer: self.bits & SKIP_DEFER == SKIP_DEFER,
        }
    }
}

/// The flags that a raw mask stands for; bits without a meaning are ignored.
pub open spec fn flags_of_bits(bits: u8) -> CommandFlagsView {
    CommandFlagsView {
        ephemeral: bits & EPHEMERAL == EPHEMERAL,
        skip_defer: bits & SKIP_DEFER == SKIP_DEFER,
    }
}

impl CommandFlags {
    /// The raw mask. Only the two meaningful bits can be set.
    pub closed spec fn spec_bits(self) -> u8 {
        self.bits
    }

    /// Every value holds meaningful bits only.
    #[verifier::type_invariant]
    spec fn well_formed(self) -> bool {
        self.bits & !ALL_FLAGS == 0
    }

    /// No flag set.
    pub fn empty() -> (flags: Self)
        ensures
            !flags@.ephemeral,
            !flags@.skip_defer,
            flags.spec_bits() == 0,
    {
        assert(0u8 & 1u8 != 1u8 && 0u8 & 2u8 != 2u8 && 0u8 & !3u8 == 0) by (bit_vector);
        CommandFlags { bits: 0 }
    }

    /// Builds a flag set from a raw mask, dropping bits without a meaning.
    pub fn from_bits_truncate(bits: u8) -> (flags: Self)
        ensures
            flags@ == flags_of_bits(bits),
            flags.spec_bits() == bits & ALL_FLAGS,
    {
        let kept: u8 = bits & ALL_FLAGS;
        assert((bits & 3u8) & !3u8 == 0) by (bit_vector);
        assert(((bits & 3u8) & 1u8 == 1u8) == (bits & 1u8 == 1u8)) by (bit_vector);
        assert(((bits & 3u8) & 2u8 == 2u8) == (bits & 2u8 == 2u8)) by (bit_vector);
        CommandFlags { bits: kept }
    }

    /// The raw mask.
    pub fn bits(self) -> (bits: u8)
        ensures
            bits == self.spec_bits(),
            flags_of_bits(bits) == self@,
            bits <= ALL_FLAGS,
    {
        proof {
            use_type_invariant(self);
            let b = self.bits;
            assert(b & !3u8 == 0 ==> b <= 3u8) by (bit_vector);
        }
        self.bits
    }

    /// Whether every flag of `other` is also set in `self`.
    pub fn contains(self, other: Self) -> (held: bool)
        ensures
            held == ((other@.ephemeral ==> self@.ephemeral) && (other@.skip_defer
                ==> self@.skip_defer)),
    {
        proof {
            use_type_invariant(self);
            use_type_invariant(other);
            let a = self.bits;
            let b = other.bits;
            assert(a & !3u8 == 0 && b & !3u8 == 0 ==> ((a & b == b) == ((b & 1u8 == 1u8 ==> a & 1u8
                == 1u8) && (b & 2u8 == 2u8 ==> a & 2u8 == 2u8)))) by (bit_vector);
        }
        self.bits & other.bits == other.bits
    }

    /// The flags set in either operand.
    pub fn union(self, other: Self) -> (both: Self)
        ensures
            both@.ephemeral == (self@.ephemeral || other@.ephemeral),
            both@.skip_defer == (self@.skip_defer || other@.skip_defer),
    {
        proof {
            use_type_invariant(self);
            use_type_invariant(other);
            let a = self.bits;
            let b = other.bits;
            assert(a & !3u8 == 0 && b & !3u8 == 0 ==> (a | b) & !3u8 == 0) by (bit_vector);
            assert(((a | b) & 1u8 == 1u8) == (a & 1u8 == 1u8 || b & 1u8 == 1u8)) by (bit_vector);
            assert(((a | b) & 2u8 == 2u8) == (a & 2u8 == 2u8 || b & 2u8 == 2u8)) by (bit_vector);
        }
        CommandFlags { bits: self.bits | other.bits }
    }

    /// Whether the command is to be acknowledged before it runs: true unless
    /// the skip flag is set.
    pub fn defer(self) -> (acknowledge: bool)
        ensures
            acknowledge == !self@.skip_defer,
    {
        self.bits & SKIP_DEFER != SKIP_DEFER
    }

    /// Whether responses are only visible to the invoking user.
    pub fn ephemeral(self) -> (hidden: bool)
        ensures
            hidden == self@.ephemeral,
    {
        self.bits & EPHEMERAL == EPHEMERAL
    }
}

} // verus!
