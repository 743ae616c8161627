use vstd::prelude::*;

verus! {

/// Qualitative password strength, from weakest to strongest.
#[derive(Clone, Copy, Debug, PartialEq, Eq, Structural, PartialOrd, Ord)]
pub enum PasswordStrength {
    Weak,
    Moderate,
    Strong,
    VeryStrong,
    Extreme,
}

/// Position of a tier in the order Weak < Moderate < Strong < VeryStrong < Extreme.
pub open spec fn rank(s: PasswordStrength) -> nat {
    match s {
        PasswordStrength::Weak => 0,
        PasswordStrength::Moderate => 1,
        PasswordStrength::Strong => 2,
        PasswordStrength::VeryStrong => 3,
        PasswordStrength::Extreme => 4,
    }
}

/// Entropy floor, in bits, requested by asking for at least a given tier.
pub open spec fn min_entropy_of(s: PasswordStrength) -> nat {
    match s {
        PasswordStrength::Weak => 30,
        PasswordStrength::Moderate => 50,
        PasswordStrength::Strong => 70,
        PasswordStrength::VeryStrong => 90,
        PasswordStrength::Extreme => 120,
    }
}

/// Tier reported for an entropy truncated to whole bits.
pub open spec fn tier_of(bits: nat) -> PasswordStrength {
    if bits <= 45 {
        PasswordStrength::Weak
    } else if bits <= 60 {
        PasswordStrength::Moderate
    } else if bits <= 80 {
        PasswordStrength::Strong
    } else if bits <= 100 {
        PasswordStrength::VeryStrong
    } else {
        PasswordStrength::Extreme
    }
}

pub open spec fn description_of(s: PasswordStrength) -> Seq<char> {
    match s {
        PasswordStrength::Weak => "Weak - easily crackable"@,
        PasswordStrength::Moderate => "Moderate - acceptable for non-critical accounts"@,
        PasswordStrength::Strong => "Strong - good for most purposes"@,
        PasswordStrength::VeryStrong => "Very strong - suitable for sensitive accounts"@,
        PasswordStrength::Extreme => "Extremely strong - suitable for high-security applications"@,
    }
}

impl PasswordStrength {
    /// Minimum entropy, in whole bits, that a request for this tier asks for.
    pub fn min_entropy(&self) -> (r: u32)
        ensures
            r == min_entropy_of(*self),
    {
        match self {
            PasswordStrength::Weak => 30,
            PasswordStrength::Moderate => 50,
            PasswordStrength::Strong => 70,
            PasswordStrength::VeryStrong => 90,
            PasswordStrength::Extreme => 120,
        }
    }

    /// Classifies an entropy estimate that has already been truncated to whole bits.
    pub fn from_entropy(bits: usize) -> (r: PasswordStrength)
        ensures
            r == tier_of(bits as nat),
    {
        if bits <= 45 {
            PasswordStrength::Weak
        } else if bits <= 60 {
            PasswordStrength::Moderate
        } else if bits <= 80 {
            PasswordStrength::Strong
        } else if bits <= 100 {
            PasswordStrength::VeryStrong
        } else {
            PasswordStrength::Extreme
        }
    }

    pub fn description(&self) -> (r: &'static str)
        ensures
            r@ == description_of(*self),
    {
        match self {
            PasswordStrength::Weak => "Weak - easily crackable",
            PasswordStrength::Moderate => "Moderate - acceptable for non-critical accounts",
            PasswordStrength::Strong => "Strong - good for most purposes",
            PasswordStrength::VeryStrong => "Very strong - suitable for sensitive accounts",
            PasswordStrength::Extreme => "Extremely strong - suitable for high-security applications",
        }
    }
}

/// More entropy never yields a weaker tier.
pub proof fn lemma_tier_monotonic(a: nat, b: nat)
    requires
        a <= b,
    ensures
        rank(tier_of(a)) <= rank(tier_of(b)),
{
}

/// Classification and its description depend on the entropy alone: equal inputs give
/// equal tiers and equal descriptions.
pub proof fn lemma_classification_deterministic(a: nat, b: nat)
    requires
        a == b,
    ensures
        tier_of(a) == tier_of(b),
        description_of(tier_of(a)) == description_of(tier_of(b)),
{
}

} // verus!
