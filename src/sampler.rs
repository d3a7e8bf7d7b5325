//! The Zipf sampler: parameter validation and the ranks it hands out.
//!
//! The rejection-inversion draw itself runs in floating point, over the
//! hat-function bounds computed from the size and the exponent. This module
//! decides which parameters are acceptable, whether a draw is needed at all,
//! and turns each drawn candidate into a rank inside `[1, size]`.
use vstd::prelude::*;

use crate::exponent::{
    biased_exponent, exponent_is_above_one, exponent_is_finite, fraction, is_above_one, is_finite,
    is_nan, sign_bit, ONE_BITS,
};

verus! {

/// Why a parameter was refused.
#[derive(Clone, Copy, Debug, PartialEq, Eq, Structural)]
pub enum ParameterFault {
    /// The size is zero: there is no rank to draw.
    ZeroSize,
    /// The exponent is an infinity or a NaN.
    NonFiniteExponent,
    /// The exponent is a finite number not above `1.0`.
    ExponentNotAboveOne,
}

/// The one kind of error: a construction parameter out of its domain.
#[derive(Clone, Copy, Debug, PartialEq, Eq, Structural)]
pub enum ZipfError {
    InvalidParameter(ParameterFault),
}

/// The first fault of `(size, exponent_bits)`, the size checked first;
/// `None` when both are acceptable.
pub open spec fn parameter_fault(size: nat, exponent_bits: u64) -> Option<ParameterFault> {
    if size == 0 {
        Some(ParameterFault::ZeroSize)
    } else if !is_finite(exponent_bits) {
        Some(ParameterFault::NonFiniteExponent)
    } else if !is_above_one(exponent_bits) {
        Some(ParameterFault::ExponentNotAboveOne)
    } else {
        None
    }
}

/// The outcome of validating `(size, exponent_bits)`.
pub open spec fn validation(size: nat, exponent_bits: u64) -> Result<(), ZipfError> {
    match parameter_fault(size, exponent_bits) {
        Some(fault) => Err(ZipfError::InvalidParameter(fault)),
        None => Ok(()),
    }
}

/// Parameters that a sampler can be built from: at least one rank, and a
/// finite exponent above `1.0`.
pub open spec fn parameters_valid(size: nat, exponent_bits: u64) -> bool {
    size >= 1 && is_above_one(exponent_bits)
}

/// Construction succeeds exactly for a size of at least one and a finite
/// exponent above `1.0`. A zero size is refused first; otherwise an exponent of
/// exactly `1.0`, any negative exponent and any NaN are refused, each with an
/// invalid-parameter error that names the fault.
pub proof fn lemma_construction_domain(size: nat, exponent_bits: u64)
    ensures
        validation(size, exponent_bits) is Ok <==> parameters_valid(size, exponent_bits),
        size == 0 ==> validation(size, exponent_bits) == Err::<(), ZipfError>(
            ZipfError::InvalidParameter(ParameterFault::ZeroSize),
        ),
        size >= 1 && exponent_bits == ONE_BITS ==> validation(size, exponent_bits) == Err::<
            (),
            ZipfError,
        >(ZipfError::InvalidParameter(ParameterFault::ExponentNotAboveOne)),
        size >= 1 && sign_bit(exponent_bits) == 1 && is_finite(exponent_bits) ==> validation(
            size,
            exponent_bits,
        ) == Err::<(), ZipfError>(ZipfError::InvalidParameter(ParameterFault::ExponentNotAboveOne)),
        size >= 1 && is_nan(exponent_bits) ==> validation(size, exponent_bits) == Err::<
            (),
            ZipfError,
        >(ZipfError::InvalidParameter(ParameterFault::NonFiniteExponent)),
{
    assert(biased_exponent(0x3FF0_0000_0000_0000u64) == 1023 && fraction(
        0x3FF0_0000_0000_0000u64,
    ) == 0) by (bit_vector);
}

/// Checks the construction parameters; `exponent_bits` is the binary64 bit
/// pattern of the exponent.
pub fn check_parameters(size: usize, exponent_bits: u64) -> (r: Result<(), ZipfError>)
    ensures
        r == validation(size as nat, exponent_bits),
        r is Ok <==> parameters_valid(size as nat, exponent_bits),
{
    if size == 0 {
        Err(ZipfError::InvalidParameter(ParameterFault::ZeroSize))
    } else if !exponent_is_finite(exponent_bits) {
        Err(ZipfError::InvalidParameter(ParameterFault::NonFiniteExponent))
    } else if !exponent_is_above_one(exponent_bits) {
        Err(ZipfError::InvalidParameter(ParameterFault::ExponentNotAboveOne))
    } else {
        Ok(())
    }
}

/// Brings a candidate rank into `[1, size]`: below 1 gives 1, above `size`
/// gives `size`, anything else is kept.
pub fn clamp_rank(candidate: usize, size: usize) -> (r: usize)
    requires
        size >= 1,
    ensures
        r == (if candidate < 1 {
            1
        } else if candidate > size {
            size
        } else {
            candidate
        }),
        1 <= r <= size,
{
    if candidate < 1 {
        1
    } else if candidate > size {
        size
    } else {
        candidate
    }
}

/// A Zipf law over the ranks `1..=size`, `P(k)` proportional to `k^-s`.
///
/// It holds the validated size and exponent, from which the draw's
/// hat-function bounds are computed; it is never changed after construction.
pub struct ZipfSampler {
    size: usize,
    exponent_bits: u64,
}

/// `r` is what construction from `(size, exponent_bits)` may return: success
/// exactly for valid parameters, the first fault otherwise, and on success a
/// sampler of that size and exponent.
pub open spec fn built_from(r: Result<ZipfSampler, ZipfError>, size: nat, exponent_bits: u64) -> bool {
    &&& (r is Ok <==> parameters_valid(size, exponent_bits))
    &&& (r matches Err(e) ==> validation(size, exponent_bits) == Err::<(), ZipfError>(e))
    &&& (r matches Ok(s) ==> s.spec_size() == size && s.spec_exponent_bits() == exponent_bits)
}

/// Construction depends on its inputs alone: two constructions from the same
/// size and exponent both fail with the same error, or both succeed with
/// samplers that agree on their size and exponent, which is all a sampler
/// holds.
pub proof fn lemma_construction_reproducible(
    size: nat,
    exponent_bits: u64,
    a: Result<ZipfSampler, ZipfError>,
    b: Result<ZipfSampler, ZipfError>,
)
    requires
        built_from(a, size, exponent_bits),
        built_from(b, size, exponent_bits),
    ensures
        a == b,
{
}

impl ZipfSampler {
    #[verifier::type_invariant]
    spec fn well_formed(self) -> bool {
        parameters_valid(self.size as nat, self.exponent_bits)
    }

    /// The number of ranks.
    pub closed spec fn spec_size(self) -> nat {
        self.size as nat
    }

    /// The bit pattern of the exponent.
    pub closed spec fn spec_exponent_bits(self) -> u64 {
        self.exponent_bits
    }

    /// Builds a sampler for `size` ranks and the exponent whose binary64 bit
    /// pattern is `exponent_bits`, failing with the first parameter fault, the
    /// size checked first.
    pub fn new(size: usize, exponent_bits: u64) -> (r: Result<
        ZipfSampler,
        ZipfError,
    >)
        ensures
            built_from(r, size as nat, exponent_bits),
    {
        match check_parameters(size, exponent_bits) {
            Err(e) => Err(e),
            Ok(()) => Ok(ZipfSampler { size, exponent_bits }),
        }
    }

    /// The number of ranks.
    pub fn size(&self) -> (r: usize)
        ensures
            r == self.spec_size(),
            r >= 1,
    {
        proof {
            use_type_invariant(self);
        }
        self.size
    }

    /// The bit pattern of the exponent, a finite binary64 value above `1.0`.
    pub fn exponent_bits(&self) -> (r: u64)
        ensures
            r == self.spec_exponent_bits(),
            is_above_one(r),
    {
        proof {
            use_type_invariant(self);
        }
        self.exponent_bits
    }

    /// Whether a rank needs a draw: with a single rank the law is a point
    /// mass and no random value is consumed.
    pub fn needs_draw(&self) -> (r: bool)
        ensures
            r == (self.spec_size() >= 2),
    {
        self.size >= 2
    }

    /// The rank handed out for a drawn `candidate`: 1 when there is a single
    /// rank (whatever the candidate), otherwise the candidate clamped into
    /// `[1, size]` against floating-point overshoot at either end.
    pub fn rank_from_draw(&self, candidate: usize) -> (r: usize)
        ensures
            r == (if self.spec_size() == 1 {
                1
            } else if candidate < 1 {
                1
            } else if candidate > self.spec_size() {
                self.spec_size()
            } else {
                candidate as nat
            }),
            1 <= r <= self.spec_size(),
    {
        proof {
            use_type_invariant(self);
        }
        if self.size == 1 {
            1
        } else {
            clamp_rank(candidate, self.size)
        }
    }
}

} // verus!
