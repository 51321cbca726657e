//! Fairness model: each permuter in a batch of `n` submitted at priority `p`
//! receives the scheduling weight `energy_add = n / p`, so that a client's
//! total claim on shared compute scales with its priority alone, not with how
//! many tasks it submitted in one call. Weights are exact rationals; a
//! non-positive priority is a validation failure and produces no weight.

use vstd::prelude::*;

verus! {

/// An exact positive rational scheduling weight, `num / den`.
#[derive(Clone, Copy, Debug, PartialEq, Eq, Structural)]
pub struct Energy {
    pub num: u64,
    pub den: u64,
}

impl Energy {
    /// A weight denotes a rational only when its denominator is non-zero.
    pub open spec fn wf(self) -> bool {
        self.den > 0
    }

    /// Whether this weight equals the rational `n / d` (cross-multiplication).
    pub open spec fn is_ratio(self, n: int, d: int) -> bool {
        self.num * d == n * self.den
    }
}

/// A client-supplied scheduling priority, as an exact rational `num / den`.
/// Larger means the client requests a larger fair share; only positive
/// values are valid for registration.
#[derive(Clone, Copy, Debug, PartialEq, Eq, Structural)]
pub struct Priority {
    pub num: i64,
    pub den: i64,
}

/// Bound on priority components and batch sizes, so that the weight
/// numerator `n * den` always fits in a machine word.
pub const COMPONENT_MAX: u64 = 0xFFFF_FFFF;

impl Priority {
    /// The components denote a rational and are small enough that weight
    /// arithmetic cannot overflow.
    pub open spec fn wf(self) -> bool {
        &&& 0 < self.den <= COMPONENT_MAX
        &&& self.num <= COMPONENT_MAX
    }

    /// Only a positive priority is admissible for registration.
    pub open spec fn is_positive(self) -> bool {
        self.num > 0
    }
}

/// Why a submission or a protocol exchange failed.
#[derive(Clone, Copy, Debug, PartialEq, Eq, Structural)]
pub enum SessionError {
    /// Malformed, out-of-order, or identifier-smuggling message.
    Protocol,
    /// Inadmissible submission parameters (non-positive priority).
    Validation,
    /// The underlying connection failed.
    Channel,
}

/// The weight every permuter of a batch receives: `batch_size / priority`.
/// Rejected, before anything is registered, when the priority is not positive.
pub fn energy_add(batch_size: usize, priority: Priority) -> (r: Result<Energy, SessionError>)
    requires
        priority.wf(),
        batch_size <= COMPONENT_MAX,
    ensures
        r is Ok <==> priority.is_positive(),
        r matches Ok(e) ==> {
            &&& e.wf()
            &&& e.num == batch_size * priority.den
            &&& e.den == priority.num
            &&& e.is_ratio(batch_size as int * priority.den, priority.num as int)
        },
        r is Err ==> r == Err::<Energy, SessionError>(SessionError::Validation),
{
    if priority.num > 0 {
        proof {
            assert((batch_size as u64) * (priority.den as u64) <= COMPONENT_MAX * COMPONENT_MAX)
                by (nonlinear_arith)
                requires
                    batch_size as u64 <= COMPONENT_MAX,
                    0 < priority.den <= COMPONENT_MAX,
            ;
        }
        let e = Energy { num: (batch_size as u64) * (priority.den as u64), den: priority.num as u64 };
        Ok(e)
    } else {
        Err(SessionError::Validation)
    }
}

} // verus!
