//! Compatibility layer for data persisted under an older schema.
//!
//! A consumer defines a current type, an old type, and a single conversion
//! from old to current. The [`Compatible`] adapter accepts whichever of the
//! two shapes an input structurally matched — the old shape is tried first —
//! eagerly converts an old value to the current type, and from then on
//! behaves as if only the current shape ever existed. On write, the held
//! case is re-emitted unchanged, with no added framing or version tag, so
//! records self-heal on the next write.
//!
//! The structural encode/decode engine itself is an external collaborator:
//! it hands this library the outcome of attempting each candidate shape,
//! and this library decides which candidate wins and performs the upgrade.
//! Because the adapter's own wire shape is exactly the held case's shape,
//! an adapter can stand as the old parameter of an outer adapter, so a
//! chain of versions nests from the single two-version primitive.

use vstd::prelude::*;
use vstd::std_specs::convert::FromSpec;

verus! {

/// The `Current` version of a schema is `CompatibleWith<Old>`: a current
/// value can be produced from an owned `Old` value, totally and infallibly.
///
/// `spec_from_old` is the conversion as a mathematical function; `from_old`
/// computes it whenever `obeys_from_old_spec()` holds. The blanket
/// derivation from a plain `From` conversion obeys its specification
/// exactly when that `From` conversion obeys its own.
pub trait CompatibleWith<Old>: Sized {
    spec fn obeys_from_old_spec() -> bool;

    spec fn spec_from_old(v: Old) -> Self;

    fn from_old(value: Old) -> (r: Self)
        ensures
            Self::obeys_from_old_spec() ==> r == Self::spec_from_old(value),
    ;
}

/// The `Old` version of a schema is `CompatibleTo<Current>`: the mirror of
/// [`CompatibleWith`], expressed as an operation on the old value itself.
///
/// Only one direction is ever written by hand: a blanket derivation
/// supplies this trait for every pair that has [`CompatibleWith`], so the
/// two contracts cannot drift apart.
pub trait CompatibleTo<Current>: Sized {
    spec fn obeys_into_current_spec() -> bool;

    spec fn spec_into_current(self) -> Current;

    fn into_current(self) -> (r: Current)
        ensures
            Self::obeys_into_current_spec() ==> r == self.spec_into_current(),
    ;
}

impl<Old, Current: From<Old>> CompatibleWith<Old> for Current {
    open spec fn obeys_from_old_spec() -> bool {
        <Current as FromSpec<Old>>::obeys_from_spec()
    }

    open spec fn spec_from_old(v: Old) -> Self {
        <Current as FromSpec<Old>>::from_spec(v)
    }

    fn from_old(value: Old) -> (r: Self) {
        value.into()
    }
}

impl<Old, Current: CompatibleWith<Old>> CompatibleTo<Current> for Old {
    open spec fn obeys_into_current_spec() -> bool {
        <Current as CompatibleWith<Old>>::obeys_from_old_spec()
    }

    open spec fn spec_into_current(self) -> Current {
        <Current as CompatibleWith<Old>>::spec_from_old(self)
    }

    fn into_current(self) -> (r: Current) {
        Current::from_old(self)
    }
}

/// The one way a decode can fail: the input matched neither the old shape
/// nor the current shape. No further diagnostic distinguishes which
/// candidate was closer.
#[derive(PartialEq, Eq, Debug, Clone, Copy)]
pub enum DecodeError {
    StructuralMismatch,
}

/// A two-way structural union: exactly one of an old-shaped value or a
/// current-shaped value, fixed at construction.
#[derive(PartialEq, PartialOrd, Ord, Eq, Debug, Hash, Clone, Copy)]
pub enum Alt<Old, Current> {
    Old(Old),
    Current(Current),
}

impl<Old, Current> Alt<Old, Current> {
    /// Selects among the outcomes of the two structural parse attempts, in
    /// fixed declaration order: the old shape first, the current shape
    /// second; the first shape that matched is accepted.
    ///
    /// Candidate order is a documented hazard: when the old shape is a
    /// structural subset of the current encoding, a genuinely
    /// current-shaped input is accepted as old, and fields the old shape
    /// does not know about are discarded.
    pub fn decode(old_shape: Option<Old>, current_shape: Option<Current>) -> (r: Result<
        Self,
        DecodeError,
    >)
        ensures
            old_shape matches Some(o) ==> r == Ok::<Self, DecodeError>(Alt::Old(o)),
            old_shape is None ==> (current_shape matches Some(c) ==> r == Ok::<Self, DecodeError>(
                Alt::Current(c),
            )),
            old_shape is None && current_shape is None ==> r == Err::<Self, DecodeError>(
                DecodeError::StructuralMismatch,
            ),
    {
        match old_shape {
            Some(o) => Ok(Alt::Old(o)),
            None => match current_shape {
                Some(c) => Ok(Alt::Current(c)),
                None => Err(DecodeError::StructuralMismatch),
            },
        }
    }
}

/// The compatibility adapter: wraps one [`Alt`] and normalizes it to the
/// current case. Every adapter that [`Compatible::decode`] hands out holds
/// the current case; an old-holding adapter exists only transiently, or
/// when one is wrapped explicitly for re-encoding an untouched input.
#[derive(PartialEq, PartialOrd, Ord, Eq, Debug, Hash, Clone, Copy)]
pub struct Compatible<Old, Current>(Alt<Old, Current>);

impl<Old, Current> Compatible<Old, Current> {
    /// The case the adapter holds.
    pub closed spec fn held(self) -> Alt<Old, Current> {
        self.0
    }

    /// Wraps an already-decoded case, without normalizing it.
    pub fn from_alt(alt: Alt<Old, Current>) -> (r: Self)
        ensures
            r.held() == alt,
    {
        Compatible(alt)
    }

    /// Borrows the held case. Encoding delegates to the held case's own
    /// encoding: the adapter adds no framing, tag, or version marker.
    pub fn as_alt(&self) -> (r: &Alt<Old, Current>)
        ensures
            *r == self.held(),
    {
        &self.0
    }

    /// Consumes the adapter into its held case.
    pub fn into_alt(self) -> (r: Alt<Old, Current>)
        ensures
            r == self.held(),
    {
        self.0
    }

    /// The held case determines the adapter: it carries no other state.
    pub proof fn lemma_held_determines(a: Self, b: Self)
        requires
            a.held() == b.held(),
        ensures
            a == b,
    {
    }
}

impl<Old, Current: CompatibleWith<Old>> Compatible<Old, Current> {
    /// Whether the adapter holds the current case.
    pub open spec fn is_current(self) -> bool {
        self.held() is Current
    }

    /// The current value the adapter denotes: the held current value, or
    /// the conversion of the held old value.
    pub open spec fn current_value(self) -> Current {
        match self.held() {
            Alt::Old(o) => Current::spec_from_old(o),
            Alt::Current(c) => c,
        }
    }

    /// Normalization as a mathematical function: the adapter holding the
    /// current case that denotes the same value.
    pub closed spec fn spec_make_current(self) -> Self {
        Compatible(Alt::Current(self.current_value()))
    }

    /// What `spec_make_current` holds, and that it leaves a current-holding
    /// adapter unchanged.
    pub proof fn lemma_make_current_held(self)
        ensures
            self.spec_make_current().held() == Alt::<Old, Current>::Current(self.current_value()),
            self.is_current() ==> self.spec_make_current() == self,
    {
    }

    /// Normalizes the adapter: an old value is replaced by its conversion;
    /// a current value is kept as it is. No transition leaves the
    /// current-holding state.
    pub fn make_current(self) -> (r: Self)
        ensures
            r.is_current(),
            self.is_current() ==> r == self,
            Current::obeys_from_old_spec() ==> r == self.spec_make_current(),
    {
        match self.0 {
            Alt::Old(old) => Compatible(Alt::Current(old.into_current())),
            Alt::Current(current) => Compatible(Alt::Current(current)),
        }
    }

    /// Consumes the adapter; applies the conversion when the old case is
    /// held, and returns the current value unchanged otherwise. There is no
    /// failure path: the conversion is total by contract.
    pub fn into_current(self) -> (r: Current)
        ensures
            self.held() matches Alt::Current(c) ==> r == c,
            Current::obeys_from_old_spec() ==> r == self.current_value(),
    {
        match self.0 {
            Alt::Old(old) => old.into_current(),
            Alt::Current(current) => current,
        }
    }

    /// Decodes from the outcomes of the two structural parse attempts and
    /// immediately normalizes, so the one state reachable from here is the
    /// current-holding one. Fails exactly when neither shape matched.
    pub fn decode(old_shape: Option<Old>, current_shape: Option<Current>) -> (r: Result<
        Self,
        DecodeError,
    >)
        ensures
            r is Ok <==> (old_shape is Some || current_shape is Some),
            r matches Ok(a) ==> a.is_current(),
            old_shape matches Some(o) ==> (Current::obeys_from_old_spec() ==> (r matches Ok(a)
                && a.held() == Alt::<Old, Current>::Current(Current::spec_from_old(o)))),
            old_shape is None ==> (current_shape matches Some(c) ==> (r matches Ok(a) && a.held()
                == Alt::<Old, Current>::Current(c))),
            old_shape is None && current_shape is None ==> r == Err::<Self, DecodeError>(
                DecodeError::StructuralMismatch,
            ),
    {
        let alt = Alt::decode(old_shape, current_shape)?;
        Ok(Compatible(alt).make_current())
    }

    /// Field-level decode hook: decodes and unwraps in one call, yielding
    /// the plain current value without the caller ever naming the adapter.
    pub fn deserialize_with(old_shape: Option<Old>, current_shape: Option<Current>) -> (r: Result<
        Current,
        DecodeError,
    >)
        ensures
            r is Ok <==> (old_shape is Some || current_shape is Some),
            old_shape matches Some(o) ==> (Current::obeys_from_old_spec() ==> r == Ok::<
                Current,
                DecodeError,
            >(Current::spec_from_old(o))),
            old_shape is None ==> (current_shape matches Some(c) ==> r == Ok::<Current, DecodeError>(
                c,
            )),
            old_shape is None && current_shape is None ==> r == Err::<Current, DecodeError>(
                DecodeError::StructuralMismatch,
            ),
    {
        let compatible = Self::decode(old_shape, current_shape)?;
        Ok(compatible.into_current())
    }
}

/// Law: normalizing twice equals normalizing once, from any adapter state.
pub proof fn lemma_normalize_idempotent<Old, Current: CompatibleWith<Old>>(
    a: Compatible<Old, Current>,
)
    ensures
        a.spec_make_current().spec_make_current() == a.spec_make_current(),
{
}

/// Law: current passthrough. An adapter whose input matched the current
/// shape as the value `c` denotes exactly `c`, and normalizing it is a
/// no-op — decoding a current-shaped input and unwrapping is a round trip.
pub proof fn lemma_current_passthrough<Old, Current: CompatibleWith<Old>>(
    a: Compatible<Old, Current>,
    c: Current,
)
    requires
        a.held() == Alt::<Old, Current>::Current(c),
    ensures
        a.current_value() == c,
        a.spec_make_current() == a,
{
}

/// Law: old upgrade. An adapter whose input matched the old shape as the
/// value `o` denotes exactly the user-supplied conversion of `o`: the
/// adapter introduces no distortion of its own.
pub proof fn lemma_old_upgrade<Old, Current: CompatibleWith<Old>>(
    a: Compatible<Old, Current>,
    o: Old,
)
    requires
        a.held() == Alt::<Old, Current>::Old(o),
    ensures
        a.current_value() == Current::spec_from_old(o),
{
}

/// Law: derivation equivalence. When only a plain `From` conversion is
/// supplied, the derived "produce current from old" contract is that
/// conversion itself, obeyed under exactly the same condition.
pub proof fn lemma_derivation_equivalence<Old, Current: From<Old>>(o: Old)
    ensures
        <Current as CompatibleWith<Old>>::spec_from_old(o) == <Current as FromSpec<
            Old,
        >>::from_spec(o),
        <Current as CompatibleWith<Old>>::obeys_from_old_spec() == <Current as FromSpec<
            Old,
        >>::obeys_from_spec(),
{
}

/// Law: mirror derivation. The derived "convert self into current"
/// contract on the old type is the "produce current from old" contract on
/// the current type: the pair is defined by one conversion.
pub proof fn lemma_mirror_derivation<Old, Current: CompatibleWith<Old>>(o: Old)
    ensures
        <Old as CompatibleTo<Current>>::spec_into_current(o) == <Current as CompatibleWith<
            Old,
        >>::spec_from_old(o),
        <Old as CompatibleTo<Current>>::obeys_into_current_spec() == <Current as CompatibleWith<
            Old,
        >>::obeys_from_old_spec(),
{
}

} // verus!
