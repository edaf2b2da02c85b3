//! A three-valued logical state — explicitly `true`, explicitly `false`, or
//! unset — as an alternative to `Option<bool>` for settings where the absence
//! of a value means "defer to a caller-supplied fallback" rather than plain
//! nullability.

use vstd::prelude::*;
use vstd::std_specs::cmp::PartialOrdSpec;

verus! {

/// A value that is either the boolean `false`, the boolean `true`, or a
/// placeholder meaning "no explicit value; defer to a fallback".
///
/// The variants are declared in ascending order, so the derived `Ord`
/// sorts `False` before `Default` before `True`.
#[derive(Copy, Clone, PartialEq, Eq, Structural, Hash, Debug, Ord)]
pub enum TriState {
    /// The boolean value `false`.
    False,
    /// No explicit value; defer to a "default" supplied by the caller.
    Default,
    /// The boolean value `true`.
    True,
}

/// Position of a variant in the order `False < Default < True`.
pub open spec fn rank(t: TriState) -> int {
    match t {
        TriState::False => 0,
        TriState::Default => 1,
        TriState::True => 2,
    }
}

/// The tri-state a boolean converts to: `true` becomes `True`, `false`
/// becomes `False`.
pub open spec fn spec_from_bool(b: bool) -> TriState {
    if b {
        TriState::True
    } else {
        TriState::False
    }
}

/// The tri-state an optional boolean converts to: a present boolean as in
/// `spec_from_bool`, absence becomes `Default`.
pub open spec fn spec_from_option(o: Option<bool>) -> TriState {
    match o {
        Some(b) => spec_from_bool(b),
        None => TriState::Default,
    }
}

/// The boolean a tri-state collapses to: only `True` is `true`; `Default`
/// collapses to `false` by definition of this conversion.
pub open spec fn spec_to_bool(t: TriState) -> bool {
    t is True
}

/// The optional boolean of a tri-state: `Default` becomes `None`, the two
/// explicit variants carry their boolean.
pub open spec fn spec_to_option(t: TriState) -> Option<bool> {
    match t {
        TriState::False => Some(false),
        TriState::Default => None,
        TriState::True => Some(true),
    }
}

/// The canonical textual label of a variant: its name, with its casing.
pub open spec fn spec_label(t: TriState) -> Seq<char> {
    match t {
        TriState::False => "False"@,
        TriState::Default => "Default"@,
        TriState::True => "True"@,
    }
}

impl TriState {
    /// The boolean value of this tri-state, with `Default` resolved to the
    /// given fallback.
    pub fn or_else(&self, fallback: bool) -> (r: bool)
        ensures
            r == (if *self is Default {
                fallback
            } else {
                spec_to_bool(*self)
            }),
    {
        if *self == TriState::Default {
            fallback
        } else {
            self.to_bool()
        }
    }

    /// The boolean value of this tri-state, with `Default` resolved by
    /// invoking the given supplier. The supplier is invoked at most once,
    /// and only when this value is `Default`.
    pub fn or_else_get<F: FnOnce() -> bool>(&self, supplier: F) -> (r: bool)
        requires
            *self is Default ==> call_requires(supplier, ()),
        ensures
            *self !is Default ==> r == spec_to_bool(*self),
            *self is Default ==> call_ensures(supplier, (), r),
    {
        if *self == TriState::Default {
            supplier()
        } else {
            self.to_bool()
        }
    }

    /// The boolean value of this tri-state: `True` is `true`; both `False`
    /// and `Default` are `false`. To resolve `Default` explicitly, use
    /// `or_else` or `or_else_get` instead.
    pub fn to_bool(&self) -> (r: bool)
        ensures
            r == spec_to_bool(*self),
    {
        *self == TriState::True
    }

    /// The optional boolean of this tri-state: `Default` is `None`, the two
    /// explicit variants are their boolean, present.
    pub fn to_option_bool(&self) -> (r: Option<bool>)
        ensures
            r == spec_to_option(*self),
    {
        match self {
            TriState::False => Some(false),
            TriState::Default => None,
            TriState::True => Some(true),
        }
    }

    /// The canonical textual label of this value: the variant's own name.
    pub fn label(&self) -> (r: &'static str)
        ensures
            r@ == spec_label(*self),
    {
        match self {
            TriState::False => "False",
            TriState::Default => "Default",
            TriState::True => "True",
        }
    }

    /// Position of this variant in the order `False < Default < True`.
    fn rank_value(&self) -> (r: u8)
        ensures
            r == rank(*self),
    {
        match self {
            TriState::False => 0,
            TriState::Default => 1,
            TriState::True => 2,
        }
    }
}

impl From<bool> for TriState {
    /// `true` converts to `True` and `false` to `False`.
    fn from(b: bool) -> (r: Self) {
        if b {
            TriState::True
        } else {
            TriState::False
        }
    }
}

impl vstd::std_specs::convert::FromSpecImpl<bool> for TriState {
    open spec fn obeys_from_spec() -> bool {
        true
    }

    open spec fn from_spec(b: bool) -> TriState {
        spec_from_bool(b)
    }
}

impl From<Option<bool>> for TriState {
    /// A present boolean converts as from `bool`; `None` converts to
    /// `Default`.
    fn from(o: Option<bool>) -> (r: Self) {
        match o {
            Some(b) => TriState::from(b),
            None => TriState::Default,
        }
    }
}

impl vstd::std_specs::convert::FromSpecImpl<Option<bool>> for TriState {
    open spec fn obeys_from_spec() -> bool {
        true
    }

    open spec fn from_spec(o: Option<bool>) -> TriState {
        spec_from_option(o)
    }
}

impl From<TriState> for bool {
    /// The boolean of a tri-state: only `True` converts to `true`; both
    /// `False` and `Default` convert to `false`.
    fn from(t: TriState) -> (r: bool) {
        t.to_bool()
    }
}

impl vstd::std_specs::convert::FromSpecImpl<TriState> for bool {
    open spec fn obeys_from_spec() -> bool {
        true
    }

    open spec fn from_spec(t: TriState) -> bool {
        spec_to_bool(t)
    }
}

impl From<TriState> for Option<bool> {
    /// The optional boolean of a tri-state: `Default` converts to `None`,
    /// the two explicit variants to their boolean, present.
    fn from(t: TriState) -> (r: Option<bool>) {
        t.to_option_bool()
    }
}

impl vstd::std_specs::convert::FromSpecImpl<TriState> for Option<bool> {
    open spec fn obeys_from_spec() -> bool {
        true
    }

    open spec fn from_spec(t: TriState) -> Option<bool> {
        spec_to_option(t)
    }
}

impl PartialOrd for TriState {
    /// Compares two tri-states by the order `False < Default < True`.
    fn partial_cmp(&self, other: &Self) -> (r: Option<core::cmp::Ordering>) {
        let a = self.rank_value();
        let b = other.rank_value();
        if a < b {
            Some(core::cmp::Ordering::Less)
        } else if a == b {
            Some(core::cmp::Ordering::Equal)
        } else {
            Some(core::cmp::Ordering::Greater)
        }
    }
}

impl vstd::std_specs::cmp::PartialOrdSpecImpl for TriState {
    open spec fn obeys_partial_cmp_spec() -> bool {
        true
    }

    open spec fn partial_cmp_spec(&self, other: &Self) -> Option<core::cmp::Ordering> {
        if rank(*self) < rank(*other) {
            Some(core::cmp::Ordering::Less)
        } else if rank(*self) == rank(*other) {
            Some(core::cmp::Ordering::Equal)
        } else {
            Some(core::cmp::Ordering::Greater)
        }
    }
}

impl Default for TriState {
    /// A default-constructed tri-state is `Default`.
    fn default() -> (r: Self)
        ensures
            r == TriState::Default,
    {
        TriState::Default
    }
}

/// Converting a boolean to a tri-state and back returns the same boolean.
pub proof fn lemma_bool_round_trip(b: bool)
    ensures
        spec_to_bool(spec_from_bool(b)) == b,
{
}

/// Converting an optional boolean to a tri-state and back returns the same
/// optional boolean.
pub proof fn lemma_option_round_trip(o: Option<bool>)
    ensures
        spec_to_option(spec_from_option(o)) == o,
{
}

/// The comparison of any two tri-states agrees with their ranks, so the
/// order is exactly `False < Default < True`.
pub proof fn lemma_order_by_rank(a: TriState, b: TriState)
    ensures
        (a.partial_cmp_spec(&b) == Some(core::cmp::Ordering::Less)) <==> rank(a) < rank(b),
        (a.partial_cmp_spec(&b) == Some(core::cmp::Ordering::Equal)) <==> a == b,
        (a.partial_cmp_spec(&b) == Some(core::cmp::Ordering::Greater)) <==> rank(a) > rank(b),
{
}

/// `Default` is a value of its own, distinct from both explicit booleans.
pub proof fn lemma_default_distinct()
    ensures
        TriState::Default != TriState::True,
        TriState::Default != TriState::False,
{
}

} // verus!
