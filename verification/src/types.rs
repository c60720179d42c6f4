//! Type effectiveness table: an immutable square matrix of elemental damage
//! multipliers, read by the turn resolver when an elemental attack lands.
//!
//! Multipliers are stored in hundredths to keep the table and the damage
//! arithmetic exact: an entry of `100` is a neutral (x1.0) match-up, `150` is
//! x1.5, `50` is x0.5. Elemental damage is `base * entry / 100`, truncated
//! toward zero, which agrees with truncating `base * (entry / 100.0)` since
//! both factors are nonnegative.

use crate::stats::{Element, ELEMENT_COUNT};
use vstd::prelude::*;

verus! {

/// Denominator of the stored multipliers: an entry of `EFF_SCALE` is a
/// neutral match-up that leaves damage unchanged.
pub const EFF_SCALE: u64 = 100;

/// Upper bound on a single multiplier entry (x10,000 damage), which keeps
/// elemental damage inside `i64` for well-formed stats.
pub const EFF_LIMIT: u64 = 1_000_000;

/// Immutable square matrix of elemental multipliers, indexed by
/// `[attacker element][defender element]`. The matrix need not be symmetric.
#[derive(Clone, Debug)]
pub struct TypeSystem {
    pub rows: Vec<Vec<u64>>,
}

impl TypeSystem {
    /// Total and bounded: one entry for every ordered pair of elements, each
    /// at most [`EFF_LIMIT`].
    pub open spec fn wf(self) -> bool {
        &&& self.rows@.len() == ELEMENT_COUNT
        &&& forall|i: int|
            0 <= i < ELEMENT_COUNT ==> #[trigger] self.rows@[i]@.len() == ELEMENT_COUNT
        &&& forall|i: int, j: int|
            0 <= i < ELEMENT_COUNT && 0 <= j < ELEMENT_COUNT ==> #[trigger] self.rows@[i]@[j]
                <= EFF_LIMIT
    }

    /// Multiplier (in hundredths) applied to an elemental attack of
    /// `attacker` typing against `defender` typing.
    pub open spec fn eff(self, attacker: Element, defender: Element) -> int {
        self.rows@[attacker.idx()]@[defender.idx()] as int
    }

    /// Builds a table from explicit rows, refusing a matrix that is not
    /// square over the element set or holds an entry above [`EFF_LIMIT`].
    pub fn from_rows(rows: Vec<Vec<u64>>) -> (result: Option<TypeSystem>)
        ensures
            match result {
                Some(t) => t.wf() && t.rows@ == rows@,
                None => !(TypeSystem { rows }).wf(),
            },
    {
        if rows.len() != ELEMENT_COUNT {
            return None;
        }
        let mut i: usize = 0;
        while i < ELEMENT_COUNT
            invariant
                rows@.len() == ELEMENT_COUNT,
                0 <= i <= ELEMENT_COUNT,
                forall|a: int| 0 <= a < i ==> #[trigger] rows@[a]@.len() == ELEMENT_COUNT,
                forall|a: int, b: int|
                    0 <= a < i && 0 <= b < ELEMENT_COUNT ==> #[trigger] rows@[a]@[b] <= EFF_LIMIT,
            decreases ELEMENT_COUNT - i,
        {
            if rows[i].len() != ELEMENT_COUNT {
                return None;
            }
            let mut j: usize = 0;
            while j < ELEMENT_COUNT
                invariant
                    rows@.len() == ELEMENT_COUNT,
                    0 <= i < ELEMENT_COUNT,
                    rows@[i as int]@.len() == ELEMENT_COUNT,
                    0 <= j <= ELEMENT_COUNT,
                    forall|b: int| 0 <= b < j ==> #[trigger] rows@[i as int]@[b] <= EFF_LIMIT,
                decreases ELEMENT_COUNT - j,
            {
                if rows[i][j] > EFF_LIMIT {
                    return None;
                }
                j += 1;
            }
            i += 1;
        }
        Some(TypeSystem { rows })
    }

    /// Neutral table: every match-up is x1.0, so elemental attacks deal
    /// exactly their base damage.
    pub fn neutral() -> (t: TypeSystem)
        ensures
            t.wf(),
            forall|a: Element, b: Element| #[trigger] t.eff(a, b) == EFF_SCALE,
    {
        let mut rows: Vec<Vec<u64>> = Vec::new();
        let mut i: usize = 0;
        while i < ELEMENT_COUNT
            invariant
                0 <= i <= ELEMENT_COUNT,
                rows@.len() == i,
                forall|a: int| 0 <= a < i ==> #[trigger] rows@[a]@.len() == ELEMENT_COUNT,
                forall|a: int, b: int|
                    0 <= a < i && 0 <= b < ELEMENT_COUNT ==> #[trigger] rows@[a]@[b] == EFF_SCALE,
            decreases ELEMENT_COUNT - i,
        {
            let mut row: Vec<u64> = Vec::new();
            let mut j: usize = 0;
            while j < ELEMENT_COUNT
                invariant
                    0 <= j <= ELEMENT_COUNT,
                    row@.len() == j,
                    forall|b: int| 0 <= b < j ==> #[trigger] row@[b] == EFF_SCALE,
                decreases ELEMENT_COUNT - j,
            {
                row.push(EFF_SCALE);
                j += 1;
            }
            rows.push(row);
            i += 1;
        }
        let t = TypeSystem { rows };
        assert forall|a: Element, b: Element| #[trigger] t.eff(a, b) == EFF_SCALE by {
            assert(0 <= a.idx() < ELEMENT_COUNT);
            assert(0 <= b.idx() < ELEMENT_COUNT);
        }
        t
    }

    /// Looks up the multiplier for an elemental attack of `attacker` typing
    /// against `defender` typing.
    pub fn effectiveness(&self, attacker: Element, defender: Element) -> (e: u64)
        requires
            self.wf(),
        ensures
            e == self.eff(attacker, defender),
            e <= EFF_LIMIT,
    {
        let i = attacker.index();
        let j = defender.index();
        self.rows[i][j]
    }
}

} // verus!
