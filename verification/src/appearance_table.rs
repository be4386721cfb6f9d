//! Where enemies take their place in the formation, and how each unit of an
//! appearance wave moves.

use vstd::prelude::*;

verus! {

/// A slot of the enemy formation: column and row.
#[derive(Clone, Copy, Debug, PartialEq, Eq, Structural)]
pub struct FormationIndex(pub usize, pub usize);

/// The formation slot at column `x` and row `y`.
pub fn p(x: u8, y: u8) -> (r: FormationIndex)
    ensures
        r == FormationIndex(x as usize, y as usize),
{
    FormationIndex(x as usize, y as usize)
}

/// The formation slots in the order in which appearing enemies take them.
pub open spec fn spec_order() -> Seq<FormationIndex> {
    seq![
        FormationIndex(3, 2), FormationIndex(4, 2), FormationIndex(5, 2), FormationIndex(6, 2),
        FormationIndex(3, 5), FormationIndex(4, 5), FormationIndex(5, 5), FormationIndex(6, 5),
    ]
}

/// The formation slots in the order in which appearing enemies take them.
pub fn order() -> (r: [FormationIndex; 8])
    ensures
        r@ == spec_order(),
{
    let r = [p(3, 2), p(4, 2), p(5, 2), p(6, 2), p(3, 5), p(4, 5), p(5, 5), p(6, 5)];
    assert(r@ =~= spec_order());
    r
}

/// One unit of an appearance wave: its pattern number, the trajectory
/// command table it follows, and whether that table is mirrored in x.
pub struct UnitTableEntry<'a, C> {
    pub pat: usize,
    pub table: &'a [C],
    pub flip_x: bool,
}

/// The appearance waves, built from the three trajectory command tables.
/// Wave 0: pattern 0 on table 1; pattern 1 on table 2; pattern 1 on table 3
/// mirrored; pattern 2 on table 1; pattern 2 on table 1 mirrored.
pub fn unit_table<'a, C>(table1: &'a [C], table2: &'a [C], table3: &'a [C]) -> (r: [[UnitTableEntry<'a, C>; 5]; 1])
    ensures
        r[0][0].pat == 0 && r[0][0].table == table1 && !r[0][0].flip_x,
        r[0][1].pat == 1 && r[0][1].table == table2 && !r[0][1].flip_x,
        r[0][2].pat == 1 && r[0][2].table == table3 && r[0][2].flip_x,
        r[0][3].pat == 2 && r[0][3].table == table1 && !r[0][3].flip_x,
        r[0][4].pat == 2 && r[0][4].table == table1 && r[0][4].flip_x,
{
    [
        [
            UnitTableEntry { pat: 0, table: table1, flip_x: false },
            UnitTableEntry { pat: 1, table: table2, flip_x: false },
            UnitTableEntry { pat: 1, table: table3, flip_x: true },
            UnitTableEntry { pat: 2, table: table1, flip_x: false },
            UnitTableEntry { pat: 2, table: table1, flip_x: true },
        ],
    ]
}

/// No two enemies of a wave take the same formation slot.
pub proof fn lemma_order_distinct()
    ensures
        forall|i: int, j: int|
            0 <= i < j < spec_order().len() ==> spec_order()[i] != spec_order()[j],
{
}

} // verus!
