use vstd::prelude::*;
use crate::cell::Cell;

verus! {

/// Number of entries of a rule table, one for each pattern of three cells,
/// and so the number of slots that a line reserves for its table.
pub const RESERVED: usize = 8;

/// The outcome that rule number `rule` gives to neighborhood pattern `p`:
/// bit `p` of the number, as a cell.
pub open spec fn rule_outcome(rule: u8, p: int) -> Cell
    recommends
        0 <= p < 8,
{
    if (rule >> (p as u8)) & 1 == 1 {
        Cell::Alive
    } else {
        Cell::Dead
    }
}

/// The rule table of rule number `rule`: eight cells, the most significant
/// bit of the number first, so that entry `i` is the outcome of pattern
/// `7 - i`.
pub open spec fn rule_table(rule: u8) -> Seq<Cell> {
    Seq::new(8, |i: int| rule_outcome(rule, 7 - i))
}

/// The number that a neighborhood forms when read as three binary digits,
/// left cell first.
pub open spec fn pattern(left: Cell, center: Cell, right: Cell) -> int {
    4 * left.bit() + 2 * center.bit() + right.bit()
}

/// Where in a rule table the outcome of a neighborhood stands.
pub open spec fn pattern_index(left: Cell, center: Cell, right: Cell) -> int {
    7 - pattern(left, center, right)
}

/// Computes entry `i` of the rule table of `rule`.
pub fn table_entry(rule: u8, i: usize) -> (cell: Cell)
    requires
        i < RESERVED,
    ensures
        cell == rule_table(rule)[i as int],
    no_unwind
{
    let shift: u8 = (7 - i) as u8;
    let bit: u8 = (rule >> shift) & 1;
    if bit == 1 {
        Cell::Alive
    } else {
        Cell::Dead
    }
}

/// Entry `7 - p` of the table of a rule is bit `p` of its number, and the
/// table has eight entries.
pub proof fn lemma_rule_table_entry(rule: u8, p: int)
    requires
        0 <= p < 8,
    ensures
        rule_table(rule).len() == 8,
        rule_table(rule)[7 - p] == rule_outcome(rule, p),
        rule_table(rule)[7 - p] == Cell::Alive <==> (rule >> (p as u8)) & 1 == 1,
{
}

/// Two rule numbers with the same table are the same number.
pub proof fn lemma_rule_table_injective(a: u8, b: u8)
    requires
        rule_table(a) == rule_table(b),
    ensures
        a == b,
{
    let ta = rule_table(a);
    let tb = rule_table(b);
    assert(ta[7] == tb[7] && ta[6] == tb[6] && ta[5] == tb[5] && ta[4] == tb[4]);
    assert(ta[3] == tb[3] && ta[2] == tb[2] && ta[1] == tb[1] && ta[0] == tb[0]);
    assert(a == b) by (bit_vector)
        requires
            ((a >> 0u8) & 1 == 1) == ((b >> 0u8) & 1 == 1),
            ((a >> 1u8) & 1 == 1) == ((b >> 1u8) & 1 == 1),
            ((a >> 2u8) & 1 == 1) == ((b >> 2u8) & 1 == 1),
            ((a >> 3u8) & 1 == 1) == ((b >> 3u8) & 1 == 1),
            ((a >> 4u8) & 1 == 1) == ((b >> 4u8) & 1 == 1),
            ((a >> 5u8) & 1 == 1) == ((b >> 5u8) & 1 == 1),
            ((a >> 6u8) & 1 == 1) == ((b >> 6u8) & 1 == 1),
            ((a >> 7u8) & 1 == 1) == ((b >> 7u8) & 1 == 1),
    ;
}

/// Every sequence of eight cells is the table of some rule number.
pub proof fn lemma_rule_table_surjective(table: Seq<Cell>)
    requires
        table.len() == 8,
    ensures
        exists|rule: u8| rule_table(rule) == table,
{
    let b7: u8 = if table[0] == Cell::Alive { 1 } else { 0 };
    let b6: u8 = if table[1] == Cell::Alive { 1 } else { 0 };
    let b5: u8 = if table[2] == Cell::Alive { 1 } else { 0 };
    let b4: u8 = if table[3] == Cell::Alive { 1 } else { 0 };
    let b3: u8 = if table[4] == Cell::Alive { 1 } else { 0 };
    let b2: u8 = if table[5] == Cell::Alive { 1 } else { 0 };
    let b1: u8 = if table[6] == Cell::Alive { 1 } else { 0 };
    let b0: u8 = if table[7] == Cell::Alive { 1 } else { 0 };
    let rule: u8 = (b7 << 7) | (b6 << 6) | (b5 << 5) | (b4 << 4) | (b3 << 3) | (b2 << 2) | (b1 << 1)
        | b0;
    assert((rule >> 7) & 1 == b7 && (rule >> 6) & 1 == b6 && (rule >> 5) & 1 == b5 && (rule >> 4)
        & 1 == b4 && (rule >> 3) & 1 == b3 && (rule >> 2) & 1 == b2 && (rule >> 1) & 1 == b1 && (
    rule >> 0) & 1 == b0) by (bit_vector)
        requires
            b7 <= 1,
            b6 <= 1,
            b5 <= 1,
            b4 <= 1,
            b3 <= 1,
            b2 <= 1,
            b1 <= 1,
            b0 <= 1,
            rule == (b7 << 7) | (b6 << 6) | (b5 << 5) | (b4 << 4) | (b3 << 3) | (b2 << 2) | (b1
                << 1) | b0,
    ;
    assert(rule_table(rule) =~= table);
}

} // verus!
