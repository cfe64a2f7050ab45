//! The fixed XOR truth table the network is trained on.
//!
//! Features are rows and examples are columns: `X` is 2 by 4 and `Y` is
//! 1 by 4, and column `j` of `Y` is the exclusive or of column `j` of `X`.
//! The trainer consumes the same values as `f64` arrays; this module holds
//! them as bits, where every entry is exact.

use vstd::prelude::*;

verus! {

/// Exclusive or of two bits.
pub open spec fn xor_bit(a: u8, b: u8) -> u8 {
    if a == b {
        0
    } else {
        1
    }
}

/// First feature row of the input matrix `X`.
pub open spec fn input_row0() -> Seq<u8> {
    seq![0u8, 0u8, 1u8, 1u8]
}

/// Second feature row of the input matrix `X`.
pub open spec fn input_row1() -> Seq<u8> {
    seq![0u8, 1u8, 0u8, 1u8]
}

/// The single row of the label matrix `Y`.
pub open spec fn label_row() -> Seq<u8> {
    seq![0u8, 1u8, 1u8, 0u8]
}

/// The input matrix `X`: one inner vector per feature row, four examples each.
pub fn xor_inputs() -> (x: Vec<Vec<u8>>)
    ensures
        x@.len() == 2,
        x@[0]@ == input_row0(),
        x@[1]@ == input_row1(),
{
    let mut row0: Vec<u8> = Vec::new();
    row0.push(0);
    row0.push(0);
    row0.push(1);
    row0.push(1);
    let mut row1: Vec<u8> = Vec::new();
    row1.push(0);
    row1.push(1);
    row1.push(0);
    row1.push(1);
    assert(row0@ =~= input_row0());
    assert(row1@ =~= input_row1());
    let mut x: Vec<Vec<u8>> = Vec::new();
    x.push(row0);
    x.push(row1);
    x
}

/// The label matrix `Y`: a single row of four labels.
pub fn xor_labels() -> (y: Vec<Vec<u8>>)
    ensures
        y@.len() == 1,
        y@[0]@ == label_row(),
{
    let mut row: Vec<u8> = Vec::new();
    row.push(0);
    row.push(1);
    row.push(1);
    row.push(0);
    assert(row@ =~= label_row());
    let mut y: Vec<Vec<u8>> = Vec::new();
    y.push(row);
    y
}

/// The dataset is the XOR function: each label is the exclusive or of the
/// two features of its column.
pub proof fn lemma_labels_are_xor()
    ensures
        label_row().len() == 4,
        input_row0().len() == 4,
        input_row1().len() == 4,
        forall|j: int|
            0 <= j < 4 ==> label_row()[j] == xor_bit(input_row0()[j], input_row1()[j]),
{
    assert forall|j: int| 0 <= j < 4 implies label_row()[j] == xor_bit(
        input_row0()[j],
        input_row1()[j],
    ) by {
        assert(j == 0 || j == 1 || j == 2 || j == 3);
    }
}

} // verus!
