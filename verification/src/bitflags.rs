//! The bit-assignment generator: expands an ordered, duplicate-free list of
//! names into named constants, where the name at 0-based position `i`
//! receives the value `1 << i`.

use vstd::prelude::*;

verus! {

/// Why a constant set could not be defined. All failures are definitional:
/// they occur when the set is built, never at a later access.
#[derive(Clone, Copy, Debug, PartialEq, Eq, Structural)]
pub enum BitVariantsError {
    /// The name list is empty; a set needs at least one name.
    EmptyNames,
    /// The same name occurs twice in the name list.
    DuplicateName,
    /// More names than the requested width, or than the 64-bit constant
    /// type, has bits.
    WidthExceeded,
}

/// One generated constant: a name bound to a power-of-two value.
#[derive(Debug)]
pub struct BitConstant {
    pub name: String,
    pub value: u64,
}

/// The names are pairwise distinct.
pub open spec fn names_distinct(names: Seq<Seq<char>>) -> bool {
    forall|i: int, j: int| 0 <= i < j < names.len() ==> names[i] != names[j]
}

/// The value assigned to the name at 0-based position `i`.
pub open spec fn bit_value(i: int) -> u64 {
    1u64 << i
}

/// The constants are exactly the given names, in order, each bound to the
/// value of its position.
pub open spec fn generated(names: Seq<Seq<char>>, consts: Seq<BitConstant>) -> bool {
    &&& consts.len() == names.len()
    &&& forall|i: int|
        0 <= i < names.len() ==> (#[trigger] consts[i]).name@ == names[i] && consts[i].value
            == bit_value(i)
}

/// Builds the constant set for an ordered name list: the name at 0-based
/// position `i` is bound to `1 << i`.
///
/// `width` is the bit width of the integer type the caller intends the
/// constants for. The values themselves are held as 64-bit unsigned
/// integers, so the list may hold at most `min(width, 64)` names; a longer
/// list is rejected rather than allowed to shift past the width. An empty
/// list and a list with a repeated name are rejected as well, at definition
/// time.
pub fn bit_variants(names: &Vec<String>, width: u32) -> (result: Result<
    Vec<BitConstant>,
    BitVariantsError,
>)
    ensures
        result is Ok <==> names@.len() >= 1 && names_distinct(names.deep_view()) && names@.len()
            <= width && names@.len() <= 64,
        result matches Ok(consts) ==> generated(names.deep_view(), consts@),
        result == Err::<Vec<BitConstant>, _>(BitVariantsError::EmptyNames) <==> names@.len() == 0,
        result == Err::<Vec<BitConstant>, _>(BitVariantsError::DuplicateName) <==> names@.len() >= 1
            && !names_distinct(names.deep_view()),
        result == Err::<Vec<BitConstant>, _>(BitVariantsError::WidthExceeded) <==> names@.len() >= 1
            && names_distinct(names.deep_view()) && (names@.len() > width || names@.len() > 64),
{
    let n = names.len();
    if n == 0 {
        return Err(BitVariantsError::EmptyNames);
    }
    let mut i: usize = 0;
    while i < n
        invariant
            i <= n,
            n == names@.len(),
            forall|a: int, b: int|
                0 <= a < b < n && a < i ==> names.deep_view()[a] != names.deep_view()[b],
        decreases n - i,
    {
        let mut j: usize = i + 1;
        while j < n
            invariant
                i < j <= n,
                n == names@.len(),
                forall|b: int| i < b < j ==> names.deep_view()[i as int] != names.deep_view()[b],
            decreases n - j,
        {
            if names[i] == names[j] {
                proof {
                    assert(names.deep_view()[i as int] == names@[i as int]@);
                    assert(names.deep_view()[j as int] == names@[j as int]@);
                    assert(!names_distinct(names.deep_view()));
                }
                return Err(BitVariantsError::DuplicateName);
            }
            j += 1;
        }
        i += 1;
    }
    if n > 64 || n > width as usize {
        return Err(BitVariantsError::WidthExceeded);
    }
    let mut consts: Vec<BitConstant> = Vec::new();
    let mut k: usize = 0;
    while k < n
        invariant
            k <= n <= 64,
            n == names@.len(),
            consts@.len() == k,
            forall|m: int|
                0 <= m < k ==> (#[trigger] consts@[m]).name@ == names.deep_view()[m]
                    && consts@[m].value == bit_value(m),
        decreases n - k,
    {
        let value: u64 = 1u64 << (k as u64);
        consts.push(BitConstant { name: names[k].clone(), value });
        k += 1;
    }
    Ok(consts)
}

/// Distinct bit positions receive distinct constant values.
pub proof fn lemma_bit_values_distinct(i: u64, j: u64)
    requires
        i < 64,
        j < 64,
        i != j,
    ensures
        bit_value(i as int) != bit_value(j as int),
{
    assert((1u64 << i) != (1u64 << j)) by (bit_vector)
        requires
            i < 64,
            j < 64,
            i != j,
    ;
}

/// Every assigned constant value is a power of two: nonzero, with exactly
/// one bit set.
pub proof fn lemma_bit_value_single_bit(i: u64)
    requires
        i < 64,
    ensures
        bit_value(i as int) != 0,
        bit_value(i as int) & ((bit_value(i as int) - 1) as u64) == 0,
{
    assert((1u64 << i) != 0 && ((1u64 << i) & (((1u64 << i) - 1) as u64)) == 0) by (bit_vector)
        requires
            i < 64,
    ;
}

/// The law of a generated constant set: the constant at position `i` holds
/// the value `1 << i`, and any two constants at different positions hold
/// distinct values.
pub proof fn lemma_generated_values_distinct(
    names: Seq<Seq<char>>,
    consts: Seq<BitConstant>,
    i: int,
    j: int,
)
    requires
        generated(names, consts),
        consts.len() <= 64,
        0 <= i < consts.len(),
        0 <= j < consts.len(),
        i != j,
    ensures
        consts[i].value == bit_value(i),
        consts[i].value != consts[j].value,
{
    lemma_bit_values_distinct(i as u64, j as u64);
}

} // verus!
