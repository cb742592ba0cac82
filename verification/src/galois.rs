use crate::tables::{MULTIPLICANDS, TABLE};
use vstd::prelude::*;

verus! {

/// The product of a byte with the polynomial `x` in GF(2^8), reduced by the
/// AES polynomial x^8 + x^4 + x^3 + x + 1.
pub open spec fn xtime(b: u8) -> u8 {
    if b & 0x80 == 0 {
        b << 1
    } else {
        (b << 1) ^ 0x1b
    }
}

/// The product of two bytes in GF(2^8) under the AES reduction polynomial.
///
/// The first factor is taken bit by bit: `a * b = (a mod 2) * b + x * ((a div 2) * b)`.
pub open spec fn gf_mul(a: u8, b: u8) -> u8
    decreases a,
{
    if a == 0 {
        0
    } else if a == 1 {
        b
    } else if a % 2 == 0 {
        xtime(gf_mul(a / 2, b))
    } else {
        xtime(gf_mul(a / 2, b)) ^ b
    }
}

/// Whether a multiplication table exists for `n`.
pub open spec fn has_table(n: u8) -> bool {
    n == 2 || n == 3 || n == 9 || n == 11 || n == 13 || n == 14
}

/// Returns the row of `TABLE` that holds the products with `n`.
pub fn table_index(n: u8) -> (index: usize)
    requires
        has_table(n),
    ensures
        index < 6,
        MULTIPLICANDS[index as int] == n,
{
    match n {
        2 => 0,
        3 => 1,
        9 => 2,
        11 => 3,
        13 => 4,
        _ => 5,
    }
}

/// Multiplies `m` by `n` in GF(2^8). Multiplying by 1 touches no table; any
/// other multiplicand is looked up in its table.
pub fn gmul(n: u8, m: u8) -> (product: u8)
    requires
        n == 1 || has_table(n),
    ensures
        product == gf_mul(n, m),
{
    match n {
        1 => m,
        _ => {
            let index = table_index(n);
            proof {
                lemma_table_products(index as int, m);
            }
            TABLE[index][m as usize]
        },
    }
}

/// Every entry of every multiplication table is the GF(2^8) product it stands for.
pub proof fn lemma_table_products(k: int, m: u8)
    requires
        0 <= k < 6,
    ensures
        TABLE[k][m as int] == gf_mul(MULTIPLICANDS[k], m),
{
    let x = bits_of(m);
    lemma_value_of_bits(m);
    lemma_bits_of_mul(MULTIPLICANDS[k], m);
    lemma_value_of_bits(gf_mul(MULTIPLICANDS[k], m));
    if k == 0 {
        lemma_table_2(x);
    } else if k == 1 {
        lemma_table_3(x);
    } else if k == 2 {
        lemma_table_9(x);
    } else if k == 3 {
        lemma_table_11(x);
    } else if k == 4 {
        lemma_table_13(x);
    } else {
        lemma_table_14(x);
    }
}

/// Doubling in GF(2^8) distributes over XOR.
proof fn lemma_xtime_distributes(x: u8, y: u8)
    ensures
        xtime(x ^ y) == xtime(x) ^ xtime(y),
{
    assert(xtime(x ^ y) == xtime(x) ^ xtime(y)) by (bit_vector);
}

/// Multiplication in GF(2^8) distributes over XOR.
pub proof fn lemma_gf_mul_distributes(a: u8, x: u8, y: u8)
    ensures
        gf_mul(a, x ^ y) == gf_mul(a, x) ^ gf_mul(a, y),
    decreases a,
{
    if a == 0 {
        assert(0u8 ^ 0u8 == 0u8) by (bit_vector);
    } else if a >= 2 {
        let p = gf_mul(a / 2, x);
        let q = gf_mul(a / 2, y);
        lemma_gf_mul_distributes(a / 2, x, y);
        lemma_xtime_distributes(p, q);
        if a % 2 == 1 {
            let tp = xtime(p);
            let tq = xtime(q);
            assert((tp ^ tq) ^ (x ^ y) == (tp ^ x) ^ (tq ^ y)) by (bit_vector);
        }
    }
}

/// A byte taken apart into its eight bits, least significant first. On bits
/// the field operations are plain boolean formulas, which lets a table be
/// checked against `gf_mul` entry by entry.
struct Bits {
    b0: bool,
    b1: bool,
    b2: bool,
    b3: bool,
    b4: bool,
    b5: bool,
    b6: bool,
    b7: bool,
}

spec fn weight(b: bool, w: int) -> int {
    if b {
        w
    } else {
        0
    }
}

spec fn value(x: Bits) -> int {
    weight(x.b0, 1) + weight(x.b1, 2) + weight(x.b2, 4) + weight(x.b3, 8) + weight(x.b4, 16)
        + weight(x.b5, 32) + weight(x.b6, 64) + weight(x.b7, 128)
}

spec fn bit(m: u8, i: u8) -> bool {
    (m >> i) & 1 == 1
}

spec fn bits_of(m: u8) -> Bits {
    Bits {
        b0: bit(m, 0),
        b1: bit(m, 1),
        b2: bit(m, 2),
        b3: bit(m, 3),
        b4: bit(m, 4),
        b5: bit(m, 5),
        b6: bit(m, 6),
        b7: bit(m, 7),
    }
}

spec fn bits_xtime(x: Bits) -> Bits {
    Bits {
        b0: x.b7,
        b1: x.b0 != x.b7,
        b2: x.b1,
        b3: x.b2 != x.b7,
        b4: x.b3 != x.b7,
        b5: x.b4,
        b6: x.b5,
        b7: x.b6,
    }
}

spec fn bits_xor(x: Bits, y: Bits) -> Bits {
    Bits {
        b0: x.b0 != y.b0,
        b1: x.b1 != y.b1,
        b2: x.b2 != y.b2,
        b3: x.b3 != y.b3,
        b4: x.b4 != y.b4,
        b5: x.b5 != y.b5,
        b6: x.b6 != y.b6,
        b7: x.b7 != y.b7,
    }
}

spec fn bits_mul(a: u8, x: Bits) -> Bits
    decreases a,
{
    if a == 0 {
        bits_of(0)
    } else if a == 1 {
        x
    } else if a % 2 == 0 {
        bits_xtime(bits_mul(a / 2, x))
    } else {
        bits_xor(bits_xtime(bits_mul(a / 2, x)), x)
    }
}

proof fn lemma_value_of_bits(m: u8)
    ensures
        value(bits_of(m)) == m,
{
    assert(weight(bit(m, 0), 1) + weight(bit(m, 1), 2) + weight(bit(m, 2), 4) + weight(
        bit(m, 3),
        8,
    ) + weight(bit(m, 4), 16) + weight(bit(m, 5), 32) + weight(bit(m, 6), 64) + weight(
        bit(m, 7),
        128,
    ) == m) by (bit_vector);
}

proof fn lemma_bits_of_xtime(m: u8)
    ensures
        bits_of(xtime(m)) == bits_xtime(bits_of(m)),
{
    assert(bit(xtime(m), 0) == bit(m, 7) && bit(xtime(m), 1) == (bit(m, 0) != bit(m, 7)) && bit(
        xtime(m),
        2,
    ) == bit(m, 1) && bit(xtime(m), 3) == (bit(m, 2) != bit(m, 7)) && bit(xtime(m), 4) == (bit(
        m,
        3,
    ) != bit(m, 7)) && bit(xtime(m), 5) == bit(m, 4) && bit(xtime(m), 6) == bit(m, 5) && bit(
        xtime(m),
        7,
    ) == bit(m, 6)) by (bit_vector);
}

proof fn lemma_bits_of_xor(x: u8, y: u8)
    ensures
        bits_of(x ^ y) == bits_xor(bits_of(x), bits_of(y)),
{
    assert(forall|i: u8| i < 8 ==> bit(x ^ y, i) == (bit(x, i) != bit(y, i))) by (bit_vector);
}

proof fn lemma_bits_of_mul(a: u8, m: u8)
    ensures
        bits_of(gf_mul(a, m)) == bits_mul(a, bits_of(m)),
    decreases a,
{
    if a >= 2 {
        lemma_bits_of_mul(a / 2, m);
        lemma_bits_of_xtime(gf_mul(a / 2, m));
        if a % 2 == 1 {
            lemma_bits_of_xor(xtime(gf_mul(a / 2, m)), m);
        }
    }
}

#[verifier::rlimit(50)]
proof fn lemma_table_2(x: Bits)
    ensures
        TABLE[0][value(x)] == value(bits_mul(2, x)),
{
    reveal_with_fuel(bits_mul, 2);
}

#[verifier::rlimit(50)]
proof fn lemma_table_3(x: Bits)
    ensures
        TABLE[1][value(x)] == value(bits_mul(3, x)),
{
    reveal_with_fuel(bits_mul, 2);
}

#[verifier::rlimit(50)]
proof fn lemma_table_9(x: Bits)
    ensures
        TABLE[2][value(x)] == value(bits_mul(9, x)),
{
    reveal_with_fuel(bits_mul, 4);
}

#[verifier::rlimit(50)]
proof fn lemma_table_11(x: Bits)
    ensures
        TABLE[3][value(x)] == value(bits_mul(11, x)),
{
    reveal_with_fuel(bits_mul, 4);
}

#[verifier::rlimit(50)]
proof fn lemma_table_13(x: Bits)
    ensures
        TABLE[4][value(x)] == value(bits_mul(13, x)),
{
    reveal_with_fuel(bits_mul, 4);
}

#[verifier::rlimit(50)]
proof fn lemma_table_14(x: Bits)
    ensures
        TABLE[5][value(x)] == value(bits_mul(14, x)),
{
    reveal_with_fuel(bits_mul, 4);
}

} // verus!
