use vstd::prelude::*;

verus! {

/// An unsigned integer written the way `typenum` describes one: the least
/// significant bit in the outermost node, `Term` once all higher bits are zero.
pub enum TypenumUint {
    Lsb(Box<TypenumUint>, bool),
    Term,
}

impl TypenumUint {
    /// The integer that a bit-list stands for.
    pub open spec fn value(self) -> nat
        decreases self,
    {
        match self {
            TypenumUint::Term => 0,
            TypenumUint::Lsb(high, bit) => 2 * (*high).value() + if bit { 1nat } else { 0nat },
        }
    }

    /// No node holds a zero that only zeros follow: the representation is minimal.
    pub open spec fn canonical(self) -> bool
        decreases self,
    {
        match self {
            TypenumUint::Term => true,
            TypenumUint::Lsb(high, bit) => (*high).canonical() && ((*high).value() > 0 || bit),
        }
    }

    /// The number of bit nodes above the terminator.
    pub open spec fn depth(self) -> nat
        decreases self,
    {
        match self {
            TypenumUint::Term => 0,
            TypenumUint::Lsb(high, _) => 1 + (*high).depth(),
        }
    }
}

/// The bit-list of `x`: `Term` for zero, else the bits of `x / 2` under the low bit.
pub open spec fn encode(x: nat) -> TypenumUint
    decreases x,
{
    if x == 0 {
        TypenumUint::Term
    } else {
        TypenumUint::Lsb(Box::new(encode(x / 2)), x % 2 == 1)
    }
}

/// Decoding the encoding of `x` gives `x` back, and the encoding is minimal.
pub proof fn lemma_encode_round_trip(x: nat)
    ensures
        encode(x).value() == x,
        encode(x).canonical(),
    decreases x,
{
    if x > 0 {
        lemma_encode_round_trip(x / 2);
    }
}

/// A minimal bit-list is the encoding of the integer it stands for.
pub proof fn lemma_canonical_is_encoding(t: TypenumUint)
    requires
        t.canonical(),
    ensures
        encode(t.value()) == t,
    decreases t,
{
    match t {
        TypenumUint::Term => {},
        TypenumUint::Lsb(high, bit) => {
            lemma_canonical_is_encoding(*high);
            let v = t.value();
            assert(v > 0);
            assert(v / 2 == (*high).value());
            assert((v % 2 == 1) == bit);
        },
    }
}

/// The encoding of `x` has one bit node per binary digit of `x`: fewer than `k`
/// nodes when `x < 2^k`.
pub proof fn lemma_encode_depth(x: nat, k: nat)
    requires
        x < pow2(k),
    ensures
        encode(x).depth() <= k,
    decreases x,
{
    if x > 0 {
        assert(k > 0) by {
            if k == 0 {
                vstd::arithmetic::power2::lemma2_to64();
            }
        };
        vstd::arithmetic::power2::lemma_pow2_unfold(k);
        lemma_encode_depth(x / 2, (k - 1) as nat);
    }
}

/// The encoding of `x` has exactly as many bit nodes as `x` has binary digits:
/// `x < 2^d`, and `2^(d-1) <= x` when `d > 0`, for `d` its depth.
pub proof fn lemma_encode_depth_exact(x: nat)
    ensures
        x < pow2(encode(x).depth()),
        encode(x).depth() > 0 ==> pow2((encode(x).depth() - 1) as nat) <= x,
    decreases x,
{
    let d = encode(x).depth();
    if x == 0 {
        vstd::arithmetic::power2::lemma2_to64();
    } else {
        lemma_encode_depth_exact(x / 2);
        let d1 = encode(x / 2).depth();
        assert(d == d1 + 1);
        vstd::arithmetic::power2::lemma_pow2_unfold(d);
        assert(pow2(d) == 2 * pow2(d1));
        if d1 > 0 {
            vstd::arithmetic::power2::lemma_pow2_unfold(d1);
            assert(pow2(d1) == 2 * pow2((d1 - 1) as nat));
        } else {
            vstd::arithmetic::power2::lemma2_to64();
        }
    }
}

pub open spec fn pow2(k: nat) -> nat {
    vstd::arithmetic::power2::pow2(k)
}

impl TypenumUint {
    /// Builds the bit-list of `x`.
    pub fn from_u128(x: u128) -> (r: TypenumUint)
        ensures
            r == encode(x as nat),
            r.value() == x,
            r.canonical(),
            r.depth() <= 128,
            x < pow2(r.depth()),
            r.depth() > 0 ==> pow2((r.depth() - 1) as nat) <= x,
            (r is Term) <==> x == 0,
        decreases x,
    {
        proof {
            lemma_encode_round_trip(x as nat);
            vstd::arithmetic::power2::lemma2_to64_rest();
            vstd::arithmetic::power2::lemma_pow2_adds(64, 64);
            assert(pow2(128) == 0x1_0000_0000_0000_0000_0000_0000_0000_0000nat);
            lemma_encode_depth(x as nat, 128);
            lemma_encode_depth_exact(x as nat);
        }
        if x == 0 {
            TypenumUint::Term
        } else {
            assert(x >> 1 == x / 2) by (bit_vector);
            assert((x & 1) != 0 <==> x % 2 == 1) by (bit_vector);
            let high = TypenumUint::from_u128(x >> 1);
            TypenumUint::Lsb(Box::new(high), (x & 1) != 0)
        }
    }
}

} // verus!
