//! The additive checksum reported when a firmware image is written to flash.

use vstd::prelude::*;

verus! {

/// The sum of the bytes of `s`.
pub open spec fn byte_sum(s: Seq<u8>) -> nat
    decreases s.len(),
{
    if s.len() == 0 {
        0
    } else {
        byte_sum(s.drop_last()) + s.last() as nat
    }
}

/// The checksum of `s`: the sum of its bytes modulo 2^32.
pub open spec fn checksum_of(s: Seq<u8>) -> u32 {
    (byte_sum(s) % 0x1_0000_0000) as u32
}

/// The checksum of `image`: the sum of its bytes, wrapping at 2^32.
pub fn flash_checksum(image: &[u8]) -> (c: u32)
    ensures
        c == checksum_of(image@),
        image@.len() == 0 ==> c == 0,
        image@.len() == 1 ==> c == image@[0] as u32,
{
    let mut acc: u32 = 0;
    let mut i: usize = 0;
    while i < image.len()
        invariant
            i <= image@.len(),
            acc == checksum_of(image@.take(i as int)),
        decreases image@.len() - i,
    {
        let ghost before = image@.take(i as int);
        let ghost after = image@.take(i + 1);
        assert(after.drop_last() =~= before);
        let b = image[i];
        proof {
            vstd::arithmetic::div_mod::lemma_add_mod_noop(
                byte_sum(before) as int,
                b as int,
                0x1_0000_0000,
            );
            vstd::arithmetic::div_mod::lemma_small_mod(b as nat, 0x1_0000_0000);
            vstd::arithmetic::div_mod::lemma_mod_bound(byte_sum(before) as int, 0x1_0000_0000);
            if acc + b >= 0x1_0000_0000 {
                vstd::arithmetic::div_mod::lemma_mod_self_0(0x1_0000_0000);
                vstd::arithmetic::div_mod::lemma_add_mod_noop(
                    (acc + b - 0x1_0000_0000) as int,
                    0x1_0000_0000,
                    0x1_0000_0000,
                );
                vstd::arithmetic::div_mod::lemma_small_mod(
                    (acc + b - 0x1_0000_0000) as nat,
                    0x1_0000_0000,
                );
            } else {
                vstd::arithmetic::div_mod::lemma_small_mod((acc + b) as nat, 0x1_0000_0000);
            }
        }
        acc = acc.wrapping_add(b as u32);
        i = i + 1;
    }
    assert(image@.take(i as int) =~= image@);
    proof {
        if image@.len() == 1 {
            assert(image@ =~= seq![image@[0]]);
            lemma_checksum_small(image@[0]);
        }
        lemma_checksum_small(0);
    }
    acc
}

/// The sum of the bytes of two pieces put together is the sum of their sums.
pub proof fn lemma_byte_sum_concat(a: Seq<u8>, b: Seq<u8>)
    ensures
        byte_sum(a + b) == byte_sum(a) + byte_sum(b),
    decreases b.len(),
{
    if b.len() == 0 {
        assert(a + b =~= a);
    } else {
        lemma_byte_sum_concat(a, b.drop_last());
        assert((a + b).drop_last() =~= a + b.drop_last());
    }
}

/// The checksum of an image is that of its first part plus that of the rest,
/// wrapping at 2^32: an image may be summed piece by piece.
pub proof fn lemma_checksum_concat(a: Seq<u8>, b: Seq<u8>)
    ensures
        checksum_of(a + b) == vstd::wrapping::u32_specs::wrapping_add(checksum_of(a), checksum_of(b)),
{
    lemma_byte_sum_concat(a, b);
    let m: int = 0x1_0000_0000;
    vstd::arithmetic::div_mod::lemma_add_mod_noop(byte_sum(a) as int, byte_sum(b) as int, m);
    let x = checksum_of(a);
    let y = checksum_of(b);
    vstd::arithmetic::div_mod::lemma_mod_bound(byte_sum(a) as int, m);
    vstd::arithmetic::div_mod::lemma_mod_bound(byte_sum(b) as int, m);
    if x + y >= m {
        vstd::arithmetic::div_mod::lemma_mod_self_0(m);
        vstd::arithmetic::div_mod::lemma_add_mod_noop(x + y - m, m, m);
        vstd::arithmetic::div_mod::lemma_small_mod((x + y - m) as nat, m as nat);
    } else {
        vstd::arithmetic::div_mod::lemma_small_mod((x + y) as nat, m as nat);
    }
}

/// Taking one byte out of a sequence takes its value off the sum.
proof fn lemma_byte_sum_remove(s: Seq<u8>, i: int)
    requires
        0 <= i < s.len(),
    ensures
        byte_sum(s) == byte_sum(s.remove(i)) + s[i],
{
    let front = s.take(i);
    let back = s.skip(i + 1);
    let one = seq![s[i]];
    assert(one.drop_last() =~= Seq::<u8>::empty());
    assert(byte_sum(one.drop_last()) == 0);
    assert(one.last() == s[i]);
    assert(byte_sum(one) == s[i]);
    assert(s =~= front + (one + back));
    assert(s.remove(i) =~= front + back);
    lemma_byte_sum_concat(one, back);
    lemma_byte_sum_concat(front, one + back);
    lemma_byte_sum_concat(front, back);
}

/// Sequences holding the same bytes, in any order, have the same sum.
proof fn lemma_byte_sum_reorder(a: Seq<u8>, b: Seq<u8>)
    requires
        a.to_multiset() == b.to_multiset(),
    ensures
        byte_sum(a) == byte_sum(b),
    decreases a.len(),
{
    broadcast use vstd::seq_lib::group_to_multiset_ensures;

    if a.len() == 0 {
        assert(b.to_multiset().len() == 0);
        assert(b =~= Seq::<u8>::empty());
    } else {
        let x = a.last();
        let rest = a.drop_last();
        assert(rest.push(x) =~= a);
        assert(a.to_multiset() =~= rest.to_multiset().insert(x));
        assert(b.to_multiset().count(x) > 0);
        assert(b.contains(x));
        let i = b.index_of(x);
        assert(b.remove(i).to_multiset() =~= b.to_multiset().remove(x));
        assert(rest.to_multiset() =~= rest.to_multiset().insert(x).remove(x));
        lemma_byte_sum_reorder(rest, b.remove(i));
        lemma_byte_sum_remove(b, i);
    }
}

/// The checksum does not depend on the order of the image's bytes: two
/// images holding the same bytes, each as many times, have one checksum.
pub proof fn lemma_checksum_reorder(a: Seq<u8>, b: Seq<u8>)
    requires
        a.to_multiset() == b.to_multiset(),
    ensures
        checksum_of(a) == checksum_of(b),
{
    lemma_byte_sum_reorder(a, b);
}

/// An empty image sums to 0, and one byte sums to its own value.
pub proof fn lemma_checksum_small(b: u8)
    ensures
        checksum_of(Seq::<u8>::empty()) == 0u32,
        checksum_of(seq![b]) == b as u32,
{
    let one = seq![b];
    assert(one.drop_last() =~= Seq::<u8>::empty());
    assert(byte_sum(one.drop_last()) == 0);
    assert(byte_sum(one) == b as nat);
    vstd::arithmetic::div_mod::lemma_small_mod(b as nat, 0x1_0000_0000);
    vstd::arithmetic::div_mod::lemma_small_mod(0, 0x1_0000_0000);
}

/// Appending a byte to an image adds its value to the checksum, wrapping at
/// 2^32: the checksum is the fold `acc.wrapping_add(b as u32)` from 0 over
/// the bytes in order.
pub proof fn lemma_checksum_push(s: Seq<u8>, b: u8)
    ensures
        checksum_of(s.push(b)) == vstd::wrapping::u32_specs::wrapping_add(checksum_of(s), b as u32),
        checksum_of(s.push(b)) as int == (checksum_of(s) as int + b as int) % 0x1_0000_0000,
{
    lemma_checksum_small(b);
    assert(s.push(b) =~= s + seq![b]);
    lemma_checksum_concat(s, seq![b]);
    let x = checksum_of(s) as int;
    if x + b >= 0x1_0000_0000 {
        vstd::arithmetic::div_mod::lemma_mod_self_0(0x1_0000_0000);
        vstd::arithmetic::div_mod::lemma_add_mod_noop(x + b - 0x1_0000_0000, 0x1_0000_0000, 0x1_0000_0000);
        vstd::arithmetic::div_mod::lemma_small_mod((x + b - 0x1_0000_0000) as nat, 0x1_0000_0000);
    } else {
        vstd::arithmetic::div_mod::lemma_small_mod((x + b) as nat, 0x1_0000_0000);
    }
}

} // verus!
