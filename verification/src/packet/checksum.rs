use vstd::prelude::*;
use vstd::arithmetic::div_mod::lemma_add_mod_noop;
use vstd::arithmetic::div_mod::lemma_fundamental_div_mod;
use vstd::arithmetic::div_mod::lemma_mod_multiples_vanish;
use vstd::arithmetic::div_mod::lemma_small_mod;

verus! {

/// Sum, as an unbounded natural number, of the big-endian 16-bit words
/// of `s` starting at byte index `i`; a trailing odd byte is padded
/// with a zero low byte.
pub open spec fn word_sum_from(s: Seq<u8>, i: int) -> nat
    decreases s.len() - i,
{
    if i < 0 || i >= s.len() {
        0
    } else if i + 1 == s.len() {
        (s[i] as nat) * 256
    } else {
        (s[i] as nat) * 256 + (s[i + 1] as nat) + word_sum_from(s, i + 2)
    }
}

/// Sum of all big-endian 16-bit words of `s`.
pub open spec fn word_sum(s: Seq<u8>) -> nat {
    word_sum_from(s, 0)
}

/// End-around carry folding: add the carry bits above the low 16 bits
/// back into the low 16 bits until the value fits in 16 bits.
pub open spec fn fold_carries(x: nat) -> nat
    decreases x,
{
    if x < 0x10000 {
        x
    } else {
        fold_carries((x % 0x10000 + x / 0x10000) as nat)
    }
}

/// The internet checksum of a byte sequence: the ones' complement of
/// the end-around-carry folded sum of its big-endian 16-bit words.
pub open spec fn checksum_spec(s: Seq<u8>) -> u16 {
    (0xFFFF - fold_carries(word_sum(s))) as u16
}

pub proof fn lemma_fold_bound(x: nat)
    ensures
        fold_carries(x) < 0x10000,
    decreases x,
{
    if x >= 0x10000 {
        lemma_fundamental_div_mod(x as int, 0x10000);
        lemma_fold_bound((x % 0x10000 + x / 0x10000) as nat);
    }
}

pub proof fn lemma_fold_pos(x: nat)
    ensures
        x > 0 ==> fold_carries(x) > 0,
    decreases x,
{
    if x >= 0x10000 {
        lemma_fundamental_div_mod(x as int, 0x10000);
        lemma_fold_pos((x % 0x10000 + x / 0x10000) as nat);
    }
}

/// Folding preserves the value modulo 0xFFFF, because 0x10000 is
/// congruent to 1 modulo 0xFFFF.
pub proof fn lemma_fold_mod(x: nat)
    ensures
        fold_carries(x) % 0xFFFF == x % 0xFFFF,
    decreases x,
{
    if x >= 0x10000 {
        let q = x / 0x10000;
        let r = x % 0x10000;
        let y = (r + q) as nat;
        lemma_fundamental_div_mod(x as int, 0x10000);
        assert(x == 0xFFFF * (q as int) + (y as int));
        lemma_fold_mod(y);
        lemma_mod_multiples_vanish(q as int, y as int, 0xFFFF);
    }
}

/// A 16-bit value is pinned down by its residue modulo 0xFFFF together
/// with whether it is zero (0 and 0xFFFF share the residue 0).
proof fn lemma_fold_unique(a: nat, b: nat)
    requires
        a < 0x10000,
        b < 0x10000,
        a % 0xFFFF == b % 0xFFFF,
        (a == 0) <==> (b == 0),
    ensures
        a == b,
{
    if a != 0 && a < 0xFFFF {
        lemma_small_mod(a, 0xFFFF);
    }
    if b != 0 && b < 0xFFFF {
        lemma_small_mod(b, 0xFFFF);
    }
}

/// Folding an already folded accumulator before adding more words
/// gives the same result as folding the whole sum at once.
pub proof fn lemma_fold_add(x: nat, y: nat)
    ensures
        fold_carries((fold_carries(x) + y) as nat) == fold_carries((x + y) as nat),
{
    let fx = fold_carries(x);
    let a = fold_carries((fx + y) as nat);
    let b = fold_carries((x + y) as nat);
    lemma_fold_bound(x);
    lemma_fold_bound((fx + y) as nat);
    lemma_fold_bound((x + y) as nat);
    lemma_fold_mod(x);
    lemma_fold_mod((fx + y) as nat);
    lemma_fold_mod((x + y) as nat);
    lemma_add_mod_noop(fx as int, y as int, 0xFFFF);
    lemma_add_mod_noop(x as int, y as int, 0xFFFF);
    lemma_fold_pos(x);
    lemma_fold_pos((fx + y) as nat);
    lemma_fold_pos((x + y) as nat);
    lemma_fold_unique(a, b);
}

/// One exec folding step equals the spec-level fold of the sum: for a
/// folded accumulator and one more word, a single carry fold suffices.
proof fn lemma_fold_step(a: nat, w: nat)
    requires
        a < 0x10000,
        w < 0x10000,
    ensures
        fold_carries((a + w) as nat) == (a + w) % 0x10000 + (a + w) / 0x10000,
        fold_carries((a + w) as nat) < 0x10000,
{
    let s = (a + w) as nat;
    lemma_fundamental_div_mod(s as int, 0x10000);
    if s < 0x10000 {
        lemma_small_mod(s, 0x10000);
        assert(s / 0x10000 == 0);
        assert(fold_carries(s) == s);
    } else {
        let y = (s % 0x10000 + s / 0x10000) as nat;
        assert(s / 0x10000 == 1);
        assert(y < 0x10000);
        assert(fold_carries(s) == fold_carries(y));
        assert(fold_carries(y) == y);
    }
}

/// The sums of two sequences agree from `i` on if their bytes do.
proof fn lemma_word_sum_from_agree(s: Seq<u8>, t: Seq<u8>, i: int)
    requires
        s.len() == t.len(),
        forall|j: int| i <= j < s.len() ==> s[j] == t[j],
    ensures
        word_sum_from(s, i) == word_sum_from(t, i),
    decreases s.len() - i,
{
    if 0 <= i && i + 1 < s.len() {
        lemma_word_sum_from_agree(s, t, i + 2);
    }
}

/// Writing the checksum of a buffer whose checksum field (bytes 2 and
/// 3) is zeroed back into that field makes the checksum of the whole
/// buffer zero.
pub proof fn lemma_checksum_inserted_is_zero(s: Seq<u8>)
    requires
        s.len() >= 4,
        s[2] == 0,
        s[3] == 0,
    ensures
        ({
            let c = checksum_spec(s);
            let t = s.update(2, (c / 256) as u8).update(3, (c % 256) as u8);
            checksum_spec(t) == 0
        }),
{
    let sum = word_sum(s);
    let f = fold_carries(sum);
    lemma_fold_bound(sum);
    let c = checksum_spec(s);
    assert(c == 0xFFFF - f);
    let t = s.update(2, (c / 256) as u8).update(3, (c % 256) as u8);

    // The updated buffer adds exactly the word `c` at word position 1.
    lemma_fundamental_div_mod(c as int, 256);
    assert(c / 256 < 256);
    lemma_word_sum_from_agree(s, t, 4);
    assert(word_sum(t) == sum + c) by {
        assert(word_sum_from(s, 2) == 0 + word_sum_from(s, 4));
        assert(word_sum_from(t, 2) == (t[2] as nat) * 256 + (t[3] as nat) + word_sum_from(t, 4));
        assert((t[2] as nat) * 256 + (t[3] as nat) == c);
        assert(word_sum_from(s, 0) == (s[0] as nat) * 256 + (s[1] as nat) + word_sum_from(s, 2));
        assert(word_sum_from(t, 0) == (t[0] as nat) * 256 + (t[1] as nat) + word_sum_from(t, 2));
    };

    // sum + c is congruent to 0xFFFF modulo 0xFFFF and positive, so it
    // folds to exactly 0xFFFF, whose complement is zero.
    lemma_fold_mod(sum);
    lemma_fold_mod((sum + c) as nat);
    lemma_add_mod_noop(sum as int, c as int, 0xFFFF);
    lemma_add_mod_noop(f as int, c as int, 0xFFFF);
    assert((sum + c) % 0xFFFF == (f + c) % 0xFFFF);
    assert((f + c) % 0xFFFF == 0);
    lemma_fold_pos(sum);
    lemma_fold_pos((sum + c) as nat);
    if f == 0xFFFF {
        // Then c is 0, and sum is positive since its fold is.
        assert(sum > 0);
    }
    assert(sum + c > 0);
    let g = fold_carries((sum + c) as nat);
    lemma_fold_bound((sum + c) as nat);
    assert(g % 0xFFFF == 0);
    assert(g > 0);
    if g < 0xFFFF {
        lemma_small_mod(g, 0xFFFF);
    }
    assert(g == 0xFFFF);
}

/// Computes the internet checksum: the ones' complement of the
/// end-around-carry sum of the big-endian 16-bit words of `data`, a
/// trailing odd byte padded with zero.
pub fn checksum(data: &[u8]) -> (r: u16)
    ensures
        r == checksum_spec(data@),
{
    let n: usize = data.len();
    let mut acc: u32 = 0;
    let mut i: usize = 0;
    while i + 1 < n
        invariant
            n == data@.len(),
            i <= n,
            i % 2 == 0,
            acc < 0x10000,
            fold_carries((acc + word_sum_from(data@, i as int)) as nat) == fold_carries(
                word_sum(data@),
            ),
        decreases n - i,
    {
        let w: u32 = (data[i] as u32) * 256 + (data[i + 1] as u32);
        let sum: u32 = acc + w;
        proof {
            lemma_fold_step(acc as nat, w as nat);
            lemma_fold_add((acc + w) as nat, word_sum_from(data@, i as int + 2));
            assert(word_sum_from(data@, i as int) == w + word_sum_from(data@, i as int + 2));
        }
        acc = sum % 0x10000 + sum / 0x10000;
        i = i + 2;
    }
    if i < n {
        // Trailing odd byte, padded with a zero low byte.
        let w: u32 = (data[i] as u32) * 256;
        let sum: u32 = acc + w;
        proof {
            lemma_fold_step(acc as nat, w as nat);
            assert(word_sum_from(data@, i as int) == w);
        }
        acc = sum % 0x10000 + sum / 0x10000;
    }
    proof {
        assert(acc == fold_carries(word_sum(data@)));
    }
    let r32: u32 = 0xFFFF - acc;
    r32 as u16
}

} // verus!
