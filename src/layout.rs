use vstd::arithmetic::div_mod::lemma_div_decreases;
use vstd::arithmetic::power::pow;
use vstd::prelude::*;

use crate::error::{Feature, FsError};
use crate::superblock::{COMPAT_SPARSE_SUPER2, RO_COMPAT_SPARSE_SUPER};

verus! {

/// Whether `g` is `base`, `base * base`, `base * base * base`, ...
pub open spec fn is_power_of(g: nat, base: nat) -> bool
    decreases g,
{
    if base < 2 || g < base {
        false
    } else if g == base {
        true
    } else if g % base != 0 {
        false
    } else {
        proof {
            lemma_div_decreases(g as int, base as int);
        }
        is_power_of(g / base, base)
    }
}

/// Whether block group `g` carries its own copy of the superblock and of
/// the group descriptor table, given the compatible and read-only
/// compatible feature words of the superblock.
pub open spec fn spec_group_has_backup(compat: u32, ro_compat: u32, g: nat) -> Result<bool, FsError> {
    if g == 0 {
        Ok(true)
    } else if compat & COMPAT_SPARSE_SUPER2 != 0 {
        Err(FsError::UnsupportedFeature(Feature::SparseSuper2))
    } else if g <= 1 || ro_compat & RO_COMPAT_SPARSE_SUPER == 0 {
        Ok(true)
    } else if g % 2 == 0 {
        Ok(false)
    } else {
        Ok(is_power_of(g, 3) || is_power_of(g, 5) || is_power_of(g, 7))
    }
}

/// `is_power_of` says exactly that `g` is a positive power of `base`.
pub proof fn lemma_power_of_iff_pow(g: nat, base: nat)
    requires
        base >= 2,
    ensures
        is_power_of(g, base) <==> exists|k: nat| k >= 1 && pow(base as int, k) == g,
    decreases g,
{
    if is_power_of(g, base) {
        if g == base {
            assert(pow(base as int, 1) == base) by {
                vstd::arithmetic::power::lemma_pow1(base as int);
            }
        } else {
            let q = g / base;
            lemma_div_decreases(g as int, base as int);
            lemma_power_of_iff_pow(q, base);
            let k = choose|k: nat| k >= 1 && pow(base as int, k) == q;
            vstd::arithmetic::power::lemma_pow_adds(base as int, 1, k);
            vstd::arithmetic::power::lemma_pow1(base as int);
            assert(g == base * q) by (nonlinear_arith)
                requires g % base == 0, q == g / base, base >= 2;
            assert(pow(base as int, (k + 1) as nat) == g);
        }
    } else {
        if exists|k: nat| k >= 1 && pow(base as int, k) == g {
            let k = choose|k: nat| k >= 1 && pow(base as int, k) == g;
            lemma_pow_is_power_of(k, base);
        }
    }
}

proof fn lemma_pow_is_power_of(k: nat, base: nat)
    requires
        base >= 2,
        k >= 1,
    ensures
        is_power_of(pow(base as int, k) as nat, base),
    decreases k,
{
    vstd::arithmetic::power::lemma_pow_positive(base as int, k);
    if k == 1 {
        vstd::arithmetic::power::lemma_pow1(base as int);
    } else {
        let km = (k - 1) as nat;
        lemma_pow_is_power_of(km, base);
        vstd::arithmetic::power::lemma_pow_adds(base as int, 1, km);
        vstd::arithmetic::power::lemma_pow1(base as int);
        vstd::arithmetic::power::lemma_pow_positive(base as int, km);
        let p = pow(base as int, km);
        let g = pow(base as int, k);
        assert(g == base * p);
        assert(p >= base) by {
            vstd::arithmetic::power::lemma_pow_increases(base as nat, 1, km);
        }
        assert(g > base && g % base as int == 0 && g / base as int == p) by (nonlinear_arith)
            requires g == base * p, p >= base, base >= 2;
    }
}

/// Repeatedly divides `a` by `base`: true when that ends exactly at one.
fn test_root(a: u32, base: u32) -> (r: bool)
    requires
        base >= 2,
    ensures
        r == is_power_of(a as nat, base as nat),
{
    let mut x: u32 = a;
    loop
        invariant
            base >= 2,
            is_power_of(a as nat, base as nat) == is_power_of(x as nat, base as nat),
        decreases x,
    {
        if x < base {
            return false;
        } else if x == base {
            return true;
        } else if x % base != 0 {
            return false;
        }
        proof {
            lemma_div_decreases(x as int, base as int);
        }
        x = x / base;
    }
}

/// Whether block group `g` carries its own copy of the superblock and of
/// the group descriptor table.
pub fn group_has_backup(compat: u32, ro_compat: u32, g: u32) -> (r: Result<bool, FsError>)
    ensures
        r == spec_group_has_backup(compat, ro_compat, g as nat),
{
    if g == 0 {
        Ok(true)
    } else if compat & COMPAT_SPARSE_SUPER2 != 0 {
        Err(FsError::UnsupportedFeature(Feature::SparseSuper2))
    } else if g <= 1 || ro_compat & RO_COMPAT_SPARSE_SUPER == 0 {
        Ok(true)
    } else if g & 1 == 0 {
        assert(g & 1 == g % 2) by (bit_vector);
        Ok(false)
    } else {
        assert(g & 1 == g % 2) by (bit_vector);
        Ok(test_root(g, 3) || test_root(g, 5) || test_root(g, 7))
    }
}

/// Group 0 always holds the primary superblock and descriptor table.
pub proof fn lemma_group_zero_has_backup(compat: u32, ro_compat: u32)
    ensures
        spec_group_has_backup(compat, ro_compat, 0) == Ok::<bool, FsError>(true),
{
}

/// With sparse superblocks (and not their second version), no even group
/// after group 0 holds a backup.
pub proof fn lemma_even_group_has_no_backup(compat: u32, ro_compat: u32, g: nat)
    requires
        compat & COMPAT_SPARSE_SUPER2 == 0,
        ro_compat & RO_COMPAT_SPARSE_SUPER != 0,
        g > 1,
        g % 2 == 0,
    ensures
        spec_group_has_backup(compat, ro_compat, g) == Ok::<bool, FsError>(false),
{
}

/// With sparse superblocks (and not their second version), an odd group
/// holds a backup exactly when its number is a power of 3, 5 or 7.
pub proof fn lemma_odd_group_backup(compat: u32, ro_compat: u32, g: nat)
    requires
        compat & COMPAT_SPARSE_SUPER2 == 0,
        ro_compat & RO_COMPAT_SPARSE_SUPER != 0,
        g % 2 == 1,
    ensures
        spec_group_has_backup(compat, ro_compat, g) == Ok::<bool, FsError>(
            exists|k: nat| pow(3, k) == g || pow(5, k) == g || pow(7, k) == g,
        ),
{
    let p = exists|k: nat| pow(3, k) == g || pow(5, k) == g || pow(7, k) == g;
    if g == 1 {
        assert(pow(3, 0) == 1) by {
            vstd::arithmetic::power::lemma_pow0(3);
        }
        assert(p);
    } else {
        lemma_power_of_iff_pow(g, 3);
        lemma_power_of_iff_pow(g, 5);
        lemma_power_of_iff_pow(g, 7);
        vstd::arithmetic::power::lemma_pow0(3);
        vstd::arithmetic::power::lemma_pow0(5);
        vstd::arithmetic::power::lemma_pow0(7);
        if p {
            let k = choose|k: nat| pow(3, k) == g || pow(5, k) == g || pow(7, k) == g;
            assert(k >= 1);
            if pow(3, k) == g {
                assert(is_power_of(g, 3));
            } else if pow(5, k) == g {
                assert(is_power_of(g, 5));
            } else {
                assert(is_power_of(g, 7));
            }
        } else {
            assert(!is_power_of(g, 3));
            assert(!is_power_of(g, 5));
            assert(!is_power_of(g, 7));
        }
    }
}

} // verus!
