use vstd::prelude::*;

verus! {

/// Greatest common divisor, by Euclid's algorithm.
pub open spec fn spec_gcd(a: nat, b: nat) -> nat
    decreases b,
{
    if b == 0 {
        a
    } else {
        spec_gcd(b, a % b)
    }
}

/// The greatest common divisor divides both of its arguments.
pub proof fn lemma_gcd_divides(a: nat, b: nat)
    ensures
        b == 0 ==> spec_gcd(a, b) == a,
        a > 0 || b > 0 ==> spec_gcd(a, b) > 0,
        spec_gcd(a, b) > 0 ==> a % spec_gcd(a, b) == 0 && b % spec_gcd(a, b) == 0,
    decreases b,
{
    if b != 0 {
        lemma_gcd_divides(b, a % b);
        let g = spec_gcd(b, a % b);
        if g > 0 {
            // a == (a / b) * b + a % b, and g divides both b and a % b
            vstd::arithmetic::div_mod::lemma_fundamental_div_mod(a as int, b as int);
            let q = a as int / b as int;
            vstd::arithmetic::div_mod::lemma_fundamental_div_mod(b as int, g as int);
            vstd::arithmetic::div_mod::lemma_fundamental_div_mod((a % b) as int, g as int);
            let kb = b as int / g as int;
            let kr = (a % b) as int / g as int;
            assert(a as int == (q * kb + kr) * g) by (nonlinear_arith)
                requires
                    a as int == q * b + (a % b) as int,
                    b as int == g * kb,
                    (a % b) as int == g * kr,
            ;
            vstd::arithmetic::div_mod::lemma_mod_multiples_basic(q * kb + kr, g as int);
        }
    }
}

/// The greatest common divisor of `a` and `b`; `gcd(a, 0) == a`.
pub fn gcd(a: u32, b: u32) -> (r: u32)
    ensures
        r == spec_gcd(a as nat, b as nat),
{
    let ghost (a0, b0) = (a as nat, b as nat);
    let mut a = a;
    let mut b = b;
    while b != 0
        invariant
            spec_gcd(a as nat, b as nat) == spec_gcd(a0, b0),
        decreases b,
    {
        let r = a % b;
        a = b;
        b = r;
    }
    a
}

/// `[width, height]` divided by their greatest common divisor, the ratio in
/// lowest terms. A size with a side that is not positive has no ratio to reduce
/// and comes back as it is.
pub fn reduced_ratio(size: [i32; 2]) -> (r: [i32; 2])
    ensures
        size[0] <= 0 || size[1] <= 0 ==> r == size,
        size[0] > 0 && size[1] > 0 ==> ({
            let g = spec_gcd(size[0] as nat, size[1] as nat) as int;
            &&& g > 0
            &&& r[0] == size[0] as int / g
            &&& r[1] == size[1] as int / g
            &&& r[0] * g == size[0]
            &&& r[1] * g == size[1]
        }),
{
    if size[0] <= 0 || size[1] <= 0 {
        return size;
    }
    let width = size[0] as u32;
    let height = size[1] as u32;
    let g = gcd(width, height);
    proof {
        lemma_gcd_divides(width as nat, height as nat);
        vstd::arithmetic::div_mod::lemma_fundamental_div_mod(width as int, g as int);
        vstd::arithmetic::div_mod::lemma_fundamental_div_mod(height as int, g as int);
        vstd::arithmetic::div_mod::lemma_div_is_ordered_by_denominator(width as int, 1, g as int);
        vstd::arithmetic::div_mod::lemma_div_is_ordered_by_denominator(height as int, 1, g as int);
    }
    [(width / g) as i32, (height / g) as i32]
}

} // verus!
