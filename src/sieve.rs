//! The primes up to a bound, by the sieve of Eratosthenes.
use vstd::prelude::*;
use vstd::arithmetic::div_mod::{lemma_mod_adds, lemma_mod_multiples_vanish, lemma_small_mod};

verus! {

pub open spec fn is_prime(n: int) -> bool {
    n >= 2 && forall|d: int| 2 <= d < n ==> #[trigger] (n % d) != 0
}

/// The primes from 2 to `n`, in increasing order.
pub open spec fn primes_upto(n: int) -> Seq<usize>
    decreases n,
{
    if n < 2 {
        seq![]
    } else if is_prime(n) {
        primes_upto(n - 1).push(n as usize)
    } else {
        primes_upto(n - 1)
    }
}

/// The primes from 2 to `upto`, in increasing order.
pub fn sieve_upto(upto: usize) -> (r: Result<Vec<usize>, &'static str>)
    ensures
        r matches Ok(v) && v@ == primes_upto(upto as int),
{
    if upto < 2 {
        return Ok(Vec::new());
    }
    // sieve[k] stands for the number k + 2: it stays true while no divisor
    // of that number has been seen.
    let mut sieve: Vec<bool> = Vec::new();
    let mut k: usize = 0;
    while k < upto - 1
        invariant
            upto >= 2,
            k <= upto - 1,
            sieve@.len() == k,
            forall|m: int| 0 <= m < k ==> #[trigger] sieve@[m],
        decreases upto - 1 - k,
    {
        sieve.push(true);
        k = k + 1;
    }
    let mut i: usize = 2;
    while i < upto
        invariant
            upto >= 2,
            2 <= i <= upto,
            sieve@.len() == upto - 1,
            forall|n: int| 2 <= n <= upto && !#[trigger] sieve@[n - 2] ==> !is_prime(n),
            forall|n: int, d: int|
                2 <= n <= upto && 2 <= d < i && d < n && #[trigger] (n % d) == 0 ==> !sieve@[n
                    - 2],
        decreases upto - i,
    {
        let mut j: u128 = 2 * i as u128;
        proof {
            lemma_mod_multiples_vanish(1, i as int, i as int);
            lemma_mod_multiples_vanish(1, 0, i as int);
            let ii = i as int;
            assert forall|n: int| ii < n < 2 * ii && #[trigger] (n % ii) == 0 implies false by {
                lemma_small_mod((n - ii) as nat, ii as nat);
                lemma_mod_adds(ii, n - ii, ii);
            }
        }
        while j <= upto as u128
            invariant
                upto >= 2,
                2 <= i < upto,
                2 * i <= j <= upto + i,
                (j as int) % (i as int) == 0,
                sieve@.len() == upto - 1,
                forall|n: int| 2 <= n <= upto && !#[trigger] sieve@[n - 2] ==> !is_prime(n),
                forall|n: int, d: int|
                    2 <= n <= upto && 2 <= d < i && d < n && #[trigger] (n % d) == 0 ==> !sieve@[n
                        - 2],
                forall|n: int|
                    i < n < j && n <= upto && #[trigger] (n % (i as int)) == 0 ==> !sieve@[n - 2],
            decreases upto + i - j,
        {
            assert(!is_prime(j as int)) by {
                assert((j as int) % (i as int) == 0);
            }
            sieve.set((j - 2) as usize, false);
            proof {
                let (ii, jj) = (i as int, j as int);
                lemma_mod_multiples_vanish(1, jj, ii);
                assert forall|n: int|
                    ii < n < jj + ii && n <= upto && #[trigger] (n % ii) == 0 implies !sieve@[n
                    - 2] by {
                    if jj < n {
                        lemma_small_mod((n - jj) as nat, ii as nat);
                        lemma_mod_adds(jj, n - jj, ii);
                    }
                }
            }
            j = j + i as u128;
        }
        i = i + 1;
    }
    let mut v: Vec<usize> = Vec::new();
    let mut k: usize = 0;
    while k < upto - 1
        invariant
            upto >= 2,
            k <= upto - 1,
            sieve@.len() == upto - 1,
            forall|m: int| 2 <= m <= upto && !#[trigger] sieve@[m - 2] ==> !is_prime(m),
            forall|m: int, d: int|
                2 <= m <= upto && 2 <= d < upto && d < m && #[trigger] (m % d) == 0 ==> !sieve@[m
                    - 2],
            v@ == primes_upto(k + 1),
        decreases upto - 1 - k,
    {
        if sieve[k] {
            assert(is_prime(k + 2));
            v.push(k + 2);
        }
        k = k + 1;
    }
    Ok(v)
}

} // verus!
