use vstd::prelude::*;

verus! {

/// Whether `n` is a perfect square, decided by walking the candidate
/// roots upward until their square passes `n`. The products are taken in
/// a wider integer so that they cannot overflow.
pub fn is_square(n: i64) -> (r: bool)
    requires
        n < i64::MAX,
    ensures
        r <==> exists|k: int| 0 <= k && #[trigger] (k * k) == n,
{
    let mut x: i64 = 0;
    while x <= n
        invariant
            n < i64::MAX,
            0 <= x,
            forall|j: int| 0 <= j < x ==> #[trigger] (j * j) != n,
        decreases i64::MAX - x,
    {
        let a: i128 = x as i128;
        proof {
            let ai = a as int;
            assert(ai * ai <= 0x8000_0000_0000_0000 * 0x8000_0000_0000_0000) by (nonlinear_arith)
                requires
                    0 <= ai <= 0x8000_0000_0000_0000,
            ;
            assert((ai - 1) * (ai + 1) == ai * ai - 1) by (nonlinear_arith);
        }
        let lhs: i128 = (a - 1) * (a + 1);
        let rhs: i128 = n as i128 - 1;
        if lhs == rhs {
            proof {
                assert(x as int * x as int == n);
            }
            return true;
        }
        if lhs > rhs {
            proof {
                let xi = x as int;
                assert(xi * xi > n);
                assert forall|k: int| 0 <= k implies #[trigger] (k * k) != n by {
                    if k >= xi {
                        assert(k * k >= xi * xi) by (nonlinear_arith)
                            requires
                                k >= xi,
                                xi >= 0,
                        ;
                    }
                }
            }
            return false;
        }
        proof {
            assert(x as int * x as int != n);
        }
        x = x + 1;
    }
    proof {
        assert forall|k: int| 0 <= k implies #[trigger] (k * k) != n by {
            if k >= x as int {
                if k == 0 {
                    assert(k * k == 0);
                } else {
                    assert(k * k >= k) by (nonlinear_arith)
                        requires
                            k >= 1,
                    ;
                }
            }
        }
    }
    false
}

} // verus!
