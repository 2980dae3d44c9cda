//! Partial application: closures that hold some arguments of a function
//! and take the rest when called. Bound arguments are cloned on each call.
use vstd::prelude::*;

verus! {

/// Binds the first argument of a two-argument function: the result takes
/// the second and calls `f` with a clone of `bound` before it. It may be
/// called wherever `f` may be called with any clone of `bound`.
pub fn partial<A: Clone, B, R, F: Fn(A, B) -> R>(f: F, bound: A) -> (g: impl Fn(B) -> R)
    ensures
        forall|b: B|
            (forall|a: A| #[trigger] cloned(bound, a) ==> call_requires(f, (a, b)))
                ==> call_requires(g, (b,)),
        forall|b: B, r: R|
            call_ensures(g, (b,), r) ==> exists|a: A| cloned(bound, a) && call_ensures(f, (a, b), r),
{
    move |b: B| -> (r: R)
        requires
            forall|a: A| #[trigger] cloned(bound, a) ==> call_requires(f, (a, b)),
        ensures
            exists|a: A| cloned(bound, a) && call_ensures(f, (a, b), r),
        {
            let a = bound.clone();
            assert(cloned(bound, a));
            let r = f(a, b);
            r
        }
}

/// Binds the last argument of a two-argument function: the result takes
/// the first and calls `f` with a clone of `bound` after it.
pub fn partial_right<A, B: Clone, R, F: Fn(A, B) -> R>(f: F, bound: B) -> (g: impl Fn(A) -> R)
    ensures
        forall|a: A|
            (forall|b: B| #[trigger] cloned(bound, b) ==> call_requires(f, (a, b)))
                ==> call_requires(g, (a,)),
        forall|a: A, r: R|
            call_ensures(g, (a,), r) ==> exists|b: B| cloned(bound, b) && call_ensures(f, (a, b), r),
{
    move |a: A| -> (r: R)
        requires
            forall|b: B| #[trigger] cloned(bound, b) ==> call_requires(f, (a, b)),
        ensures
            exists|b: B| cloned(bound, b) && call_ensures(f, (a, b), r),
        {
            let b = bound.clone();
            assert(cloned(bound, b));
            let r = f(a, b);
            r
        }
}

/// Binds the first argument of a three-argument function; the result takes
/// the remaining two.
pub fn partial_first_of_three<A: Clone, B, C, R, F: Fn(A, B, C) -> R>(f: F, bound: A) -> (g: impl Fn(
    B,
    C,
) -> R)
    ensures
        forall|b: B, c: C|
            (forall|a: A| #[trigger] cloned(bound, a) ==> call_requires(f, (a, b, c)))
                ==> call_requires(g, (b, c)),
        forall|b: B, c: C, r: R|
            call_ensures(g, (b, c), r) ==> exists|a: A|
                cloned(bound, a) && call_ensures(f, (a, b, c), r),
{
    move |b: B, c: C| -> (r: R)
        requires
            forall|a: A| #[trigger] cloned(bound, a) ==> call_requires(f, (a, b, c)),
        ensures
            exists|a: A| cloned(bound, a) && call_ensures(f, (a, b, c), r),
        {
            let a = bound.clone();
            assert(cloned(bound, a));
            let r = f(a, b, c);
            r
        }
}

/// Binds the first two arguments of a three-argument function; the result
/// takes the last.
pub fn partial_first_two_of_three<A: Clone, B: Clone, C, R, F: Fn(A, B, C) -> R>(
    f: F,
    bound_a: A,
    bound_b: B,
) -> (g: impl Fn(C) -> R)
    ensures
        forall|c: C|
            (forall|a: A, b: B|
                #[trigger] cloned(bound_a, a) && #[trigger] cloned(bound_b, b) ==> call_requires(
                    f,
                    (a, b, c),
                )) ==> call_requires(g, (c,)),
        forall|c: C, r: R|
            call_ensures(g, (c,), r) ==> exists|a: A, b: B|
                cloned(bound_a, a) && cloned(bound_b, b) && call_ensures(f, (a, b, c), r),
{
    move |c: C| -> (r: R)
        requires
            forall|a: A, b: B|
                #[trigger] cloned(bound_a, a) && #[trigger] cloned(bound_b, b) ==> call_requires(
                    f,
                    (a, b, c),
                ),
        ensures
            exists|a: A, b: B|
                cloned(bound_a, a) && cloned(bound_b, b) && call_ensures(f, (a, b, c), r),
        {
            let a = bound_a.clone();
            let b = bound_b.clone();
            assert(cloned(bound_a, a));
            assert(cloned(bound_b, b));
            let r = f(a, b, c);
            r
        }
}

/// Binds the last argument of a three-argument function; the result takes
/// the first two.
pub fn partial_right_last_of_three<A, B, C: Clone, R, F: Fn(A, B, C) -> R>(f: F, bound: C) -> (g:
    impl Fn(A, B) -> R)
    ensures
        forall|a: A, b: B|
            (forall|c: C| #[trigger] cloned(bound, c) ==> call_requires(f, (a, b, c)))
                ==> call_requires(g, (a, b)),
        forall|a: A, b: B, r: R|
            call_ensures(g, (a, b), r) ==> exists|c: C|
                cloned(bound, c) && call_ensures(f, (a, b, c), r),
{
    move |a: A, b: B| -> (r: R)
        requires
            forall|c: C| #[trigger] cloned(bound, c) ==> call_requires(f, (a, b, c)),
        ensures
            exists|c: C| cloned(bound, c) && call_ensures(f, (a, b, c), r),
        {
            let c = bound.clone();
            assert(cloned(bound, c));
            let r = f(a, b, c);
            r
        }
}

/// Binds the last two arguments of a three-argument function; the result
/// takes the first.
pub fn partial_right_last_two_of_three<A, B: Clone, C: Clone, R, F: Fn(A, B, C) -> R>(
    f: F,
    bound_b: B,
    bound_c: C,
) -> (g: impl Fn(A) -> R)
    ensures
        forall|a: A|
            (forall|b: B, c: C|
                #[trigger] cloned(bound_b, b) && #[trigger] cloned(bound_c, c) ==> call_requires(
                    f,
                    (a, b, c),
                )) ==> call_requires(g, (a,)),
        forall|a: A, r: R|
            call_ensures(g, (a,), r) ==> exists|b: B, c: C|
                cloned(bound_b, b) && cloned(bound_c, c) && call_ensures(f, (a, b, c), r),
{
    move |a: A| -> (r: R)
        requires
            forall|b: B, c: C|
                #[trigger] cloned(bound_b, b) && #[trigger] cloned(bound_c, c) ==> call_requires(
                    f,
                    (a, b, c),
                ),
        ensures
            exists|b: B, c: C|
                cloned(bound_b, b) && cloned(bound_c, c) && call_ensures(f, (a, b, c), r),
        {
            let b = bound_b.clone();
            let c = bound_c.clone();
            assert(cloned(bound_b, b));
            assert(cloned(bound_c, c));
            let r = f(a, b, c);
            r
        }
}

} // verus!
