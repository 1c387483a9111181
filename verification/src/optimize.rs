//! The derivative-free optimizers: golden-section contraction over an
//! interval, and two bounded Nelder-Mead simplex searches over a box.
//!
//! Each optimizer is generic over the objective; its contract asks only
//! that the objective be callable on every point, and promises that a
//! returned optimum value is an actual output of the objective.

use vstd::prelude::*;

use crate::fuzzy::FuzzyVariable;
use crate::scalar::Scalar;

verus! {

/// Runs the golden-section bracket contraction on `func` (negated first
/// when `negate` is set) and returns the final right bracket edge.
///
/// The bracket `[lower, upper]` keeps two interior probes at the golden
/// ratio's places; whichever probe looks better decides which side of the
/// bracket is cut away. The loop stops when the bracket is no wider than
/// `1e-8` or after `100000` steps.
fn golden_bracket_edge<S: Scalar, F: Fn(S) -> S>(lower_guess: S, upper_guess: S, func: &F, negate: bool) -> (r: S)
    requires
        forall|x: S| call_requires(*func, (x,)),
{
    let phi = S::ratio(6180339887498949, 10000000000000000);
    let eps = S::ratio(1, 100000000);
    let mut lower_guess = lower_guess;
    let mut upper_guess = upper_guess;
    let mut x1 = lower_guess.plus(S::one().minus(phi).times(upper_guess.minus(lower_guess)));
    let mut x2 = lower_guess.plus(phi.times(upper_guess.minus(lower_guess)));
    let t = func(x1);
    let mut y1 = if negate { t.neg() } else { t };
    let t = func(x2);
    let mut y2 = if negate { t.neg() } else { t };
    let mut iter: usize = 1;
    loop
        invariant_except_break
            1 <= iter <= 99999,
        invariant
            forall|x: S| call_requires(*func, (x,)),
        decreases 100000 - iter,
    {
        if y1.lt(y2) {
            upper_guess = x2;
            x2 = x1;
            y2 = y1;
            x1 = lower_guess.plus(phi.times(x2.minus(lower_guess)));
            let t = func(x1);
            y1 = if negate { t.neg() } else { t };
        } else {
            lower_guess = x1;
            x1 = x2;
            y1 = y2;
            x2 = x1.plus(S::one().minus(phi).times(upper_guess.minus(x1)));
            let t = func(x2);
            y2 = if negate { t.neg() } else { t };
        }
        iter = iter + 1;
        if !(eps.lt(upper_guess.minus(lower_guess).abs()) && iter < 100000) {
            break;
        }
    }
    upper_guess
}

/// Minimizes `func` over `[lower_guess, upper_guess]` by golden-section
/// contraction and reports the objective's value at the final right
/// bracket edge (the edge itself, not the bracket midpoint).
pub fn golden_contraction_optimizer<S: Scalar, F: Fn(S) -> S>(lower_guess: S, upper_guess: S, func: &F) -> (r: S)
    requires
        forall|x: S| call_requires(*func, (x,)),
    ensures
        exists|x: S| call_ensures(*func, (x,), r),
{
    let edge = golden_bracket_edge(lower_guess, upper_guess, func, false);
    func(edge)
}

/// Bounds `func` over the alpha-level cut of the fuzzy variable `fuzz`:
/// the minimum by a golden-section descent, the maximum by the same
/// descent on the negated objective (negating twice is exact, so the
/// reported maximum is an actual output of `func`).
pub fn alpha_level_optimize<S: Scalar, V: FuzzyVariable<S>, F: Fn(S) -> S>(fuzz: &V, alpha_level: S, func: F) -> (r: (S, S))
    requires
        forall|x: S| call_requires(func, (x,)),
    ensures
        exists|x: S| call_ensures(func, (x,), r.0),
        exists|x: S| call_ensures(func, (x,), r.1),
{
    let suchraum = fuzz.alpha_level_support(alpha_level);
    let min = golden_contraction_optimizer(suchraum.0, suchraum.1, &func);
    let edge = golden_bracket_edge(suchraum.0, suchraum.1, &func, true);
    let max = func(edge);
    let res: (S, S) = (min, max);
    proof {
        // Connects the tuple's fields with the two optimizer outputs, so
        // that the postcondition's witnesses are found.
        assert(res.0 == min);
        assert(res.1 == max);
    }
    res
}

/// The centroid of all simplex vertices but the excluded one.
fn simplex_centroid<S: Scalar>(vals: &Vec<Vec<S>>, excluded: usize, n: usize) -> (r: Vec<S>)
    requires
        vals@.len() == n + 1,
        forall|t: int| 0 <= t < vals@.len() ==> (#[trigger] vals@[t])@.len() == n,
    ensures
        r@.len() == n,
{
    let m: usize = vals.len();
    let mut g: Vec<S> = Vec::new();
    for j in 0..n
        invariant
            vals@.len() == m,
            m == n + 1,
            forall|t: int| 0 <= t < vals@.len() ==> (#[trigger] vals@[t])@.len() == n,
            g@.len() == j,
    {
        let mut acc: S = S::zero();
        for i in 0..m
            invariant
                vals@.len() == m,
                m == n + 1,
                forall|t: int| 0 <= t < vals@.len() ==> (#[trigger] vals@[t])@.len() == n,
                j < n,
        {
            if i != excluded {
                acc = acc.plus(vals[i][j]);
            }
        }
        g.push(S::one().over(S::from_usize(n)).times(acc));
    }
    g
}

/// Whether `value` lies strictly inside the box `(lower_bound, upper_bound)`
/// in each of its first `n` coordinates.
fn is_in_bounds<S: Scalar>(lower_bound: &Vec<S>, upper_bound: &Vec<S>, value: &Vec<S>, n: usize) -> bool
    requires
        lower_bound@.len() >= n,
        upper_bound@.len() >= n,
        value@.len() >= n,
{
    let mut in_bound = true;
    for j in 0..n
        invariant
            lower_bound@.len() >= n,
            upper_bound@.len() >= n,
            value@.len() >= n,
    {
        in_bound = in_bound && lower_bound[j].lt(value[j]) && value[j].lt(upper_bound[j]);
    }
    in_bound
}

/// The reflection of a vertex through the centroid, with coefficient one.
fn reflection<S: Scalar>(center: &Vec<S>, tobereflected: &Vec<S>, n: usize) -> (r: Vec<S>)
    requires
        center@.len() >= n,
        tobereflected@.len() >= n,
    ensures
        r@.len() == n,
{
    let mut g: Vec<S> = Vec::new();
    for j in 0..n
        invariant
            center@.len() >= n,
            tobereflected@.len() >= n,
            g@.len() == j,
    {
        g.push(center[j].plus(S::one().times(center[j].minus(tobereflected[j]))));
    }
    g
}

/// The expansion of a candidate away from the centroid, with coefficient
/// two.
fn expand<S: Scalar>(center: &Vec<S>, tobe: &Vec<S>, n: usize) -> (r: Vec<S>)
    requires
        center@.len() >= n,
        tobe@.len() >= n,
    ensures
        r@.len() == n,
{
    let mut g: Vec<S> = Vec::new();
    for j in 0..n
        invariant
            center@.len() >= n,
            tobe@.len() >= n,
            g@.len() == j,
    {
        g.push(center[j].plus(S::from_i64(2).times(tobe[j].minus(center[j]))));
    }
    g
}

/// The contraction of a candidate halfway toward the centroid.
fn contract<S: Scalar>(center: &Vec<S>, tobe: &Vec<S>, n: usize) -> (r: Vec<S>)
    requires
        center@.len() >= n,
        tobe@.len() >= n,
    ensures
        r@.len() == n,
{
    let mut g: Vec<S> = Vec::new();
    for j in 0..n
        invariant
            center@.len() >= n,
            tobe@.len() >= n,
            g@.len() == j,
    {
        g.push(center[j].plus(S::ratio(1, 2).times(tobe[j].minus(center[j]))));
    }
    g
}

/// Rewriting one slot takes its old entry out of the multiset and puts
/// the new one in.
proof fn lemma_update_to_multiset<A>(s: Seq<A>, i: int, x: A)
    requires
        0 <= i < s.len(),
    ensures
        s.update(i, x).to_multiset() == s.to_multiset().remove(s[i]).insert(x),
{
    broadcast use vstd::multiset::group_multiset_axioms;

    assert(s.update(i, x) =~= s.remove(i).insert(i, x));
    vstd::seq_lib::to_multiset_remove(s, i);
    vstd::seq_lib::to_multiset_insert(s.remove(i), i, x);
}

/// Swapping two slots leaves the multiset unchanged.
proof fn lemma_swap_to_multiset<A>(s: Seq<A>, i: int, j: int)
    requires
        0 <= i < s.len(),
        0 <= j < s.len(),
    ensures
        s.update(i, s[j]).update(j, s[i]).to_multiset() == s.to_multiset(),
{
    broadcast use vstd::multiset::group_multiset_axioms;

    if i == j {
        assert(s.update(i, s[j]).update(j, s[i]) =~= s);
    } else {
        let t = s.update(i, s[j]);
        lemma_update_to_multiset(s, i, s[j]);
        lemma_update_to_multiset(t, j, s[i]);
        vstd::seq_lib::to_multiset_contains(s, s[i]);
        vstd::seq_lib::to_multiset_contains(s, s[j]);
        assert(s.contains(s[i]));
        assert(s.contains(s[j]));
        assert(t.update(j, s[i]).to_multiset() =~= s.to_multiset());
    }
}

/// Insertion-sorts the vertices ascending by their cached objective
/// values, moving each vertex together with its value: the multiset of
/// value-vertex pairs is exactly preserved. On values whose comparisons
/// all fail (as NaNs do) nothing moves.
fn sort_vals<S: Scalar>(points: &mut Vec<Vec<S>>, point_values: &mut Vec<S>, rowlen: Ghost<usize>)
    requires
        old(points)@.len() == old(point_values)@.len(),
        forall|t: int| 0 <= t < old(points)@.len() ==> (#[trigger] old(points)@[t])@.len()
            == rowlen@,
    ensures
        final(points)@.len() == old(points)@.len(),
        final(point_values)@.len() == old(point_values)@.len(),
        forall|t: int| 0 <= t < final(points)@.len() ==> (#[trigger] final(points)@[t])@.len()
            == rowlen@,
        final(point_values)@.zip_with(final(points)@).to_multiset() == old(point_values)@.zip_with(
            old(points)@,
        ).to_multiset(),
{
    let len: usize = point_values.len();
    let mut i: usize = 1;
    while i < len
        invariant
            points@.len() == len,
            point_values@.len() == len,
            forall|t: int| 0 <= t < points@.len() ==> (#[trigger] points@[t])@.len() == rowlen@,
            point_values@.zip_with(points@).to_multiset() == old(point_values)@.zip_with(
                old(points)@,
            ).to_multiset(),
        decreases len - i,
    {
        let mut j: usize = i;
        while j > 0 && point_values[j].lt(point_values[j - 1])
            invariant
                points@.len() == len,
                point_values@.len() == len,
                j <= i,
                i < len,
                forall|t: int| 0 <= t < points@.len() ==> (#[trigger] points@[t])@.len()
                    == rowlen@,
                point_values@.zip_with(points@).to_multiset() == old(point_values)@.zip_with(
                    old(points)@,
                ).to_multiset(),
            decreases j,
        {
            let ghost pv0 = point_values@;
            let ghost ps0 = points@;
            let ghost z0 = pv0.zip_with(ps0);
            let a = point_values[j - 1];
            let b = point_values[j];
            point_values.set(j - 1, b);
            point_values.set(j, a);
            let mut tmp: Vec<S> = Vec::new();
            points.set_and_swap(j, &mut tmp);
            points.set_and_swap(j - 1, &mut tmp);
            points.set_and_swap(j, &mut tmp);
            proof {
                assert(point_values@ =~= pv0.update(j - 1, pv0[j as int]).update(
                    j as int,
                    pv0[j - 1],
                ));
                assert(points@ =~= ps0.update(j - 1, ps0[j as int]).update(
                    j as int,
                    ps0[j - 1],
                ));
                assert(point_values@.zip_with(points@) =~= z0.update(j - 1, z0[j as int]).update(
                    j as int,
                    z0[j - 1],
                ));
                lemma_swap_to_multiset(z0, j - 1, j as int);
            }
            j = j - 1;
        }
        i = i + 1;
    }
}

/// Minimizes `func` over the box `[lower_bound, upper_bound]` by a bounded
/// Nelder-Mead simplex search started around `start_point`.
///
/// A candidate outside the box is not rejected: it keeps a penalty value
/// one above the current worst vertex, which steers the simplex back
/// inside. The search stops when best and worst vertex come within
/// `1e-10` of each other, or after `10000` iterations, and reports the
/// then-best vertex.
pub fn simplex_optimization<S: Scalar, F: Fn(&Vec<S>) -> S>(lower_bound: Vec<S>, upper_bound: Vec<S>, start_point: Vec<S>, func: F) -> (r: Vec<S>)
    requires
        lower_bound@.len() == upper_bound@.len(),
        start_point@.len() == lower_bound@.len(),
        lower_bound@.len() >= 1,
        forall|x: Vec<S>| call_requires(func, (&x,)),
    ensures
        r@.len() == lower_bound@.len(),
{
    let n: usize = lower_bound.len();
    let mut points: Vec<Vec<S>> = Vec::new();
    for i in 0..n
        invariant
            lower_bound@.len() == n,
            upper_bound@.len() == n,
            start_point@.len() == n,
            points@.len() == i,
            forall|t: int| 0 <= t < points@.len() ==> (#[trigger] points@[t])@.len() == n,
    {
        let interval = start_point[i].plus(lower_bound[i]).times(S::ratio(1, 2));
        let mut new_point: Vec<S> = Vec::new();
        for k in 0..n
            invariant
                lower_bound@.len() == n,
                start_point@.len() == n,
                i < n,
                new_point@.len() == k,
        {
            if k == i {
                new_point.push(start_point[k].plus(interval.times(S::ratio(7, 10))));
            } else {
                new_point.push(start_point[k]);
            }
        }
        points.push(new_point);
    }
    points.push(start_point);
    let m: usize = points.len();
    let mut point_values: Vec<S> = Vec::new();
    for i in 0..m
        invariant
            forall|x: Vec<S>| call_requires(func, (&x,)),
            points@.len() == m,
            m == n + 1,
            forall|t: int| 0 <= t < points@.len() ==> (#[trigger] points@[t])@.len() == n,
            point_values@.len() == i,
    {
        let v = func(&points[i]);
        point_values.push(v);
    }
    let mut iter_counter: usize = 0;
    loop
        invariant
            forall|x: Vec<S>| call_requires(func, (&x,)),
            lower_bound@.len() == n,
            upper_bound@.len() == n,
            n >= 1,
            points@.len() == m,
            m == n + 1,
            forall|t: int| 0 <= t < points@.len() ==> (#[trigger] points@[t])@.len() == n,
            point_values@.len() == m,
            iter_counter <= 10001,
        ensures
            points@.len() == m,
            m == n + 1,
            forall|t: int| 0 <= t < points@.len() ==> (#[trigger] points@[t])@.len() == n,
        decreases 10001 - iter_counter,
    {
        if iter_counter > 10000 {
            break;
        }
        iter_counter = iter_counter + 1;
        sort_vals(&mut points, &mut point_values, Ghost(n));
        // Termination: best and worst vertex close enough.
        let mut dist: S = S::zero();
        for k in 0..n
            invariant
                points@.len() == m,
                m == n + 1,
                forall|t: int| 0 <= t < points@.len() ==> (#[trigger] points@[t])@.len() == n,
        {
            let d = points[0][k].minus(points[n][k]);
            dist = dist.plus(d.times(d));
        }
        dist = dist.sqrt();
        if dist.lt(S::ratio(1, 10000000000)) {
            break;
        }
        let o = simplex_centroid(&points, n, n);
        let r_pt = reflection(&o, &points[n], n);
        let fr = if is_in_bounds(&lower_bound, &upper_bound, &r_pt, n) {
            func(&r_pt)
        } else {
            point_values[n].plus(S::one())
        };
        if point_values[0].le(fr) && fr.lt(point_values[n - 1]) {
            points.set(n, r_pt);
            point_values.set(n, fr);
        } else if fr.lt(point_values[0]) {
            // The reflected point is the new best: try to expand past it.
            let e = expand(&o, &r_pt, n);
            let fe = if is_in_bounds(&lower_bound, &upper_bound, &e, n) {
                func(&e)
            } else {
                point_values[n].plus(S::one())
            };
            if fe.lt(fr) {
                points.set(n, e);
                point_values.set(n, fe);
            } else {
                points.set(n, r_pt);
                point_values.set(n, fr);
            }
        } else if fr.lt(point_values[n]) {
            let c = contract(&o, &r_pt, n);
            let fc = if is_in_bounds(&lower_bound, &upper_bound, &c, n) {
                func(&c)
            } else {
                point_values[n].plus(S::one())
            };
            if fc.lt(fr) {
                points.set(n, c);
                point_values.set(n, fc);
            } else {
                // Shrink every vertex but the best toward the best.
                for ii in 1..m
                    invariant
                        points@.len() == m,
                        m == n + 1,
                        forall|t: int| 0 <= t < points@.len() ==> (#[trigger] points@[t])@.len()
                            == n,
                {
                    let mut new_row: Vec<S> = Vec::new();
                    for k in 0..n
                        invariant
                            points@.len() == m,
                            m == n + 1,
                            ii < m,
                            forall|t: int|
                                0 <= t < points@.len() ==> (#[trigger] points@[t])@.len() == n,
                            new_row@.len() == k,
                    {
                        new_row.push(
                            points[0][k].plus(
                                S::ratio(1, 2).times(points[ii][k].minus(points[0][k])),
                            ),
                        );
                    }
                    points.set(ii, new_row);
                }
                for ii in 1..m
                    invariant
                        forall|x: Vec<S>| call_requires(func, (&x,)),
                        points@.len() == m,
                        m == n + 1,
                        point_values@.len() == m,
                        forall|t: int| 0 <= t < points@.len() ==> (#[trigger] points@[t])@.len()
                            == n,
                {
                    let v = func(&points[ii]);
                    point_values.set(ii, v);
                }
            }
        } else if point_values[n].le(fr) {
            // Contract toward the worst vertex; this candidate needs no
            // bounds test.
            let c = contract(&o, &points[n], n);
            let fc = func(&c);
            if fc.lt(point_values[n]) {
                points.set(n, c);
                point_values.set(n, fc);
            } else {
                for ii in 1..m
                    invariant
                        points@.len() == m,
                        m == n + 1,
                        forall|t: int| 0 <= t < points@.len() ==> (#[trigger] points@[t])@.len()
                            == n,
                {
                    let mut new_row: Vec<S> = Vec::new();
                    for k in 0..n
                        invariant
                            points@.len() == m,
                            m == n + 1,
                            ii < m,
                            forall|t: int|
                                0 <= t < points@.len() ==> (#[trigger] points@[t])@.len() == n,
                            new_row@.len() == k,
                    {
                        new_row.push(
                            points[0][k].plus(
                                S::ratio(1, 2).times(points[ii][k].minus(points[0][k])),
                            ),
                        );
                    }
                    points.set(ii, new_row);
                }
                for ii in 1..m
                    invariant
                        forall|x: Vec<S>| call_requires(func, (&x,)),
                        points@.len() == m,
                        m == n + 1,
                        point_values@.len() == m,
                        forall|t: int| 0 <= t < points@.len() ==> (#[trigger] points@[t])@.len()
                            == n,
                {
                    let v = func(&points[ii]);
                    point_values.set(ii, v);
                }
            }
        }
    }
    points[0].clone()
}

/// Whether the first `n` coordinates of `b` lie inside the closed box
/// `[low, up]`.
fn check_in_bounds<S: Scalar>(n: usize, low: &Vec<S>, up: &Vec<S>, b: &Vec<S>) -> bool
    requires
        low@.len() >= n,
        up@.len() >= n,
        b@.len() >= n,
{
    for i in 0..n
        invariant
            low@.len() >= n,
            up@.len() >= n,
            b@.len() >= n,
    {
        if b[i].lt(low[i]) || up[i].lt(b[i]) {
            return false;
        }
    }
    true
}

/// A second downhill-simplex search with its own temperament: its sorting
/// sweep favours the largest cached value as "best", its iteration cap is
/// a hundred, and it evaluates every candidate before testing it against
/// the bounds.
pub fn optimize_downhill_simplex<S: Scalar, F: Fn(&Vec<S>) -> S>(lower_bound: &Vec<S>, upper_bound: &Vec<S>, start: &Vec<S>, func: &F) -> (r: Vec<S>)
    requires
        lower_bound@.len() == upper_bound@.len(),
        start@.len() == lower_bound@.len(),
        lower_bound@.len() >= 1,
        forall|x: Vec<S>| call_requires(*func, (&x,)),
    ensures
        r@.len() == lower_bound@.len(),
{
    let n: usize = lower_bound.len();
    let mut points: Vec<Vec<S>> = Vec::new();
    for i in 0..n
        invariant
            lower_bound@.len() == n,
            upper_bound@.len() == n,
            start@.len() == n,
            points@.len() == i,
            forall|t: int| 0 <= t < points@.len() ==> (#[trigger] points@[t])@.len() == n,
    {
        let interval = start[i].plus(lower_bound[i]).times(S::ratio(1, 2));
        let mut new_point: Vec<S> = Vec::new();
        for k in 0..n
            invariant
                start@.len() == n,
                i < n,
                new_point@.len() == k,
        {
            if k == i {
                new_point.push(start[k].plus(interval));
            } else {
                new_point.push(start[k]);
            }
        }
        points.push(new_point);
    }
    points.push(start.clone());
    let m: usize = points.len();
    let mut point_results: Vec<S> = Vec::new();
    for i in 0..m
        invariant
            forall|x: Vec<S>| call_requires(*func, (&x,)),
            points@.len() == m,
            m == n + 1,
            forall|t: int| 0 <= t < points@.len() ==> (#[trigger] points@[t])@.len() == n,
            point_results@.len() == i,
    {
        let v = func(&points[i]);
        point_results.push(v);
    }
    let mut best_i: usize = 0;
    let mut second_i: usize = n - 1;
    let mut worst_i: usize = n;
    let mut iter: usize = 0;
    loop
        invariant_except_break
            iter <= 100,
        invariant
            forall|x: Vec<S>| call_requires(*func, (&x,)),
            lower_bound@.len() == n,
            upper_bound@.len() == n,
            n >= 1,
            points@.len() == m,
            m == n + 1,
            forall|t: int| 0 <= t < points@.len() ==> (#[trigger] points@[t])@.len() == n,
            point_results@.len() == m,
            best_i < m,
            second_i < m,
            worst_i < m,
        ensures
            points@.len() == m,
            forall|t: int| 0 <= t < points@.len() ==> (#[trigger] points@[t])@.len() == n,
            best_i < m,
        decreases 101 - iter,
    {
        iter = iter + 1;
        // Sorting sweep: pick out the extreme and the second-extreme
        // cached values.
        let mut f_best = point_results[0];
        let mut f_second_worst = point_results[n - 1];
        let mut f_worst = point_results[n];
        for i in 0..m
            invariant
                points@.len() == m,
                point_results@.len() == m,
                best_i < m,
                worst_i < m,
        {
            if f_best.lt(point_results[i]) {
                f_best = point_results[i];
                best_i = i;
            }
            if point_results[i].lt(f_worst) {
                f_worst = point_results[i];
                worst_i = i;
            }
        }
        for i in 0..m
            invariant
                points@.len() == m,
                point_results@.len() == m,
                second_i < m,
        {
            if i != worst_i && point_results[i].lt(f_second_worst) {
                f_second_worst = point_results[i];
                second_i = i;
            }
        }
        // Termination: every vertex has crept onto the first one.
        let mut abbruch = true;
        for i in 1..m
            invariant
                points@.len() == m,
                m == n + 1,
                forall|t: int| 0 <= t < points@.len() ==> (#[trigger] points@[t])@.len() == n,
        {
            for k in 0..n
                invariant
                    points@.len() == m,
                    m == n + 1,
                    i < m,
                    forall|t: int| 0 <= t < points@.len() ==> (#[trigger] points@[t])@.len() == n,
            {
                if S::ratio(1, 1000000).lt(points[0][k].minus(points[i][k]).abs()) {
                    abbruch = false;
                }
            }
        }
        if abbruch || iter > 100 {
            break;
        }
        let mut mittelpunkt: Vec<S> = Vec::new();
        for i in 0..n
            invariant
                points@.len() == m,
                m == n + 1,
                n >= 1,
                worst_i < m,
                forall|t: int| 0 <= t < points@.len() ==> (#[trigger] points@[t])@.len() == n,
                mittelpunkt@.len() == i,
        {
            let mut coord: S = S::zero();
            for k in 0..m
                invariant
                    points@.len() == m,
                    m == n + 1,
                    i < n,
                    forall|t: int| 0 <= t < points@.len() ==> (#[trigger] points@[t])@.len() == n,
            {
                if k != worst_i {
                    coord = coord.plus(points[k][i]);
                }
            }
            mittelpunkt.push(coord.over(S::from_usize(n)));
        }
        // Reflect the worst vertex through the centroid.
        let mut r_pt: Vec<S> = Vec::new();
        for i in 0..n
            invariant
                points@.len() == m,
                m == n + 1,
                worst_i < m,
                mittelpunkt@.len() == n,
                forall|t: int| 0 <= t < points@.len() ==> (#[trigger] points@[t])@.len() == n,
                r_pt@.len() == i,
        {
            r_pt.push(
                mittelpunkt[i].plus(S::one().times(mittelpunkt[i].minus(points[worst_i][i]))),
            );
        }
        let fr = func(&r_pt);
        if check_in_bounds(n, lower_bound, upper_bound, &r_pt) && point_results[best_i].lt(fr) {
            // Better than the incumbent best: try the expansion too.
            let mut e: Vec<S> = Vec::new();
            for i in 0..n
                invariant
                    mittelpunkt@.len() == n,
                    r_pt@.len() == n,
                    e@.len() == i,
            {
                e.push(r_pt[i].plus(S::one().times(r_pt[i].minus(mittelpunkt[i]))));
            }
            let fe = func(&e);
            if check_in_bounds(n, lower_bound, upper_bound, &e) && fr.lt(fe) {
                points.set(worst_i, e);
                point_results.set(worst_i, fe);
            } else {
                points.set(worst_i, r_pt);
                point_results.set(worst_i, fr);
            }
        } else if check_in_bounds(n, lower_bound, upper_bound, &r_pt) && point_results[second_i].lt(
            fr,
        ) {
            points.set(worst_i, r_pt);
            point_results.set(worst_i, fr);
        } else {
            // Contract toward whichever of the reflected and the worst
            // point stands better.
            let use_r = check_in_bounds(n, lower_bound, upper_bound, &r_pt)
                && point_results[worst_i].lt(fr);
            let mut c: Vec<S> = Vec::new();
            for i in 0..n
                invariant
                    points@.len() == m,
                    m == n + 1,
                    worst_i < m,
                    mittelpunkt@.len() == n,
                    r_pt@.len() == n,
                    forall|t: int| 0 <= t < points@.len() ==> (#[trigger] points@[t])@.len() == n,
                    c@.len() == i,
            {
                if use_r {
                    c.push(r_pt[i].plus(S::ratio(1, 2).times(mittelpunkt[i].minus(r_pt[i]))));
                } else {
                    c.push(
                        points[worst_i][i].plus(
                            S::ratio(1, 2).times(mittelpunkt[i].minus(points[worst_i][i])),
                        ),
                    );
                }
            }
            let fc = func(&c);
            if check_in_bounds(n, lower_bound, upper_bound, &c) && point_results[worst_i].lt(fc) {
                points.set(worst_i, c);
                point_results.set(worst_i, fc);
            } else {
                // Shrink everything but the best point toward it.
                for i in 1..m
                    invariant
                        forall|x: Vec<S>| call_requires(*func, (&x,)),
                        points@.len() == m,
                        m == n + 1,
                        best_i < m,
                        point_results@.len() == m,
                        forall|t: int| 0 <= t < points@.len() ==> (#[trigger] points@[t])@.len()
                            == n,
                {
                    if i != best_i {
                        let mut new_point: Vec<S> = Vec::new();
                        for k in 0..n
                            invariant
                                points@.len() == m,
                                m == n + 1,
                                i < m,
                                best_i < m,
                                forall|t: int|
                                    0 <= t < points@.len() ==> (#[trigger] points@[t])@.len()
                                        == n,
                                new_point@.len() == k,
                        {
                            new_point.push(
                                points[i][k].plus(
                                    S::ratio(1, 2).times(points[best_i][k].minus(points[i][k])),
                                ),
                            );
                        }
                        let v = func(&new_point);
                        point_results.set(i, v);
                        points.set(i, new_point);
                    }
                }
            }
        }
    }
    points[best_i].clone()
}

} // verus!
