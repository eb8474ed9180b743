//! Skin-colour masks on downscaled RGB888 frames and their connected regions.
use vstd::prelude::*;

verus! {

/// Largest of three channel values.
pub open spec fn max3(a: int, b: int, c: int) -> int {
    if a >= b && a >= c {
        a
    } else if b >= c {
        b
    } else {
        c
    }
}

/// Smallest of three channel values.
pub open spec fn min3(a: int, b: int, c: int) -> int {
    if a <= b && a <= c {
        a
    } else if b <= c {
        b
    } else {
        c
    }
}

/// The classic RGB skin rule: a reddish pixel that is bright enough and saturated
/// enough.
pub open spec fn is_skin_rgb(r: int, g: int, b: int) -> bool {
    &&& r > 95
    &&& g > 40
    &&& b > 20
    &&& r - g > 15
    &&& r - b > 15
    &&& max3(r, g, b) - min3(r, g, b) > 15
}

/// Whether pixel `i` of the RGB888 buffer `rgb` lies inside the buffer and is skin.
pub open spec fn skin_at(rgb: Seq<u8>, i: int) -> bool {
    &&& i * 3 + 2 < rgb.len()
    &&& is_skin_rgb(rgb[i * 3] as int, rgb[i * 3 + 1] as int, rgb[i * 3 + 2] as int)
}

/// The skin mask of a `w`×`h` RGB888 frame: one flag per pixel, row by row.
pub open spec fn skin_mask(rgb: Seq<u8>, w: int, h: int) -> Seq<bool> {
    Seq::new((w * h) as nat, |i: int| skin_at(rgb, i))
}

/// A pixel of the classic skin mask is skin exactly when the buffer holds its three
/// bytes `r, g, b` and red exceeds 95, green 40 and blue 20, with red more than 15
/// above both green and blue; a pixel whose red is not more than 15 above its blue
/// is never skin.
pub proof fn lemma_classic_skin_rule(rgb: Seq<u8>, w: int, h: int, i: int)
    requires
        0 <= w,
        0 <= h,
        0 <= i < w * h,
    ensures
        skin_mask(rgb, w, h)[i] <==> ({
            &&& 3 * i + 2 < rgb.len()
            &&& rgb[3 * i] > 95
            &&& rgb[3 * i + 1] > 40
            &&& rgb[3 * i + 2] > 20
            &&& rgb[3 * i] > rgb[3 * i + 1] + 15
            &&& rgb[3 * i] > rgb[3 * i + 2] + 15
        }),
{
    assert(i * 3 == 3 * i);
}

/// Classifies every pixel of a `w`×`h` RGB888 frame with the classic RGB skin rule.
/// Pixels that the buffer does not hold are not skin.
pub fn skin_mask_classic(rgb: &[u8], w: usize, h: usize) -> (mask: Vec<bool>)
    requires
        w * h * 3 <= usize::MAX,
    ensures
        mask@ == skin_mask(rgb@, w as int, h as int),
{
    proof {
        assert(0 <= w * h <= w * h * 3) by (nonlinear_arith)
            requires
                0 <= w,
                0 <= h,
        ;
    }
    let n = w * h;
    let mut mask: Vec<bool> = Vec::new();
    let mut i: usize = 0;
    while i < n
        invariant
            i <= n,
            n == w * h,
            n * 3 <= usize::MAX,
            mask@.len() == i,
            forall|k: int| 0 <= k < i ==> mask@[k] == skin_at(rgb@, k),
        decreases n - i,
    {
        let o = i * 3;
        let mut on = false;
        if o + 2 < rgb.len() {
            let r = rgb[o] as i32;
            let g = rgb[o + 1] as i32;
            let b = rgb[o + 2] as i32;
            let max = if r >= g && r >= b {
                r
            } else if g >= b {
                g
            } else {
                b
            };
            let min = if r <= g && r <= b {
                r
            } else if g <= b {
                g
            } else {
                b
            };
            on = r > 95 && g > 40 && b > 20 && (r - g) > 15 && (r - b) > 15 && (max - min) > 15;
        }
        mask.push(on);
        i += 1;
    }
    assert(mask@ =~= skin_mask(rgb@, w as int, h as int));
    mask
}

/// The skin mask used for hand search. The classic RGB rule is the one in use.
pub fn skin_mask_preferred(rgb: &[u8], w: usize, h: usize) -> (mask: Vec<bool>)
    requires
        w * h * 3 <= usize::MAX,
    ensures
        mask@ == skin_mask(rgb@, w as int, h as int),
{
    skin_mask_classic(rgb, w, h)
}

/// A mask of `len` flags that is set exactly at the listed cells.
pub fn skin_cells_to_mask(cells: &[usize], len: usize) -> (mask: Vec<bool>)
    requires
        forall|k: int| 0 <= k < cells@.len() ==> cells@[k] < len,
    ensures
        mask@.len() == len,
        forall|i: int| 0 <= i < len ==> mask@[i] == cells@.contains(i as usize),
{
    let mut mask: Vec<bool> = Vec::new();
    let mut i: usize = 0;
    while i < len
        invariant
            i <= len,
            mask@.len() == i,
            forall|k: int| 0 <= k < i ==> !mask@[k],
        decreases len - i,
    {
        mask.push(false);
        i += 1;
    }
    let mut j: usize = 0;
    while j < cells.len()
        invariant
            j <= cells@.len(),
            mask@.len() == len,
            forall|k: int| 0 <= k < cells@.len() ==> cells@[k] < len,
            forall|i: int|
                0 <= i < len ==> mask@[i] == cells@.subrange(0, j as int).contains(i as usize),
        decreases cells@.len() - j,
    {
        let c = cells[j];
        mask.set(c, true);
        proof {
            assert forall|i: int| 0 <= i < len implies mask@[i] == cells@.subrange(
                0,
                j + 1,
            ).contains(i as usize) by {
                let s0 = cells@.subrange(0, j as int);
                let s1 = cells@.subrange(0, j + 1);
                assert(s1 =~= s0.push(c));
                if s0.contains(i as usize) {
                    let k = choose|k: int| 0 <= k < s0.len() && s0[k] == i as usize;
                    assert(s1[k] == i as usize);
                }
                if s1.contains(i as usize) && i as usize != c {
                    let k = choose|k: int| 0 <= k < s1.len() && s1[k] == i as usize;
                    assert(k < j);
                    assert(s0[k] == i as usize);
                }
                if i as usize == c {
                    assert(s1[j as int] == c);
                }
            }
        }
        j += 1;
    }
    assert(cells@.subrange(0, cells@.len() as int) =~= cells@);
    mask
}

/// Bounding box of the set cells of a mask on a grid `w` wide, as
/// `(left, top, width, height)`. `top` never exceeds `h`.
pub open spec fn is_bounding_box(m: Seq<bool>, w: int, h: int, b: (usize, usize, usize, usize)) -> bool {
    let (x0, y0, bw, bh) = b;
    &&& x0 <= w
    &&& y0 <= h
    &&& bw >= 1
    &&& bh >= 1
    &&& forall|i: int|
        0 <= i < m.len() && #[trigger] m[i] ==> x0 <= i % w < x0 + bw && y0 <= i / w < y0 + bh
    &&& (x0 == w || exists|i: int| 0 <= i < m.len() && #[trigger] m[i] && i % w == x0)
    &&& (y0 == h || exists|i: int| 0 <= i < m.len() && #[trigger] m[i] && i / w == y0)
    &&& exists|i: int| 0 <= i < m.len() && #[trigger] m[i] && i % w == x0 + bw - 1
    &&& exists|i: int| 0 <= i < m.len() && #[trigger] m[i] && i / w == y0 + bh - 1
}

/// Bounding box `(left, top, width, height)` of the set cells of a mask laid out
/// `w` cells wide; `None` when no cell is set.
pub fn bounding_box(component: &[bool], w: usize, h: usize) -> (r: Option<(usize, usize, usize, usize)>)
    requires
        w > 0 || forall|i: int| 0 <= i < component@.len() ==> !component@[i],
    ensures
        r is None <==> forall|i: int| 0 <= i < component@.len() ==> !component@[i],
        r matches Some(b) ==> is_bounding_box(component@, w as int, h as int, b),
{
    let ghost m = component@;
    let ghost wi = w as int;
    let mut min_x = w;
    let mut min_y = h;
    let mut max_x: usize = 0;
    let mut max_y: usize = 0;
    let mut any = false;
    let mut i: usize = 0;
    while i < component.len()
        invariant
            i <= m.len(),
            m == component@,
            wi == w,
            w > 0 || forall|k: int| 0 <= k < m.len() ==> !m[k],
            any <==> exists|k: int| 0 <= k < i && #[trigger] m[k],
            min_x <= w,
            min_y <= h,
            forall|k: int|
                0 <= k < i && #[trigger] m[k] ==> min_x <= k % wi <= max_x && min_y <= k / wi
                    <= max_y,
            any ==> (min_x == w || exists|k: int| 0 <= k < i && #[trigger] m[k] && k % wi == min_x),
            any ==> (min_y == h || exists|k: int| 0 <= k < i && #[trigger] m[k] && k / wi == min_y),
            any ==> exists|k: int| 0 <= k < i && #[trigger] m[k] && k % wi == max_x,
            any ==> exists|k: int| 0 <= k < i && #[trigger] m[k] && k / wi == max_y,
            !any ==> max_x == 0 && max_y == 0 && min_x == w && min_y == h,
        decreases m.len() - i,
    {
        if component[i] {
            let x = i % w;
            let y = i / w;
            if !any {
                min_x = x;
                max_x = x;
                max_y = y;
                if y < min_y {
                    min_y = y;
                }
            } else {
                if x < min_x {
                    min_x = x;
                }
                if y < min_y {
                    min_y = y;
                }
                if x > max_x {
                    max_x = x;
                }
                if y > max_y {
                    max_y = y;
                }
            }
            any = true;
        }
        i += 1;
    }
    if !any {
        return None;
    }
    proof {
        let k = choose|k: int| 0 <= k < m.len() && #[trigger] m[k] && k % wi == max_x;
        assert(min_x <= max_x);
        let k2 = choose|k: int| 0 <= k < m.len() && #[trigger] m[k] && k / wi == max_y;
        assert(min_y <= max_y);
        assert(max_x < w);
    }
    Some((min_x, min_y, max_x - min_x + 1, max_y - min_y + 1))
}


/// Cells `a` and `b` of a `w`×`h` grid, numbered row by row, share an edge.
pub open spec fn grid_adjacent(w: int, h: int, a: int, b: int) -> bool {
    &&& 0 <= a < w * h
    &&& 0 <= b < w * h
    &&& ((a / w == b / w && (a % w == b % w + 1 || b % w == a % w + 1)) || (a % w == b % w && (
    a / w == b / w + 1 || b / w == a / w + 1)))
}

/// The `k`-th edge neighbour of cell `a` in the order left, right, up, down, when
/// the grid has one there.
pub open spec fn neighbour(w: int, h: int, a: int, k: int) -> Option<int> {
    if k == 0 {
        if a % w > 0 {
            Some(a - 1)
        } else {
            None
        }
    } else if k == 1 {
        if a % w + 1 < w {
            Some(a + 1)
        } else {
            None
        }
    } else if k == 2 {
        if a / w > 0 {
            Some(a - w)
        } else {
            None
        }
    } else {
        if a / w + 1 < h {
            Some(a + w)
        } else {
            None
        }
    }
}

/// A set of cells that no set cell of the mask outside it touches.
pub open spec fn closed_region(mask: Seq<bool>, w: int, h: int, s: Set<usize>) -> bool {
    forall|a: usize, b: usize|
        #![trigger s.contains(a), grid_adjacent(w, h, a as int, b as int)]
        s.contains(a) && grid_adjacent(w, h, a as int, b as int) && mask[b as int] ==> s.contains(b)
}

/// A walk through set cells of the mask from edge neighbour to edge neighbour.
pub open spec fn is_mask_path(mask: Seq<bool>, w: int, h: int, p: Seq<usize>) -> bool {
    &&& p.len() > 0
    &&& forall|k: int| 0 <= k < p.len() ==> (p[k] as int) < mask.len() && mask[p[k] as int]
    &&& forall|k: int|
        0 <= k < p.len() - 1 ==> #[trigger] grid_adjacent(w, h, p[k] as int, p[k + 1] as int)
}

/// Set cells `a` and `b` are joined by a walk through set cells.
pub open spec fn mask_connected(mask: Seq<bool>, w: int, h: int, a: usize, b: usize) -> bool {
    exists|p: Seq<usize>| #[trigger] is_mask_path(mask, w, h, p) && p[0] == a && p.last() == b
}

/// One region as the enumeration reports it: at least `min_area` distinct set cells,
/// the first being the lowest, every one joined to the first, and no set cell
/// outside touching it.
pub open spec fn is_reported_region(mask: Seq<bool>, w: int, h: int, min_area: int, c: Seq<usize>) -> bool {
    &&& c.len() > 0
    &&& c.len() >= min_area
    &&& c.no_duplicates()
    &&& forall|j: int| 0 <= j < c.len() ==> (c[j] as int) < mask.len() && mask[c[j] as int]
    &&& forall|j: int| 0 <= j < c.len() ==> c[0] <= #[trigger] c[j]
    &&& forall|j: int| 0 <= j < c.len() ==> mask_connected(mask, w, h, c[0], #[trigger] c[j])
    &&& closed_region(mask, w, h, c.to_set())
}

/// Cell `i` belongs to one of the reported regions.
pub open spec fn covered(regions: Seq<Vec<usize>>, i: usize) -> bool {
    exists|k: int| 0 <= k < regions.len() && #[trigger] regions[k]@.contains(i)
}

/// Set cell `i` lies in a closed group of fewer than `min_area` cells.
pub open spec fn in_small_region(mask: Seq<bool>, w: int, h: int, min_area: int, i: usize) -> bool {
    exists|s: Set<usize>|
        #[trigger] closed_region(mask, w, h, s) && s.finite() && s.contains(i) && s.len()
            < min_area
}

proof fn lemma_neighbours(w: int, h: int, a: int, b: int)
    requires
        w > 0,
        0 <= a < w * h,
    ensures
        grid_adjacent(w, h, a, b) <==> (neighbour(w, h, a, 0) == Some(b) || neighbour(w, h, a, 1)
            == Some(b) || neighbour(w, h, a, 2) == Some(b) || neighbour(w, h, a, 3) == Some(b)),
        forall|k: int| #[trigger] neighbour(w, h, a, k) matches Some(c) ==> 0 <= c < w * h,
        a / w < h,
{
    let x = a % w;
    let y = a / w;
    vstd::arithmetic::div_mod::lemma_fundamental_div_mod(a, w);
    assert(a == y * w + x) by (nonlinear_arith)
        requires
            a == w * (a / w) + (a % w),
            x == a % w,
            y == a / w,
    ;
    assert(0 <= x < w);
    assert(0 <= y);
    assert(y < h) by (nonlinear_arith)
        requires
            a == y * w + x,
            0 <= x < w,
            a < w * h,
            w > 0,
            0 <= y,
    ;
    assert((y + 1) * w <= h * w) by (nonlinear_arith)
        requires
            y < h,
            w > 0,
    ;
    assert(w * h == h * w) by (nonlinear_arith);
    if x > 0 {
        vstd::arithmetic::div_mod::lemma_fundamental_div_mod_converse(a - 1, w, y, x - 1);
        assert(grid_adjacent(w, h, a, a - 1));
    }
    if x + 1 < w {
        vstd::arithmetic::div_mod::lemma_fundamental_div_mod_converse(a + 1, w, y, x + 1);
        assert(a + 1 < w * h) by (nonlinear_arith)
            requires
                a == y * w + x,
                x + 1 < w,
                (y + 1) * w <= h * w,
                w * h == h * w,
        ;
        assert(grid_adjacent(w, h, a, a + 1));
    }
    if y > 0 {
        assert(a - w == (y - 1) * w + x) by (nonlinear_arith)
            requires
                a == y * w + x,
        ;
        vstd::arithmetic::div_mod::lemma_fundamental_div_mod_converse(a - w, w, y - 1, x);
        assert(a - w >= 0) by (nonlinear_arith)
            requires
                a - w == (y - 1) * w + x,
                y > 0,
                x >= 0,
                w > 0,
        ;
        assert(grid_adjacent(w, h, a, a - w));
    }
    if y + 1 < h {
        assert(a + w == (y + 1) * w + x) by (nonlinear_arith)
            requires
                a == y * w + x,
        ;
        vstd::arithmetic::div_mod::lemma_fundamental_div_mod_converse(a + w, w, y + 1, x);
        assert(a + w < w * h) by (nonlinear_arith)
            requires
                a + w == (y + 1) * w + x,
                y + 1 < h,
                x < w,
                w > 0,
                w * h == h * w,
        ;
        assert(grid_adjacent(w, h, a, a + w));
    }
    if grid_adjacent(w, h, a, b) {
        let bx = b % w;
        let by = b / w;
        vstd::arithmetic::div_mod::lemma_fundamental_div_mod(b, w);
        assert(b == by * w + bx) by (nonlinear_arith)
            requires
                b == w * (b / w) + (b % w),
                bx == b % w,
                by == b / w,
        ;
        if by == y && bx == x + 1 {
            assert(b == a + 1);
        }
        if by == y && x == bx + 1 {
            assert(b == a - 1);
        }
        if by == y + 1 {
            assert(b == a + w) by (nonlinear_arith)
                requires
                    b == by * w + bx,
                    a == y * w + x,
                    by == y + 1,
                    bx == x,
            ;
            assert(y + 1 < h) by (nonlinear_arith)
                requires
                    b == by * w + bx,
                    by == y + 1,
                    0 <= bx,
                    b < w * h,
                    w > 0,
            ;
        }
        if y == by + 1 {
            assert(b == a - w) by (nonlinear_arith)
                requires
                    b == by * w + bx,
                    a == y * w + x,
                    y == by + 1,
                    bx == x,
            ;
        }
    }
}

proof fn lemma_path_extend(mask: Seq<bool>, w: int, h: int, p: Seq<usize>, b: usize)
    requires
        is_mask_path(mask, w, h, p),
        (b as int) < mask.len(),
        mask[b as int],
        grid_adjacent(w, h, p.last() as int, b as int),
    ensures
        is_mask_path(mask, w, h, p.push(b)),
        p.push(b)[0] == p[0],
        p.push(b).last() == b,
{
    let q = p.push(b);
    assert forall|k: int| 0 <= k < q.len() - 1 implies #[trigger] grid_adjacent(
        w,
        h,
        q[k] as int,
        q[k + 1] as int,
    ) by {
        if k < p.len() - 1 {
            assert(q[k] == p[k] && q[k + 1] == p[k + 1]);
        } else {
            assert(q[k] == p.last() && q[k + 1] == b);
        }
    }
}

proof fn lemma_distinct_cells_bounded(s: Seq<usize>, n: usize)
    requires
        s.no_duplicates(),
        forall|k: int| 0 <= k < s.len() ==> s[k] < n,
    ensures
        s.len() <= n,
{
    s.unique_seq_to_set();
    vstd::set_lib::range_set_properties::<usize>(0, n);
    assert(s.to_set().subset_of(Set::<usize>::range(0, n)));
    vstd::set_lib::lemma_len_subset(s.to_set(), Set::<usize>::range(0, n));
}


proof fn lemma_contains_push(s: Seq<usize>, v: usize)
    ensures
        forall|i: usize| #[trigger] s.push(v).contains(i) <==> s.contains(i) || i == v,
{
    assert forall|i: usize| #[trigger] s.push(v).contains(i) <==> s.contains(i) || i == v by {
        if s.contains(i) {
            let j = choose|j: int| 0 <= j < s.len() && s[j] == i;
            assert(s.push(v)[j] == i);
        }
        if i == v {
            assert(s.push(v)[s.len() as int] == i);
        }
        if s.push(v).contains(i) && i != v {
            let j = choose|j: int| 0 <= j < s.len() + 1 && s.push(v)[j] == i;
            assert(j < s.len());
            assert(s[j] == i);
        }
    }
}

proof fn lemma_contains_drop_last(s: Seq<usize>)
    requires
        s.len() > 0,
    ensures
        forall|i: usize|
            #[trigger] s.contains(i) <==> s.subrange(0, s.len() - 1).contains(i) || i == s.last(),
{
    let t = s.subrange(0, s.len() - 1);
    assert(s =~= t.push(s.last()));
    lemma_contains_push(t, s.last());
}

/// A set cell reached while growing the region from `start`, with the walk that
/// reached it.
spec fn reached_cell(
    mask: Seq<bool>,
    w: int,
    h: int,
    done: Set<usize>,
    start: usize,
    paths: Map<usize, Seq<usize>>,
    c: usize,
) -> bool {
    &&& (c as int) < mask.len()
    &&& mask[c as int]
    &&& !done.contains(c)
    &&& start <= c
    &&& paths.contains_key(c)
    &&& is_mask_path(mask, w, h, paths[c])
    &&& paths[c][0] == start
    &&& paths[c].last() == c
}

/// Grows, depth first, the region of set cells joined to `start`, marking each cell
/// visited when it is reached; neighbours are taken left, right, up, down.
#[verifier::loop_isolation(false)]
#[verifier::rlimit(40)]
fn grow_region(
    mask: &[bool],
    w: usize,
    h: usize,
    start: usize,
    visited: &mut Vec<bool>,
    Ghost(done): Ghost<Set<usize>>,
) -> (cells: Vec<usize>)
    requires
        mask@.len() == w * h,
        old(visited)@.len() == mask@.len(),
        start < mask@.len(),
        mask@[start as int],
        !done.contains(start),
        forall|i: usize| i < mask@.len() ==> (old(visited)@[i as int] <==> done.contains(i)),
        forall|i: usize| #[trigger] done.contains(i) ==> i < mask@.len() && mask@[i as int],
        closed_region(mask@, w as int, h as int, done),
        forall|i: usize| i < start && mask@[i as int] ==> done.contains(i),
    ensures
        final(visited)@.len() == mask@.len(),
        forall|i: usize|
            i < mask@.len() ==> (final(visited)@[i as int] <==> done.contains(i)
                || cells@.contains(i)),
        cells@.len() > 0,
        cells@[0] == start,
        cells@.no_duplicates(),
        forall|j: int|
            0 <= j < cells@.len() ==> (#[trigger] cells@[j] as int) < mask@.len() && mask@[cells@[j] as int]
                && !done.contains(cells@[j]) && start <= cells@[j],
        forall|j: int|
            0 <= j < cells@.len() ==> mask_connected(mask@, w as int, h as int, start, #[trigger] cells@[j]),
        closed_region(mask@, w as int, h as int, cells@.to_set()),
{
    let ghost n = mask@.len();
    let ghost wi = w as int;
    let ghost hi = h as int;
    proof {
        if w == 0 {
            assert(w * h == 0) by (nonlinear_arith)
                requires
                    w == 0,
            ;
        }
    }
    let n_cells = mask.len();
    let mut stack: Vec<usize> = Vec::new();
    stack.push(start);
    visited.set(start, true);
    let mut cells: Vec<usize> = Vec::new();
    let ghost mut paths: Map<usize, Seq<usize>> = Map::empty().insert(start, seq![start]);
    proof {
        assert(is_mask_path(mask@, wi, hi, seq![start]));
        assert(stack@ =~= seq![start]);
        lemma_contains_push(Seq::<usize>::empty(), start);
        assert(Seq::<usize>::empty().push(start) =~= seq![start]);
        assert forall|i: usize| i < n implies (visited@[i as int] <==> done.contains(i)
            || cells@.contains(i) || stack@.contains(i)) by {
            if i == start {
                assert(stack@[0] == start);
            }
        }
    }
    while stack.len() > 0
        invariant
            n == mask@.len(),
            w > 0,
            visited@.len() == n,
            forall|i: usize|
                i < n ==> (visited@[i as int] <==> done.contains(i) || cells@.contains(i)
                    || stack@.contains(i)),
            cells@.no_duplicates(),
            stack@.no_duplicates(),
            forall|j1: int, j2: int|
                0 <= j1 < cells@.len() && 0 <= j2 < stack@.len() ==> cells@[j1] != stack@[j2],
            forall|j: int|
                0 <= j < cells@.len() ==> reached_cell(mask@, wi, hi, done, start, paths, #[trigger] cells@[j]),
            forall|j: int|
                0 <= j < stack@.len() ==> reached_cell(mask@, wi, hi, done, start, paths, #[trigger] stack@[j]),
            cells@.len() > 0 ==> cells@[0] == start,
            cells@.len() == 0 ==> stack@ == seq![start],
            forall|j: int, b: usize|
                0 <= j < cells@.len() && #[trigger] grid_adjacent(wi, hi, cells@[j] as int, b as int)
                    && mask@[b as int] ==> visited@[b as int],
            cells@.len() <= n,
        decreases n - cells@.len(),
    {
        let ghost old_stack = stack@;
        let ghost old_cells = cells@;
        let idx = stack.pop().unwrap();
        cells.push(idx);
        proof {
            lemma_contains_drop_last(old_stack);
            lemma_contains_push(old_cells, idx);
            assert(stack@ == old_stack.subrange(0, old_stack.len() - 1));
            assert(idx == old_stack[old_stack.len() - 1]);
            assert forall|j: int| 0 <= j < stack@.len() implies #[trigger] stack@[j] == old_stack[j] by {}
            assert(cells@.no_duplicates()) by {
                assert forall|j1: int, j2: int|
                    0 <= j1 < cells@.len() && 0 <= j2 < cells@.len() && j1 != j2 implies cells@[j1]
                    != cells@[j2] by {
                    if j1 < old_cells.len() && j2 < old_cells.len() {
                    } else if j1 < old_cells.len() {
                        assert(old_cells[j1] != old_stack[old_stack.len() - 1]);
                    } else {
                        assert(old_cells[j2] != old_stack[old_stack.len() - 1]);
                    }
                }
            }
            assert(reached_cell(mask@, wi, hi, done, start, paths, idx)) by {
                assert(reached_cell(mask@, wi, hi, done, start, paths, old_stack[old_stack.len() - 1]));
            }
            assert forall|j: int| 0 <= j < cells@.len() implies reached_cell(mask@, wi, hi, done, start, paths, #[trigger] cells@[j]) by {
                if j < old_cells.len() {
                    assert(cells@[j] == old_cells[j]);
                }
            }
            assert forall|k: int| 0 <= k < cells@.len() implies cells@[k] < n_cells by {
                assert(reached_cell(mask@, wi, hi, done, start, paths, cells@[k]));
            }
            lemma_distinct_cells_bounded(cells@, n_cells);
        }
        let x = idx % w;
        let y = idx / w;
        proof {
            lemma_neighbours(wi, hi, idx as int, 0);
        }
        let mut k: usize = 0;
        while k < 4
            invariant
                k <= 4,
                n == mask@.len(),
                visited@.len() == n,
                cells@.len() > 0,
                cells@.last() == idx,
                x == idx % w,
                y == idx / w,
                forall|i: usize|
                    i < n ==> (visited@[i as int] <==> done.contains(i) || cells@.contains(i)
                        || stack@.contains(i)),
                cells@.no_duplicates(),
                stack@.no_duplicates(),
                forall|j1: int, j2: int|
                    0 <= j1 < cells@.len() && 0 <= j2 < stack@.len() ==> cells@[j1] != stack@[j2],
                forall|j: int|
                    0 <= j < cells@.len() ==> reached_cell(mask@, wi, hi, done, start, paths, #[trigger] cells@[j]),
                forall|j: int|
                    0 <= j < stack@.len() ==> reached_cell(mask@, wi, hi, done, start, paths, #[trigger] stack@[j]),
                cells@[0] == start,
                forall|j: int, b: usize|
                    0 <= j < cells@.len() - 1 && #[trigger] grid_adjacent(wi, hi, cells@[j] as int, b as int)
                        && mask@[b as int] ==> visited@[b as int],
                forall|k2: int|
                    0 <= k2 < k ==> match #[trigger] neighbour(wi, hi, idx as int, k2) {
                        Some(b) => mask@[b] ==> visited@[b],
                        None => true,
                    },
                cells@.len() <= n,
            decreases 4 - k,
        {
            proof {
                assert(reached_cell(mask@, wi, hi, done, start, paths, cells@.last()));
                assert(neighbour(wi, hi, idx as int, k as int) == neighbour(wi, hi, idx as int, k as int));
            }
            let cand: Option<usize> = if k == 0 {
                if x > 0 {
                    Some(idx - 1)
                } else {
                    None
                }
            } else if k == 1 {
                if x + 1 < w {
                    Some(idx + 1)
                } else {
                    None
                }
            } else if k == 2 {
                if y > 0 {
                    Some(idx - w)
                } else {
                    None
                }
            } else {
                if y + 1 < h {
                    Some(idx + w)
                } else {
                    None
                }
            };
            assert(cand matches Some(b) ==> neighbour(wi, hi, idx as int, k as int) == Some(b as int));
            assert(cand is None ==> neighbour(wi, hi, idx as int, k as int) is None);
            if let Some(ni) = cand {
                if mask[ni] && !visited[ni] {
                    let ghost old_stack2 = stack@;
                    proof {
                        lemma_neighbours(wi, hi, idx as int, ni as int);
                        lemma_path_extend(mask@, wi, hi, paths[idx], ni);
                        assert(!stack@.contains(ni));
                        assert(!cells@.contains(ni));
                        assert forall|j: int| 0 <= j < cells@.len() implies #[trigger] cells@[j] != ni by {
                            assert(cells@.contains(cells@[j]));
                        }
                        assert forall|j: int| 0 <= j < stack@.len() implies #[trigger] stack@[j] != ni by {
                            assert(stack@.contains(stack@[j]));
                        }
                    }
                    visited.set(ni, true);
                    stack.push(ni);
                    proof {
                        let old_paths = paths;
                        paths = paths.insert(ni, old_paths[idx].push(ni));
                        lemma_contains_push(old_stack2, ni);
                        assert forall|j: int| 0 <= j < cells@.len() implies reached_cell(mask@, wi, hi, done, start, paths, #[trigger] cells@[j]) by {
                            assert(reached_cell(mask@, wi, hi, done, start, old_paths, cells@[j]));
                        }
                        assert forall|j: int| 0 <= j < stack@.len() implies reached_cell(mask@, wi, hi, done, start, paths, #[trigger] stack@[j]) by {
                            if j < old_stack2.len() {
                                assert(stack@[j] == old_stack2[j]);
                                assert(reached_cell(mask@, wi, hi, done, start, old_paths, old_stack2[j]));
                            } else {
                                assert(stack@[j] == ni);
                                assert(!done.contains(ni));
                                assert(start <= ni) by {
                                    if ni < start {
                                        assert(done.contains(ni));
                                    }
                                }
                            }
                        }
                        assert(stack@.no_duplicates());
                    }
                }
            }
            k += 1;
        }
        proof {
            assert forall|j: int, b: usize|
                0 <= j < cells@.len() && #[trigger] grid_adjacent(wi, hi, cells@[j] as int, b as int)
                    && mask@[b as int] implies visited@[b as int] by {
                if j == cells@.len() - 1 {
                    lemma_neighbours(wi, hi, idx as int, b as int);
                    assert(neighbour(wi, hi, idx as int, 0) == Some(b as int) || neighbour(wi, hi, idx as int, 1) == Some(b as int)
                        || neighbour(wi, hi, idx as int, 2) == Some(b as int) || neighbour(wi, hi, idx as int, 3) == Some(b as int));
                }
            }
        }
    }
    proof {
        assert(cells@.len() > 0);
        assert forall|i: usize| i < n implies (visited@[i as int] <==> done.contains(i)
            || cells@.contains(i)) by {
            assert(!stack@.contains(i));
        }
        assert forall|j: int| 0 <= j < cells@.len() implies mask_connected(mask@, wi, hi, start, #[trigger] cells@[j]) by {
            assert(reached_cell(mask@, wi, hi, done, start, paths, cells@[j]));
            assert(is_mask_path(mask@, wi, hi, paths[cells@[j]]));
        }
        assert forall|a: usize, b: usize|
            #![trigger cells@.to_set().contains(a), grid_adjacent(wi, hi, a as int, b as int)]
            cells@.to_set().contains(a) && grid_adjacent(wi, hi, a as int, b as int) && mask@[b as int]
            implies cells@.to_set().contains(b) by {
            let j = choose|j: int| 0 <= j < cells@.len() && cells@[j] == a;
            assert(grid_adjacent(wi, hi, cells@[j] as int, b as int));
            assert(visited@[b as int]);
            assert(reached_cell(mask@, wi, hi, done, start, paths, cells@[j]));
            if done.contains(b) {
                assert(grid_adjacent(wi, hi, b as int, a as int));
                assert(done.contains(a));
            }
        }
    }
    cells
}


/// `regions` lists the edge-connected regions of set cells of the mask that hold at
/// least `min_area` cells, in the order of their lowest cell, each region once.
pub open spec fn is_region_enumeration(
    mask: Seq<bool>,
    w: int,
    h: int,
    min_area: int,
    regions: Seq<Vec<usize>>,
) -> bool {
    &&& forall|k: int|
        0 <= k < regions.len() ==> is_reported_region(mask, w, h, min_area, #[trigger] regions[k]@)
    &&& forall|k1: int, k2: int|
        0 <= k1 < k2 < regions.len() ==> #[trigger] regions[k1]@[0] < #[trigger] regions[k2]@[0]
    &&& forall|k1: int, k2: int, j1: int, j2: int|
        0 <= k1 < regions.len() && 0 <= k2 < regions.len() && k1 != k2 && 0 <= j1
            < regions[k1]@.len() && 0 <= j2 < regions[k2]@.len() ==> #[trigger] regions[k1]@[j1]
            != #[trigger] regions[k2]@[j2]
    &&& forall|i: usize|
        (i as int) < mask.len() && #[trigger] mask[i as int] && !covered(regions, i)
            ==> in_small_region(mask, w, h, min_area, i)
}

proof fn lemma_closed_contains_path(mask: Seq<bool>, w: int, h: int, s: Set<usize>, p: Seq<usize>)
    requires
        closed_region(mask, w, h, s),
        is_mask_path(mask, w, h, p),
        s.contains(p[0]),
    ensures
        s.contains(p.last()),
    decreases p.len(),
{
    if p.len() > 1 {
        let q = p.drop_last();
        assert forall|k: int| 0 <= k < q.len() - 1 implies #[trigger] grid_adjacent(
            w,
            h,
            q[k] as int,
            q[k + 1] as int,
        ) by {
            assert(grid_adjacent(w, h, p[k] as int, p[k + 1] as int));
        }
        assert(is_mask_path(mask, w, h, q));
        lemma_closed_contains_path(mask, w, h, s, q);
        let k = p.len() - 2;
        assert(grid_adjacent(w, h, p[k] as int, p[k + 1] as int));
        assert(p[k + 1] == p.last());
        assert(mask[p.last() as int]);
        assert(q.last() == p[k]);
        assert(s.contains(p[k]));
    }
}

/// Every set cell joined by walks through set cells to at least `min_area` set
/// cells lies in one of the enumerated regions: no region large enough is missed.
pub proof fn lemma_large_regions_reported(
    mask: Seq<bool>,
    w: int,
    h: int,
    min_area: int,
    regions: Seq<Vec<usize>>,
    i: usize,
    s: Set<usize>,
)
    requires
        is_region_enumeration(mask, w, h, min_area, regions),
        (i as int) < mask.len(),
        mask[i as int],
        s.finite(),
        s.len() >= min_area,
        forall|c: usize| #[trigger] s.contains(c) ==> mask_connected(mask, w, h, i, c),
    ensures
        covered(regions, i),
{
    if !covered(regions, i) {
        assert(in_small_region(mask, w, h, min_area, i));
        let t = choose|t: Set<usize>|
            #[trigger] closed_region(mask, w, h, t) && t.finite() && t.contains(i) && t.len() < min_area;
        assert forall|c: usize| s.contains(c) implies t.contains(c) by {
            assert(mask_connected(mask, w, h, i, c));
            let p = choose|p: Seq<usize>| #[trigger] is_mask_path(mask, w, h, p) && p[0] == i && p.last() == c;
            lemma_closed_contains_path(mask, w, h, t, p);
        }
        assert(s.subset_of(t));
        vstd::set_lib::lemma_len_subset(s, t);
    }
}

/// The regions of edge-connected set cells of a `w`×`h` mask that hold at least
/// `min_area` cells, in the order of their lowest cell. Each region lists its
/// cells in the order a depth-first walk from its lowest cell reaches them.
#[verifier::loop_isolation(false)]
#[verifier::rlimit(40)]
pub fn enumerate_skin_components(mask: &[bool], w: usize, h: usize, min_area: usize) -> (regions: Vec<Vec<usize>>)
    requires
        mask@.len() == w * h,
    ensures
        forall|k: int|
            0 <= k < regions@.len() ==> is_reported_region(
                mask@,
                w as int,
                h as int,
                min_area as int,
                #[trigger] regions@[k]@,
            ),
        forall|k1: int, k2: int|
            0 <= k1 < k2 < regions@.len() ==> #[trigger] regions@[k1]@[0] < #[trigger] regions@[k2]@[0],
        forall|k1: int, k2: int, j1: int, j2: int|
            0 <= k1 < regions@.len() && 0 <= k2 < regions@.len() && k1 != k2 && 0 <= j1
                < regions@[k1]@.len() && 0 <= j2 < regions@[k2]@.len() ==> #[trigger] regions@[k1]@[j1]
                != #[trigger] regions@[k2]@[j2],
        forall|i: usize|
            (i as int) < mask@.len() && #[trigger] mask@[i as int] && !covered(regions@, i)
                ==> in_small_region(mask@, w as int, h as int, min_area as int, i),
        is_region_enumeration(mask@, w as int, h as int, min_area as int, regions@),
{
    let n = mask.len();
    let ghost wi = w as int;
    let ghost hi = h as int;
    let mut visited: Vec<bool> = Vec::new();
    let mut i: usize = 0;
    while i < n
        invariant
            i <= n,
            visited@.len() == i,
            forall|k: int| 0 <= k < i ==> !visited@[k],
        decreases n - i,
    {
        visited.push(false);
        i += 1;
    }
    let mut out: Vec<Vec<usize>> = Vec::new();
    let ghost mut done: Set<usize> = Set::empty();
    let mut start: usize = 0;
    while start < n
        invariant
            start <= n,
            n == mask@.len(),
            visited@.len() == n,
            forall|i: usize| i < n ==> (visited@[i as int] <==> done.contains(i)),
            forall|i: usize| #[trigger] done.contains(i) ==> i < n && mask@[i as int],
            closed_region(mask@, wi, hi, done),
            forall|i: usize| i < start && mask@[i as int] ==> done.contains(i),
            forall|k: int|
                0 <= k < out@.len() ==> is_reported_region(mask@, wi, hi, min_area as int, #[trigger] out@[k]@),
            forall|k: int, j: int|
                0 <= k < out@.len() && 0 <= j < out@[k]@.len() ==> done.contains(#[trigger] out@[k]@[j]),
            forall|k: int| 0 <= k < out@.len() ==> #[trigger] out@[k]@[0] < start,
            forall|k1: int, k2: int|
                0 <= k1 < k2 < out@.len() ==> #[trigger] out@[k1]@[0] < #[trigger] out@[k2]@[0],
            forall|k1: int, k2: int, j1: int, j2: int|
                0 <= k1 < out@.len() && 0 <= k2 < out@.len() && k1 != k2 && 0 <= j1 < out@[k1]@.len()
                    && 0 <= j2 < out@[k2]@.len() ==> #[trigger] out@[k1]@[j1] != #[trigger] out@[k2]@[j2],
            forall|i: usize|
                #[trigger] done.contains(i) && !covered(out@, i) ==> in_small_region(
                    mask@,
                    wi,
                    hi,
                    min_area as int,
                    i,
                ),
        decreases n - start,
    {
        if mask[start] && !visited[start] {
            let cells = grow_region(mask, w, h, start, &mut visited, Ghost(done));
            let ghost cs = cells@;
            let ghost old_out = out@;
            let ghost old_done = done;
            proof {
                done = old_done.union(cs.to_set());
            }
            let big = cells.len() >= min_area;
            if big {
                out.push(cells);
            }
            proof {
                assert(cs[0] == start);
                assert forall|i: usize| #[trigger] old_done.contains(i) && covered(old_out, i) implies covered(out@, i) by {
                    let k = choose|k: int| 0 <= k < old_out.len() && #[trigger] old_out[k]@.contains(i);
                    assert(out@[k] == old_out[k]);
                }
                assert(closed_region(mask@, wi, hi, done)) by {
                    assert forall|a: usize, b: usize|
                        #![trigger done.contains(a), grid_adjacent(wi, hi, a as int, b as int)]
                        done.contains(a) && grid_adjacent(wi, hi, a as int, b as int) && mask@[b as int]
                        implies done.contains(b) by {
                        if old_done.contains(a) {
                            assert(old_done.contains(b));
                        } else {
                            assert(cs.to_set().contains(a));
                            assert(cs.to_set().contains(b));
                        }
                    }
                }
                assert forall|i: usize| i < start + 1 && mask@[i as int] implies done.contains(i) by {
                    if i == start {
                        assert(cs.contains(start));
                    }
                }
                if big {
                    assert(out@ == old_out.push(cells));
                    assert(out@[old_out.len() as int]@ == cs);
                    assert(is_reported_region(mask@, wi, hi, min_area as int, cs)) by {
                        assert forall|j: int| 0 <= j < cs.len() implies cs[0] <= #[trigger] cs[j] by {
                        }
                    }
                    assert forall|k1: int, k2: int, j1: int, j2: int|
                        0 <= k1 < out@.len() && 0 <= k2 < out@.len() && k1 != k2 && 0 <= j1
                            < out@[k1]@.len() && 0 <= j2 < out@[k2]@.len() implies #[trigger] out@[k1]@[j1]
                            != #[trigger] out@[k2]@[j2] by {
                        if k1 == old_out.len() {
                            assert(old_done.contains(out@[k2]@[j2]));
                            assert(!old_done.contains(cs[j1]));
                        } else if k2 == old_out.len() {
                            assert(old_done.contains(out@[k1]@[j1]));
                            assert(!old_done.contains(cs[j2]));
                        } else {
                            assert(out@[k1] == old_out[k1]);
                            assert(out@[k2] == old_out[k2]);
                        }
                    }
                    assert forall|i: usize| #[trigger] done.contains(i) && !covered(out@, i) implies in_small_region(
                        mask@,
                        wi,
                        hi,
                        min_area as int,
                        i,
                    ) by {
                        if cs.contains(i) {
                            assert(out@[old_out.len() as int]@.contains(i));
                        } else {
                            assert(old_done.contains(i));
                        }
                    }
                } else {
                    assert(out@ == old_out);
                    cs.unique_seq_to_set();
                    assert forall|i: usize| #[trigger] done.contains(i) && !covered(out@, i) implies in_small_region(
                        mask@,
                        wi,
                        hi,
                        min_area as int,
                        i,
                    ) by {
                        if cs.contains(i) {
                            assert(closed_region(mask@, wi, hi, cs.to_set()));
                            assert(cs.to_set().contains(i));
                        } else {
                            assert(old_done.contains(i));
                        }
                    }
                }
            }
        }
        start += 1;
    }
    assert forall|i: usize|
        (i as int) < mask@.len() && #[trigger] mask@[i as int] && !covered(out@, i)
            implies in_small_region(mask@, wi, hi, min_area as int, i) by {
        assert(done.contains(i));
    }
    out
}

} // verus!
