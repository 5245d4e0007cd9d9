//! The integer geometry of a rasterised line, independent of any surface.

use vstd::prelude::*;
use vstd::arithmetic::div_mod::lemma_fundamental_div_mod;
use vstd::arithmetic::div_mod::lemma_fundamental_div_mod_converse;

verus! {

/// Whether `(x, y)` lies inside a `width` by `height` pixel grid.
pub open spec fn within(width: int, height: int, x: int, y: int) -> bool {
    0 <= x < width && 0 <= y < height
}

/// The distance between two coordinates on one axis.
pub open spec fn distance(a: int, b: int) -> int {
    if a <= b {
        b - a
    } else {
        a - b
    }
}

/// The unit step that leads from `from` towards `to`: 1, -1, or 0 where
/// they are equal.
pub open spec fn direction(from: int, to: int) -> int {
    if from < to {
        1
    } else if from > to {
        -1
    } else {
        0
    }
}

/// The coordinate reached from `from` after `steps` unit steps towards `to`.
pub open spec fn advance(from: int, to: int, steps: int) -> int {
    if from < to {
        from + steps
    } else if from > to {
        from - steps
    } else {
        from
    }
}

/// How far a line has moved along its shorter axis once it has moved `k`
/// pixels along its longer one: `k * minor / major`, rounded to the nearest
/// integer, an exact half rounding down.
pub open spec fn minor_steps(major: int, minor: int, k: int) -> int {
    if major <= 0 {
        0
    } else {
        (k * minor + (major - 1) / 2) / major
    }
}

/// How far the ideal line lies past the rounding boundary after `k` major
/// steps, in units of `1 / major` pixels.
pub open spec fn residue(major: int, minor: int, k: int) -> int {
    if major <= 0 {
        0
    } else {
        (k * minor + (major - 1) / 2) % major
    }
}

/// Number of steps a line takes along its longer axis; the line has one more
/// pixel than that.
pub open spec fn line_steps(x1: int, y1: int, x2: int, y2: int) -> int {
    if distance(x1, x2) > distance(y1, y2) {
        distance(x1, x2)
    } else {
        distance(y1, y2)
    }
}

/// The `k`-th pixel of the line from `(x1, y1)` to `(x2, y2)`.
pub open spec fn line_point(x1: int, y1: int, x2: int, y2: int, k: int) -> (int, int) {
    let dx = distance(x1, x2);
    let dy = distance(y1, y2);
    if dx > dy {
        (advance(x1, x2, k), advance(y1, y2, minor_steps(dx, dy, k)))
    } else {
        (advance(x1, x2, minor_steps(dy, dx, k)), advance(y1, y2, k))
    }
}

/// The pixels of the line from `(x1, y1)` to `(x2, y2)`, both ends included,
/// in the order in which they are plotted.
pub open spec fn line_points(x1: int, y1: int, x2: int, y2: int) -> Seq<(int, int)> {
    Seq::new((line_steps(x1, y1, x2, y2) + 1) as nat, |k: int| line_point(x1, y1, x2, y2, k))
}

/// One more step along the longer axis either keeps the shorter coordinate
/// and grows the residue by `minor`, or moves the shorter coordinate by one
/// and wraps the residue.
pub proof fn lemma_minor_step(major: int, minor: int, k: int)
    requires
        0 <= minor <= major,
        0 < major,
        0 <= k,
    ensures
        0 <= residue(major, minor, k) < major,
        residue(major, minor, k) + minor < major ==> {
            &&& minor_steps(major, minor, k + 1) == minor_steps(major, minor, k)
            &&& residue(major, minor, k + 1) == residue(major, minor, k) + minor
        },
        residue(major, minor, k) + minor >= major ==> {
            &&& minor_steps(major, minor, k + 1) == minor_steps(major, minor, k) + 1
            &&& residue(major, minor, k + 1) == residue(major, minor, k) + minor - major
        },
{
    let c = (major - 1) / 2;
    let n = k * minor + c;
    let q = n / major;
    let r = n % major;
    lemma_fundamental_div_mod(n, major);
    assert(0 <= n) by (nonlinear_arith)
        requires
            0 <= k,
            0 <= minor,
            0 <= c,
            n == k * minor + c,
    ;
    assert(0 <= r < major) by (nonlinear_arith)
        requires
            0 < major,
            r == n % major,
    ;
    let n1 = (k + 1) * minor + c;
    assert(n1 == n + minor) by (nonlinear_arith)
        requires
            n1 == (k + 1) * minor + c,
            n == k * minor + c,
    ;
    if r + minor < major {
        assert(n1 == q * major + (r + minor)) by (nonlinear_arith)
            requires
                n1 == n + minor,
                n == major * q + r,
        ;
        lemma_fundamental_div_mod_converse(n1, major, q, r + minor);
    } else {
        assert(n1 == (q + 1) * major + (r + minor - major)) by (nonlinear_arith)
            requires
                n1 == n + minor,
                n == major * q + r,
        ;
        lemma_fundamental_div_mod_converse(n1, major, q + 1, r + minor - major);
    }
}

/// A line starts on its first end point.
pub proof fn lemma_minor_start(major: int, minor: int)
    requires
        0 <= minor <= major,
    ensures
        minor_steps(major, minor, 0) == 0,
        0 < major ==> residue(major, minor, 0) == (major - 1) / 2,
{
    if 0 < major {
        let c = (major - 1) / 2;
        assert(0 * minor + c == 0 * major + c) by (nonlinear_arith);
        lemma_fundamental_div_mod_converse(0 * minor + c, major, 0, c);
    }
}

/// A line ends on its second end point.
pub proof fn lemma_minor_end(major: int, minor: int)
    requires
        0 <= minor <= major,
    ensures
        minor_steps(major, minor, major) == minor,
{
    if 0 < major {
        let c = (major - 1) / 2;
        assert(major * minor + c == minor * major + c) by (nonlinear_arith);
        lemma_fundamental_div_mod_converse(major * minor + c, major, minor, c);
    }
}

/// The shorter coordinate never moves backwards and never passes its end.
pub proof fn lemma_minor_range(major: int, minor: int, k: int)
    requires
        0 <= minor <= major,
        0 <= k <= major,
    ensures
        0 <= minor_steps(major, minor, k) <= minor,
    decreases major - k,
{
    if 0 < major {
        if k == major {
            lemma_minor_end(major, minor);
        } else {
            lemma_minor_range(major, minor, k + 1);
            lemma_minor_step(major, minor, k);
        }
        lemma_minor_nonnegative(major, minor, k);
    }
}

proof fn lemma_minor_nonnegative(major: int, minor: int, k: int)
    requires
        0 <= minor <= major,
        0 < major,
        0 <= k,
    ensures
        0 <= minor_steps(major, minor, k),
    decreases k,
{
    if k == 0 {
        lemma_minor_start(major, minor);
    } else {
        lemma_minor_nonnegative(major, minor, k - 1);
        lemma_minor_step(major, minor, k - 1);
    }
}

/// Whether the ideal line from one end to the other, after `k` steps along
/// its longer axis, lies exactly half-way between two pixels.
pub open spec fn tie_at(major: int, minor: int, k: int) -> bool {
    0 < major && major % 2 == 0 && (k * minor) % major == major / 2
}

/// Whether the line between the two points passes exactly half-way between
/// two pixels somewhere. Such a pixel is rounded towards the end the line
/// starts from, so the two directions disagree on it.
pub open spec fn has_tie(x1: int, y1: int, x2: int, y2: int) -> bool {
    let dx = distance(x1, x2);
    let dy = distance(y1, y2);
    if dx > dy {
        exists|k: int| 0 <= k <= dx && #[trigger] tie_at(dx, dy, k)
    } else {
        exists|k: int| 0 <= k <= dy && #[trigger] tie_at(dy, dx, k)
    }
}

/// At a tie the residue is at its maximum, and only there.
pub proof fn lemma_tie_residue(major: int, minor: int, k: int)
    requires
        0 <= minor <= major,
        0 < major,
        0 <= k,
        major % 2 == 0,
    ensures
        tie_at(major, minor, k) <==> residue(major, minor, k) == major - 1,
{
    let n = k * minor;
    let a = n % major;
    let q = n / major;
    lemma_fundamental_div_mod(n, major);
    assert(0 <= a < major) by (nonlinear_arith)
        requires
            0 < major,
            a == n % major,
    ;
    let c = (major - 1) / 2;
    if a + c < major {
        assert(n + c == q * major + (a + c)) by (nonlinear_arith)
            requires
                n == major * q + a,
        ;
        lemma_fundamental_div_mod_converse(n + c, major, q, a + c);
    } else {
        assert(n + c == (q + 1) * major + (a + c - major)) by (nonlinear_arith)
            requires
                n == major * q + a,
        ;
        lemma_fundamental_div_mod_converse(n + c, major, q + 1, a + c - major);
    }
}

/// Walking the longer axis from the other end mirrors the shorter
/// coordinate, except at a tie, where it lands one pixel further.
pub proof fn lemma_minor_mirror(major: int, minor: int, k: int)
    requires
        0 <= minor <= major,
        0 <= k <= major,
    ensures
        minor_steps(major, minor, major - k) == if tie_at(major, minor, k) {
            minor - minor_steps(major, minor, k) - 1
        } else {
            minor - minor_steps(major, minor, k)
        },
{
    if 0 < major {
        let c = (major - 1) / 2;
        let n = k * minor + c;
        let q = n / major;
        let r = n % major;
        lemma_fundamental_div_mod(n, major);
        lemma_minor_step(major, minor, k);
        if major % 2 == 0 {
            lemma_tie_residue(major, minor, k);
        }
        let mirrored = (major - k) * minor + c;
        if tie_at(major, minor, k) {
            assert(mirrored == (minor - q - 1) * major + (major + 2 * c - r)) by (nonlinear_arith)
                requires
                    mirrored == (major - k) * minor + c,
                    k * minor + c == major * q + r,
            ;
            lemma_fundamental_div_mod_converse(
                mirrored,
                major,
                minor - q - 1,
                major + 2 * c - r,
            );
        } else {
            assert(mirrored == (minor - q) * major + (2 * c - r)) by (nonlinear_arith)
                requires
                    mirrored == (major - k) * minor + c,
                    k * minor + c == major * q + r,
            ;
            lemma_fundamental_div_mod_converse(mirrored, major, minor - q, 2 * c - r);
        }
    }
}

/// A line from a point to itself is that one pixel.
pub proof fn lemma_line_of_one_point(x: int, y: int)
    ensures
        line_points(x, y, x, y) == seq![(x, y)],
{
    assert(line_points(x, y, x, y) =~= seq![(x, y)]);
}

/// A line without a tie is the same pixels in both directions: drawn from
/// the other end, the pixels come in the opposite order.
pub proof fn lemma_line_reversed(x1: int, y1: int, x2: int, y2: int)
    requires
        !has_tie(x1, y1, x2, y2),
    ensures
        line_points(x2, y2, x1, y1) == line_points(x1, y1, x2, y2).reverse(),
        line_points(x2, y2, x1, y1).to_set() == line_points(x1, y1, x2, y2).to_set(),
{
    let forth = line_points(x1, y1, x2, y2);
    let back = line_points(x2, y2, x1, y1);
    let dx = distance(x1, x2);
    let dy = distance(y1, y2);
    let steps = line_steps(x1, y1, x2, y2);
    assert(back.len() == forth.len());
    assert forall|k: int| 0 <= k < back.len() implies back[k] == forth[steps - k] by {
        if dx > dy {
            assert(!tie_at(dx, dy, k));
            lemma_minor_mirror(dx, dy, k);
            lemma_minor_range(dx, dy, k);
        } else {
            assert(!tie_at(dy, dx, k));
            lemma_minor_mirror(dy, dx, k);
            lemma_minor_range(dy, dx, k);
        }
    }
    assert(back =~= forth.reverse());
    assert forall|p: (int, int)| back.contains(p) <==> forth.contains(p) by {
        if back.contains(p) {
            let k = choose|k: int| 0 <= k < back.len() && back[k] == p;
            assert(forth[steps - k] == p);
        }
        if forth.contains(p) {
            let k = choose|k: int| 0 <= k < forth.len() && forth[k] == p;
            assert(back[steps - k] == forth[steps - (steps - k)]);
        }
    }
    assert(back.to_set() =~= forth.to_set());
}

/// A line with a tie is not the same pixels in both directions: drawn from
/// the other end, the pixel at the tie lies one further along the shorter
/// axis.
pub proof fn lemma_line_with_tie(x1: int, y1: int, x2: int, y2: int)
    requires
        has_tie(x1, y1, x2, y2),
    ensures
        line_points(x2, y2, x1, y1).to_set() != line_points(x1, y1, x2, y2).to_set(),
{
    let forth = line_points(x1, y1, x2, y2);
    let back = line_points(x2, y2, x1, y1);
    let dx = distance(x1, x2);
    let dy = distance(y1, y2);
    if dx > dy {
        let k = choose|k: int| 0 <= k <= dx && #[trigger] tie_at(dx, dy, k);
        assert(dy != 0) by (nonlinear_arith)
            requires
                tie_at(dx, dy, k),
        ;
        lemma_minor_mirror(dx, dy, k);
        lemma_minor_range(dx, dy, k);
        let p = back[dx - k];
        assert(back.contains(p));
        assert(!forth.contains(p)) by {
            assert forall|j: int| 0 <= j < forth.len() implies forth[j] != p by {}
        }
        assert(back.to_set().contains(p));
        assert(!forth.to_set().contains(p));
    } else {
        let k = choose|k: int| 0 <= k <= dy && #[trigger] tie_at(dy, dx, k);
        assert(dx != 0) by (nonlinear_arith)
            requires
                tie_at(dy, dx, k),
        ;
        lemma_minor_mirror(dy, dx, k);
        lemma_minor_range(dy, dx, k);
        let p = back[dy - k];
        assert(back.contains(p));
        assert(!forth.contains(p)) by {
            assert forall|j: int| 0 <= j < forth.len() implies forth[j] != p by {}
        }
        assert(back.to_set().contains(p));
        assert(!forth.to_set().contains(p));
    }
}

} // verus!
