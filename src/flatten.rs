use vstd::prelude::*;

use crate::path::{at_sub_path_start, valid_commands, well_ordered, Path, PathCommand};

verus! {

/// A curved segment together with the point it starts from.
#[derive(Clone, Copy, Debug, PartialEq)]
pub enum Curve<P> {
    Quadratic { from: P, ctrl: P, to: P },
    Cubic { from: P, ctrl1: P, ctrl2: P, to: P },
}

pub open spec fn is_curve<P>(c: PathCommand<P>) -> bool {
    c is QuadraticTo || c is CubicTo
}

/// A command sequence without curves.
pub open spec fn is_straight<P>(cmds: Seq<PathCommand<P>>) -> bool {
    forall|i: int| 0 <= i < cmds.len() ==> !is_curve(#[trigger] cmds[i])
}

/// Where a command leaves the pen (`End` leaves it nowhere in particular).
pub open spec fn end_point<P>(c: PathCommand<P>) -> P {
    match c {
        PathCommand::Begin(p) => p,
        PathCommand::LineTo(p) => p,
        PathCommand::QuadraticTo(_, to) => to,
        PathCommand::CubicTo(_, _, to) => to,
        PathCommand::End(_) => arbitrary(),
    }
}

/// The curve drawn by command `i`, starting where command `i - 1` left the pen.
pub open spec fn curve_at<P>(cmds: Seq<PathCommand<P>>, i: int) -> Curve<P> {
    let from = end_point(cmds[i - 1]);
    match cmds[i] {
        PathCommand::QuadraticTo(ctrl, to) => Curve::Quadratic { from, ctrl, to },
        PathCommand::CubicTo(ctrl1, ctrl2, to) => Curve::Cubic { from, ctrl1, ctrl2, to },
        _ => arbitrary(),
    }
}

/// Straight segments through each point of `interior`, then to `to`.
pub open spec fn polyline_to<P>(interior: Seq<P>, to: P) -> Seq<PathCommand<P>> {
    interior.map_values(|p: P| PathCommand::LineTo(p)).push(PathCommand::LineTo(to))
}

/// What command `c` becomes once flattened: a curve turns into straight
/// segments through the points `interior` chosen for it, then to its end
/// point; any other command stays as it is.
pub open spec fn replacement<P>(c: PathCommand<P>, interior: Seq<P>) -> Seq<PathCommand<P>> {
    if is_curve(c) {
        polyline_to(interior, end_point(c))
    } else {
        seq![c]
    }
}

/// Flattened form of the first `n` commands, `interiors[i]` holding the
/// points chosen for command `i`.
pub open spec fn flattened_upto<P>(
    cmds: Seq<PathCommand<P>>,
    interiors: Seq<Vec<P>>,
    n: int,
) -> Seq<PathCommand<P>>
    decreases n,
{
    if n <= 0 {
        Seq::empty()
    } else {
        flattened_upto(cmds, interiors, n - 1) + replacement(cmds[n - 1], interiors[n - 1]@)
    }
}

pub open spec fn flattened_commands<P>(
    cmds: Seq<PathCommand<P>>,
    interiors: Seq<Vec<P>>,
) -> Seq<PathCommand<P>> {
    flattened_upto(cmds, interiors, cmds.len() as int)
}

/// `interiors[i]` is an output that `subdivide` may give for each curve `i`.
pub open spec fn chosen_by<P, F: Fn(Curve<P>) -> Vec<P>>(
    cmds: Seq<PathCommand<P>>,
    interiors: Seq<Vec<P>>,
    subdivide: F,
) -> bool {
    &&& interiors.len() == cmds.len()
    &&& forall|i: int|
        0 <= i < cmds.len() && is_curve(#[trigger] cmds[i]) ==> subdivide.ensures(
            (curve_at(cmds, i),),
            interiors[i],
        )
}

proof fn lemma_upto_uses_prefix<P>(
    cmds: Seq<PathCommand<P>>,
    a: Seq<Vec<P>>,
    b: Seq<Vec<P>>,
    n: int,
)
    requires
        0 <= n <= a.len(),
        n <= b.len(),
        forall|j: int| 0 <= j < n ==> a[j] == b[j],
    ensures
        flattened_upto(cmds, a, n) == flattened_upto(cmds, b, n),
    decreases n,
{
    if n > 0 {
        lemma_upto_uses_prefix(cmds, a, b, n - 1);
    }
}

/// Flattening a path that has no curve gives back the same commands,
/// whatever points a subdivider would have chosen.
pub proof fn lemma_flatten_straight_identity<P>(cmds: Seq<PathCommand<P>>, interiors: Seq<Vec<P>>)
    requires
        is_straight(cmds),
    ensures
        flattened_commands(cmds, interiors) == cmds,
{
    lemma_straight_upto(cmds, interiors, cmds.len() as int);
    assert(cmds.take(cmds.len() as int) =~= cmds);
}

proof fn lemma_straight_upto<P>(cmds: Seq<PathCommand<P>>, interiors: Seq<Vec<P>>, n: int)
    requires
        is_straight(cmds),
        0 <= n <= cmds.len(),
    ensures
        flattened_upto(cmds, interiors, n) == cmds.take(n),
    decreases n,
{
    if n > 0 {
        lemma_straight_upto(cmds, interiors, n - 1);
        assert(!is_curve(cmds[n - 1]));
        assert(cmds.take(n - 1) + seq![cmds[n - 1]] =~= cmds.take(n));
    }
}

proof fn lemma_push_keeps_order<P>(s: Seq<PathCommand<P>>, x: PathCommand<P>)
    requires
        well_ordered(s),
        x is Begin <==> (s.len() == 0 || s.last() is End),
    ensures
        well_ordered(s.push(x)),
{
    let t = s.push(x);
    assert forall|i: int| 0 <= i < t.len() implies ((#[trigger] t[i]) is Begin <==> at_sub_path_start(
        t,
        i,
    )) by {
        if i < s.len() {
            assert(t[i] == s[i]);
            assert(at_sub_path_start(s, i) == at_sub_path_start(t, i));
        }
    }
}

/// Appends straight segments through `interior` and then to `to` after a
/// command that leaves a sub-path open.
fn push_polyline<P: Copy>(out: &mut Vec<PathCommand<P>>, interior: Vec<P>, to: P)
    requires
        well_ordered(old(out)@),
        is_straight(old(out)@),
        old(out)@.len() > 0,
        !(old(out)@.last() is End),
    ensures
        final(out)@ == old(out)@ + polyline_to(interior@, to),
        well_ordered(final(out)@),
        is_straight(final(out)@),
        !(final(out)@.last() is End),
{
    let ghost start = out@;
    let mut k: usize = 0;
    while k < interior.len()
        invariant
            k <= interior@.len(),
            out@ == start + interior@.take(k as int).map_values(|p: P| PathCommand::LineTo(p)),
            well_ordered(out@),
            is_straight(out@),
            out@.len() > 0,
            !(out@.last() is End),
        decreases interior@.len() - k,
    {
        proof {
            lemma_push_keeps_order(out@, PathCommand::LineTo(interior@[k as int]));
        }
        out.push(PathCommand::LineTo(interior[k]));
        k = k + 1;
        assert(out@ == start + interior@.take(k as int).map_values(|p: P| PathCommand::LineTo(p)))
            by {
            assert(interior@.take(k as int) =~= interior@.take(k - 1).push(interior@[k - 1]));
            assert(interior@.take(k as int).map_values(|p: P| PathCommand::LineTo(p))
                =~= interior@.take(k - 1).map_values(|p: P| PathCommand::LineTo(p)).push(
                PathCommand::LineTo(interior@[k - 1]),
            ));
        }
    }
    proof {
        lemma_push_keeps_order(out@, PathCommand::LineTo(to));
        assert(interior@.take(interior@.len() as int) =~= interior@);
    }
    out.push(PathCommand::LineTo(to));
    assert(out@ =~= start + polyline_to(interior@, to));
}

impl<P: Copy> Path<P> {
    /// The path with every curve replaced by straight segments through the
    /// points that `subdivide` returns for it, followed by a segment to the
    /// curve's own end point. Everything else is kept in order: sub-paths,
    /// their start points, straight segments and how each sub-path ends.
    pub fn flattened<F: Fn(Curve<P>) -> Vec<P>>(&self, subdivide: F) -> (r: Path<P>)
        requires
            forall|c: Curve<P>| #[trigger] subdivide.requires((c,)),
        ensures
            exists|interiors: Seq<Vec<P>>|
                chosen_by(self@, interiors, subdivide) && r@ == flattened_commands(
                    self@,
                    interiors,
                ),
            is_straight(r@),
            is_straight(self@) ==> r@ == self@,
    {
        let cmds = self.commands();
        let mut out: Vec<PathCommand<P>> = Vec::new();
        let ghost mut interiors: Seq<Vec<P>> = Seq::empty();
        let mut pen: Option<P> = None;
        let mut i: usize = 0;
        while i < cmds.len()
            invariant
                cmds@ == self@,
                valid_commands(cmds@),
                forall|c: Curve<P>| #[trigger] subdivide.requires((c,)),
                i <= cmds@.len(),
                interiors.len() == i,
                forall|j: int|
                    0 <= j < i && is_curve(#[trigger] cmds@[j]) ==> subdivide.ensures(
                        (curve_at(cmds@, j),),
                        interiors[j],
                    ),
                out@ == flattened_upto(cmds@, interiors, i as int),
                well_ordered(out@),
                is_straight(out@),
                i == 0 ==> out@.len() == 0,
                i > 0 ==> out@.len() > 0 && (out@.last() is End <==> cmds@[i - 1] is End),
                i > 0 && !(cmds@[i - 1] is End) ==> pen == Some(end_point(cmds@[i - 1])),
            decreases cmds@.len() - i,
        {
            let ghost before = out@;
            let ghost c = cmds@[i as int];
            assert(c is Begin <==> at_sub_path_start(cmds@, i as int));
            let ghost mut chosen: Vec<P> = arbitrary();
            match &cmds[i] {
                PathCommand::Begin(p) => {
                    proof {
                        lemma_push_keeps_order(out@, PathCommand::Begin(*p));
                    }
                    out.push(PathCommand::Begin(*p));
                    pen = Some(*p);
                },
                PathCommand::LineTo(p) => {
                    proof {
                        lemma_push_keeps_order(out@, PathCommand::LineTo(*p));
                    }
                    out.push(PathCommand::LineTo(*p));
                    pen = Some(*p);
                },
                PathCommand::End(closed) => {
                    proof {
                        lemma_push_keeps_order(out@, PathCommand::End(*closed));
                    }
                    out.push(PathCommand::End(*closed));
                },
                PathCommand::QuadraticTo(ctrl, to) => {
                    let from = pen.unwrap();
                    let curve = Curve::Quadratic { from, ctrl: *ctrl, to: *to };
                    assert(curve == curve_at(cmds@, i as int));
                    let interior = subdivide(curve);
                    proof {
                        chosen = interior;
                    }
                    push_polyline(&mut out, interior, *to);
                    pen = Some(*to);
                },
                PathCommand::CubicTo(ctrl1, ctrl2, to) => {
                    let from = pen.unwrap();
                    let curve = Curve::Cubic { from, ctrl1: *ctrl1, ctrl2: *ctrl2, to: *to };
                    assert(curve == curve_at(cmds@, i as int));
                    let interior = subdivide(curve);
                    proof {
                        chosen = interior;
                    }
                    push_polyline(&mut out, interior, *to);
                    pen = Some(*to);
                },
            }
            proof {
                let grown = interiors.push(chosen);
                lemma_upto_uses_prefix(cmds@, interiors, grown, i as int);
                assert(out@ =~= before + replacement(c, grown[i as int]@));
                interiors = grown;
            }
            i = i + 1;
        }
        proof {
            assert(valid_commands(out@));
            if is_straight(self@) {
                lemma_flatten_straight_identity(self@, interiors);
            }
        }
        let r = Path::from_valid(out);
        assert(chosen_by(self@, interiors, subdivide) && r@ == flattened_commands(self@, interiors));
        r
    }
}

} // verus!
