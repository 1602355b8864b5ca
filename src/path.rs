use vstd::prelude::*;

use crate::error::GeometryError;

verus! {

/// One drawing command of a path.
#[derive(Clone, Copy, Debug, PartialEq)]
pub enum PathCommand<P> {
    /// Opens a sub-path at a point.
    Begin(P),
    /// Straight segment to a point.
    LineTo(P),
    /// Quadratic curve: control point, then end point.
    QuadraticTo(P, P),
    /// Cubic curve: two control points, then end point.
    CubicTo(P, P, P),
    /// Terminates the open sub-path; `true` closes it back to its start.
    End(bool),
}

/// Whether command `i` may (and must) be a `Begin`: it is the first command
/// or follows an `End`.
pub open spec fn at_sub_path_start<P>(cmds: Seq<PathCommand<P>>, i: int) -> bool {
    i == 0 || cmds[i - 1] is End
}

/// Every `Begin` opens a sub-path where none is open, and every other command
/// continues an open sub-path.
pub open spec fn well_ordered<P>(cmds: Seq<PathCommand<P>>) -> bool {
    forall|i: int|
        0 <= i < cmds.len() ==> ((#[trigger] cmds[i]) is Begin <==> at_sub_path_start(cmds, i))
}

/// Whether the last sub-path of `cmds` is still open.
pub open spec fn has_open_sub_path<P>(cmds: Seq<PathCommand<P>>) -> bool {
    cmds.len() > 0 && !(cmds.last() is End)
}

/// A complete path: well ordered, with every sub-path terminated.
pub open spec fn valid_commands<P>(cmds: Seq<PathCommand<P>>) -> bool {
    well_ordered(cmds) && !has_open_sub_path(cmds)
}

/// Number of `Begin` commands among the first `n` commands.
pub open spec fn begins_upto<P>(cmds: Seq<PathCommand<P>>, n: int) -> nat
    decreases n,
{
    if n <= 0 {
        0
    } else if cmds[n - 1] is Begin {
        begins_upto(cmds, n - 1) + 1
    } else {
        begins_upto(cmds, n - 1)
    }
}

/// Number of sub-paths of a command sequence.
pub open spec fn sub_path_count<P>(cmds: Seq<PathCommand<P>>) -> nat {
    begins_upto(cmds, cmds.len() as int)
}

/// Accumulates commands and rejects calls that break the sub-path structure.
pub struct PathBuilder<P> {
    commands: Vec<PathCommand<P>>,
}

impl<P> View for PathBuilder<P> {
    type V = Seq<PathCommand<P>>;

    closed spec fn view(&self) -> Seq<PathCommand<P>> {
        self.commands@
    }
}

impl<P> PathBuilder<P> {
    /// The commands gathered so far are well ordered.
    pub closed spec fn wf(&self) -> bool {
        well_ordered(self.commands@)
    }

    /// An empty builder.
    pub fn new() -> (b: PathBuilder<P>)
        ensures
            b.wf(),
            b@ == Seq::<PathCommand<P>>::empty(),
    {
        PathBuilder { commands: Vec::new() }
    }

    /// Whether a sub-path is open.
    pub fn is_open(&self) -> (r: bool)
        requires
            self.wf(),
        ensures
            r == has_open_sub_path(self@),
    {
        let n = self.commands.len();
        if n == 0 {
            false
        } else {
            match &self.commands[n - 1] {
                PathCommand::End(_) => false,
                _ => true,
            }
        }
    }

    /// Appends a command that continues the open sub-path.
    fn push_segment(&mut self, cmd: PathCommand<P>) -> (r: Result<(), GeometryError>)
        requires
            old(self).wf(),
            !(cmd is Begin),
        ensures
            final(self).wf(),
            has_open_sub_path(old(self)@) ==> r is Ok && final(self)@ == old(self)@.push(cmd),
            !has_open_sub_path(old(self)@) ==> r == Err::<(), GeometryError>(
                GeometryError::InvalidPathState,
            ) && final(self)@ == old(self)@,
    {
        if self.is_open() {
            self.commands.push(cmd);
            Ok(())
        } else {
            Err(GeometryError::InvalidPathState)
        }
    }

    /// Opens a sub-path at `at`; fails if one is already open.
    pub fn begin(&mut self, at: P) -> (r: Result<(), GeometryError>)
        requires
            old(self).wf(),
        ensures
            final(self).wf(),
            !has_open_sub_path(old(self)@) ==> r is Ok && final(self)@ == old(self)@.push(
                PathCommand::Begin(at),
            ),
            has_open_sub_path(old(self)@) ==> r == Err::<(), GeometryError>(
                GeometryError::InvalidPathState,
            ) && final(self)@ == old(self)@,
    {
        if self.is_open() {
            Err(GeometryError::InvalidPathState)
        } else {
            self.commands.push(PathCommand::Begin(at));
            Ok(())
        }
    }

    /// Straight segment from the current point to `to`.
    pub fn line_to(&mut self, to: P) -> (r: Result<(), GeometryError>)
        requires
            old(self).wf(),
        ensures
            final(self).wf(),
            has_open_sub_path(old(self)@) ==> r is Ok && final(self)@ == old(self)@.push(
                PathCommand::LineTo(to),
            ),
            !has_open_sub_path(old(self)@) ==> r == Err::<(), GeometryError>(
                GeometryError::InvalidPathState,
            ) && final(self)@ == old(self)@,
    {
        self.push_segment(PathCommand::LineTo(to))
    }

    /// Quadratic curve from the current point through `ctrl` to `to`.
    pub fn quadratic_to(&mut self, ctrl: P, to: P) -> (r: Result<(), GeometryError>)
        requires
            old(self).wf(),
        ensures
            final(self).wf(),
            has_open_sub_path(old(self)@) ==> r is Ok && final(self)@ == old(self)@.push(
                PathCommand::QuadraticTo(ctrl, to),
            ),
            !has_open_sub_path(old(self)@) ==> r == Err::<(), GeometryError>(
                GeometryError::InvalidPathState,
            ) && final(self)@ == old(self)@,
    {
        self.push_segment(PathCommand::QuadraticTo(ctrl, to))
    }

    /// Cubic curve from the current point through `ctrl1` and `ctrl2` to `to`.
    pub fn cubic_to(&mut self, ctrl1: P, ctrl2: P, to: P) -> (r: Result<(), GeometryError>)
        requires
            old(self).wf(),
        ensures
            final(self).wf(),
            has_open_sub_path(old(self)@) ==> r is Ok && final(self)@ == old(self)@.push(
                PathCommand::CubicTo(ctrl1, ctrl2, to),
            ),
            !has_open_sub_path(old(self)@) ==> r == Err::<(), GeometryError>(
                GeometryError::InvalidPathState,
            ) && final(self)@ == old(self)@,
    {
        self.push_segment(PathCommand::CubicTo(ctrl1, ctrl2, to))
    }

    /// Terminates the open sub-path; `closed` adds the edge back to its start.
    pub fn end(&mut self, closed: bool) -> (r: Result<(), GeometryError>)
        requires
            old(self).wf(),
        ensures
            final(self).wf(),
            has_open_sub_path(old(self)@) ==> r is Ok && final(self)@ == old(self)@.push(
                PathCommand::End(closed),
            ),
            !has_open_sub_path(old(self)@) ==> r == Err::<(), GeometryError>(
                GeometryError::InvalidPathState,
            ) && final(self)@ == old(self)@,
    {
        self.push_segment(PathCommand::End(closed))
    }

    /// Same as `end(true)`.
    pub fn close(&mut self) -> (r: Result<(), GeometryError>)
        requires
            old(self).wf(),
        ensures
            final(self).wf(),
            has_open_sub_path(old(self)@) ==> r is Ok && final(self)@ == old(self)@.push(
                PathCommand::End(true),
            ),
            !has_open_sub_path(old(self)@) ==> r == Err::<(), GeometryError>(
                GeometryError::InvalidPathState,
            ) && final(self)@ == old(self)@,
    {
        self.end(true)
    }

    /// The finished path; fails while a sub-path is still open.
    pub fn build(self) -> (r: Result<Path<P>, GeometryError>)
        requires
            self.wf(),
        ensures
            !has_open_sub_path(self@) ==> r is Ok && r->Ok_0@ == self@,
            has_open_sub_path(self@) ==> r is Err && r->Err_0 == GeometryError::InvalidPathState,
    {
        if self.is_open() {
            Err(GeometryError::InvalidPathState)
        } else {
            Ok(Path { commands: self.commands })
        }
    }
}

/// An immutable, complete sequence of path commands.
pub struct Path<P> {
    commands: Vec<PathCommand<P>>,
}

impl<P> View for Path<P> {
    type V = Seq<PathCommand<P>>;

    closed spec fn view(&self) -> Seq<PathCommand<P>> {
        self.commands@
    }
}

/// `begins_upto` never decreases as the prefix grows.
proof fn lemma_begins_monotone<P>(cmds: Seq<PathCommand<P>>, m: int, n: int)
    requires
        0 <= m <= n,
    ensures
        begins_upto(cmds, m) <= begins_upto(cmds, n),
    decreases n - m,
{
    if m < n {
        lemma_begins_monotone(cmds, m, n - 1);
    }
}

impl<P> Path<P> {
    #[verifier::type_invariant]
    closed spec fn inv(self) -> bool {
        valid_commands(self.commands@)
    }

    /// A builder for a new path.
    pub fn builder() -> (b: PathBuilder<P>)
        ensures
            b.wf(),
            b@ == Seq::<PathCommand<P>>::empty(),
    {
        PathBuilder::new()
    }

    /// Wraps commands already known to form a complete path.
    pub(crate) fn from_valid(commands: Vec<PathCommand<P>>) -> (r: Path<P>)
        requires
            valid_commands(commands@),
        ensures
            r@ == commands@,
    {
        Path { commands }
    }

    /// The commands, in order.
    pub fn commands(&self) -> (r: &Vec<PathCommand<P>>)
        ensures
            r@ == self@,
            valid_commands(self@),
    {
        proof {
            use_type_invariant(self);
        }
        &self.commands
    }

    /// Number of sub-paths.
    pub fn num_sub_paths(&self) -> (r: usize)
        ensures
            r == sub_path_count(self@),
    {
        let mut count: usize = 0;
        let mut i: usize = 0;
        while i < self.commands.len()
            invariant
                i <= self.commands@.len(),
                count == begins_upto(self.commands@, i as int),
                count <= i,
            decreases self.commands@.len() - i,
        {
            if let PathCommand::Begin(_) = &self.commands[i] {
                count = count + 1;
            }
            i = i + 1;
        }
        count
    }

    /// Whether the path has no sub-path at all.
    pub fn is_empty(&self) -> (r: bool)
        ensures
            r == (self@.len() == 0),
            r == (sub_path_count(self@) == 0),
    {
        proof {
            use_type_invariant(self);
            if self@.len() > 0 {
                assert(self@[0] is Begin);
                lemma_begins_monotone(self@, 1, self@.len() as int);
            }
        }
        self.commands.len() == 0
    }
}

} // verus!
