//! Path commands and backend path geometry.
//!
//! The engine emits a finite stream of `(verb, control points)` pairs; a
//! backend path object is built by replaying that stream. `Move` starts a
//! new subpath, `Line` and `Cubic` extend it, `Close` closes it. A fill
//! rule is set independently of the point stream.

use vstd::prelude::*;
use crate::geom::{self, Affine, Point};

verus! {

/// Fill rule applied when a path is filled.
#[derive(Clone, Copy, Debug, PartialEq, Eq, Structural)]
pub enum FillRule {
    NonZero,
    EvenOdd,
}

/// The verb of one path command.
#[derive(Clone, Copy, Debug, PartialEq, Eq, Structural)]
pub enum Verb {
    Move,
    Line,
    Cubic,
    Close,
}

/// One path command together with its control points: `Move` and `Line`
/// carry one point, `Cubic` carries two control points and an endpoint,
/// `Close` carries none.
#[derive(Clone, Copy, Debug, PartialEq, Eq, Structural)]
pub enum PathCommand {
    MoveTo(Point),
    LineTo(Point),
    CubicTo(Point, Point, Point),
    Close,
}

impl PathCommand {
    /// The verb of this command.
    pub fn verb(&self) -> (r: Verb)
        ensures
            r == (match *self {
                PathCommand::MoveTo(_) => Verb::Move,
                PathCommand::LineTo(_) => Verb::Line,
                PathCommand::CubicTo(_, _, _) => Verb::Cubic,
                PathCommand::Close => Verb::Close,
            }),
    {
        match self {
            PathCommand::MoveTo(_) => Verb::Move,
            PathCommand::LineTo(_) => Verb::Line,
            PathCommand::CubicTo(_, _, _) => Verb::Cubic,
            PathCommand::Close => Verb::Close,
        }
    }
}

/// A finite, non-restartable stream of path commands, consumed front to
/// back.
#[derive(Debug)]
pub struct Commands {
    cmds: Vec<PathCommand>,
    pos: usize,
}

impl Commands {
    #[verifier::type_invariant]
    spec fn wf(self) -> bool {
        self.pos <= self.cmds@.len()
    }

    /// The commands not yet consumed.
    pub closed spec fn remaining(self) -> Seq<PathCommand> {
        self.cmds@.skip(self.pos as int)
    }

    /// The full command sequence this stream was created over.
    pub closed spec fn all(self) -> Seq<PathCommand> {
        self.cmds@
    }

    /// A fresh stream over the given command sequence.
    pub fn new(cmds: Vec<PathCommand>) -> (r: Commands)
        ensures
            r.remaining() == cmds@,
            r.all() == cmds@,
    {
        let r = Commands { cmds, pos: 0 };
        proof {
            assert(r.remaining() =~= r.cmds@);
        }
        r
    }

    /// How many commands are left.
    pub fn len(&self) -> (r: usize)
        ensures
            r == self.remaining().len(),
    {
        proof {
            use_type_invariant(&*self);
        }
        self.cmds.len() - self.pos
    }

    /// Yields the next command, or nothing once the stream is exhausted.
    pub fn next(&mut self) -> (r: Option<PathCommand>)
        ensures
            old(self).remaining().len() > 0 ==> {
                &&& r == Some(old(self).remaining()[0])
                &&& final(self).remaining() == old(self).remaining().skip(1)
            },
            old(self).remaining().len() == 0 ==> {
                &&& r is None
                &&& final(self).remaining() == old(self).remaining()
            },
            final(self).all() == old(self).all(),
    {
        proof {
            use_type_invariant(&*self);
        }
        if self.pos < self.cmds.len() {
            let ghost pre = *self;
            let cmd = self.cmds[self.pos];
            self.pos = self.pos + 1;
            proof {
                assert(self.remaining() =~= pre.remaining().skip(1));
                assert(pre.remaining()[0] == pre.cmds@[pre.pos as int]);
            }
            Some(cmd)
        } else {
            proof {
                assert(self.remaining() =~= self.remaining());
                assert(self.remaining().len() == 0);
            }
            None
        }
    }
}

/// One command with every point carried through the given transform,
/// saturating as `Affine::apply` does.
pub open spec fn transformed_command(t: Affine, cmd: PathCommand) -> PathCommand {
    match cmd {
        PathCommand::MoveTo(p) => PathCommand::MoveTo(applied_point(t, p)),
        PathCommand::LineTo(p) => PathCommand::LineTo(applied_point(t, p)),
        PathCommand::CubicTo(p, q, r) => PathCommand::CubicTo(
            applied_point(t, p),
            applied_point(t, q),
            applied_point(t, r),
        ),
        PathCommand::Close => PathCommand::Close,
    }
}

/// The point `t` applied to `p`, saturated into the `i64` range.
pub open spec fn applied_point(t: Affine, p: Point) -> Point {
    Point {
        x: geom::sat_i64(geom::apply_x(t, p)) as i64,
        y: geom::sat_i64(geom::apply_y(t, p)) as i64,
    }
}

/// The final subpath of the element sequence is open: the sequence is
/// non-empty and does not end in a close.
pub open spec fn last_subpath_open(els: Seq<PathCommand>) -> bool {
    els.len() > 0 && !(els.last() is Close)
}

/// A backend path: the replayed element sequence plus its fill rule.
#[derive(Clone, Debug)]
pub struct Path {
    pub elements: Vec<PathCommand>,
    pub fill: FillRule,
}

impl Default for Path {
    /// An empty path filling with the non-zero rule.
    fn default() -> (r: Path)
        ensures
            r.elements@ == Seq::<PathCommand>::empty(),
            r.fill == FillRule::NonZero,
    {
        let r = Path { elements: Vec::new(), fill: FillRule::NonZero };
        proof {
            assert(r.elements@ =~= Seq::<PathCommand>::empty());
        }
        r
    }
}

impl Path {
    /// Builds a path by replaying a whole command stream, then setting the
    /// fill rule. The geometry is exactly the remaining command sequence of
    /// the stream, which is consumed.
    pub fn new(commands: &mut Commands, fill_rule: FillRule) -> (r: Path)
        ensures
            r.elements@ == old(commands).remaining(),
            r.fill == fill_rule,
            final(commands).remaining().len() == 0,
    {
        let mut path = Path::default();
        let ghost all = old(commands).remaining();
        let ghost done: int = 0;
        loop
            invariant
                0 <= done <= all.len(),
                commands.remaining() =~= all.skip(done),
                path.elements@ =~= all.take(done),
                path.fill == FillRule::NonZero,
            ensures
                path.elements@ =~= all,
                commands.remaining().len() == 0,
                path.fill == FillRule::NonZero,
            decreases all.len() - done,
        {
            let cmd_opt = commands.next();
            match cmd_opt {
                Some(cmd) => {
                    match cmd {
                        PathCommand::MoveTo(p) => path.move_to(p),
                        PathCommand::LineTo(p) => path.line_to(p),
                        PathCommand::CubicTo(p, q, r) => path.cubic_to(p, q, r),
                        PathCommand::Close => path.close(),
                    }
                    proof {
                        assert(all.take(done + 1) =~= all.take(done).push(all[done]));
                        done = done + 1;
                    }
                }
                None => {
                    proof {
                        assert(all.skip(done).len() == all.len() - done);
                        assert(path.elements@ =~= all);
                    }
                    break;
                }
            }
        }
        path.set_fill_rule(fill_rule);
        path
    }

    /// Empties the geometry; the fill rule is kept.
    pub fn reset(&mut self)
        ensures
            final(self).elements@ == Seq::<PathCommand>::empty(),
            final(self).fill == old(self).fill,
    {
        self.elements.truncate(0);
        proof {
            assert(final(self).elements@ =~= Seq::<PathCommand>::empty());
        }
    }

    /// Appends a transformed copy of another path's geometry onto this one;
    /// the source path and this path's fill rule are untouched.
    pub fn extend(&mut self, from: &Path, transform: &Affine)
        requires
            geom::bounded(*transform),
        ensures
            final(self).elements@ == old(self).elements@
                + from.elements@.map_values(|cmd: PathCommand| transformed_command(*transform, cmd)),
            final(self).fill == old(self).fill,
    {
        let ghost mapped = from.elements@.map_values(
            |cmd: PathCommand| transformed_command(*transform, cmd),
        );
        let mut i: usize = 0;
        while i < from.elements.len()
            invariant
                0 <= i <= from.elements.len(),
                geom::bounded(*transform),
                mapped == from.elements@.map_values(
                    |cmd: PathCommand| transformed_command(*transform, cmd),
                ),
                self.elements@ =~= old(self).elements@ + mapped.take(i as int),
                self.fill == old(self).fill,
            decreases from.elements.len() - i,
        {
            let cmd = from.elements[i];
            let tc = match cmd {
                PathCommand::MoveTo(p) => PathCommand::MoveTo(transform.apply(p)),
                PathCommand::LineTo(p) => PathCommand::LineTo(transform.apply(p)),
                PathCommand::CubicTo(p, q, r) => PathCommand::CubicTo(
                    transform.apply(p),
                    transform.apply(q),
                    transform.apply(r),
                ),
                PathCommand::Close => PathCommand::Close,
            };
            proof {
                assert(tc == transformed_command(*transform, cmd));
                assert(mapped.take(i + 1) =~= mapped.take(i as int).push(mapped[i as int]));
            }
            self.elements.push(tc);
            i = i + 1;
        }
        proof {
            assert(mapped.take(from.elements@.len() as int) =~= mapped);
        }
    }

    /// Sets the fill rule; the geometry is untouched.
    pub fn set_fill_rule(&mut self, fill_rule: FillRule)
        ensures
            final(self).elements@ == old(self).elements@,
            final(self).fill == fill_rule,
    {
        self.fill = fill_rule;
    }

    /// Starts a new subpath at the given point.
    pub fn move_to(&mut self, p: Point)
        ensures
            final(self).elements@ == old(self).elements@.push(PathCommand::MoveTo(p)),
            final(self).fill == old(self).fill,
    {
        self.elements.push(PathCommand::MoveTo(p));
    }

    /// Extends the current subpath with a line.
    pub fn line_to(&mut self, p: Point)
        ensures
            final(self).elements@ == old(self).elements@.push(PathCommand::LineTo(p)),
            final(self).fill == old(self).fill,
    {
        self.elements.push(PathCommand::LineTo(p));
    }

    /// Extends the current subpath with a cubic curve through two control
    /// points to an endpoint.
    pub fn cubic_to(&mut self, p: Point, q: Point, r: Point)
        ensures
            final(self).elements@ == old(self).elements@.push(PathCommand::CubicTo(p, q, r)),
            final(self).fill == old(self).fill,
    {
        self.elements.push(PathCommand::CubicTo(p, q, r));
    }

    /// Closes the current subpath.
    pub fn close(&mut self)
        ensures
            final(self).elements@ == old(self).elements@.push(PathCommand::Close),
            final(self).fill == old(self).fill,
    {
        self.elements.push(PathCommand::Close);
    }
}

/// Copies a command sequence element by element.
pub fn clone_commands(v: &Vec<PathCommand>) -> (r: Vec<PathCommand>)
    ensures
        r@ == v@,
{
    let mut out: Vec<PathCommand> = Vec::new();
    let mut i: usize = 0;
    while i < v.len()
        invariant
            0 <= i <= v@.len(),
            out@ =~= v@.take(i as int),
        decreases v@.len() - i,
    {
        out.push(v[i]);
        proof {
            assert(v@.take(i + 1) =~= v@.take(i as int).push(v@[i as int]));
        }
        i = i + 1;
    }
    proof {
        assert(out@ =~= v@);
    }
    out
}

/// Building a path from a command sequence is deterministic, and a sequence
/// that ends before a matching close yields an open final subpath: two
/// paths whose geometry came from the same command sequence are
/// structurally identical, and when that sequence does not end in a close,
/// the final subpath of the built geometry is open.
pub proof fn lemma_path_build_round_trip(
    cmds: Seq<PathCommand>, els1: Seq<PathCommand>, els2: Seq<PathCommand>,
)
    requires
        els1 == cmds,
        els2 == cmds,
    ensures
        els1 == els2,
        cmds.len() > 0 && !(cmds.last() is Close) ==> last_subpath_open(els1),
{
}

} // verus!
