//! The traversal of a source tree, as a state machine with an explicit stack.
//!
//! The walker decides; its caller does the filesystem work. The caller asks
//! [`Walker::next`] what to do, lists a directory when told to and hands the
//! names to [`Walker::listed`], and classifies each entry for
//! [`Walker::on_entry`], performing the [`Action`] that comes back. An entry
//! that is a link to follow is resolved with [`crate::paths::resolve_link`] and
//! classified again, for [`Walker::on_target`].
//!
//! The stack holds the directories on the active branch, each with its
//! canonical path: a directory whose canonical path is already on the branch
//! is a cycle, and the branch never grows past the depth ceiling.
use vstd::prelude::*;
use crate::engine::Kind;
use crate::error::CopyError;
use crate::options::CopyOptions;
use crate::paths::{copy_path, is_within, join, join_spec, within_spec};

verus! {

/// A directory on the active branch: where it is read from, where it is copied
/// to, its canonical path, and how far its listing has been handed out.
struct Frame {
    src: Vec<u8>,
    dst: Vec<u8>,
    canon: Vec<u8>,
    names: Vec<Vec<u8>>,
    listed: bool,
    cursor: usize,
}

/// What a directory on the active branch is, as plain values.
pub struct FrameView {
    pub src: Seq<u8>,
    pub dst: Seq<u8>,
    pub canon: Seq<u8>,
    /// The names its listing gave (empty until it is listed).
    pub names: Seq<Seq<u8>>,
    pub listed: bool,
    /// How many of the names have been handed out.
    pub cursor: nat,
}

impl FrameView {
    /// A directory just entered, not yet listed.
    pub open spec fn fresh(src: Seq<u8>, dst: Seq<u8>, canon: Seq<u8>) -> FrameView {
        FrameView { src, dst, canon, names: Seq::empty(), listed: false, cursor: 0 }
    }

    /// Listed, and every name handed out.
    pub open spec fn exhausted(self) -> bool {
        self.listed && self.cursor >= self.names.len()
    }

    /// The same directory with one more name handed out.
    pub open spec fn advance(self) -> FrameView {
        FrameView { cursor: self.cursor + 1, ..self }
    }

    /// The cursor lies within the listing, and nothing is listed or handed
    /// out before the listing comes.
    pub open spec fn wf(self) -> bool {
        &&& self.cursor <= self.names.len()
        &&& !self.listed ==> self.names.len() == 0 && self.cursor == 0
    }
}

impl View for Frame {
    type V = FrameView;

    closed spec fn view(&self) -> FrameView {
        FrameView {
            src: self.src@,
            dst: self.dst@,
            canon: self.canon@,
            names: self.names@.map_values(|n: Vec<u8>| n@),
            listed: self.listed,
            cursor: self.cursor as nat,
        }
    }
}

/// One entry of a listed directory, handed to the caller to classify.
#[derive(Clone, Debug)]
pub struct Entry {
    /// Where the entry is read from.
    pub src: Vec<u8>,
    /// Where its copy goes.
    pub dst: Vec<u8>,
    /// Its canonical path, if it is a directory and not a link.
    pub canon: Vec<u8>,
}

/// What the caller asks the walker for.
#[derive(Clone, Debug)]
pub enum Step {
    /// List this directory and hand its entry names to [`Walker::listed`].
    List { dir: Vec<u8> },
    /// Classify this entry without following links, for [`Walker::on_entry`].
    Visit(Entry),
    /// The walk is over.
    Done,
}

/// What the caller does with an entry.
#[derive(Clone, Debug)]
pub enum Action {
    /// Nothing: the entry is left out of the copy.
    Skip,
    /// Copy the file at `from` to `to`.
    CopyFile { from: Vec<u8>, to: Vec<u8> },
    /// Make sure the directory `path` exists; the walk has entered it.
    MakeDir { path: Vec<u8> },
    /// Make at `to` a link with the same text as the link at `link`.
    Recreate { link: Vec<u8>, to: Vec<u8> },
    /// Read the link at `link`, resolve its text, classify what it points to
    /// and hand that to [`Walker::on_target`].
    Follow { link: Vec<u8> },
}

/// The traversal state of one copy.
pub struct Walker {
    opts: CopyOptions,
    root: Vec<u8>,
    frames: Vec<Frame>,
}

/// The directories on the active branch, from the root down.
impl View for Walker {
    type V = Seq<FrameView>;

    closed spec fn view(&self) -> Seq<FrameView> {
        self.frames@.map_values(|f: Frame| f@)
    }
}

/// The active branch with exhausted directories taken off its end.
pub open spec fn settle(frames: Seq<FrameView>) -> Seq<FrameView>
    decreases frames.len(),
{
    if frames.len() > 0 && frames.last().exhausted() {
        settle(frames.drop_last())
    } else {
        frames
    }
}

/// The canonical paths on a branch.
pub open spec fn canons(frames: Seq<FrameView>) -> Seq<Seq<u8>> {
    frames.map_values(|f: FrameView| f.canon)
}

impl Walker {
    /// The settings of the copy.
    pub closed spec fn options(&self) -> CopyOptions {
        self.opts
    }

    /// The canonical path of the source root, which contains followed links.
    pub closed spec fn root(&self) -> Seq<u8> {
        self.root@
    }

    /// The canonical paths of the directories on the active branch.
    pub open spec fn branch(&self) -> Seq<Seq<u8>> {
        canons(self@)
    }

    /// Each directory's cursor lies within its listing, no canonical path is
    /// twice on the branch, and the branch is at most one deeper than the
    /// ceiling (the root counts as depth zero).
    pub open spec fn wf(&self) -> bool {
        &&& forall|i: int| 0 <= i < self@.len() ==> (#[trigger] self@[i]).wf()
        &&& forall|i: int, j: int|
            0 <= i < j < self@.len() ==> (#[trigger] self@[i]).canon != (#[trigger] self@[j]).canon
        &&& self@.len() <= self.options().depth + 1
    }

    /// What entering a directory does: a cycle where its canonical path is on
    /// the branch, past the ceiling where the branch is already as deep as it
    /// may be, else it is pushed and its destination made. Errors name `at`.
    pub open spec fn enters(
        &self,
        after: &Walker,
        r: Result<Action, CopyError>,
        at: Seq<u8>,
        src: Seq<u8>,
        dst: Seq<u8>,
        canon: Seq<u8>,
    ) -> bool {
        if self.branch().contains(canon) {
            &&& r matches Err(CopyError::SymlinkLoop(p))
            &&& p@ == at
            &&& after@ == self@
        } else if self@.len() > self.options().depth {
            &&& r matches Err(CopyError::DepthExceeded(p))
            &&& p@ == at
            &&& after@ == self@
        } else {
            &&& r matches Ok(Action::MakeDir { path })
            &&& path@ == dst
            &&& after@ == self@.push(FrameView::fresh(src, dst, canon))
        }
    }

    /// What [`Walker::next`] does on a branch: it drops exhausted directories
    /// off the end, then asks for the listing of the last one, or hands out its
    /// next entry, or reports that the walk is over.
    pub open spec fn steps(&self, after: &Walker, r: Step) -> bool {
        let t = settle(self@);
        if t.len() == 0 {
            &&& r is Done
            &&& after@ == t
        } else if !t.last().listed {
            &&& r matches Step::List { dir }
            &&& dir@ == t.last().src
            &&& after@ == t
        } else {
            let name = t.last().names[t.last().cursor as int];
            &&& r matches Step::Visit(e)
            &&& e.src@ == join_spec(t.last().src, name)
            &&& e.dst@ == join_spec(t.last().dst, name)
            &&& e.canon@ == join_spec(t.last().canon, name)
            &&& after@ == t.update(t.len() - 1, t.last().advance())
        }
    }

    /// What [`Walker::listed`] does: the last directory, if it waits for its
    /// listing, gets `names` and hands them out from the first.
    pub open spec fn lists(&self, after: &Walker, names: Seq<Seq<u8>>) -> bool {
        if self@.len() > 0 && !self@.last().listed {
            after@ == self@.update(
                self@.len() - 1,
                FrameView { names, listed: true, cursor: 0, ..self@.last() },
            )
        } else {
            after@ == self@
        }
    }

    /// What [`Walker::on_entry`] does with entry `e` of kind `kind`: specials
    /// and vanished entries are skipped, files copied, links recreated or
    /// followed, and directories entered.
    pub open spec fn handles_entry(&self, after: &Walker, r: Result<Action, CopyError>, e: Entry, kind: Kind) -> bool {
        match kind {
            Kind::Dir => self.enters(after, r, e.src@, e.src@, e.dst@, e.canon@),
            Kind::File => {
                &&& r matches Ok(Action::CopyFile { from, to })
                &&& from@ == e.src@
                &&& to@ == e.dst@
                &&& after@ == self@
            },
            Kind::Symlink => {
                &&& !self.options().follow_symlinks ==> (r matches Ok(Action::Recreate { link, to })
                    && link@ == e.src@ && to@ == e.dst@)
                &&& self.options().follow_symlinks ==> (r matches Ok(Action::Follow { link })
                    && link@ == e.src@)
                &&& after@ == self@
            },
            _ => {
                &&& r matches Ok(Action::Skip)
                &&& after@ == self@
            },
        }
    }

    /// A link target is contained when its canonical path is known and lies
    /// in the tree of the source root.
    pub open spec fn contains_target(&self, canon: Option<Vec<u8>>) -> bool {
        canon matches Some(c) && within_spec(self.root(), c@)
    }

    /// What [`Walker::on_target`] does with the target `target` of the link
    /// entry `e`: one outside the source tree is skipped where links are
    /// restricted; else a file is copied to the link's destination, a
    /// directory entered in its place, and anything else skipped.
    pub open spec fn handles_target(
        &self,
        after: &Walker,
        r: Result<Action, CopyError>,
        e: Entry,
        target: Seq<u8>,
        kind: Kind,
        canon: Option<Vec<u8>>,
    ) -> bool {
        if self.options().restrict_symlinks && !self.contains_target(canon) {
            &&& r matches Ok(Action::Skip)
            &&& after@ == self@
        } else {
            match kind {
                Kind::Dir => self.enters(
                    after,
                    r,
                    e.src@,
                    target,
                    e.dst@,
                    match canon {
                        Some(c) => c@,
                        None => target,
                    },
                ),
                Kind::File => {
                    &&& r matches Ok(Action::CopyFile { from, to })
                    &&& from@ == target
                    &&& to@ == e.dst@
                    &&& after@ == self@
                },
                _ => {
                    &&& r matches Ok(Action::Skip)
                    &&& after@ == self@
                },
            }
        }
    }

    /// A walk of the tree at `src` into `dst`, where `canon` is the canonical
    /// path of `src`. The source root is entered, not yet listed.
    pub fn new(src: Vec<u8>, dst: Vec<u8>, canon: Vec<u8>, opts: CopyOptions) -> (w: Walker)
        ensures
            w.wf(),
            w@ == seq![FrameView::fresh(src@, dst@, canon@)],
            w.options() == opts,
            w.root() == canon@,
    {
        let root = copy_path(&canon);
        let mut frames: Vec<Frame> = Vec::new();
        frames.push(Frame { src, dst, canon, names: Vec::new(), listed: false, cursor: 0 });
        let w = Walker { opts, root, frames };
        proof {
            let f0 = w.frames@[0];
            assert(f0@.names =~= Seq::<Seq<u8>>::empty());
            assert(f0@ == FrameView::fresh(f0.src@, f0.dst@, f0.canon@));
            assert(w@ =~= seq![FrameView::fresh(f0.src@, f0.dst@, f0.canon@)]);
        }
        w
    }
}

/// Whether `a` and `b` hold the same bytes.
fn same_bytes(a: &Vec<u8>, b: &Vec<u8>) -> (r: bool)
    ensures
        r == (a@ == b@),
{
    if a.len() != b.len() {
        return false;
    }
    let mut i: usize = 0;
    while i < a.len()
        invariant
            i <= a.len() == b.len(),
            forall|j: int| 0 <= j < i ==> a@[j] == b@[j],
        decreases a.len() - i,
    {
        if a[i] != b[i] {
            return false;
        }
        i = i + 1;
    }
    assert(a@ =~= b@);
    true
}

impl Walker {
    /// The next thing to do; see [`Walker::steps`].
    pub fn next(&mut self) -> (r: Step)
        requires
            old(self).wf(),
        ensures
            final(self).wf(),
            final(self).options() == old(self).options(),
            final(self).root() == old(self).root(),
            old(self).steps(final(self), r),
    {
        loop
            invariant
                self.wf(),
                self.opts == old(self).opts,
                self.root@ == old(self).root@,
                settle(self@) == settle(old(self)@),
            decreases self.frames.len(),
        {
            let n = self.frames.len();
            if n == 0 {
                return Step::Done;
            }
            proof {
                assert(self@.last() == self.frames@[n - 1]@);
            }
            if !self.frames[n - 1].listed {
                return Step::List { dir: copy_path(&self.frames[n - 1].src) };
            }
            if self.frames[n - 1].cursor < self.frames[n - 1].names.len() {
                let ghost before = self@;
                let mut f = self.frames.pop().unwrap();
                let ghost fv = f@;
                assert(fv == before.last());
                let k = f.cursor;
                let e = Entry {
                    src: join(&f.src, &f.names[k]),
                    dst: join(&f.dst, &f.names[k]),
                    canon: join(&f.canon, &f.names[k]),
                };
                assert(f.names@[k as int]@ == fv.names[k as int]);
                f.cursor = k + 1;
                assert(f@ == fv.advance()) by {
                    assert(f@.names =~= fv.names);
                }
                self.frames.push(f);
                assert(self@ =~= before.update(before.len() - 1, fv.advance()));
                return Step::Visit(e);
            }
            let ghost before = self@;
            self.frames.pop();
            assert(self@ =~= before.drop_last());
        }
    }
}

impl Walker {
    /// Takes the listing of the directory that [`Walker::next`] asked for.
    pub fn listed(&mut self, names: Vec<Vec<u8>>)
        requires
            old(self).wf(),
        ensures
            final(self).wf(),
            final(self).options() == old(self).options(),
            final(self).root() == old(self).root(),
            old(self).lists(final(self), names@.map_values(|n: Vec<u8>| n@)),
    {
        let n = self.frames.len();
        if n == 0 || self.frames[n - 1].listed {
            return;
        }
        let ghost before = self@;
        let mut f = self.frames.pop().unwrap();
        let ghost fv = f@;
        assert(fv == before.last());
        f.names = names;
        f.listed = true;
        f.cursor = 0;
        self.frames.push(f);
        assert(self@ =~= before.update(
            before.len() - 1,
            FrameView { names: names@.map_values(|n: Vec<u8>| n@), listed: true, cursor: 0, ..fv },
        ));
        assert forall|i: int, j: int| 0 <= i < j < self@.len() implies (#[trigger] self@[i]).canon
            != (#[trigger] self@[j]).canon by {
            assert(self@[i].canon == before[i].canon);
            assert(self@[j].canon == before[j].canon);
        }
    }

    /// Enters the directory read from `src`, copied to `dst`, whose canonical
    /// path is `canon`; errors name `at`.
    fn enter(&mut self, at: &Vec<u8>, src: Vec<u8>, dst: Vec<u8>, canon: Vec<u8>) -> (r: Result<
        Action,
        CopyError,
    >)
        requires
            old(self).wf(),
        ensures
            final(self).wf(),
            final(self).options() == old(self).options(),
            final(self).root() == old(self).root(),
            old(self).enters(final(self), r, at@, src@, dst@, canon@),
    {
        let mut i: usize = 0;
        while i < self.frames.len()
            invariant
                self.wf(),
                i <= self.frames.len(),
                forall|j: int| 0 <= j < i ==> self@[j].canon != canon@,
            decreases self.frames.len() - i,
        {
            if same_bytes(&self.frames[i].canon, &canon) {
                assert(self.branch()[i as int] == canon@);
                return Err(CopyError::SymlinkLoop(copy_path(at)));
            }
            i = i + 1;
        }
        assert(!self.branch().contains(canon@)) by {
            assert forall|j: int| 0 <= j < self.branch().len() implies self.branch()[j] != canon@ by {
                assert(self.branch()[j] == self@[j].canon);
            }
        }
        if self.frames.len() > self.opts.depth {
            return Err(CopyError::DepthExceeded(copy_path(at)));
        }
        let ghost before = self@;
        let path = copy_path(&dst);
        let f = Frame { src, dst, canon, names: Vec::new(), listed: false, cursor: 0 };
        assert(f@.names =~= Seq::<Seq<u8>>::empty());
        self.frames.push(f);
        assert(self@ =~= before.push(FrameView::fresh(f.src@, f.dst@, f.canon@)));
        Ok(Action::MakeDir { path })
    }

    /// Decides what becomes of entry `e`, which a look that does not follow
    /// links found to be of kind `kind`.
    pub fn on_entry(&mut self, e: &Entry, kind: Kind) -> (r: Result<Action, CopyError>)
        requires
            old(self).wf(),
        ensures
            final(self).wf(),
            final(self).options() == old(self).options(),
            final(self).root() == old(self).root(),
            old(self).handles_entry(final(self), r, *e, kind),
    {
        match kind {
            Kind::Dir => self.enter(&e.src, copy_path(&e.src), copy_path(&e.dst), copy_path(&e.canon)),
            Kind::File => Ok(Action::CopyFile { from: copy_path(&e.src), to: copy_path(&e.dst) }),
            Kind::Symlink => {
                if self.opts.follow_symlinks {
                    Ok(Action::Follow { link: copy_path(&e.src) })
                } else {
                    Ok(Action::Recreate { link: copy_path(&e.src), to: copy_path(&e.dst) })
                }
            },
            _ => Ok(Action::Skip),
        }
    }

    /// Decides what becomes of the link entry `e` once it is followed: it
    /// resolves to `target`, which a look that does not follow links found
    /// to be of kind `kind`, with canonical path `canon` where one is known.
    pub fn on_target(&mut self, e: &Entry, target: &Vec<u8>, kind: Kind, canon: Option<Vec<u8>>) -> (r:
        Result<Action, CopyError>)
        requires
            old(self).wf(),
        ensures
            final(self).wf(),
            final(self).options() == old(self).options(),
            final(self).root() == old(self).root(),
            old(self).handles_target(final(self), r, *e, target@, kind, canon),
    {
        if self.opts.restrict_symlinks {
            let contained = match &canon {
                Some(c) => is_within(&self.root, c),
                None => false,
            };
            if !contained {
                return Ok(Action::Skip);
            }
        }
        match kind {
            Kind::Dir => {
                let c = match canon {
                    Some(c) => c,
                    None => copy_path(target),
                };
                self.enter(&e.src, copy_path(target), copy_path(&e.dst), c)
            },
            Kind::File => Ok(Action::CopyFile { from: copy_path(target), to: copy_path(&e.dst) }),
            _ => Ok(Action::Skip),
        }
    }
}

/// A walk cannot run away: the active branch is never more than one deeper
/// than the ceiling, and no directory is on it twice, so following links
/// round a cycle cannot grow it.
pub proof fn branch_is_bounded(w: &Walker)
    requires
        w.wf(),
    ensures
        w@.len() <= w.options().depth + 1,
        w.branch().no_duplicates(),
{
    assert forall|i: int, j: int|
        0 <= i < w.branch().len() && 0 <= j < w.branch().len() && i != j implies w.branch()[i]
        != w.branch()[j] by {
        assert(w.branch()[i] == w@[i].canon);
        assert(w.branch()[j] == w@[j].canon);
        if i < j {
        } else {
        }
    }
}

/// A followed link that leads back to a directory on the active branch (such
/// as `a/link -> a`) ends the walk with a loop error naming the link, and the
/// branch does not grow.
pub proof fn link_to_branch_is_loop(
    w: &Walker,
    after: &Walker,
    r: Result<Action, CopyError>,
    e: Entry,
    target: Seq<u8>,
    canon: Vec<u8>,
)
    requires
        w.wf(),
        w.branch().contains(canon@),
        !w.options().restrict_symlinks || within_spec(w.root(), canon@),
        w.handles_target(after, r, e, target, Kind::Dir, Some(canon)),
    ensures
        r matches Err(CopyError::SymlinkLoop(p)) && p@ == e.src@,
        after@ == w@,
{
}

/// A directory entered at nesting depth `w@.len()` (the root being at zero)
/// is entered when that depth is at most the ceiling, and fails with
/// `DepthExceeded` naming it when the depth passes the ceiling.
pub proof fn depth_ceiling(w: &Walker, after: &Walker, r: Result<Action, CopyError>, e: Entry)
    requires
        w.wf(),
        !w.branch().contains(e.canon@),
        w.handles_entry(after, r, e, Kind::Dir),
    ensures
        w@.len() <= w.options().depth ==> (r matches Ok(Action::MakeDir { path }) && path@ == e.dst@
            && after@.len() == w@.len() + 1),
        w@.len() > w.options().depth ==> (r matches Err(CopyError::DepthExceeded(p)) && p@
            == e.src@),
{
}

/// Devices, FIFOs and sockets are left out of the copy, and that is no error.
pub proof fn special_is_skipped(w: &Walker, after: &Walker, r: Result<Action, CopyError>, e: Entry)
    requires
        w.handles_entry(after, r, e, Kind::Special),
    ensures
        r matches Ok(Action::Skip),
        after@ == w@,
{
}

/// Where links are followed and restricted, a link whose target lies outside
/// the source tree is skipped, and that is no error.
pub proof fn escaping_link_is_skipped(
    w: &Walker,
    after: &Walker,
    r: Result<Action, CopyError>,
    e: Entry,
    target: Seq<u8>,
    kind: Kind,
    canon: Vec<u8>,
)
    requires
        w.options().restrict_symlinks,
        !within_spec(w.root(), canon@),
        w.handles_target(after, r, e, target, kind, Some(canon)),
    ensures
        r matches Ok(Action::Skip),
        after@ == w@,
{
}

} // verus!
