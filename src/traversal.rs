use vstd::prelude::*;

verus! {

/// What a directory entry turned out to be when its directory was listed.
#[derive(Clone, Copy, Debug, PartialEq, Eq, Structural)]
pub enum EntryKind {
    Directory,
    RegularFile,
    /// A symbolic link, a device, a socket, a pipe: never followed, never copied.
    Other,
}

/// One entry of a listed source directory, under path type `P`.
#[derive(Debug, PartialEq, Eq)]
pub struct Entry<P> {
    /// The entry's full path.
    pub path: P,
    /// The entry's final path component, if its path has one.
    pub name: Option<P>,
    pub kind: EntryKind,
}

/// Why a run stopped. Each kind names the step that failed.
#[derive(Clone, Copy, Debug, PartialEq, Eq, Structural)]
pub enum CloneError {
    /// A source directory could not be listed: missing, not a directory, or unreadable.
    SourceUnreadable,
    /// The destination directory could not be created.
    DestinationUncreatable,
    /// Cloning or copying a regular file failed.
    CloneOrCopyFailed,
    /// A regular file's path has no final component to name the copy by.
    UnresolvableName,
}

/// What the driver is asked to do next.
#[derive(Debug, PartialEq, Eq)]
pub enum Action<P> {
    /// Create the destination directory and its missing ancestors; an existing
    /// directory counts as success.
    CreateDestination,
    /// List the immediate entries of this source directory.
    List(P),
    /// Clone (or, failing that, copy) this regular file into the destination
    /// directory under `name`, replacing a file of that name.
    CloneFile { source: P, name: P },
    /// The run is over and every step succeeded.
    Done,
    /// The run is over: it halted at its first failure.
    Fail(CloneError),
}

/// How the last action went.
#[derive(Debug, PartialEq, Eq)]
pub enum Event<P> {
    /// The destination directory was created (or already existed), or not.
    Created(bool),
    /// The entries of the listed directory, in the order they were read, or
    /// `None` if listing failed.
    Listed(Option<Vec<Entry<P>>>),
    /// The file was cloned or copied, or not.
    Cloned(bool),
}

/// Which answer the machine waits for.
#[derive(Debug, PartialEq, Eq)]
pub enum Phase<P> {
    /// Waiting for the destination to be created; this directory is listed next.
    Creating(P),
    /// Waiting for a listing.
    Listing,
    /// Waiting for a file clone.
    Cloning,
    /// The run is over; no event is accepted.
    Finished,
}

/// The state of a run, seen mathematically: the phase, and the entries still
/// to be visited, the next one first.
pub struct Model<P> {
    pub phase: Phase<P>,
    pub pending: Seq<Entry<P>>,
}

/// A depth-first directory clone that flattens the tree: the entries of every
/// subdirectory go to the same destination as those of the top directory.
pub struct TreeCloner<P> {
    phase: Phase<P>,
    pending: Vec<Entry<P>>,
}

impl<P> View for TreeCloner<P> {
    type V = Model<P>;

    closed spec fn view(&self) -> Model<P> {
        Model { phase: self.phase, pending: self.pending@ }
    }
}

/// The state of a run that has ended.
pub open spec fn halted<P>() -> Model<P> {
    Model { phase: Phase::Finished, pending: Seq::empty() }
}

/// The state and first action of a run on `source`: the destination is
/// created before the source is listed.
pub open spec fn initial<P>(source: P) -> (Model<P>, Action<P>) {
    (Model { phase: Phase::Creating(source), pending: Seq::empty() }, Action::CreateDestination)
}

/// Visit the next entry of `pending`: a directory is entered (destination
/// first), a regular file is cloned, anything else is passed over; with none
/// left the run is done.
pub open spec fn advance<P>(pending: Seq<Entry<P>>) -> (Model<P>, Action<P>)
    decreases pending.len(),
{
    if pending.len() == 0 {
        (halted(), Action::Done)
    } else {
        let e = pending[0];
        let rest = pending.drop_first();
        match e.kind {
            EntryKind::Other => advance(rest),
            EntryKind::Directory => (
                Model { phase: Phase::Creating(e.path), pending: rest },
                Action::CreateDestination,
            ),
            EntryKind::RegularFile => match e.name {
                Some(n) => (
                    Model { phase: Phase::Cloning, pending: rest },
                    Action::CloneFile { source: e.path, name: n },
                ),
                None => (halted(), Action::Fail(CloneError::UnresolvableName)),
            },
        }
    }
}

/// Whether a machine in state `m` takes `e`: the event answers the action
/// it waits for.
pub open spec fn accepts<P>(m: Model<P>, e: Event<P>) -> bool {
    match (m.phase, e) {
        (Phase::Creating(_), Event::Created(_)) => true,
        (Phase::Listing, Event::Listed(_)) => true,
        (Phase::Cloning, Event::Cloned(_)) => true,
        _ => false,
    }
}

/// The state and action that follow `e` in state `m`. A failure ends the run
/// at once; a listing puts the directory's entries, in order, before the
/// entries still pending, which makes the walk depth-first.
pub open spec fn next<P>(m: Model<P>, e: Event<P>) -> (Model<P>, Action<P>) {
    match (m.phase, e) {
        (Phase::Creating(dir), Event::Created(ok)) => if ok {
            (Model { phase: Phase::Listing, pending: m.pending }, Action::List(dir))
        } else {
            (halted(), Action::Fail(CloneError::DestinationUncreatable))
        },
        (Phase::Listing, Event::Listed(listing)) => match listing {
            Some(es) => advance(es@ + m.pending),
            None => (halted(), Action::Fail(CloneError::SourceUnreadable)),
        },
        (Phase::Cloning, Event::Cloned(ok)) => if ok {
            advance(m.pending)
        } else {
            (halted(), Action::Fail(CloneError::CloneOrCopyFailed))
        },
        // Never fed: `step` takes only what `accepts` admits.
        _ => (m, Action::Done),
    }
}

impl<P> TreeCloner<P> {
    /// Begins a run that clones the tree under `source`; the first action
    /// is to create the destination.
    pub fn start(source: P) -> (r: (TreeCloner<P>, Action<P>))
        ensures
            (r.0@, r.1) == initial(source),
    {
        let m = TreeCloner { phase: Phase::Creating(source), pending: Vec::new() };
        proof {
            assert(m@.pending =~= Seq::<Entry<P>>::empty());
        }
        (m, Action::CreateDestination)
    }

    /// Whether the run is over.
    pub fn is_finished(&self) -> (r: bool)
        ensures
            r == (self@.phase == Phase::<P>::Finished),
    {
        match self.phase {
            Phase::Finished => true,
            _ => false,
        }
    }

    /// Whether `event` answers the action this machine waits for.
    pub fn accepts(&self, event: &Event<P>) -> (r: bool)
        ensures
            r == accepts(self@, *event),
    {
        match (&self.phase, event) {
            (Phase::Creating(_), Event::Created(_)) => true,
            (Phase::Listing, Event::Listed(_)) => true,
            (Phase::Cloning, Event::Cloned(_)) => true,
            _ => false,
        }
    }

    fn halt(&mut self)
        ensures
            final(self)@ == halted::<P>(),
    {
        self.phase = Phase::Finished;
        self.pending = Vec::new();
        proof {
            assert(self@.pending =~= Seq::<Entry<P>>::empty());
        }
    }

    /// Visits the pending entries until one needs the driver.
    fn visit_next(&mut self) -> (a: Action<P>)
        ensures
            (final(self)@, a) == advance(old(self)@.pending),
    {
        loop
            invariant
                advance(self@.pending) == advance(old(self)@.pending),
            decreases self.pending.len(),
        {
            if self.pending.len() == 0 {
                self.halt();
                return Action::Done;
            }
            let ghost before = self.pending@;
            let Entry { path, name, kind } = self.pending.remove(0);
            assert(self.pending@ =~= before.drop_first());
            match kind {
                EntryKind::Other => {},
                EntryKind::Directory => {
                    self.phase = Phase::Creating(path);
                    return Action::CreateDestination;
                },
                EntryKind::RegularFile => match name {
                    Some(n) => {
                        self.phase = Phase::Cloning;
                        return Action::CloneFile { source: path, name: n };
                    },
                    None => {
                        self.halt();
                        return Action::Fail(CloneError::UnresolvableName);
                    },
                },
            }
        }
    }

    /// Takes the answer to the last action and returns the next one.
    pub fn step(&mut self, event: Event<P>) -> (a: Action<P>)
        requires
            accepts(old(self)@, event),
        ensures
            (final(self)@, a) == next(old(self)@, event),
    {
        match event {
            Event::Created(ok) => {
                if ok {
                    let mut phase = Phase::Listing;
                    core::mem::swap(&mut self.phase, &mut phase);
                    match phase {
                        Phase::Creating(dir) => Action::List(dir),
                        _ => Action::Done,
                    }
                } else {
                    self.halt();
                    Action::Fail(CloneError::DestinationUncreatable)
                }
            },
            Event::Listed(listing) => match listing {
                Some(mut entries) => {
                    entries.append(&mut self.pending);
                    self.pending = entries;
                    self.visit_next()
                },
                None => {
                    self.halt();
                    Action::Fail(CloneError::SourceUnreadable)
                },
            },
            Event::Cloned(ok) => {
                if ok {
                    self.visit_next()
                } else {
                    self.halt();
                    Action::Fail(CloneError::CloneOrCopyFailed)
                }
            },
        }
    }
}

} // verus!
