use vstd::prelude::*;

use crate::error::{Error, ERROR_NO_MORE_ITEMS};

verus! {

/// An open search session of the OS. It is never copied: whoever holds it
/// hands it to the OS boundary's close call, once.
pub struct SearchHandle(pub usize);

/// The OS call that the next step of a search needs.
#[derive(Debug, Clone, Copy, PartialEq, Eq, Structural)]
pub enum SearchCall {
    /// Open the search and fetch its first item.
    FindFirst,
    /// Fetch the next item of the search opened under this raw handle.
    FindNext(usize),
    /// The sequence has ended: no call is to be made.
    Exhausted,
}

/// What the OS boundary answered to a [`SearchCall`].
pub enum FindReply<T> {
    /// The search opened, with its handle and its first item.
    First(SearchHandle, T),
    /// The next item of the open search.
    Next(T),
    /// The call failed with this status.
    Failed(u32),
}

/// Where a search stands.
#[derive(Debug, Clone, Copy, PartialEq, Eq, Structural)]
pub enum SearchState {
    Unopened,
    Open,
    Finished,
}

enum Cursor {
    Unopened,
    Open(SearchHandle),
    Finished,
}

/// The error a failed find call stands for.
pub open spec fn search_error(status: u32) -> Error {
    if status == ERROR_NO_MORE_ITEMS {
        Error::NotFound
    } else {
        Error::System(status)
    }
}

/// The element of the sequence that `reply` stands for.
pub open spec fn reply_item<T>(reply: FindReply<T>) -> Result<T, Error> {
    match reply {
        FindReply::First(_, t) => Ok(t),
        FindReply::Next(t) => Ok(t),
        FindReply::Failed(status) => Err(search_error(status)),
    }
}

/// `item` read back as `find_next` gives it: the end of the items is `NotFound`.
pub open spec fn item_result<T>(item: Option<Result<T, Error>>) -> Result<T, Error> {
    match item {
        Some(r) => r,
        None => Err(Error::NotFound),
    }
}

/// A single-pass, forward-only sequence over an OS search: find-first, then
/// find-next until the OS reports no more items or fails, then close.
///
/// The caller makes the call that [`Enumerator::call`] names and hands the
/// answer to [`Enumerator::find_next`] or [`Enumerator::next`].
pub struct Enumerator {
    cursor: Cursor,
    /// The raw handle that find-first opened, if it did.
    opened: Ghost<Option<usize>>,
    /// How often the opened handle was handed out to be closed.
    released: Ghost<nat>,
    /// How many answers of the OS were taken.
    replies: Ghost<nat>,
    /// How many items were yielded.
    yielded: Ghost<nat>,
}

impl Enumerator {
    pub closed spec fn state(&self) -> SearchState {
        match self.cursor {
            Cursor::Unopened => SearchState::Unopened,
            Cursor::Open(_) => SearchState::Open,
            Cursor::Finished => SearchState::Finished,
        }
    }

    /// The raw handle that find-first opened, if it did.
    pub closed spec fn opened(&self) -> Option<usize> {
        self.opened@
    }

    /// How often the opened handle was handed out to be closed.
    pub closed spec fn released(&self) -> nat {
        self.released@
    }

    /// How many answers of the OS the search has taken.
    pub closed spec fn replies(&self) -> nat {
        self.replies@
    }

    /// How many items the search has yielded.
    pub closed spec fn yielded(&self) -> nat {
        self.yielded@
    }

    pub closed spec fn wf(&self) -> bool {
        &&& self.released@ <= 1
        &&& self.replies@ <= self.yielded@ + 1
        &&& match self.cursor {
            Cursor::Unopened => {
                &&& self.opened@ is None
                &&& self.released@ == 0
                &&& self.replies@ == 0
                &&& self.yielded@ == 0
            },
            Cursor::Open(h) => {
                &&& self.opened@ == Some(h.0)
                &&& self.released@ == 0
                &&& self.replies@ == self.yielded@
                &&& self.replies@ >= 1
            },
            Cursor::Finished => self.released@ == (if self.opened@ is Some {
                1nat
            } else {
                0nat
            }),
        }
    }

    /// The call the next step needs.
    pub open spec fn call_spec(&self) -> SearchCall {
        match self.state() {
            SearchState::Unopened => SearchCall::FindFirst,
            SearchState::Open => SearchCall::FindNext(self.opened().unwrap()),
            SearchState::Finished => SearchCall::Exhausted,
        }
    }

    /// Whether `reply` answers the call the next step needs.
    pub open spec fn answers<T>(&self, reply: FindReply<T>) -> bool {
        match self.state() {
            SearchState::Unopened => !(reply is Next),
            SearchState::Open => !(reply is First),
            SearchState::Finished => false,
        }
    }

    /// One step of the search, as `find_next` takes it: `pre` took `reply`
    /// and became `post`, yielding `item` and handing out `closing` to be closed.
    pub open spec fn stepped<T>(
        pre: Enumerator,
        post: Enumerator,
        reply: FindReply<T>,
        item: Result<T, Error>,
        closing: Option<SearchHandle>,
    ) -> bool {
        &&& post.wf()
        &&& post.replies() == pre.replies() + 1
        &&& match reply {
            FindReply::First(h, t) => {
                &&& item == Ok::<T, Error>(t)
                &&& closing is None
                &&& post.state() == SearchState::Open
                &&& post.opened() == Some(h.0)
                &&& post.yielded() == pre.yielded() + 1
                &&& post.released() == 0
            },
            FindReply::Next(t) => {
                &&& item == Ok::<T, Error>(t)
                &&& closing is None
                &&& post.state() == SearchState::Open
                &&& post.opened() == pre.opened()
                &&& post.yielded() == pre.yielded() + 1
                &&& post.released() == 0
            },
            FindReply::Failed(status) => {
                &&& item == Err::<T, Error>(search_error(status))
                &&& post.state() == SearchState::Finished
                &&& post.opened() == pre.opened()
                &&& post.yielded() == pre.yielded()
                &&& post.released() == pre.released() + (if pre.state()
                    == SearchState::Open {
                    1nat
                } else {
                    0nat
                })
                &&& (pre.state() == SearchState::Open) == (closing is Some)
                &&& closing matches Some(c) ==> pre.opened() == Some(c.0)
            },
        }
    }

    /// One step of the search, as `next` takes it: as [`Enumerator::stepped`],
    /// with the end of the items shown as `None` rather than `NotFound`.
    pub open spec fn stepped_item<T>(
        pre: Enumerator,
        post: Enumerator,
        reply: FindReply<T>,
        item: Option<Result<T, Error>>,
        closing: Option<SearchHandle>,
    ) -> bool {
        &&& Self::stepped(pre, post, reply, item_result(item), closing)
        &&& item != Some(Err::<T, Error>(Error::NotFound))
    }

    pub fn new() -> (r: Enumerator)
        ensures
            r.wf(),
            r.state() == SearchState::Unopened,
            r.opened() is None,
            r.released() == 0,
            r.replies() == 0,
            r.yielded() == 0,
    {
        Enumerator {
            cursor: Cursor::Unopened,
            opened: Ghost(None),
            released: Ghost(0),
            replies: Ghost(0),
            yielded: Ghost(0),
        }
    }

    /// The OS call the next step needs.
    pub fn call(&self) -> (r: SearchCall)
        requires
            self.wf(),
        ensures
            r == self.call_spec(),
    {
        match &self.cursor {
            Cursor::Unopened => SearchCall::FindFirst,
            Cursor::Open(h) => SearchCall::FindNext(h.0),
            Cursor::Finished => SearchCall::Exhausted,
        }
    }

    /// Whether `reply` answers the call the next step needs.
    pub fn accepts<T>(&self, reply: &FindReply<T>) -> (r: bool)
        requires
            self.wf(),
        ensures
            r == self.answers(*reply),
    {
        match (&self.cursor, reply) {
            (Cursor::Unopened, FindReply::Next(_)) => false,
            (Cursor::Open(_), FindReply::First(..)) => false,
            (Cursor::Finished, _) => false,
            _ => true,
        }
    }

    /// Takes the OS's answer to [`Enumerator::call`]. An item is yielded as
    /// `Ok`; a failure ends the sequence, as `NotFound` where the OS had no
    /// (more) items and as `System` otherwise. Where the sequence ends on an
    /// open search, its handle comes back to be closed.
    pub fn find_next<T>(&mut self, reply: FindReply<T>) -> (r: (Result<T, Error>, Option<SearchHandle>))
        requires
            old(self).wf(),
            old(self).answers(reply),
        ensures
            Self::stepped(*old(self), *final(self), reply, r.0, r.1),
    {
        proof {
            self.replies@ = self.replies@ + 1;
        }
        match reply {
            FindReply::First(h, t) => {
                proof {
                    self.opened@ = Some(h.0);
                    self.yielded@ = self.yielded@ + 1;
                }
                self.cursor = Cursor::Open(h);
                (Ok(t), None)
            },
            FindReply::Next(t) => {
                proof {
                    self.yielded@ = self.yielded@ + 1;
                }
                (Ok(t), None)
            },
            FindReply::Failed(status) => {
                let err = if status == ERROR_NO_MORE_ITEMS {
                    Error::NotFound
                } else {
                    Error::System(status)
                };
                let mut old_cursor = Cursor::Finished;
                core::mem::swap(&mut self.cursor, &mut old_cursor);
                match old_cursor {
                    Cursor::Open(h) => {
                        proof {
                            self.released@ = self.released@ + 1;
                        }
                        (Err(err), Some(h))
                    },
                    _ => (Err(err), None),
                }
            },
        }
    }

    /// Takes the OS's answer to [`Enumerator::call`], as an iterator would:
    /// `None` once the OS has no (more) items, `Some(Err(..))` where it failed
    /// otherwise. Where the sequence ends on an open search, its handle comes
    /// back to be closed.
    pub fn next<T>(&mut self, reply: FindReply<T>) -> (r: (Option<Result<T, Error>>, Option<SearchHandle>))
        requires
            old(self).wf(),
            old(self).answers(reply),
        ensures
            Self::stepped_item(*old(self), *final(self), reply, r.0, r.1),
    {
        let (item, closing) = self.find_next(reply);
        match item {
            Err(Error::NotFound) => (None, closing),
            _ => (Some(item), closing),
        }
    }

    /// Ends the sequence early. The handle of an open search comes back to be
    /// closed; an unopened or finished search has none.
    pub fn abandon(&mut self) -> (r: Option<SearchHandle>)
        requires
            old(self).wf(),
        ensures
            final(self).wf(),
            final(self).state() == SearchState::Finished,
            final(self).opened() == old(self).opened(),
            final(self).replies() == old(self).replies(),
            final(self).yielded() == old(self).yielded(),
            (old(self).state() == SearchState::Open) == (r is Some),
            r matches Some(h) ==> old(self).opened() == Some(h.0),
            final(self).released() == old(self).released() + (if old(self).state()
                == SearchState::Open {
                1nat
            } else {
                0nat
            }),
    {
        let mut old_cursor = Cursor::Finished;
        core::mem::swap(&mut self.cursor, &mut old_cursor);
        match old_cursor {
            Cursor::Open(h) => {
                proof {
                    self.released@ = self.released@ + 1;
                }
                Some(h)
            },
            _ => None,
        }
    }
}

/// A search is finite: it takes at most one answer of the OS more than it
/// yields items, and once it has ended it asks for no call and takes no answer.
pub proof fn lemma_search_bounded<T>(e: Enumerator, reply: FindReply<T>)
    requires
        e.wf(),
    ensures
        e.replies() <= e.yielded() + 1,
        e.state() != SearchState::Finished ==> e.replies() == e.yielded(),
        e.state() == SearchState::Finished ==> e.call_spec() == SearchCall::Exhausted && !e.answers(reply),
{
}

/// A step either yields an item and leaves the search going, or ends it; so
/// an error, `System` or `NotFound`, is the last element of the sequence.
pub proof fn lemma_error_ends_search<T>(
    pre: Enumerator,
    post: Enumerator,
    reply: FindReply<T>,
    item: Result<T, Error>,
    closing: Option<SearchHandle>,
)
    requires
        pre.wf(),
        pre.answers(reply),
        Enumerator::stepped(pre, post, reply, item, closing),
    ensures
        item is Ok ==> post.state() == SearchState::Open && post.yielded() == pre.yielded() + 1,
        item is Err ==> post.state() == SearchState::Finished && post.call_spec() == SearchCall::Exhausted,
        item is Err ==> post.yielded() == pre.yielded() && post.replies() == post.yielded() + 1,
{
}

/// The handle that find-first opened is handed out to be closed at most once,
/// and exactly once when the search has ended; a search that never opened
/// hands out nothing.
pub proof fn lemma_release_once(e: Enumerator)
    requires
        e.wf(),
    ensures
        e.released() <= 1,
        e.opened() is None ==> e.released() == 0,
        e.state() == SearchState::Open ==> e.opened() is Some && e.released() == 0,
        e.state() == SearchState::Finished ==> e.released() == (if e.opened() is Some {
            1nat
        } else {
            0nat
        }),
{
}

} // verus!