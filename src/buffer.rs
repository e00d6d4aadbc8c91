//! The append-only log of a session's entries, read by any number of
//! subscribers, each of which first replays what was logged and then
//! follows what is appended.
use vstd::prelude::*;
use crate::entry::StreamingEntry;

verus! {

/// What a subscriber reads next.
#[derive(Debug)]
pub enum StreamItem {
    /// The next entry, in log order.
    Entry(StreamingEntry),
    /// Nothing new yet; the session is still running.
    Pending,
    /// The session completed and the subscriber has read every entry.
    End,
    /// The session failed and the subscriber has read every entry.
    Failed(String),
}

/// One reader's position in a log.
#[derive(Debug, Clone, Copy)]
pub struct Subscription {
    next: usize,
}

impl Subscription {
    /// How many entries this reader has received.
    pub closed spec fn position(self) -> nat {
        self.next as nat
    }

    /// How many entries this reader has received.
    pub fn received_count(&self) -> (r: usize)
        ensures
            r == self.position(),
    {
        self.next
    }
}

/// A session's entries, in the order they were produced, and how the session ended.
#[derive(Debug)]
pub struct EntryBuffer {
    entries: Vec<StreamingEntry>,
    complete: bool,
    error: Option<String>,
}

impl EntryBuffer {
    pub closed spec fn log(&self) -> Seq<StreamingEntry> {
        self.entries@
    }

    pub closed spec fn is_finished(&self) -> bool {
        self.complete
    }

    pub closed spec fn failure(&self) -> Option<String> {
        self.error
    }

    /// The entries that `sub` has received so far.
    pub open spec fn received(&self, sub: Subscription) -> Seq<StreamingEntry> {
        self.log().take(sub.position() as int)
    }

    /// `sub` reads this log.
    pub open spec fn follows(&self, sub: Subscription) -> bool {
        sub.position() <= self.log().len()
    }

    /// An empty log of a running session.
    pub fn new() -> (r: Self)
        ensures
            r.log() == Seq::<StreamingEntry>::empty(),
            !r.is_finished(),
            r.failure() is None,
    {
        EntryBuffer { entries: Vec::new(), complete: false, error: None }
    }

    /// Logs `entry` after every entry logged so far.
    pub fn append(&mut self, entry: StreamingEntry)
        requires
            !old(self).is_finished(),
        ensures
            final(self).log() == old(self).log().push(entry),
            !final(self).is_finished(),
            final(self).failure() == old(self).failure(),
    {
        self.entries.push(entry);
    }

    /// Marks the session as ended, failed with `error` where it is given.
    pub fn finish(&mut self, error: Option<String>)
        requires
            !old(self).is_finished(),
        ensures
            final(self).log() == old(self).log(),
            final(self).is_finished(),
            final(self).failure() == error,
    {
        self.complete = true;
        self.error = error;
    }

    /// A reader that starts with the first entry.
    pub fn subscribe(&self) -> (r: Subscription)
        ensures
            r.position() == 0,
            self.follows(r),
    {
        Subscription { next: 0 }
    }

    /// Reads the next item for `sub`: the next logged entry while there is
    /// one, then the end of the stream, or the failure, once the session has
    /// ended.
    pub fn next_item(&self, sub: &mut Subscription) -> (r: StreamItem)
        requires
            self.follows(*old(sub)),
        ensures
            self.follows(*final(sub)),
            old(sub).position() < self.log().len() ==> {
                &&& r == StreamItem::Entry(self.log()[old(sub).position() as int])
                &&& final(sub).position() == old(sub).position() + 1
            },
            old(sub).position() == self.log().len() ==> {
                &&& final(sub).position() == old(sub).position()
                &&& match self.failure() {
                    Some(e) => r == StreamItem::Failed(e),
                    None => if self.is_finished() {
                        r is End
                    } else {
                        r is Pending
                    },
                }
            },
    {
        if sub.next < self.entries.len() {
            let e = self.entries[sub.next].duplicate();
            sub.next = sub.next + 1;
            StreamItem::Entry(e)
        } else {
            match &self.error {
                Some(e) => StreamItem::Failed(e.clone()),
                None => if self.complete {
                    StreamItem::End
                } else {
                    StreamItem::Pending
                },
            }
        }
    }

    pub fn is_complete(&self) -> (r: bool)
        ensures
            r == self.is_finished(),
    {
        self.complete
    }

    pub fn get_error(&self) -> (r: Option<String>)
        ensures
            r == self.failure(),
    {
        match &self.error {
            Some(e) => Some(e.clone()),
            None => None,
        }
    }

    /// A copy of every logged entry, in order.
    pub fn all_entries(&self) -> (r: Vec<StreamingEntry>)
        ensures
            r@ == self.log(),
    {
        let mut r: Vec<StreamingEntry> = Vec::new();
        let mut i: usize = 0;
        while i < self.entries.len()
            invariant
                i <= self.entries@.len(),
                r@ == self.entries@.take(i as int),
            decreases self.entries@.len() - i,
        {
            r.push(self.entries[i].duplicate());
            i = i + 1;
            assert(r@ =~= self.entries@.take(i as int));
        }
        assert(self.entries@.take(i as int) =~= self.entries@);
        r
    }
}

/// A reader that attached while the log held `snapshot`, and that has read
/// up to the end of the log since, has received `snapshot` followed by every
/// entry logged after it, each once and in order.
pub proof fn lemma_replay(b: &EntryBuffer, snapshot: Seq<StreamingEntry>, sub: Subscription)
    requires
        snapshot.is_prefix_of(b.log()),
        sub.position() == b.log().len(),
    ensures
        b.received(sub) == snapshot + b.log().subrange(snapshot.len() as int, b.log().len() as int),
{
    assert(b.received(sub) =~= snapshot + b.log().subrange(
        snapshot.len() as int,
        b.log().len() as int,
    ));
}

} // verus!
