//! Pagination requests for a timeline: a bounded queue that drops what does
//! not fit, the steps that serve one request, and the render pass over the
//! timeline mirror.
use vstd::prelude::*;
use vstd::string::*;
use crate::mirror::OrderedMirror;

verus! {

/// How many requests may wait at once; a request that finds the queue full
/// is dropped.
pub const QUEUE_CAPACITY: usize = 10;

/// A bounded queue of pagination requests. A request is a count of older
/// items to fetch; `0` asks only for a render of what is there.
pub struct RequestQueue {
    pending: std::collections::VecDeque<u16>,
}

impl View for RequestQueue {
    type V = Seq<u16>;

    closed spec fn view(&self) -> Seq<u16> {
        self.pending@
    }
}

impl RequestQueue {
    /// The queue never holds more than its capacity.
    pub closed spec fn wf(&self) -> bool {
        self.pending@.len() <= QUEUE_CAPACITY
    }

    /// An empty queue.
    pub fn new() -> (q: Self)
        ensures
            q.wf(),
            q@ == Seq::<u16>::empty(),
    {
        RequestQueue { pending: std::collections::VecDeque::new() }
    }

    /// The number of waiting requests.
    pub fn len(&self) -> (n: usize)
        ensures
            n == self@.len(),
    {
        self.pending.len()
    }

    /// Enqueues `count` unless the queue is full, in which case the request is
    /// dropped. Returns whether it was kept.
    pub fn submit(&mut self, count: u16) -> (kept: bool)
        requires
            old(self).wf(),
        ensures
            final(self).wf(),
            kept <==> old(self)@.len() < QUEUE_CAPACITY,
            kept ==> final(self)@ == old(self)@.push(count),
            !kept ==> final(self)@ == old(self)@,
    {
        if self.pending.len() < QUEUE_CAPACITY {
            self.pending.push_back(count);
            true
        } else {
            false
        }
    }

    /// Takes the oldest waiting request, if any.
    pub fn next(&mut self) -> (r: Option<u16>)
        requires
            old(self).wf(),
        ensures
            final(self).wf(),
            old(self)@.len() == 0 ==> r is None && final(self)@ == old(self)@,
            old(self)@.len() > 0 ==> r == Some(old(self)@[0]) && final(self)@
                == old(self)@.drop_first(),
    {
        let r = self.pending.pop_front();
        proof {
            if old(self)@.len() > 0 {
                assert(self.pending@ =~= old(self)@.drop_first());
            }
        }
        r
    }
}

/// One step in serving a pagination request.
#[derive(Debug, Clone, Copy, PartialEq, Eq, Structural)]
pub enum Step {
    /// Fetch this many older items from the remote timeline and wait for the
    /// fetch to finish, whether it succeeds or fails.
    Fetch(u16),
    /// Render the mirror as it stands.
    Render,
}

/// The steps that serve a request for `count` items: a fetch only for a
/// positive count, and always one render after it.
pub open spec fn steps_spec(count: u16) -> Seq<Step> {
    if count == 0 {
        seq![Step::Render]
    } else {
        seq![Step::Fetch(count), Step::Render]
    }
}

/// The steps that serve a request for `count` items, in the order in which
/// they are to be carried out.
pub fn steps_for(count: u16) -> (v: Vec<Step>)
    ensures
        v@ == steps_spec(count),
{
    let mut v: Vec<Step> = Vec::new();
    if count > 0 {
        v.push(Step::Fetch(count));
    }
    v.push(Step::Render);
    proof {
        if count == 0 {
            assert(v@ =~= seq![Step::Render]);
        } else {
            assert(v@ =~= seq![Step::Fetch(count), Step::Render]);
        }
    }
    v
}

/// Takes the oldest waiting request and returns the steps that serve it.
pub fn serve_next(queue: &mut RequestQueue) -> (r: Option<Vec<Step>>)
    requires
        old(queue).wf(),
    ensures
        final(queue).wf(),
        old(queue)@.len() == 0 ==> r is None && final(queue)@ == old(queue)@,
        old(queue)@.len() > 0 ==> final(queue)@ == old(queue)@.drop_first(),
        old(queue)@.len() > 0 ==> (r matches Some(v) && v@ == steps_spec(old(queue)@[0])),
{
    match queue.next() {
        Some(count) => Some(steps_for(count)),
        None => None,
    }
}

/// What a timeline event holds, as far as the display reads it.
#[derive(Debug, Clone, PartialEq, Eq)]
pub enum EntryContent {
    /// A message with its body text.
    Message(String),
    /// An encrypted event that could not be decrypted.
    UnableToDecrypt,
    /// Any other kind of content.
    Other,
}

/// One entry of a timeline.
#[derive(Debug, Clone, PartialEq, Eq)]
pub enum TimelineEntry {
    /// An event, with its event id (or, while unsent, its transaction id).
    Event { id: String, content: EntryContent },
    /// A structural entry, such as a day divider, that is not displayed.
    Virtual,
}

/// The text shown for an event's content.
pub open spec fn body_text(c: EntryContent) -> Seq<char> {
    match c {
        EntryContent::Message(b) => b@,
        EntryContent::UnableToDecrypt => "Unable to decrypt"@,
        EntryContent::Other => "---"@,
    }
}

/// The line shown for an entry, or `None` for one that is not displayed.
pub open spec fn display_spec(e: TimelineEntry) -> Option<Seq<char>> {
    match e {
        TimelineEntry::Event { id, content } => Some(id@ + ": "@ + body_text(content)),
        TimelineEntry::Virtual => None,
    }
}

/// The lines shown for a sequence of entries, in order, skipping those that
/// are not displayed.
pub open spec fn rendered(s: Seq<TimelineEntry>) -> Seq<Seq<char>>
    decreases s.len(),
{
    if s.len() == 0 {
        Seq::empty()
    } else {
        let rest = rendered(s.drop_last());
        match display_spec(s.last()) {
            Some(l) => rest.push(l),
            None => rest,
        }
    }
}

/// The text of a list of strings.
pub open spec fn texts(v: Seq<String>) -> Seq<Seq<char>> {
    v.map_values(|l: String| l@)
}

/// Formats an entry as `<id>: <body>`, or `None` for an entry that is not
/// displayed.
pub fn display(item: &TimelineEntry) -> (r: Option<String>)
    ensures
        r is None <==> display_spec(*item) is None,
        r matches Some(l) ==> display_spec(*item) == Some(l@),
{
    match item {
        TimelineEntry::Event { id, content } => {
            let body: &str = match content {
                EntryContent::Message(b) => b.as_str(),
                EntryContent::UnableToDecrypt => "Unable to decrypt",
                EntryContent::Other => "---",
            };
            proof {
                reveal_strlit("Unable to decrypt");
                reveal_strlit("---");
                reveal_strlit(": ");
            }
            let line = id.clone().concat(": ").concat(body);
            Some(line)
        },
        TimelineEntry::Virtual => None,
    }
}

/// One render pass over the mirror: a line for each displayed entry, in
/// order, then a blank separator line.
pub fn render(mirror: &OrderedMirror<TimelineEntry>) -> (lines: Vec<String>)
    ensures
        texts(lines@) == rendered(mirror@).push(Seq::<char>::empty()),
{
    let items = mirror.items();
    let mut lines: Vec<String> = Vec::new();
    let n = items.len();
    let mut i: usize = 0;
    while i < n
        invariant
            n == items@.len(),
            items@ == mirror@,
            i <= n,
            texts(lines@) == rendered(items@.subrange(0, i as int)),
        decreases n - i,
    {
        let ghost before = lines@;
        assert(items@.subrange(0, i + 1).drop_last() =~= items@.subrange(0, i as int));
        match display(&items[i]) {
            Some(l) => {
                lines.push(l);
                assert(texts(lines@) =~= texts(before).push(l@));
            },
            None => {},
        }
        i = i + 1;
    }
    assert(items@.subrange(0, n as int) =~= items@);
    let ghost before = lines@;
    lines.push(String::new());
    assert(texts(lines@) =~= texts(before).push(Seq::<char>::empty()));
    lines
}

} // verus!
