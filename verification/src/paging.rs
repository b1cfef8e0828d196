//! Bulk reads from the node: keys come page by page until a page is short, and
//! values are asked for in chunks.
use vstd::prelude::*;

verus! {

/// The keys of a storage map, gathered page by page.
#[derive(Debug)]
pub struct PagedKeys {
    keys: Vec<String>,
    page_size: usize,
    done: bool,
}

/// What a scan of keys asks of the node next.
#[derive(Debug)]
pub enum PageRequest<'a> {
    /// The first page.
    First,
    /// The page after this key.
    After(&'a String),
    /// Nothing: the last page has come.
    Finished,
}

impl PagedKeys {
    /// The keys that have come so far.
    pub closed spec fn keys(&self) -> Seq<String> {
        self.keys@
    }

    /// The number of keys asked for with each page.
    pub closed spec fn page_size(&self) -> usize {
        self.page_size
    }

    /// Whether the last page has come.
    pub closed spec fn is_done(&self) -> bool {
        self.done
    }

    /// A scan that has asked for nothing yet.
    pub fn new(page_size: usize) -> (scan: PagedKeys)
        ensures
            scan.keys() == Seq::<String>::empty(),
            scan.page_size() == page_size,
            !scan.is_done(),
    {
        PagedKeys { keys: Vec::new(), page_size, done: false }
    }

    /// What to ask of the node next: the page after the last key that has come,
    /// unless the last page has come.
    pub fn next_request(&self) -> (request: PageRequest<'_>)
        ensures
            self.is_done() ==> request is Finished,
            !self.is_done() && self.keys().len() == 0 ==> request is First,
            !self.is_done() && self.keys().len() > 0 ==> (request matches PageRequest::After(key)
                && *key == self.keys().last()),
    {
        if self.done {
            PageRequest::Finished
        } else if self.keys.len() == 0 {
            PageRequest::First
        } else {
            PageRequest::After(&self.keys[self.keys.len() - 1])
        }
    }

    /// Takes in a page: its keys follow those that have come, and the scan is
    /// done if the page has fewer keys than were asked for.
    pub fn accept(&mut self, page: Vec<String>)
        requires
            !old(self).is_done(),
        ensures
            final(self).keys() == old(self).keys() + page@,
            final(self).page_size() == old(self).page_size(),
            final(self).is_done() == (page@.len() < old(self).page_size()),
    {
        let short = page.len() < self.page_size;
        let mut page = page;
        self.keys.append(&mut page);
        self.done = short;
    }

    /// Whether the last page has come.
    pub fn done(&self) -> (done: bool)
        ensures
            done == self.is_done(),
    {
        self.done
    }

    /// Gives up the scan for its keys.
    pub fn into_keys(self) -> (keys: Vec<String>)
        ensures
            keys@ == self.keys(),
    {
        self.keys
    }
}

/// A range of positions: from `start` up to, not including, `end`.
#[derive(Clone, Copy, Debug, PartialEq, Eq, Structural)]
pub struct Chunk {
    pub start: usize,
    pub end: usize,
}

/// Whether `ranges` cut `count` items into chunks of `size`: they follow one
/// another from the first item to the last, each holds `size` items but for the
/// last, which holds at least one and at most `size`.
pub open spec fn cuts(ranges: Seq<Chunk>, count: int, size: int) -> bool {
    &&& count == 0 <==> ranges.len() == 0
    &&& ranges.len() > 0 ==> ranges[0].start == 0 && ranges.last().end == count
    &&& forall|i: int|
        0 <= i < ranges.len() - 1 ==> (#[trigger] ranges[i]).end == ranges[i + 1].start
            && ranges[i].end - ranges[i].start == size
    &&& forall|i: int|
        0 <= i < ranges.len() ==> 0 < (#[trigger] ranges[i]).end - ranges[i].start <= size
}

/// Cuts `count` items into chunks of `size`, the last of which may be shorter.
pub fn chunks(count: usize, size: usize) -> (ranges: Vec<Chunk>)
    requires
        size > 0,
    ensures
        cuts(ranges@, count as int, size as int),
{
    let mut ranges: Vec<Chunk> = Vec::new();
    let mut start: usize = 0;
    while start < count
        invariant
            size > 0,
            start <= count,
            start == 0 <==> ranges@.len() == 0,
            ranges@.len() > 0 ==> ranges@[0].start == 0 && ranges@.last().end == start,
            forall|i: int|
                0 <= i < ranges@.len() - 1 ==> (#[trigger] ranges@[i]).end == ranges@[i + 1].start,
            forall|i: int|
                0 <= i < ranges@.len() && (i < ranges@.len() - 1 || start < count) ==> (
                #[trigger] ranges@[i]).end - ranges@[i].start == size,
            forall|i: int|
                0 <= i < ranges@.len() ==> 0 < (#[trigger] ranges@[i]).end - ranges@[i].start
                    <= size,
        decreases count - start,
    {
        let end = if count - start >= size {
            start + size
        } else {
            count
        };
        ranges.push(Chunk { start, end });
        start = end;
    }
    ranges
}

} // verus!
