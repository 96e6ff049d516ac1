//! Going through a large result page by page.
//!
//! The paginator holds the position and the page at hand. The caller makes
//! the requests: where [`HttpPaginator::next_step`] asks for a page, it
//! fetches one with the options given and hands it to
//! [`HttpPaginator::fetch_next_batch`].

use vstd::prelude::*;
use crate::http::types::HttpPaginationOptions;

verus! {

/// The page size where the options name none.
pub const DEFAULT_PAGE_SIZE: u64 = 50;

/// The position in a paged result, and what is left of the page at hand.
#[derive(Debug)]
pub struct HttpPaginator<T> {
    /// The options of the next request.
    pub pagination: HttpPaginationOptions,
    /// What is left of the page at hand, the next item first.
    pub current_batch: Vec<T>,
    /// Whether the server may hold another page.
    pub has_more: bool,
    /// The page size that the paginator was made with.
    pub initial_limit: u64,
}

/// What the caller of a paginator has to do next.
#[derive(Debug)]
pub enum PaginatorStep<T> {
    /// This is the next item.
    Item(T),
    /// Fetch a page with these options and hand it over.
    Fetch(HttpPaginationOptions),
    /// There are no more items.
    Done,
}

/// Gathers items into chunks of a given size.
#[derive(Debug)]
pub struct ChunkBuffer<T> {
    /// The size at which a chunk is full.
    pub chunk_size: usize,
    /// The items of the chunk that is being filled.
    pub items: Vec<T>,
}

impl<T> HttpPaginator<T> {
    /// The offset after a page of `received` items.
    pub open spec fn offset_after(offset: Option<u64>, received: nat) -> int {
        match offset {
            Some(current) => current + received,
            None => received as int,
        }
    }

    /// A paginator that starts with the given options and has fetched nothing.
    pub fn new(pagination: HttpPaginationOptions) -> (paginator: Self)
        ensures
            paginator.pagination == pagination,
            paginator.current_batch@ == Seq::<T>::empty(),
            paginator.has_more,
            paginator.initial_limit == match pagination.limit {
                Some(limit) => limit,
                None => DEFAULT_PAGE_SIZE,
            },
    {
        let initial_limit = match pagination.limit {
            Some(limit) => limit,
            None => DEFAULT_PAGE_SIZE,
        };
        HttpPaginator { pagination, current_batch: Vec::new(), has_more: true, initial_limit }
    }

    /// A paginator with pages of 50 items, from the first item on.
    pub fn with_defaults() -> (paginator: Self)
        ensures
            paginator.pagination == (HttpPaginationOptions {
                limit: Some(DEFAULT_PAGE_SIZE),
                offset: Some(0),
                reverse: None,
            }),
            paginator.current_batch@ == Seq::<T>::empty(),
            paginator.has_more,
            paginator.initial_limit == DEFAULT_PAGE_SIZE,
    {
        Self::new(
            HttpPaginationOptions { limit: None, offset: None, reverse: None }.with_limit(
                DEFAULT_PAGE_SIZE,
            ).with_offset(0),
        )
    }

    /// Takes in a page that was fetched, and says whether it held anything.
    ///
    /// An empty page ends the result and changes nothing else. Any other page
    /// becomes the page at hand and moves the offset on by its length; another
    /// page is expected exactly if this one was full.
    pub fn fetch_next_batch(&mut self, response: Vec<T>) -> (received: bool)
        requires
            Self::offset_after(old(self).pagination.offset, response@.len()) <= u64::MAX,
        ensures
            received == (response@.len() > 0),
            final(self).initial_limit == old(self).initial_limit,
            final(self).pagination.limit == old(self).pagination.limit,
            final(self).pagination.reverse == old(self).pagination.reverse,
            response@.len() == 0 ==> {
                &&& !final(self).has_more
                &&& final(self).current_batch@ == old(self).current_batch@
                &&& final(self).pagination.offset == old(self).pagination.offset
            },
            response@.len() > 0 ==> {
                &&& final(self).has_more == (response@.len() >= old(self).initial_limit)
                &&& final(self).current_batch@ == response@
                &&& final(self).pagination.offset == Some(
                    Self::offset_after(old(self).pagination.offset, response@.len()) as u64,
                )
            },
    {
        let received_count: u64 = response.len() as u64;
        self.has_more = received_count >= self.initial_limit;
        if received_count == 0 {
            self.has_more = false;
            return false;
        }
        self.current_batch = response;
        self.pagination.offset = match self.pagination.offset {
            Some(current_offset) => Some(current_offset + received_count),
            None => Some(received_count),
        };
        true
    }

    /// What comes next: the first item of the page at hand where it has one,
    /// a request for another page where the server may hold one, and the end
    /// of the result otherwise.
    pub fn next_step(&mut self) -> (step: PaginatorStep<T>)
        ensures
            final(self).pagination == old(self).pagination,
            final(self).has_more == old(self).has_more,
            final(self).initial_limit == old(self).initial_limit,
            old(self).current_batch@.len() > 0 ==> {
                &&& step matches PaginatorStep::Item(item)
                &&& item == old(self).current_batch@[0]
                &&& final(self).current_batch@ == old(self).current_batch@.drop_first()
            },
            old(self).current_batch@.len() == 0 ==> {
                &&& final(self).current_batch@ == old(self).current_batch@
                &&& old(self).has_more ==> (step matches PaginatorStep::Fetch(options) && options
                    == old(self).pagination)
                &&& !old(self).has_more ==> step is Done
            },
    {
        if self.current_batch.len() > 0 {
            let item = self.current_batch.remove(0);
            proof {
                assert(self.current_batch@ =~= old(self).current_batch@.drop_first());
            }
            PaginatorStep::Item(item)
        } else if self.has_more {
            PaginatorStep::Fetch(self.pagination)
        } else {
            PaginatorStep::Done
        }
    }

    /// The options of the next request.
    pub fn current_pagination(&self) -> (pagination: &HttpPaginationOptions)
        ensures
            *pagination == self.pagination,
    {
        &self.pagination
    }

    /// Whether there may be more items: in the page at hand, or on the server.
    pub fn has_more(&self) -> (more: bool)
        ensures
            more == (self.has_more || self.current_batch@.len() > 0),
    {
        self.has_more || self.current_batch.len() > 0
    }
}

impl<T> ChunkBuffer<T> {
    /// An empty buffer for chunks of `chunk_size` items.
    pub fn new(chunk_size: usize) -> (buffer: Self)
        ensures
            buffer.chunk_size == chunk_size,
            buffer.items@ == Seq::<T>::empty(),
    {
        ChunkBuffer { chunk_size, items: Vec::new() }
    }

    /// Adds an item, and hands the chunk out once it is full: with the item
    /// the chunk has at least `chunk_size` items.
    pub fn push(&mut self, item: T) -> (chunk: Option<Vec<T>>)
        ensures
            final(self).chunk_size == old(self).chunk_size,
            old(self).items@.len() + 1 >= old(self).chunk_size ==> {
                &&& chunk matches Some(full)
                &&& full@ == old(self).items@.push(item)
                &&& final(self).items@ == Seq::<T>::empty()
            },
            old(self).items@.len() + 1 < old(self).chunk_size ==> {
                &&& chunk is None
                &&& final(self).items@ == old(self).items@.push(item)
            },
    {
        self.items.push(item);
        if self.items.len() >= self.chunk_size {
            let mut full: Vec<T> = Vec::new();
            std::mem::swap(&mut full, &mut self.items);
            Some(full)
        } else {
            None
        }
    }

    /// Hands out the items of a chunk that was not filled; `None` where there are none.
    pub fn finish(self) -> (chunk: Option<Vec<T>>)
        ensures
            self.items@.len() > 0 ==> (chunk matches Some(rest) && rest@ == self.items@),
            self.items@.len() == 0 ==> chunk is None,
    {
        if self.items.len() > 0 {
            Some(self.items)
        } else {
            None
        }
    }
}

} // verus!
