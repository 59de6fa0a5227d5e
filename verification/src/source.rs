use vstd::prelude::*;

verus! {

/// The failure of a page request: either no page source is registered, or
/// the registered source reported that it cannot supply the requested
/// amount of memory. Carries no diagnostic payload.
#[derive(Clone, Copy, Debug, PartialEq, Eq, Structural)]
pub struct AllocError;

/// The request result that a given callback reply is mapped to: an address
/// reply succeeds with that address, a "no memory" reply fails.
pub open spec fn outcome_of(reply: Option<usize>) -> Result<usize, AllocError> {
    match reply {
        Some(addr) => Ok(addr),
        None => Err(AllocError),
    }
}

/// The page-acquisition indirection: turns a request for a number of pages
/// into a raw memory address by delegating to a registered callback.
///
/// The callback takes a byte count and returns an address, or `None` when it
/// cannot supply the memory. The slot holds at most one callback; it is unset
/// until a registration installs one. A page count converts to a byte count
/// by the fixed page-size multiplier chosen at construction; the conversion
/// is exact.
pub struct PageSource<F> {
    page_size: usize,
    callback: Option<F>,
}

impl<F: Fn(usize) -> Option<usize>> PageSource<F> {
    /// The page-size multiplier, in bytes per page.
    pub closed spec fn spec_page_size(&self) -> usize {
        self.page_size
    }

    /// The registered callback, or `None` while the slot is unset.
    pub closed spec fn spec_callback(&self) -> Option<F> {
        self.callback
    }

    /// A page source is well formed when its page size is positive and the
    /// registered callback, if any, accepts every byte count.
    pub open spec fn wf(&self) -> bool {
        &&& 1 <= self.spec_page_size()
        &&& match self.spec_callback() {
            Some(f) => forall|bytes: usize| call_requires(f, (bytes,)),
            None => true,
        }
    }

    /// The exact byte count that a request for `pages` pages converts to:
    /// the page count times the page-size multiplier, with no rounding.
    pub open spec fn spec_bytes_for(&self, pages: usize) -> int {
        pages * self.spec_page_size()
    }

    /// Exactly the results that a request for `pages` pages may yield:
    /// with no callback registered it fails with `AllocError` and no external
    /// call is attempted; otherwise the callback was invoked once with the
    /// converted byte count, and its reply decides the result as
    /// [`outcome_of`] says.
    pub open spec fn request_outcome(&self, pages: usize, r: Result<usize, AllocError>) -> bool {
        match self.spec_callback() {
            None => r == Err::<usize, AllocError>(AllocError),
            Some(f) => exists|reply: Option<usize>|
                #[trigger] call_ensures(f, (self.spec_bytes_for(pages) as usize,), reply)
                && r == outcome_of(reply),
        }
    }

    /// Converts a page count to its byte count by the page-size multiplier.
    /// The conversion is exact: no rounding, and the admitted inputs are
    /// those whose product fits the machine word.
    pub fn bytes_for(&self, pages: usize) -> (bytes: usize)
        requires
            self.spec_bytes_for(pages) <= usize::MAX,
        ensures
            bytes == self.spec_bytes_for(pages),
    {
        pages * self.page_size
    }

    /// A fresh page source with the given page-size multiplier and an empty
    /// callback slot.
    pub fn new(page_size: usize) -> (source: Self)
        requires
            1 <= page_size,
        ensures
            source.wf(),
            source.spec_page_size() == page_size,
            source.spec_callback() is None,
    {
        PageSource { page_size, callback: None }
    }

    /// Installs `f` as the page-acquisition callback, overwriting any
    /// previous registration. Visible to all subsequent requests.
    pub fn register_page_source(&mut self, f: F)
        requires
            forall|bytes: usize| call_requires(f, (bytes,)),
        ensures
            final(self).spec_page_size() == old(self).spec_page_size(),
            final(self).spec_callback() == Some(f),
            old(self).wf() ==> final(self).wf(),
    {
        self.callback = Some(f);
    }

    /// Clears the callback slot; requests fail with `AllocError` until a new
    /// callback is registered.
    pub fn unregister_page_source(&mut self)
        ensures
            final(self).spec_page_size() == old(self).spec_page_size(),
            final(self).spec_callback() is None,
            old(self).wf() ==> final(self).wf(),
    {
        self.callback = None;
    }

    /// Requests backing memory for `pages` pages: converts the page count to
    /// a byte count by the page-size multiplier and delegates to the
    /// registered callback. A single request is a single external call with
    /// a single outcome: no retry, no backoff, no caching of failures.
    pub fn request_pages(&self, pages: usize) -> (r: Result<usize, AllocError>)
        requires
            self.wf(),
            1 <= pages,
            self.spec_bytes_for(pages) <= usize::MAX,
        ensures
            self.request_outcome(pages, r),
    {
        let bytes: usize = self.bytes_for(pages);
        match &self.callback {
            None => Err(AllocError),
            Some(f) => {
                let reply = f(bytes);
                proof {
                    assert(call_ensures(*f, (self.spec_bytes_for(pages) as usize,), reply));
                }
                match reply {
                    Some(addr) => Ok(addr),
                    None => Err(AllocError),
                }
            },
        }
    }
}

/// Law: when the registered callback can only ever reply with the one fixed
/// address `addr`, every admitted request succeeds with exactly that address,
/// whatever the page count.
pub proof fn lemma_fixed_address_source<F: Fn(usize) -> Option<usize>>(
    source: &PageSource<F>,
    f: F,
    pages: usize,
    addr: usize,
    r: Result<usize, AllocError>,
)
    requires
        source.spec_callback() == Some(f),
        forall|bytes: usize, reply: Option<usize>|
            #[trigger] call_ensures(f, (bytes,), reply) ==> reply == Some(addr),
        source.request_outcome(pages, r),
    ensures
        r == Ok::<usize, AllocError>(addr),
{
}

/// Law: when the registered callback can only ever report that no memory is
/// available, every admitted request fails with `AllocError`, whatever the
/// page count.
pub proof fn lemma_exhausted_source<F: Fn(usize) -> Option<usize>>(
    source: &PageSource<F>,
    f: F,
    pages: usize,
    r: Result<usize, AllocError>,
)
    requires
        source.spec_callback() == Some(f),
        forall|bytes: usize, reply: Option<usize>|
            #[trigger] call_ensures(f, (bytes,), reply) ==> reply is None,
        source.request_outcome(pages, r),
    ensures
        r == Err::<usize, AllocError>(AllocError),
{
}

} // verus!
