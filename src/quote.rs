//! A quote request: its core fields, and extra query parameters carried
//! beside them rather than among them.
use vstd::prelude::*;
use std::collections::HashMap;

verus! {

/// A quote request. `request` holds the core fields, in the form that is
/// encoded on the wire; `quote_args` holds extra string parameters that are
/// passed through to the service as query parameters of their own.
pub struct QuoteRequest<R> {
    pub request: R,
    pub quote_args: Option<HashMap<String, String>>,
}

impl<R> QuoteRequest<R> {
    /// A request with core fields `request` and no extra parameters.
    pub fn new(request: R) -> (r: Self)
        ensures
            r.request == request,
            r.quote_args is None,
    {
        QuoteRequest { request, quote_args: None }
    }

    /// The same request with `quote_args` as its extra parameters.
    pub fn with_quote_args(self, quote_args: HashMap<String, String>) -> (r: Self)
        ensures
            r.request == self.request,
            r.quote_args == Some(quote_args),
    {
        QuoteRequest { request: self.request, quote_args: Some(quote_args) }
    }

    /// Removes the extra parameters and hands them back, so that the core
    /// fields are encoded without them. The core fields are left as they were.
    pub fn take_quote_args(&mut self) -> (r: Option<HashMap<String, String>>)
        ensures
            r == old(self).quote_args,
            final(self).quote_args is None,
            final(self).request == old(self).request,
    {
        self.quote_args.take()
    }

    /// The two independent query sources of a quote: the core fields, and the
    /// extra parameters, which do not stay inside the core part.
    pub fn into_query_parts(self) -> (r: (QuoteRequest<R>, Option<HashMap<String, String>>))
        ensures
            r.0.request == self.request,
            r.0.quote_args is None,
            r.1 == self.quote_args,
    {
        let mut core = self;
        let extra = core.take_quote_args();
        (core, extra)
    }
}

} // verus!
