//! The response record: opaque to the router beyond being handed to hooks and
//! handlers. It carries an ordered list of headers as its side channel, so the
//! effect of an after-hook or a handler on it stays observable.

use vstd::prelude::*;

verus! {

/// A response: an ordered list of headers. The body of a dispatch is the
/// string the handler returns, not a field of the response, so a hook that
/// runs after the handler cannot alter the body the caller receives.
pub struct Response {
    headers: Vec<(String, String)>,
}

impl Response {
    /// The headers written so far, oldest first.
    pub closed spec fn headers(&self) -> Seq<(Seq<char>, Seq<char>)> {
        self.headers@.map_values(|p: (String, String)| (p.0@, p.1@))
    }

    /// A response with no headers.
    pub fn new() -> (r: Response)
        ensures
            r.headers() == Seq::<(Seq<char>, Seq<char>)>::empty(),
    {
        let r = Response { headers: Vec::new() };
        proof {
            assert(r.headers() =~= Seq::<(Seq<char>, Seq<char>)>::empty());
        }
        r
    }

    /// Appends one header.
    pub fn add_header(&mut self, name: String, value: String)
        ensures
            final(self).headers() == old(self).headers().push((name@, value@)),
    {
        let ghost nv = (name@, value@);
        self.headers.push((name, value));
        proof {
            assert(self.headers() =~= old(self).headers().push(nv));
        }
    }

    /// How many headers the response carries.
    pub fn header_count(&self) -> (n: usize)
        ensures
            n == self.headers().len(),
    {
        self.headers.len()
    }

    /// The header at position `i`, oldest first.
    pub fn header_at(&self, i: usize) -> (r: &(String, String))
        requires
            i < self.headers().len(),
        ensures
            (r.0@, r.1@) == self.headers()[i as int],
    {
        &self.headers[i]
    }
}

} // verus!
