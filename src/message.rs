//! Outbound HTTP-over-UDP messages: a request line and an ordered list of
//! headers, serialised once into the text of one datagram.
use vstd::prelude::*;
use crate::text::{join2, join3};

verus! {

/// A request to be sent as one datagram. Headers keep the order in which
/// they were added, and a name may occur more than once.
#[derive(Clone, Debug)]
pub struct HttpuMessage {
    method: String,
    headers: Vec<(String, String)>,
}

/// One header as it is written on the wire.
pub open spec fn header_line(h: (Seq<char>, Seq<char>)) -> Seq<char> {
    h.0 + ": "@ + h.1 + "\r\n"@
}

/// The header lines of `hs`, in order.
pub open spec fn header_lines(hs: Seq<(Seq<char>, Seq<char>)>) -> Seq<char>
    decreases hs.len(),
{
    if hs.len() == 0 {
        Seq::empty()
    } else {
        header_lines(hs.drop_last()) + header_line(hs.last())
    }
}

/// The text of a request: `{method} * HTTP/1.1`, the header lines, and the
/// blank line that ends them.
pub open spec fn request_text(method: Seq<char>, hs: Seq<(Seq<char>, Seq<char>)>) -> Seq<char> {
    method + " * HTTP/1.1"@ + "\r\n"@ + header_lines(hs) + "\r\n"@
}

impl View for HttpuMessage {
    type V = (Seq<char>, Seq<(Seq<char>, Seq<char>)>);

    closed spec fn view(&self) -> Self::V {
        (self.method@, self.headers@.map_values(|h: (String, String)| (h.0@, h.1@)))
    }
}

impl HttpuMessage {
    /// A request with the given method and no headers.
    pub fn new(method: &str) -> (r: HttpuMessage)
        ensures
            r@.0 == method@,
            r@.1 == Seq::<(Seq<char>, Seq<char>)>::empty(),
    {
        let r = HttpuMessage { method: String::from_str(method), headers: Vec::new() };
        assert(r@.1 =~= Seq::<(Seq<char>, Seq<char>)>::empty());
        r
    }

    /// Appends a header after those already present.
    pub fn add_header(&mut self, name: &str, value: &str)
        ensures
            final(self)@.0 == old(self)@.0,
            final(self)@.1 == old(self)@.1.push((name@, value@)),
    {
        self.headers.push((String::from_str(name), String::from_str(value)));
        assert(self@.1 =~= old(self)@.1.push((name@, value@)));
    }

    /// The request method.
    pub fn method(&self) -> (r: &str)
        ensures
            r@ == self@.0,
    {
        self.method.as_str()
    }

    /// The number of headers.
    pub fn header_count(&self) -> (r: usize)
        ensures
            r == self@.1.len(),
    {
        self.headers.len()
    }

    /// The name and value of the header at position `i`.
    pub fn header(&self, i: usize) -> (r: (&str, &str))
        requires
            i < self@.1.len(),
        ensures
            (r.0@, r.1@) == self@.1[i as int],
    {
        (self.headers[i].0.as_str(), self.headers[i].1.as_str())
    }

    /// The text of the datagram.
    pub fn to_wire(&self) -> (r: String)
        ensures
            r@ == request_text(self@.0, self@.1),
    {
        let mut r = join3(self.method.as_str(), " * HTTP/1.1", "\r\n");
        let ghost hs = self@.1;
        let mut i: usize = 0;
        assert(hs.take(0) =~= Seq::<(Seq<char>, Seq<char>)>::empty());
        while i < self.headers.len()
            invariant
                hs == self@.1,
                i <= hs.len(),
                r@ == self@.0 + " * HTTP/1.1"@ + "\r\n"@ + header_lines(hs.take(i as int)),
            decreases self.headers.len() - i,
        {
            let line = join3(self.headers[i].0.as_str(), ": ", self.headers[i].1.as_str());
            let line = join2(line.as_str(), "\r\n");
            r.append(line.as_str());
            proof {
                assert(hs.take(i + 1).drop_last() =~= hs.take(i as int));
                assert(hs.take(i + 1).last() == hs[i as int]);
                assert(line@ =~= header_line(hs[i as int]));
            }
            i = i + 1;
        }
        assert(hs.take(i as int) =~= hs);
        r.append("\r\n");
        proof {
            assert(r@ =~= request_text(self@.0, self@.1));
        }
        r
    }
}

} // verus!
