//! Request headers and their serialization.
use vstd::prelude::*;

verus! {

/// One request header: a name and a value, serialized verbatim.
#[derive(Debug)]
pub struct Header {
    pub header_name: String,
    pub header_value: String,
}

impl View for Header {
    type V = (Seq<char>, Seq<char>);

    open spec fn view(&self) -> (Seq<char>, Seq<char>) {
        (self.header_name@, self.header_value@)
    }
}

/// The line terminator used throughout the request.
pub open spec fn crlf() -> Seq<char> {
    "\r\n"@
}

/// `<name>: <value>\r\n`
pub open spec fn header_line(h: (Seq<char>, Seq<char>)) -> Seq<char> {
    h.0 + ": "@ + h.1 + crlf()
}

/// The header lines of `hs`, one after the other in sequence order.
pub open spec fn headers_text(hs: Seq<(Seq<char>, Seq<char>)>) -> Seq<char>
    decreases hs.len(),
{
    if hs.len() == 0 {
        Seq::empty()
    } else {
        headers_text(hs.drop_last()) + header_line(hs.last())
    }
}

/// The views of a vector of headers, in order.
pub open spec fn header_views(hs: Seq<Header>) -> Seq<(Seq<char>, Seq<char>)> {
    hs.map_values(|h: Header| h@)
}

/// Serializing a concatenation of header sequences is the concatenation of
/// their serializations: each header keeps its place in the output.
pub proof fn lemma_headers_text_concat(a: Seq<(Seq<char>, Seq<char>)>, b: Seq<(Seq<char>, Seq<char>)>)
    ensures
        headers_text(a + b) == headers_text(a) + headers_text(b),
    decreases b.len(),
{
    if b.len() == 0 {
        assert(a + b =~= a);
        assert(headers_text(a) + headers_text(b) =~= headers_text(a));
    } else {
        assert((a + b).drop_last() =~= a + b.drop_last());
        assert((a + b).last() == b.last());
        lemma_headers_text_concat(a, b.drop_last());
        assert(headers_text(a + b) =~= headers_text(a) + headers_text(b));
    }
}

/// A single header serializes to exactly its own line.
pub proof fn lemma_headers_text_single(h: (Seq<char>, Seq<char>))
    ensures
        headers_text(seq![h]) == header_line(h),
{
    let e = Seq::<(Seq<char>, Seq<char>)>::empty();
    assert(seq![h].drop_last() =~= e);
    assert(headers_text(e) == Seq::<char>::empty());
    assert(headers_text(seq![h]) == headers_text(e) + header_line(h));
    assert(headers_text(seq![h]) =~= header_line(h));
}

impl Header {
    /// Appends each header's line to `header_text`, in vector order.
    pub fn apply_all_headers(headers: Vec<Header>, header_text: &mut String)
        ensures
            final(header_text)@ == old(header_text)@ + headers_text(header_views(headers@)),
    {
        let mut header = String::new();
        let mut i: usize = 0;
        while i < headers.len()
            invariant
                i <= headers.len(),
                header@ == headers_text(header_views(headers@.subrange(0, i as int))),
            decreases headers.len() - i,
        {
            let line = headers[i].construct_header_as_string();
            header.append(line.as_str());
            proof {
                let hv = header_views(headers@.subrange(0, i + 1));
                assert(hv.drop_last() =~= header_views(headers@.subrange(0, i as int)));
                assert(hv.last() == headers@[i as int]@);
            }
            i = i + 1;
        }
        assert(headers@.subrange(0, headers@.len() as int) =~= headers@);
        header_text.append(header.as_str());
    }

    /// This header's line: `<name>: <value>\r\n`.
    fn construct_header_as_string(&self) -> (r: String)
        ensures
            r@ == header_line(self@),
    {
        let mut s = self.header_name.clone();
        s.append(": ");
        s.append(self.header_value.as_str());
        s.append("\r\n");
        s
    }
}

/// Ends a request's header block.
pub trait ReqString {
    /// Appends the blank line that terminates the header block.
    fn req_headers_end(&mut self)
        ensures
            final(self).text() == old(self).text() + crlf(),
    ;

    spec fn text(&self) -> Seq<char>;
}

impl ReqString for String {
    open spec fn text(&self) -> Seq<char> {
        self@
    }

    fn req_headers_end(&mut self) {
        self.append("\r\n");
    }
}

} // verus!
