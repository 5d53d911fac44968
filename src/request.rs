//! Building a whole request, and reading its request line back.
use vstd::prelude::*;

use crate::header::{crlf, header_views, headers_text, Header, ReqString};
use crate::method::ReqType;
use crate::text::{holds_at, matches_at};

verus! {

/// The protocol part that ends every request line.
pub open spec fn version_suffix() -> Seq<char> {
    " HTTP/1.1\r\n"@
}

/// `<METHOD> <path> HTTP/1.1\r\n`
pub open spec fn request_line(m: ReqType, path: Seq<char>) -> Seq<char> {
    m.name() + " "@ + path + version_suffix()
}

/// A whole request: the request line, each header line in order, then the
/// blank line that ends the header block.
pub open spec fn request_text(
    m: ReqType,
    path: Seq<char>,
    hs: Seq<(Seq<char>, Seq<char>)>,
) -> Seq<char> {
    request_line(m, path) + headers_text(hs) + crlf()
}

/// The headers every request carries, in this order: `Host: <host>` and
/// `Connection: close`.
pub open spec fn fixed_header_views(host: Seq<char>) -> Seq<(Seq<char>, Seq<char>)> {
    seq![("Host"@, host), ("Connection"@, "close"@)]
}

/// What a request line says, read by its method prefix and its protocol
/// suffix: the method and the (non-empty) path between them.
pub open spec fn parse_line(s: Seq<char>) -> Option<(ReqType, Seq<char>)> {
    let v = version_suffix();
    let k = s.len() - v.len();
    if s.len() >= v.len() && holds_at(s, v, k) {
        let get = ReqType::ReqGet.name() + " "@;
        let post = ReqType::ReqPost.name() + " "@;
        if k > get.len() && holds_at(s, get, 0) {
            Some((ReqType::ReqGet, s.subrange(get.len() as int, k)))
        } else if k > post.len() && holds_at(s, post, 0) {
            Some((ReqType::ReqPost, s.subrange(post.len() as int, k)))
        } else {
            None
        }
    } else {
        None
    }
}

/// The request line for `req_type` and `path`.
pub fn req_type_with_path(req_type: ReqType, path: &str) -> (r: String)
    ensures
        r@ == request_line(req_type, path@),
{
    let mut line = req_type.as_str().to_owned();
    line.append(" ");
    line.append(path);
    line.append(" HTTP/1.1\r\n");
    line
}

/// The fixed headers for a request to `host`.
pub fn fixed_headers(host: &str) -> (r: Vec<Header>)
    ensures
        header_views(r@) == fixed_header_views(host@),
{
    let r = vec![
        Header { header_name: "Host".to_owned(), header_value: host.to_owned() },
        Header { header_name: "Connection".to_owned(), header_value: "close".to_owned() },
    ];
    assert(header_views(r@) =~= fixed_header_views(host@));
    r
}

/// The whole request text for `method` and `path` sent to `host`.
pub fn build_request(method: ReqType, path: &str, host: &str) -> (r: String)
    ensures
        r@ == request_text(method, path@, fixed_header_views(host@)),
{
    let mut text = req_type_with_path(method, path);
    Header::apply_all_headers(fixed_headers(host), &mut text);
    text.req_headers_end();
    text
}

/// Reads the method and path back out of a request line.
pub fn parse_request_line(line: &str) -> (r: Option<(ReqType, String)>)
    ensures
        match r {
            Some((m, p)) => parse_line(line@) == Some((m, p@)),
            None => parse_line(line@).is_none(),
        },
{
    proof {
        reveal_strlit("GET");
        reveal_strlit("POST");
        reveal_strlit(" ");
        reveal_strlit("GET ");
        reveal_strlit("POST ");
    }
    assert(ReqType::ReqGet.name() + " "@ =~= "GET "@);
    assert(ReqType::ReqPost.name() + " "@ =~= "POST "@);
    let n = line.unicode_len();
    let suffix = " HTTP/1.1\r\n";
    let v = suffix.unicode_len();
    if n < v || !matches_at(line, suffix, n - v) {
        return None;
    }
    let k = n - v;
    let get = "GET ";
    let post = "POST ";
    if k > get.unicode_len() && matches_at(line, get, 0) {
        let path = line.substring_char(get.unicode_len(), k).to_owned();
        Some((ReqType::ReqGet, path))
    } else if k > post.unicode_len() && matches_at(line, post, 0) {
        let path = line.substring_char(post.unicode_len(), k).to_owned();
        Some((ReqType::ReqPost, path))
    } else {
        None
    }
}

/// Serializing a request line and reading it back gives the same method
/// and path, for every method and every non-empty path.
pub proof fn lemma_request_line_round_trip(m: ReqType, path: Seq<char>)
    requires
        path.len() > 0,
    ensures
        parse_line(request_line(m, path)) == Some((m, path)),
{
    reveal_strlit("GET");
    reveal_strlit("POST");
    reveal_strlit(" ");
    reveal_strlit(" HTTP/1.1\r\n");
    let s = request_line(m, path);
    let v = version_suffix();
    let head = m.name() + " "@;
    let k = s.len() - v.len();
    assert(s =~= head + path + v);
    assert(s.subrange(k, k + v.len()) =~= v);
    assert(s.subrange(0, head.len() as int) =~= head);
    assert(s.subrange(head.len() as int, k) =~= path);
    if m == ReqType::ReqPost {
        let get = ReqType::ReqGet.name() + " "@;
        assert(s[0] != get[0]);
        assert(s.subrange(0, get.len() as int)[0] != get[0]);
    }
}

} // verus!
