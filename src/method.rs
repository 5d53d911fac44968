//! HTTP request methods.
use vstd::prelude::*;

use crate::text::same_text;

verus! {

/// The request methods this client can send.
#[derive(Clone, Copy, Debug, PartialEq, Eq, Structural)]
pub enum ReqType {
    ReqGet,
    ReqPost,
}

/// A method name that is not one of the supported methods.
#[derive(Debug)]
pub struct UnsupportedMethod {
    /// The method text as it was given.
    pub method: String,
}

impl ReqType {
    /// The method's name on the wire.
    pub open spec fn name(self) -> Seq<char> {
        match self {
            ReqType::ReqGet => "GET"@,
            ReqType::ReqPost => "POST"@,
        }
    }

    /// Whether `text` names a supported method (case-sensitive).
    pub open spec fn is_supported(text: Seq<char>) -> bool {
        text == ReqType::ReqGet.name() || text == ReqType::ReqPost.name()
    }

    /// The method whose name is `text`, if any.
    pub open spec fn from_name(text: Seq<char>) -> Option<ReqType> {
        if text == ReqType::ReqGet.name() {
            Some(ReqType::ReqGet)
        } else if text == ReqType::ReqPost.name() {
            Some(ReqType::ReqPost)
        } else {
            None
        }
    }

    /// Distinct methods have distinct names, so a name determines its method.
    pub proof fn lemma_name_injective(a: ReqType, b: ReqType)
        ensures
            a.name() == b.name() ==> a == b,
    {
        reveal_strlit("GET");
        reveal_strlit("POST");
        if a != b {
            assert(a.name().len() != b.name().len());
        }
    }

    /// The method's name on the wire.
    pub fn as_str(&self) -> (r: &str)
        ensures
            r@ == self.name(),
    {
        match self {
            ReqType::ReqGet => "GET",
            ReqType::ReqPost => "POST",
        }
    }

    /// Reads a method name by exact, case-sensitive match; any other text
    /// is reported as unsupported.
    pub fn parse(text: &str) -> (r: Result<ReqType, UnsupportedMethod>)
        ensures
            match r {
                Ok(m) => ReqType::from_name(text@) == Some(m),
                Err(e) => ReqType::from_name(text@).is_none() && e.method@ == text@,
            },
            r.is_ok() <==> ReqType::is_supported(text@),
    {
        if same_text(text, "GET") {
            Ok(ReqType::ReqGet)
        } else if same_text(text, "POST") {
            Ok(ReqType::ReqPost)
        } else {
            Err(UnsupportedMethod { method: text.to_owned() })
        }
    }

    /// The method named by `req_type`, which must be a supported name.
    pub fn from_str(req_type: &str) -> (r: ReqType)
        requires
            ReqType::is_supported(req_type@),
        ensures
            r.name() == req_type@,
    {
        match ReqType::parse(req_type) {
            Ok(m) => m,
            Err(_) => {
                proof {
                    assert(false);
                }
                ReqType::ReqGet
            },
        }
    }
}

} // verus!
