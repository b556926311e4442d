use vstd::prelude::*;

verus! {

/// The terminal conditions a request can end in, together with the HTTP
/// status and human-readable body each one maps to.
#[derive(Debug, Clone, PartialEq, Eq)]
pub enum Errors {
    UnauthorizedRoute,
    NoPermission { img: String },
    AnonymousPermission { img: String },
    NotFound { img: String },
    BadNode { requested_node: String, this_node: String },
    InternalServerError,
    BadRequest { err: String },
    BadQuery { query: String, reason: String },
}

impl Errors {
    /// The HTTP status each condition maps to: authorization failures are
    /// 401, a missing asset is 404, node misconfiguration and internal
    /// failures are 500, malformed client input is 400.
    pub open spec fn status_code_spec(self) -> u16 {
        match self {
            Errors::AnonymousPermission { .. } => 401,
            Errors::NoPermission { .. } => 401,
            Errors::UnauthorizedRoute => 401,
            Errors::NotFound { .. } => 404,
            Errors::BadNode { .. } => 500,
            Errors::InternalServerError => 500,
            Errors::BadRequest { .. } => 400,
            Errors::BadQuery { .. } => 400,
        }
    }

    pub fn status_code(&self) -> (code: u16)
        ensures
            code == self.status_code_spec(),
    {
        match self {
            Errors::AnonymousPermission { .. }
            | Errors::NoPermission { .. }
            | Errors::UnauthorizedRoute => 401,
            Errors::NotFound { .. } => 404,
            Errors::BadNode { .. } | Errors::InternalServerError => 500,
            Errors::BadRequest { .. } | Errors::BadQuery { .. } => 400,
        }
    }

    /// The body text served with the condition.
    pub open spec fn message_spec(self) -> Seq<char> {
        match self {
            Errors::UnauthorizedRoute => "You are not authorized to use this route"@,
            Errors::NoPermission { img } => "You are not authorized to access "@ + img@,
            Errors::AnonymousPermission { img } => "Anonymous caller does not have access to protected "@
                + img@,
            Errors::NotFound { img } => img@ + " cannot be found"@,
            Errors::BadNode { requested_node, this_node } => "Misconfiguration of node "@
                + requested_node@ + " (this is node "@ + this_node@ + ")"@,
            Errors::InternalServerError => "An internal server error has occurred"@,
            Errors::BadRequest { err } => err@,
            Errors::BadQuery { query, reason } => "Bad query argument '"@ + query@ + "'. "@
                + reason@,
        }
    }

    pub fn message(&self) -> (msg: String)
        ensures
            msg@ == self.message_spec(),
    {
        match self {
            Errors::UnauthorizedRoute => {
                String::from_str("You are not authorized to use this route")
            },
            Errors::NoPermission { img } => {
                let m = String::from_str("You are not authorized to access ").concat(img.as_str());
                proof {
                    assert(m@ =~= self.message_spec());
                }
                m
            },
            Errors::AnonymousPermission { img } => {
                let m = String::from_str("Anonymous caller does not have access to protected ")
                    .concat(img.as_str());
                proof {
                    assert(m@ =~= self.message_spec());
                }
                m
            },
            Errors::NotFound { img } => {
                let m = img.clone().concat(" cannot be found");
                proof {
                    assert(m@ =~= self.message_spec());
                }
                m
            },
            Errors::BadNode { requested_node, this_node } => {
                let m = String::from_str("Misconfiguration of node ")
                    .concat(requested_node.as_str())
                    .concat(" (this is node ")
                    .concat(this_node.as_str())
                    .concat(")");
                proof {
                    assert(m@ =~= self.message_spec());
                }
                m
            },
            Errors::InternalServerError => {
                String::from_str("An internal server error has occurred")
            },
            Errors::BadRequest { err } => err.clone(),
            Errors::BadQuery { query, reason } => {
                let m = String::from_str("Bad query argument '")
                    .concat(query.as_str())
                    .concat("'. ")
                    .concat(reason.as_str());
                proof {
                    assert(m@ =~= self.message_spec());
                }
                m
            },
        }
    }
}

} // verus!
