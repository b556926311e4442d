use shardpix::Errors;

#[test]
fn status_codes() {
    assert_eq!(Errors::UnauthorizedRoute.status_code(), 401);
    assert_eq!(Errors::NoPermission { img: "a".to_string() }.status_code(), 401);
    assert_eq!(Errors::AnonymousPermission { img: "a".to_string() }.status_code(), 401);
    assert_eq!(Errors::NotFound { img: "a".to_string() }.status_code(), 404);
    assert_eq!(
        Errors::BadNode { requested_node: "a".to_string(), this_node: "b".to_string() }
            .status_code(),
        500
    );
    assert_eq!(Errors::InternalServerError.status_code(), 500);
    assert_eq!(Errors::BadRequest { err: "a".to_string() }.status_code(), 400);
    assert_eq!(
        Errors::BadQuery { query: "a".to_string(), reason: "b".to_string() }.status_code(),
        400
    );
}

#[test]
fn messages() {
    assert_eq!(
        Errors::UnauthorizedRoute.message(),
        "You are not authorized to use this route"
    );
    assert_eq!(
        Errors::NoPermission { img: "x.png".to_string() }.message(),
        "You are not authorized to access x.png"
    );
    assert_eq!(
        Errors::AnonymousPermission { img: "x.png".to_string() }.message(),
        "Anonymous caller does not have access to protected x.png"
    );
    assert_eq!(
        Errors::NotFound { img: "x.png".to_string() }.message(),
        "x.png cannot be found"
    );
    assert_eq!(
        Errors::BadNode { requested_node: "n2".to_string(), this_node: "n1".to_string() }
            .message(),
        "Misconfiguration of node n2 (this is node n1)"
    );
    assert_eq!(
        Errors::InternalServerError.message(),
        "An internal server error has occurred"
    );
    assert_eq!(
        Errors::BadRequest { err: "what happened".to_string() }.message(),
        "what happened"
    );
    assert_eq!(
        Errors::BadQuery { query: "size".to_string(), reason: "why".to_string() }.message(),
        "Bad query argument 'size'. why"
    );
}
