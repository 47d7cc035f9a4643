//! Which handler a request goes to.

use vstd::prelude::*;
use crate::error::ErrorResponse;
use crate::text::{has_prefix, same_text, starts_with};

verus! {

/// The handlers of the application, and the answer to a request that none
/// of them takes.
#[derive(Debug, Clone, Copy, PartialEq, Eq, Structural)]
pub enum Route {
    AuthLogin,
    AuthRegister,
    AuthVerify,
    CourseCreate,
    CourseList,
    CourseGet,
    CourseUpdate,
    CourseDelete,
    CodeExecute,
    CodeEvaluate,
    NotFound,
}

/// The handler for `method` on `path`.
///
/// The fixed paths are matched whole. Below `/courses/` the method alone
/// decides. A request without a path, or with any other pair of method
/// and path, has no handler.
pub open spec fn route_of(method: Seq<char>, path: Option<Seq<char>>) -> Route {
    match path {
        None => Route::NotFound,
        Some(p) => {
            if method == "POST"@ && p == "/auth/login"@ {
                Route::AuthLogin
            } else if method == "POST"@ && p == "/auth/register"@ {
                Route::AuthRegister
            } else if method == "POST"@ && p == "/auth/verify"@ {
                Route::AuthVerify
            } else if method == "POST"@ && p == "/courses"@ {
                Route::CourseCreate
            } else if method == "GET"@ && p == "/courses"@ {
                Route::CourseList
            } else if method == "GET"@ && has_prefix(p, "/courses/"@) {
                Route::CourseGet
            } else if method == "PUT"@ && has_prefix(p, "/courses/"@) {
                Route::CourseUpdate
            } else if method == "DELETE"@ && has_prefix(p, "/courses/"@) {
                Route::CourseDelete
            } else if method == "POST"@ && p == "/code/execute"@ {
                Route::CodeExecute
            } else if method == "POST"@ && p == "/code/evaluate"@ {
                Route::CodeEvaluate
            } else {
                Route::NotFound
            }
        },
    }
}

/// Routes a request by its method and path.
pub fn route(method: &str, path: Option<&str>) -> (r: Route)
    ensures
        r == route_of(
            method@,
            match path {
                Some(p) => Some(p@),
                None => None,
            },
        ),
{
    let p = match path {
        Some(p) => p,
        None => {
            return Route::NotFound;
        },
    };
    let post = same_text(method, "POST");
    let get = same_text(method, "GET");
    if post && same_text(p, "/auth/login") {
        Route::AuthLogin
    } else if post && same_text(p, "/auth/register") {
        Route::AuthRegister
    } else if post && same_text(p, "/auth/verify") {
        Route::AuthVerify
    } else if post && same_text(p, "/courses") {
        Route::CourseCreate
    } else if get && same_text(p, "/courses") {
        Route::CourseList
    } else if get && starts_with(p, "/courses/") {
        Route::CourseGet
    } else if same_text(method, "PUT") && starts_with(p, "/courses/") {
        Route::CourseUpdate
    } else if same_text(method, "DELETE") && starts_with(p, "/courses/") {
        Route::CourseDelete
    } else if post && same_text(p, "/code/execute") {
        Route::CodeExecute
    } else if post && same_text(p, "/code/evaluate") {
        Route::CodeEvaluate
    } else {
        Route::NotFound
    }
}

/// What a request without a handler is told: that none was found for its
/// method and path.
pub fn no_route_message(method: &str, path: Option<&str>) -> (r: String)
    ensures
        r@ == "No handler found for route: "@ + method@ + " "@ + match path {
            Some(p) => p@,
            None => Seq::empty(),
        },
{
    let shown = match path {
        Some(p) => p,
        None => "",
    };
    proof {
        reveal_strlit("");
    }
    let text = "No handler found for route: ".to_string().concat(method).concat(" ").concat(shown);
    proof {
        assert(text@ =~= "No handler found for route: "@ + method@ + " "@ + shown@);
        assert(""@ =~= Seq::<char>::empty());
    }
    text
}

/// Status code of the answer to a request that no handler takes.
pub const UNROUTED_STATUS: u16 = 404;

/// The text that a request without a handler is told.
pub open spec fn unrouted_text(method: Seq<char>, path: Option<Seq<char>>) -> Seq<char> {
    "No handler found for route: "@ + method + " "@ + match path {
        Some(p) => p,
        None => Seq::empty(),
    }
}

/// The answer to a request that no handler takes: status 404, the title
/// `Not Found`, and the text that names its method and path.
pub fn unrouted_response(method: &str, path: Option<&str>) -> (r: ErrorResponse)
    ensures
        r.status_code == 404,
        r.error_type@ == "Not Found"@,
        r.message@ == unrouted_text(
            method@,
            match path {
                Some(p) => Some(p@),
                None => None,
            },
        ),
{
    ErrorResponse {
        status_code: UNROUTED_STATUS,
        error_type: "Not Found".to_string(),
        message: no_route_message(method, path),
    }
}

/// What a request amounts to: the handler it goes to, and for a request
/// that no handler takes, the answer in its place.
pub fn dispatch(method: &str, path: Option<&str>) -> (r: Result<Route, ErrorResponse>)
    ensures
        match r {
            Ok(handler) => {
                &&& handler != Route::NotFound
                &&& handler == route_of(
                    method@,
                    match path {
                        Some(p) => Some(p@),
                        None => None,
                    },
                )
            },
            Err(answer) => {
                &&& route_of(
                    method@,
                    match path {
                        Some(p) => Some(p@),
                        None => None,
                    },
                ) == Route::NotFound
                &&& answer.status_code == 404
                &&& answer.error_type@ == "Not Found"@
                &&& answer.message@ == unrouted_text(
                    method@,
                    match path {
                        Some(p) => Some(p@),
                        None => None,
                    },
                )
            },
        },
{
    match route(method, path) {
        Route::NotFound => Err(unrouted_response(method, path)),
        handler => Ok(handler),
    }
}

} // verus!
