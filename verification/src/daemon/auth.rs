//! The daemon's guard: every request must carry the configured API token
//! as a bearer token.
use vstd::prelude::*;

use crate::daemon::error::{AppError, UNAUTHORIZED};
use crate::text::{chars_of, eq_str, string_of};

verus! {

/// The answer to a request with the given `Authorization` header (none
/// when it is missing or not visible ASCII): accepted exactly when it is
/// `Bearer ` followed by the API token.
pub open spec fn bearer_verdict(header: Option<Seq<char>>, api_token: Seq<char>) -> Result<
    (),
    Seq<char>,
> {
    match header {
        None => Err("missing authorization header"@),
        Some(h) => if h.len() < 7 || h.take(7) != "Bearer "@ {
            Err("invalid authorization scheme"@)
        } else if h.skip(7) != api_token {
            Err("invalid api token"@)
        } else {
            Ok(())
        },
    }
}

/// `require_bearer_auth`, its decision on the `Authorization` header.
pub fn require_bearer_auth(authorization: Option<&str>, api_token: &str) -> (r: Result<(), AppError>)
    ensures
        match bearer_verdict(
            match authorization {
                Some(h) => Some(h@),
                None => None,
            },
            api_token@,
        ) {
            Ok(()) => r is Ok,
            Err(m) => r matches Err(e) && e.is(UNAUTHORIZED, m),
        },
{
    proof {
        reveal_strlit("Bearer ");
    }
    let header = match authorization {
        Some(h) => h,
        None => return Err(AppError::new(UNAUTHORIZED, "missing authorization header")),
    };
    let v = chars_of(header);
    if v.len() < 7 || !(v[0] == 'B' && v[1] == 'e' && v[2] == 'a' && v[3] == 'r' && v[4] == 'e'
        && v[5] == 'r' && v[6] == ' ') {
        proof {
            if v@.len() >= 7 && v@.take(7) == "Bearer "@ {
                assert(v@.take(7)[0] == 'B');
                assert(v@.take(7)[6] == ' ');
                assert(v@.take(7)[1] == 'e');
                assert(v@.take(7)[2] == 'a');
                assert(v@.take(7)[3] == 'r');
                assert(v@.take(7)[4] == 'e');
                assert(v@.take(7)[5] == 'r');
            }
        }
        return Err(AppError::new(UNAUTHORIZED, "invalid authorization scheme"));
    }
    assert(v@.take(7) =~= "Bearer "@);
    let mut rest: Vec<char> = Vec::new();
    let mut i: usize = 7;
    while i < v.len()
        invariant
            7 <= i <= v@.len(),
            rest@ == v@.subrange(7, i as int),
        decreases v@.len() - i,
    {
        rest.push(v[i]);
        i = i + 1;
        assert(rest@ =~= v@.subrange(7, i as int));
    }
    assert(rest@ =~= v@.skip(7));
    let provided = string_of(&rest);
    if !eq_str(provided.as_str(), api_token) {
        return Err(AppError::new(UNAUTHORIZED, "invalid api token"));
    }
    Ok(())
}

/// A request gets through exactly when its header is `Bearer ` and the
/// token: no other header is accepted, whatever the token.
pub proof fn law_only_the_bearer_token_passes(header: Seq<char>, api_token: Seq<char>)
    ensures
        bearer_verdict(Some(header), api_token) is Ok <==> header == "Bearer "@ + api_token,
{
    reveal_strlit("Bearer ");
    if header == "Bearer "@ + api_token {
        assert(header.take(7) =~= "Bearer "@);
        assert(header.skip(7) =~= api_token);
    }
    if bearer_verdict(Some(header), api_token) is Ok {
        assert(header =~= header.take(7) + header.skip(7));
    }
}

} // verus!
