//! The HTTP interface of the feature: who may call it, and what a caller
//! that may not is told.

use crate::paradise::config::ConfigView;
use crate::paradise::Service;
use crate::text::{strip_prefix, stripped};
use vstd::prelude::*;
use vstd::string::*;
use vstd::utf8::*;

pub mod sanctuary;

verus! {

/// Why a request was turned away.
#[derive(Debug, Clone, Copy, PartialEq, Eq)]
pub enum ApiAuthorizationError {
    /// The request does not present the configured token.
    InvalidToken,
    /// The feature is not configured.
    NoParadiseConfig,
}

/// What a request is answered with.
#[derive(Debug)]
pub struct HttpReply {
    /// The status code.
    pub status: u16,
    /// The body, as text.
    pub body: String,
}

impl ApiAuthorizationError {
    /// The message of the error.
    pub fn to_string(&self) -> (message: String)
        ensures
            message@ == "failed to authorize user"@,
    {
        "failed to authorize user".to_owned()
    }

    /// The status code that the error is answered with.
    pub open spec fn status(self) -> u16 {
        match self {
            ApiAuthorizationError::InvalidToken => 401,
            ApiAuthorizationError::NoParadiseConfig => 404,
        }
    }

    /// The answer to a request that was turned away: 401 for a wrong token,
    /// 404 where the feature is not configured.
    pub fn error_response(&self) -> (reply: HttpReply)
        ensures
            reply.status == self.status(),
            reply.body@ == match self {
                ApiAuthorizationError::InvalidToken => "401 Unauthorized"@,
                ApiAuthorizationError::NoParadiseConfig => "404 Not Found"@,
            },
    {
        match self {
            ApiAuthorizationError::InvalidToken => HttpReply {
                status: 401,
                body: "401 Unauthorized".to_owned(),
            },
            ApiAuthorizationError::NoParadiseConfig => HttpReply {
                status: 404,
                body: "404 Not Found".to_owned(),
            },
        }
    }
}

/// `constant_time_eq::constant_time_eq`: whether two byte strings are
/// equal. Byte strings of different length are not.
#[verifier::external_body]
fn timing_safe_eq(a: &[u8], b: &[u8]) -> (same: bool)
    ensures
        same == (a@ == b@),
{
    constant_time_eq::constant_time_eq(a, b)
}

/// The token that an `Authorization` header presents: what follows
/// `Bearer `. A missing header, or one of another form, presents the empty
/// token.
pub open spec fn bearer_token(authorization: Option<Seq<char>>) -> Seq<char> {
    match authorization {
        Some(header) => match stripped(header, "Bearer "@) {
            Some(token) => token,
            None => Seq::empty(),
        },
        None => Seq::empty(),
    }
}

/// Whether a request may pass. `token` is the configured token, where the
/// feature is configured.
pub open spec fn authorized(token: Option<Seq<char>>, authorization: Option<Seq<char>>) -> Result<
    (),
    ApiAuthorizationError,
> {
    match token {
        None => Err(ApiAuthorizationError::NoParadiseConfig),
        Some(token) => if bearer_token(authorization) == token {
            Ok(())
        } else {
            Err(ApiAuthorizationError::InvalidToken)
        },
    }
}

/// The configured token of the feature, where it is configured.
pub open spec fn configured_token(service: Option<&Service>) -> Option<Seq<char>> {
    match service {
        Some(service) => Some(service@.token),
        None => None,
    }
}

/// The proof that a request presented the configured token. It holds the
/// feature that the request is for.
pub struct ApiAuthorization(Service);

impl View for ApiAuthorization {
    type V = ConfigView;

    closed spec fn view(&self) -> ConfigView {
        self.0@
    }
}

impl ApiAuthorization {
    /// The feature that the request is for.
    pub fn service(&self) -> (service: Service)
        ensures
            service@ == self@,
    {
        self.0.clone()
    }

    /// Authorizes a request. `service` is the feature, where it is
    /// configured, and `authorization` the text of the request's
    /// `Authorization` header, where it has one that is text. The request
    /// passes exactly when the feature is configured and the header presents
    /// its token, which is compared in constant time.
    pub fn from_request(service: Option<&Service>, authorization: Option<&str>) -> (outcome: Result<
        ApiAuthorization,
        ApiAuthorizationError,
    >)
        ensures
            match outcome {
                Ok(authorization_) => service matches Some(service) && authorization_@ == service@
                    && authorized(configured_token(Some(service)), header_text(authorization))
                    is Ok,
                Err(error) => authorized(configured_token(service), header_text(authorization))
                    == Err::<(), ApiAuthorizationError>(error),
            },
    {
        let service = match service {
            Some(service) => service,
            None => { return Err(ApiAuthorizationError::NoParadiseConfig); },
        };
        let token: &str = match authorization {
            Some(header) => match strip_prefix(header, "Bearer ") {
                Some(token) => token,
                None => "",
            },
            None => "",
        };
        proof {
            reveal_strlit("");
            assert(""@ =~= Seq::<char>::empty());
        }
        let actual_token = service.config().token();
        let same = timing_safe_eq(actual_token.as_bytes(), token.as_bytes());
        proof {
            encode_utf8_decode_utf8(actual_token@);
            encode_utf8_decode_utf8(token@);
        }
        if !same {
            return Err(ApiAuthorizationError::InvalidToken);
        }
        Ok(ApiAuthorization(service.clone()))
    }
}

/// The text of a header, where there is one.
pub open spec fn header_text(authorization: Option<&str>) -> Option<Seq<char>> {
    match authorization {
        Some(header) => Some(header@),
        None => None,
    }
}

/// A request whose `Authorization` header is `Bearer ` and then `presented`
/// is turned away whenever `presented` is not the configured token: so where
/// the two are of equal length and differ in their last character only, and
/// where they are of different length.
pub proof fn lemma_wrong_token_is_rejected(token: Seq<char>, presented: Seq<char>)
    ensures
        bearer_token(Some("Bearer "@ + presented)) == presented,
        presented != token ==> authorized(Some(token), Some("Bearer "@ + presented)) == Err::<
            (),
            ApiAuthorizationError,
        >(ApiAuthorizationError::InvalidToken),
        token.len() == presented.len() && token.len() > 0 && token.drop_last()
            == presented.drop_last() && token.last() != presented.last() ==> authorized(
            Some(token),
            Some("Bearer "@ + presented),
        ) == Err::<(), ApiAuthorizationError>(ApiAuthorizationError::InvalidToken),
        token.len() != presented.len() ==> authorized(Some(token), Some("Bearer "@ + presented))
            == Err::<(), ApiAuthorizationError>(ApiAuthorizationError::InvalidToken),
        authorized(Some(token), Some("Bearer "@ + token)) is Ok,
{
    let prefix = "Bearer "@;
    let header = prefix + presented;
    assert(header.subrange(0, prefix.len() as int) =~= prefix);
    assert(header.subrange(prefix.len() as int, header.len() as int) =~= presented);
    let own = prefix + token;
    assert(own.subrange(0, prefix.len() as int) =~= prefix);
    assert(own.subrange(prefix.len() as int, own.len() as int) =~= token);
}

} // verus!
