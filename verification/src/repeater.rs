//! The auto-refresh retry wrapper: executes authenticated requests, and on a
//! 401 response refreshes the credentials exactly once and retries exactly
//! once.

use vstd::prelude::*;

use crate::domain::{SecretString, UserUid};
use crate::http::{
    execute_sync, header_count, header_keys_unique, header_lookup, headers_upsert,
    lemma_headers_upsert, ClientSync, DefaultRequestFactory, Error, FromResponse, Method, Request,
    RequestData, RequestFactory, RequestModel,
};
use crate::requests::{auth_refresh_of, AuthRefreshRequest};
use crate::session::{SessionRefreshData, UserAuth};

verus! {

/// Whether an error is the service telling us the bearer token expired:
/// an API error with HTTP status 401. This is the only error the retry
/// wrapper intercepts.
pub open spec fn is_auth_expired_spec(e: Error) -> bool {
    e matches Error::API(a) && a.http_code == 401
}

/// Decides whether the retry wrapper may act on an error.
pub fn is_auth_expired(e: &Error) -> (b: bool)
    ensures
        b == is_auth_expired_spec(*e),
{
    match e {
        Error::API(a) => a.http_code == 401,
        _ => false,
    }
}

/// The outcome the retry policy owes the caller, given the first attempt's
/// result, whether the single refresh attempt succeeded, and the single
/// retry's result: only a 401 API error triggers the refresh; a failed
/// refresh surfaces the original 401; any other first result is final.
pub open spec fn retry_outcome<O>(
    first: Result<O, Error>,
    refresh_ok: bool,
    second: Result<O, Error>,
) -> Result<O, Error> {
    match first {
        Ok(o) => Ok(o),
        Err(e) => if is_auth_expired_spec(e) {
            if refresh_ok {
                second
            } else {
                Err(e)
            }
        } else {
            Err(e)
        },
    }
}

/// Anything but a 401 API error is returned immediately, without refresh.
pub proof fn lemma_retry_passes_other_errors<O>(
    first: Result<O, Error>,
    refresh_ok: bool,
    second: Result<O, Error>,
)
    requires
        first matches Err(e) ==> !is_auth_expired_spec(e),
    ensures
        retry_outcome(first, refresh_ok, second) == first,
{
}

/// A second consecutive 401 after the one refresh and retry is returned to
/// the caller unmodified: the policy never loops.
pub proof fn lemma_retry_second_expiry_is_final<O>(first: Result<O, Error>, second: Result<O, Error>)
    requires
        first matches Err(e) && is_auth_expired_spec(e),
        second matches Err(e) && is_auth_expired_spec(e),
    ensures
        retry_outcome(first, true, second) == second,
{
}

/// When the refresh itself fails, the caller sees the original 401, not the
/// refresh error.
pub proof fn lemma_retry_failed_refresh_returns_original<O>(
    first: Result<O, Error>,
    second: Result<O, Error>,
)
    requires
        first matches Err(e) && is_auth_expired_spec(e),
    ensures
        retry_outcome(first, false, second) == first,
{
}

/// The credentials `a` were taken wholesale from a decoded refresh payload:
/// never a torn mix of old and new fields.
pub open spec fn refreshed_from_response(a: UserAuth) -> bool {
    exists|body: Seq<u8>|
        #[trigger] auth_refresh_of(body) matches Some(m) && a.uid@ == m.uid && a.access_token@
            == m.access_token && a.refresh_token@ == m.refresh_token
}

/// Owns a session's credential triple and executes authenticated requests
/// with the retry policy of [`retry_outcome`].
pub struct RequestRepeater {
    pub user_auth: UserAuth,
}

impl RequestRepeater {
    pub fn new(user_auth: UserAuth) -> (r: Self)
        ensures
            r.user_auth == user_auth,
    {
        Self { user_auth }
    }

    /// Exchanges the current refresh token for fresh credentials and
    /// replaces the triple wholesale; a failure leaves it untouched.
    pub fn refresh_auth<C: ClientSync>(&mut self, client: &C) -> (r: Result<(), Error>)
        ensures
            r is Err ==> final(self).user_auth == old(self).user_auth,
            r is Ok ==> refreshed_from_response(final(self).user_auth),
    {
        let req = AuthRefreshRequest::new(
            &self.user_auth.uid,
            self.user_auth.refresh_token.expose_secret().as_str(),
        );
        match execute_sync(&req, client, &DefaultRequestFactory {  }) {
            Ok(resp) => {
                self.user_auth = UserAuth::from_auth_refresh_response(&resp);
                Ok(())
            },
            Err(e) => Err(e),
        }
    }

    /// Executes an authenticated request: once, plus at most one refresh and
    /// one retry when the first attempt came back 401. Any success is the
    /// decode of a body the service sent; the credentials after the call are
    /// the caller's or a wholesale refresh, never a torn mix.
    pub fn execute<C: ClientSync, R: Request>(&mut self, client: &C, request: &R) -> (r: Result<
        <R::Response as FromResponse>::Output,
        Error,
    >)
        ensures
            r matches Ok(o) ==> exists|body: Seq<u8>|
                #[trigger] <R::Response as FromResponse>::good(body)
                    && <R::Response as FromResponse>::output_matches(body, o),
            final(self).user_auth == old(self).user_auth || refreshed_from_response(
                final(self).user_auth,
            ),
    {
        match execute_sync(request, client, self) {
            Ok(o) => Ok(o),
            Err(original_error) => {
                if is_auth_expired(&original_error) {
                    match self.refresh_auth(client) {
                        Ok(()) => execute_sync(request, client, self),
                        Err(_) => Err(original_error),
                    }
                } else {
                    Err(original_error)
                }
            },
        }
    }

    /// The data needed to restore this session later.
    pub fn get_refresh_data(&self) -> (r: SessionRefreshData)
        ensures
            r.user_uid@ == self.user_auth.uid@,
            r.token@ == self.user_auth.refresh_token@,
    {
        SessionRefreshData {
            user_uid: UserUid(self.user_auth.uid.0.clone()),
            token: SecretString::new(self.user_auth.refresh_token.expose_secret().clone()),
        }
    }
}

/// Every request the repeater stamps carries exactly one `X-Pm-Uid` and
/// exactly one `authorization` header, holding the uid and the bearer token
/// of the credentials current at the time the request is built — so a
/// request built after a completed refresh carries the refreshed token,
/// never a stale one.
pub proof fn lemma_authenticated_headers(rep: RequestRepeater, method: Method, url: Seq<char>)
    ensures
        header_lookup(rep.new_request_spec(method, url).headers, "X-Pm-Uid"@) == Some(
            rep.user_auth.uid@,
        ),
        header_lookup(rep.new_request_spec(method, url).headers, "authorization"@) == Some(
            "Bearer "@ + rep.user_auth.access_token@,
        ),
        header_count(rep.new_request_spec(method, url).headers, "X-Pm-Uid"@) == 1,
        header_count(rep.new_request_spec(method, url).headers, "authorization"@) == 1,
{
    reveal_strlit("X-Pm-Uid");
    reveal_strlit("authorization");
    assert(("X-Pm-Uid"@).len() == 8);
    assert(("authorization"@).len() == 13);
    let e = Seq::<(Seq<char>, Seq<char>)>::empty();
    assert(header_keys_unique(e));
    lemma_headers_upsert(e, "X-Pm-Uid"@, rep.user_auth.uid@);
    let h1 = headers_upsert(e, "X-Pm-Uid"@, rep.user_auth.uid@);
    lemma_headers_upsert(h1, "authorization"@, "Bearer "@ + rep.user_auth.access_token@);
}

impl RequestFactory for RequestRepeater {
    /// Requests built here carry exactly one `X-Pm-Uid` and one
    /// `authorization` header, both reflecting the credentials at the time
    /// the request is built.
    open spec fn new_request_spec(&self, method: Method, url: Seq<char>) -> RequestModel {
        RequestModel {
            method,
            url,
            headers: headers_upsert(
                headers_upsert(Seq::empty(), "X-Pm-Uid"@, self.user_auth.uid@),
                "authorization"@,
                "Bearer "@ + self.user_auth.access_token@,
            ),
            body: None,
        }
    }

    fn new_request(&self, method: Method, url: &str) -> (r: RequestData) {
        RequestData::new(method, url).header(
            String::from_str("X-Pm-Uid"),
            self.user_auth.uid.0.clone(),
        ).bearer_token(self.user_auth.access_token.expose_secret().as_str())
    }
}

} // verus!
