use vstd::prelude::*;
use crate::interface::LoginResponse;
use crate::text::{int_decimal, push_i32_decimal};

verus! {

/// Client of the endpoints that need no login, rooted at a base URL.
#[derive(Clone, Copy)]
pub struct UnauthorizedApi {
    url: &'static str,
}

/// Client of the endpoints that need a login: a base URL and a bearer token.
#[derive(Clone)]
pub struct AuthorizedApi {
    pub url: &'static str,
    pub token: String,
}

impl View for UnauthorizedApi {
    type V = Seq<char>;

    /// The base URL.
    closed spec fn view(&self) -> Seq<char> {
        self.url@
    }
}

/// `base` followed by `suffix`.
fn join_url(base: &str, suffix: &str) -> (r: String)
    ensures
        r@ == base@ + suffix@,
{
    let mut s = base.to_owned();
    s.append(suffix);
    s
}

impl UnauthorizedApi {
    /// A client for the API under `url`.
    pub fn new(url: &'static str) -> (r: Self)
        ensures
            r@ == url@,
    {
        Self { url }
    }

    /// Where a new account is registered.
    pub fn register_url(&self) -> (r: String)
        ensures
            r@ == self@ + "/auth/register"@,
    {
        join_url(self.url, "/auth/register")
    }

    /// Where credentials are exchanged for a token.
    pub fn login_url(&self) -> (r: String)
        ensures
            r@ == self@ + "/auth/login"@,
    {
        join_url(self.url, "/auth/login")
    }

    /// Where a weight is converted into a random measure.
    pub fn convert_url(&self) -> (r: String)
        ensures
            r@ == self@ + "/measures/convert"@,
    {
        join_url(self.url, "/measures/convert")
    }

    /// The authorized client that a successful login yields: the same base URL,
    /// with the token that the server answered.
    pub fn authorize(&self, response: LoginResponse) -> (r: AuthorizedApi)
        ensures
            r.url@ == self@,
            r.token@ == response.token@,
    {
        AuthorizedApi::new(self.url, response.token)
    }
}

impl AuthorizedApi {
    /// A client for the API under `url` that authenticates with `token`.
    pub fn new(url: &'static str, token: String) -> (r: Self)
        ensures
            r.url@ == url@,
            r.token@ == token@,
    {
        Self { url, token }
    }

    /// The value of the `Authorization` header: `Bearer ` and the token.
    pub fn auth_header_value(&self) -> (r: String)
        ensures
            r@ == "Bearer "@ + self.token@,
    {
        join_url("Bearer ", self.token.as_str())
    }

    /// The header that every authorized request carries, as a name and a value.
    pub fn auth_header(&self) -> (r: (&'static str, String))
        ensures
            r.0@ == "Authorization"@,
            r.1@ == "Bearer "@ + self.token@,
    {
        ("Authorization", self.auth_header_value())
    }

    /// Where the profile of the logged-in user is read.
    pub fn current_user_url(&self) -> (r: String)
        ensures
            r@ == self.url@ + "/user/current"@,
    {
        join_url(self.url, "/user/current")
    }

    /// Where measures are listed and created.
    pub fn measures_url(&self) -> (r: String)
        ensures
            r@ == self.url@ + "/measures"@,
    {
        join_url(self.url, "/measures")
    }

    /// Where the measure with the given id is read, updated and deleted.
    pub fn measure_url(&self, id: i32) -> (r: String)
        ensures
            r@ == self.url@ + "/measures/"@ + int_decimal(id as int),
    {
        let mut s = join_url(self.url, "/measures/");
        push_i32_decimal(&mut s, id);
        s
    }
}

} // verus!
