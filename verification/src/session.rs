use vstd::prelude::*;
use crate::api::AuthorizedApi;
use crate::interface::CurrentResponse;
use crate::pages::Page;

verus! {

/// The base URL of the API, relative to the site.
pub const DEFAULT_API_URL: &'static str = "/api";

/// The key under which the browser keeps the token between visits.
pub const API_TOKEN_STORAGE_KEY: &'static str = "api-token";

/// The login state of the front end: the authorized client, if logged in, and the
/// profile of the user, once fetched.
pub struct Session {
    pub api: Option<AuthorizedApi>,
    pub user: Option<CurrentResponse>,
}

/// Something the front end does as the session changes.
pub enum SessionAction {
    /// Keep this token in the browser's storage.
    StoreToken(String),
    /// Remove the token from the browser's storage.
    DeleteToken,
    /// Fetch the profile of the logged-in user.
    FetchUserInfo,
    /// Go to this page.
    Navigate(Page),
    /// Log that a logout was asked for while nobody was logged in.
    ReportNotLoggedIn,
}

/// The token of the session, if logged in.
pub open spec fn session_token(s: Session) -> Option<Seq<char>> {
    match s.api {
        Some(a) => Some(a.token@),
        None => None,
    }
}

/// What the browser's storage holds after the storage actions among `acts`, in order.
pub open spec fn stored_after(store: Option<Seq<char>>, acts: Seq<SessionAction>) -> Option<Seq<char>>
    decreases acts.len(),
{
    if acts.len() == 0 {
        store
    } else {
        let next = match acts[0] {
            SessionAction::StoreToken(t) => Some(t@),
            SessionAction::DeleteToken => None,
            _ => store,
        };
        stored_after(next, acts.drop_first())
    }
}

impl Session {
    /// The session at start-up: a token kept from an earlier visit logs the user in
    /// again (the token is kept and the profile fetched); without one, nobody is logged
    /// in and the storage is cleared.
    pub fn restore(stored_token: Option<String>) -> (r: (Session, Vec<SessionAction>))
        ensures
            r.0.user is None,
            session_transition(r.0, r.0, r.1@, SessionEventKind::Restore(
                match stored_token {
                    Some(t) => Some(t@),
                    None => None,
                },
            )),
            match stored_token {
                Some(t) => {
                    &&& r.0.api matches Some(a)
                    &&& a.url@ == DEFAULT_API_URL@
                    &&& a.token@ == t@
                    &&& r.1@.len() == 2
                    &&& r.1@[0] matches SessionAction::StoreToken(k)
                    &&& k@ == t@
                    &&& r.1@[1] is FetchUserInfo
                },
                None => {
                    &&& r.0.api is None
                    &&& r.1@.len() == 1
                    &&& r.1@[0] is DeleteToken
                },
            },
    {
        let mut acts: Vec<SessionAction> = Vec::new();
        match stored_token {
            Some(t) => {
                let kept = t.clone();
                let api = AuthorizedApi::new(DEFAULT_API_URL, t);
                acts.push(SessionAction::StoreToken(kept));
                acts.push(SessionAction::FetchUserInfo);
                (Session { api: Some(api), user: None }, acts)
            },
            None => {
                acts.push(SessionAction::DeleteToken);
                (Session { api: None, user: None }, acts)
            },
        }
    }

    /// A successful login: the client is kept, its token stored, the measures page
    /// shown and the profile fetched.
    pub fn login_succeeded(&mut self, api: AuthorizedApi) -> (r: Vec<SessionAction>)
        ensures
            final(self).api == Some(api),
            final(self).user == old(self).user,
            r@.len() == 3,
            r@[0] matches SessionAction::StoreToken(k) && k@ == api.token@,
            r@[1] == SessionAction::Navigate(Page::MeasureList),
            r@[2] is FetchUserInfo,
            session_transition(*old(self), *final(self), r@, SessionEventKind::Login(api)),
    {
        let token = api.token.clone();
        self.api = Some(api);
        let mut acts: Vec<SessionAction> = Vec::new();
        acts.push(SessionAction::StoreToken(token));
        acts.push(SessionAction::Navigate(Page::MeasureList));
        acts.push(SessionAction::FetchUserInfo);
        acts
    }

    /// The profile of the user arrived.
    pub fn user_info_received(&mut self, info: CurrentResponse)
        ensures
            final(self).api == old(self).api,
            final(self).user == Some(info),
            session_transition(*old(self), *final(self), Seq::empty(), SessionEventKind::UserInfo),
    {
        self.user = Some(info);
    }

    /// A logout: when logged in, the client and the profile are dropped and the token
    /// removed from storage; otherwise nothing changes and the mistake is logged.
    pub fn logout(&mut self) -> (r: Vec<SessionAction>)
        ensures
            old(self).api is Some ==> {
                &&& final(self).api is None
                &&& final(self).user is None
                &&& r@.len() == 1
                &&& r@[0] is DeleteToken
            },
            old(self).api is None ==> {
                &&& *final(self) == *old(self)
                &&& r@.len() == 1
                &&& r@[0] is ReportNotLoggedIn
            },
            session_transition(*old(self), *final(self), r@, SessionEventKind::Logout),
    {
        let mut acts: Vec<SessionAction> = Vec::new();
        if self.api.is_some() {
            self.api = None;
            self.user = None;
            acts.push(SessionAction::DeleteToken);
        } else {
            acts.push(SessionAction::ReportNotLoggedIn);
        }
        acts
    }
}

/// The browser's storage always holds the token of the session: at start-up, and
/// after every login, every profile update and every logout, provided it did before.
pub proof fn lemma_stored_token_follows_session(
    stored: Option<Seq<char>>,
    before: Session,
    after: Session,
    acts: Seq<SessionAction>,
    event: SessionEventKind,
)
    requires
        stored == session_token(before),
        session_transition(before, after, acts, event),
    ensures
        stored_after(stored, acts) == session_token(after),
{
    reveal_with_fuel(stored_after, 4);
    match event {
        SessionEventKind::Restore(Some(_)) => {
            assert(acts.drop_first().drop_first() =~= Seq::<SessionAction>::empty());
        },
        SessionEventKind::Login(api) => {
            assert(acts.drop_first().drop_first().drop_first() =~= Seq::<SessionAction>::empty());
        },
        _ => {
            if acts.len() == 1 {
                assert(acts.drop_first() =~= Seq::<SessionAction>::empty());
            }
        },
    }
}

/// The kinds of change a session goes through.
pub enum SessionEventKind {
    /// Start-up, with the token kept from an earlier visit, if any.
    Restore(Option<Seq<char>>),
    /// A successful login with this client.
    Login(AuthorizedApi),
    /// The profile arrived.
    UserInfo,
    /// A logout was asked for.
    Logout,
}

/// The change from `before` to `after` with actions `acts`, as the session's
/// operations state it.
pub open spec fn session_transition(
    before: Session,
    after: Session,
    acts: Seq<SessionAction>,
    event: SessionEventKind,
) -> bool {
    match event {
        SessionEventKind::Restore(t) => match t {
            Some(tok) => {
                &&& after.api matches Some(a)
                &&& a.token@ == tok
                &&& acts.len() == 2
                &&& acts[0] matches SessionAction::StoreToken(k)
                &&& k@ == tok
                &&& acts[1] is FetchUserInfo
            },
            None => {
                &&& after.api is None
                &&& acts.len() == 1
                &&& acts[0] is DeleteToken
            },
        },
        SessionEventKind::Login(api) => {
            &&& after.api == Some(api)
            &&& acts.len() == 3
            &&& acts[0] matches SessionAction::StoreToken(k)
            &&& k@ == api.token@
            &&& acts[1] == SessionAction::Navigate(Page::MeasureList)
            &&& acts[2] is FetchUserInfo
        },
        SessionEventKind::UserInfo => {
            &&& after.api == before.api
            &&& acts.len() == 0
        },
        SessionEventKind::Logout => {
            &&& before.api is Some ==> (after.api is None && acts.len() == 1 && acts[0] is DeleteToken)
            &&& before.api is None ==> (after == before && acts.len() == 1 && acts[0] is ReportNotLoggedIn)
        },
    }
}

} // verus!
