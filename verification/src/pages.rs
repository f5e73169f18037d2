use vstd::prelude::*;

verus! {

/// The pages of the front end, each reachable under its own route.
#[derive(Debug, Clone, Copy, PartialEq, Eq, Structural)]
pub enum Page {
    Convert,
    Login,
    Register,
    MeasureList,
}

/// The route of each page, as characters.
pub open spec fn page_path(p: Page) -> Seq<char> {
    match p {
        Page::Convert => seq!['/'],
        Page::Login => seq!['/', 'l', 'o', 'g', 'i', 'n'],
        Page::Register => seq!['/', 'r', 'e', 'g', 'i', 's', 't', 'e', 'r'],
        Page::MeasureList => seq!['/', 'm', 'e', 'a', 's', 'u', 'r', 'e', 's'],
    }
}

impl Page {
    /// The route under which the page is served.
    pub fn path(&self) -> (r: &'static str)
        ensures
            r@ == page_path(*self),
    {
        match self {
            Page::Convert => {
                proof { reveal_strlit("/"); }
                "/"
            },
            Page::Login => {
                proof { reveal_strlit("/login"); }
                "/login"
            },
            Page::Register => {
                proof { reveal_strlit("/register"); }
                "/register"
            },
            Page::MeasureList => {
                proof { reveal_strlit("/measures"); }
                "/measures"
            },
        }
    }
}

impl Default for Page {
    /// The landing page is the converter.
    fn default() -> (r: Page)
        ensures
            r == Page::Convert,
    {
        Page::Convert
    }
}

/// The page actually shown when `page` is asked for: the measures need a login, so
/// without one the login page is shown in their place.
pub fn resolve_route(page: Page, logged_in: bool) -> (r: Page)
    ensures
        r == if page == Page::MeasureList && !logged_in {
            Page::Login
        } else {
            page
        },
{
    match page {
        Page::MeasureList => if logged_in {
            Page::MeasureList
        } else {
            Page::Login
        },
        _ => page,
    }
}

/// Distinct pages are served under distinct routes, and every route is absolute.
pub proof fn lemma_paths_distinct_and_absolute(p: Page, q: Page)
    ensures
        p != q ==> page_path(p) != page_path(q),
        page_path(p).len() >= 1,
        page_path(p)[0] == '/',
{
    if p != q {
        if page_path(p).len() == page_path(q).len() {
            assert(page_path(p)[1] != page_path(q)[1]);
        }
    }
}

} // verus!
