use vstd::prelude::*;
use crate::interface::{LoginParams, Measure, MeasureCreate, RegisterParams};
use crate::pages::Page;
use crate::text::str_equals;

verus! {

/// An entry of the navigation bar: a link to a page, or the logout link.
#[derive(Debug, Clone, Copy, PartialEq, Eq, Structural)]
pub enum NavItem {
    Link(Page),
    Logout,
}

/// The entries that the navigation bar shows, in order.
pub open spec fn spec_nav_items(show_links: bool, logged_in: bool) -> Seq<NavItem> {
    if !show_links {
        seq![]
    } else if logged_in {
        seq![NavItem::Link(Page::Convert), NavItem::Link(Page::MeasureList), NavItem::Logout]
    } else {
        seq![NavItem::Link(Page::Convert), NavItem::Link(Page::Login), NavItem::Link(Page::Register)]
    }
}

/// The entries of the navigation bar: none while the links are hidden; otherwise the
/// converter, then either the measures and logout (logged in) or login and registration.
pub fn nav_items(show_links: bool, logged_in: bool) -> (r: Vec<NavItem>)
    ensures
        r@ == spec_nav_items(show_links, logged_in),
{
    let mut v: Vec<NavItem> = Vec::new();
    if show_links {
        v.push(NavItem::Link(Page::Convert));
        if logged_in {
            v.push(NavItem::Link(Page::MeasureList));
            v.push(NavItem::Logout);
        } else {
            v.push(NavItem::Link(Page::Login));
            v.push(NavItem::Link(Page::Register));
        }
    }
    assert(v@ =~= spec_nav_items(show_links, logged_in));
    v
}

/// Whether a key released in a password (or amount) field submits the form: only the
/// Enter key does; any other key updates the field.
pub fn is_submit_key(key: &str) -> (r: bool)
    ensures
        r == (key@ == "Enter"@),
{
    str_equals(key, "Enter")
}

/// What the login form submits: the e-mail typed, then the password typed.
pub fn login_submission(email: String, password: String) -> (r: LoginParams)
    ensures
        r.email == email,
        r.password == password,
{
    LoginParams { email, password }
}

/// What the registration form submits: the user name, the e-mail, the password and its
/// confirmation, each as typed.
pub fn registration_submission(
    name: String,
    email: String,
    password: String,
    password_confirm: String,
) -> (r: RegisterParams)
    ensures
        r.name == name,
        r.email == email,
        r.password == password,
        r.password_confirm == password_confirm,
{
    RegisterParams { email, password, password_confirm, name }
}

/// The registration page after the request returned: on success the account is
/// registered and no error is shown; on failure the error is shown and the page stays
/// as it was.
pub fn registration_outcome(registered: bool, result: Result<(), String>) -> (r: (bool, Option<String>))
    ensures
        match result {
            Ok(()) => r.0 && r.1 is None,
            Err(msg) => r.0 == registered && r.1 == Some(msg),
        },
{
    match result {
        Ok(()) => (true, None),
        Err(msg) => (registered, Some(msg)),
    }
}

/// The measure list after it was fetched: the rows fetched, with the error left as it
/// was; or, when the fetch failed, no rows and that error.
pub fn list_outcome(result: Result<Vec<Measure>, String>, error: Option<String>) -> (r: (
    Vec<Measure>,
    Option<String>,
))
    ensures
        match result {
            Ok(rows) => r.0 == rows && r.1 == error,
            Err(msg) => r.0@.len() == 0 && r.1 == Some(msg),
        },
{
    match result {
        Ok(rows) => (rows, error),
        Err(msg) => (Vec::new(), Some(msg)),
    }
}

/// Whether the login form's button is disabled: while busy, or while the e-mail
/// or the password is empty.
pub fn credentials_submit_disabled(disabled: bool, email: &str, password: &str) -> (r: bool)
    ensures
        r == (disabled || password@.len() == 0 || email@.len() == 0),
{
    disabled || password.is_empty() || email.is_empty()
}

/// Whether the registration form's button is disabled: while busy, while a field is
/// empty, or while the password and its confirmation differ.
pub fn registration_submit_disabled(
    disabled: bool,
    name: &str,
    email: &str,
    password: &str,
    password_confirm: &str,
) -> (r: bool)
    ensures
        r == (disabled || password@.len() == 0 || email@.len() == 0 || password_confirm@.len() == 0
            || name@.len() == 0 || password@ != password_confirm@),
{
    disabled || password.is_empty() || email.is_empty() || password_confirm.is_empty()
        || name.is_empty() || !str_equals(password, password_confirm)
}

/// Whether the measure form's button is disabled: while a request is pending, while a
/// name is empty, or while the weight entered is not a positive number.
pub fn measure_form_disabled(waiting: bool, name: &str, name_plural: &str, grams_valid: bool) -> (r:
    bool)
    ensures
        r == (waiting || name@.len() == 0 || name_plural@.len() == 0 || !grams_valid),
{
    waiting || name.is_empty() || name_plural.is_empty() || !grams_valid
}

/// What the measure form sends: an update of the measure being edited, or a new measure.
pub enum MeasureSubmission {
    Update(Measure),
    Create(MeasureCreate),
}

/// The request that submitting the measure form makes. When a measure is being edited,
/// it is updated under its own id with the values entered; otherwise a measure is created.
pub fn measure_submission(
    existing: Option<&Measure>,
    name: String,
    name_plural: String,
    grams_bits: u64,
) -> (r: MeasureSubmission)
    ensures
        match existing {
            Some(e) => r matches MeasureSubmission::Update(m) && m.id == e.id && m.name@ == name@
                && m.name_plural@ == name_plural@ && m.grams_bits == grams_bits,
            None => r matches MeasureSubmission::Create(c) && c.name@ == name@ && c.name_plural@
                == name_plural@ && c.grams_bits == grams_bits,
        },
{
    match existing {
        Some(e) => MeasureSubmission::Update(Measure { id: e.id, name, name_plural, grams_bits }),
        None => MeasureSubmission::Create(MeasureCreate { name, name_plural, grams_bits }),
    }
}

/// The fields of the measure form as typed: two names and the weight in grams as text.
pub struct MeasureFormFields {
    pub name: String,
    pub name_plural: String,
    pub grams: String,
}

/// The form's fields when the measure being edited changes: the measure's names and
/// its weight (as `grams_text`, written from the float) when one is edited, empty fields
/// otherwise.
pub fn measure_form_fields(existing: Option<&Measure>, grams_text: String) -> (r: MeasureFormFields)
    ensures
        match existing {
            Some(e) => r.name == e.name && r.name_plural == e.name_plural && r.grams == grams_text,
            None => r.name@.len() == 0 && r.name_plural@.len() == 0 && r.grams@.len() == 0,
        },
{
    match existing {
        Some(e) => MeasureFormFields {
            name: e.name.clone(),
            name_plural: e.name_plural.clone(),
            grams: grams_text,
        },
        None => MeasureFormFields { name: String::new(), name_plural: String::new(), grams: String::new() },
    }
}

/// The measure form after its request returned: on success the fields are cleared, the
/// error removed, and the list is to be reloaded (`true`); on failure the fields stay and
/// the error is shown.
pub fn measure_form_after_save(
    fields: MeasureFormFields,
    outcome: Result<(), String>,
) -> (r: (MeasureFormFields, Option<String>, bool))
    ensures
        match outcome {
            Ok(()) => r.0.name@.len() == 0 && r.0.name_plural@.len() == 0 && r.0.grams@.len() == 0
                && r.1 is None && r.2,
            Err(msg) => r.0 == fields && r.1 == Some(msg) && !r.2,
        },
{
    match outcome {
        Ok(()) => (
            MeasureFormFields { name: String::new(), name_plural: String::new(), grams: String::new() },
            None,
            true,
        ),
        Err(msg) => (fields, Some(msg), false),
    }
}

/// Whether the converter may be submitted: not while a request is pending, while the
/// amount does not parse, or while it is empty.
pub fn convert_submit_disabled(waiting: bool, has_error: bool, amount: &str) -> (r: bool)
    ensures
        r == (waiting || has_error || amount@.len() == 0),
{
    waiting || has_error || amount.is_empty()
}

/// Number of clicks on the title that toggle the visibility of the links.
pub const CLICKS_TO_TOGGLE: i32 = 6;

/// A click on the converter's title: the counter grows by one; when it reaches six,
/// the links are shown or hidden in turn and the counter starts again from zero.
pub fn register_click(count: i32, show_links: bool) -> (r: (i32, bool))
    requires
        count < i32::MAX,
    ensures
        count + 1 >= 6 ==> r == (0i32, !show_links),
        count + 1 < 6 ==> r.0 == count + 1 && r.1 == show_links,
{
    let count = count + 1;
    if count >= CLICKS_TO_TOGGLE {
        (0, !show_links)
    } else {
        (count, show_links)
    }
}

/// Counter and visibility after `n` clicks from the given state.
pub open spec fn after_clicks(count: int, show_links: bool, n: nat) -> (int, bool)
    decreases n,
{
    if n == 0 {
        (count, show_links)
    } else {
        let (c, s) = after_clicks(count, show_links, (n - 1) as nat);
        if c + 1 >= 6 {
            (0, !s)
        } else {
            (c + 1, s)
        }
    }
}

/// Starting from a fresh counter, the links change visibility exactly on every sixth
/// click: after `n` clicks the counter is `n % 6`, and the visibility has flipped
/// `n / 6` times.
pub proof fn lemma_every_sixth_click_toggles(show_links: bool, n: nat)
    ensures
        after_clicks(0, show_links, n) == ((n % 6) as int, if (n / 6) % 2 == 0 {
            show_links
        } else {
            !show_links
        }),
    decreases n,
{
    if n > 0 {
        lemma_every_sixth_click_toggles(show_links, (n - 1) as nat);
    }
}

/// At most this many conversions are kept on the converter page.
pub const HISTORY_LEN: usize = 5;

/// A well-formed history of conversions: at most five entries, newest first, the entry
/// at position `i` numbered `5 - i` (the number sizes its display).
pub open spec fn history_wf<T>(s: Seq<(usize, T)>) -> bool {
    &&& s.len() <= 5
    &&& forall|i: int| 0 <= i < s.len() ==> #[trigger] s[i].0 == 5 - i
}

/// The history after recording `res` in `h`: `res` first, numbered five, then the four
/// newest entries of `h`, each numbered one lower.
pub open spec fn spec_push<T>(h: Seq<(usize, T)>, res: T) -> Seq<(usize, T)> {
    seq![(5usize, res)] + h.take(if h.len() < 4 { h.len() as int } else { 4 }).map_values(
        |e: (usize, T)| ((e.0 - 1) as usize, e.1),
    )
}

/// The history after the conversion results `rs` were recorded, oldest first, into an
/// empty one.
pub open spec fn history_of<T>(rs: Seq<T>) -> Seq<(usize, T)>
    decreases rs.len(),
{
    if rs.len() == 0 {
        seq![]
    } else {
        spec_push(history_of(rs.drop_last()), rs.last())
    }
}

/// Records a new conversion result: it goes first, numbered six; the list is cut to
/// five entries; then every entry's number is lowered by one.
pub fn push_response<T>(resps: &mut Vec<(usize, T)>, res: T)
    requires
        forall|i: int| 0 <= i < old(resps).len() && i < 4 ==> #[trigger] old(resps)[i].0 >= 1,
    ensures
        final(resps).len() == if old(resps).len() + 1 < 5 {
            old(resps).len() + 1
        } else {
            5
        },
        final(resps)[0] == (5usize, res),
        forall|i: int|
            1 <= i < final(resps).len() ==> #[trigger] final(resps)[i] == (
                (old(resps)[i - 1].0 - 1) as usize,
                old(resps)[i - 1].1,
            ),
        final(resps)@ == spec_push(old(resps)@, res),
{
    let ghost before = resps@;
    resps.insert(0, (6usize, res));
    while resps.len() > HISTORY_LEN
        invariant
            resps.len() >= 1,
            resps.len() <= before.len() + 1,
            resps[0] == (6usize, res),
            forall|i: int| 1 <= i < resps.len() ==> #[trigger] resps[i] == before[i - 1],
            resps.len() >= 5 || resps.len() == before.len() + 1,
        decreases resps.len(),
    {
        resps.pop();
    }
    let ghost trimmed = resps@;
    let n = resps.len();
    let mut i: usize = 0;
    while i < n
        invariant
            n == resps.len(),
            n == trimmed.len(),
            n <= 5,
            n >= 1,
            n <= before.len() + 1,
            trimmed[0] == (6usize, res),
            forall|j: int| 1 <= j < n ==> #[trigger] trimmed[j] == before[j - 1],
            forall|j: int| 0 <= j < before.len() && j < 4 ==> #[trigger] before[j].0 >= 1,
            forall|j: int| 0 <= j < i ==> #[trigger] resps[j] == ((trimmed[j].0 - 1) as usize, trimmed[j].1),
            forall|j: int| i <= j < n ==> #[trigger] resps[j] == trimmed[j],
        decreases n - i,
    {
        if i >= 1 {
            assert(before[i - 1].0 >= 1);
        }
        resps[i].0 = resps[i].0 - 1;
        i = i + 1;
    }    assert(resps@ =~= spec_push(before, res));
}

/// A history stays well formed when a conversion is recorded: each use of
/// `push_response` on a well-formed history meets its `requires` and yields one.
pub proof fn lemma_push_keeps_history_wf<T>(before: Seq<(usize, T)>, res: T, after: Seq<(usize, T)>)
    requires
        history_wf(before),
        after.len() == if before.len() + 1 < 5 { before.len() + 1 } else { 5 },
        after[0] == (5usize, res),
        forall|i: int|
            1 <= i < after.len() ==> #[trigger] after[i] == ((before[i - 1].0 - 1) as usize, before[i - 1].1),
    ensures
        forall|i: int| 0 <= i < before.len() && i < 4 ==> #[trigger] before[i].0 >= 1,
        history_wf(after),
{
    assert forall|i: int| 0 <= i < after.len() implies #[trigger] after[i].0 == 5 - i by {
        if i >= 1 {
            assert(before[i - 1].0 == 5 - (i - 1));
        }
    }
}

/// After any run of successful conversions r_1 .. r_k recorded one after another into
/// an empty history, the history holds the min(k, 5) newest results, newest first, the
/// entry at position `i` being `(5 - i, r_(k - i))`; older results are gone.
pub proof fn lemma_history_of_run<T>(rs: Seq<T>)
    ensures
        history_of(rs) == Seq::new(
            if rs.len() < 5 { rs.len() } else { 5 },
            |i: int| ((5 - i) as usize, rs[rs.len() - 1 - i]),
        ),
        history_wf(history_of(rs)),
    decreases rs.len(),
{
    if rs.len() > 0 {
        let prev = rs.drop_last();
        lemma_history_of_run(prev);
        let h = history_of(prev);
        let expected = Seq::new(
            if rs.len() < 5 { rs.len() } else { 5 },
            |i: int| ((5 - i) as usize, rs[rs.len() - 1 - i]),
        );
        assert(history_of(rs) =~= expected) by {
            assert forall|i: int| 1 <= i < expected.len() implies #[trigger] spec_push(h, rs.last())[i]
                == expected[i] by {
                assert(h[i - 1] == ((5 - (i - 1)) as usize, prev[prev.len() - 1 - (i - 1)]));
            }
        }
    }
}

} // verus!
