use std::str::FromStr;

use liftcalc::api::{AuthorizedApi, UnauthorizedApi};
use liftcalc::interface::CurrentResponse;
use liftcalc::routes::{measure_routes, user_routes, Handler, Method};
use liftcalc::ui::{measure_form_after_save, measure_form_fields};
use liftcalc::interface::{InputWeightType, LoginResponse, Measure, MeasureCreate, UnknownWeightType};
use liftcalc::measures::{
    apply_update, require_user, unit_label, validated_update, DbError, validate_measure, CreateAction, CreateEvent, CreateState,
    FindRandomAction, FindRandomEvent, FindRandomState, LoadAction, LoadError, LoadEvent,
    LoadState, MeasureInvalid, ModelError,
};
use liftcalc::pages::{resolve_route, Page};
use liftcalc::session::{Session, SessionAction, API_TOKEN_STORAGE_KEY, DEFAULT_API_URL};
use liftcalc::text::{push_i32_decimal, str_equals};
use liftcalc::ui::{
    convert_submit_disabled, credentials_submit_disabled, list_outcome, login_submission,
    registration_outcome, registration_submission, measure_form_disabled,
    measure_submission, nav_items, push_response, register_click, registration_submit_disabled,
    MeasureSubmission, NavItem,
};

fn measure(id: i32, name: &str, plural: &str, grams: f64) -> Measure {
    Measure { id, name: name.to_string(), name_plural: plural.to_string(), grams_bits: grams.to_bits() }
}

fn create_params(name: &str, plural: &str, grams: f64) -> MeasureCreate {
    MeasureCreate { name: name.to_string(), name_plural: plural.to_string(), grams_bits: grams.to_bits() }
}

#[test]
fn page_paths() {
    assert_eq!(Page::Convert.path(), "/");
    assert_eq!(Page::Login.path(), "/login");
    assert_eq!(Page::Register.path(), "/register");
    assert_eq!(Page::MeasureList.path(), "/measures");
    assert_eq!(Page::default(), Page::Convert);
}

#[test]
fn page_paths_are_distinct() {
    let pages = [Page::Convert, Page::Login, Page::Register, Page::MeasureList];
    for a in pages {
        assert!(a.path().starts_with('/'));
        for b in pages {
            assert_eq!(a == b, a.path() == b.path());
        }
    }
}

#[test]
fn measures_need_login() {
    assert_eq!(resolve_route(Page::MeasureList, false), Page::Login);
    assert_eq!(resolve_route(Page::MeasureList, true), Page::MeasureList);
    assert_eq!(resolve_route(Page::Register, false), Page::Register);
    assert_eq!(resolve_route(Page::Convert, true), Page::Convert);
}

#[test]
fn unauthorized_urls() {
    let api = UnauthorizedApi::new("/api");
    assert_eq!(api.register_url(), "/api/auth/register");
    assert_eq!(api.login_url(), "/api/auth/login");
    assert_eq!(api.convert_url(), "/api/measures/convert");
}

#[test]
fn authorized_urls() {
    let api = AuthorizedApi::new("/api", "tok".to_string());
    assert_eq!(api.current_user_url(), "/api/user/current");
    assert_eq!(api.measures_url(), "/api/measures");
    assert_eq!(api.measure_url(42), "/api/measures/42");
    assert_eq!(api.measure_url(0), "/api/measures/0");
    assert_eq!(api.measure_url(-7), "/api/measures/-7");
    assert_eq!(api.measure_url(i32::MAX), format!("/api/measures/{}", i32::MAX));
    assert_eq!(api.measure_url(i32::MIN), format!("/api/measures/{}", i32::MIN));
}

#[test]
fn decimal_matches_to_string() {
    for n in [0, 1, 9, 10, 11, 99, 100, 12345, -1, -10, -999, 1_000_000_007, i32::MIN, i32::MAX] {
        let mut s = String::from("x");
        push_i32_decimal(&mut s, n);
        assert_eq!(s, format!("x{}", n));
    }
}

#[test]
fn bearer_header() {
    let api = AuthorizedApi::new("/api", "abc.def".to_string());
    assert_eq!(api.auth_header_value(), "Bearer abc.def");
    let (name, value) = api.auth_header();
    assert_eq!(name, "Authorization");
    assert_eq!(value, "Bearer abc.def");
}

#[test]
fn login_yields_authorized_client() {
    let api = UnauthorizedApi::new("/base");
    let response = LoginResponse {
        token: "t0k3n".to_string(),
        pid: "p".to_string(),
        name: "loco".to_string(),
        is_verified: true,
    };
    let authorized = api.authorize(response);
    assert_eq!(authorized.url, "/base");
    assert_eq!(authorized.token, "t0k3n");
}

#[test]
fn string_equality() {
    assert!(str_equals("abc", "abc"));
    assert!(!str_equals("abc", "abd"));
    assert!(!str_equals("abc", "ab"));
    assert!(str_equals("", ""));
    assert!(str_equals("héé", "héé"));
}

#[test]
fn weight_type_names() {
    assert_eq!(InputWeightType::from_str("Lbs"), Ok(InputWeightType::Lbs));
    assert_eq!(InputWeightType::from_str("Kgs"), Ok(InputWeightType::Kgs));
    assert_eq!(InputWeightType::from_str("lbs"), Err(UnknownWeightType));
    assert_eq!(InputWeightType::from_str("Kg"), Err(UnknownWeightType));
    assert_eq!(InputWeightType::parse_name(""), Err(UnknownWeightType));
}

#[test]
fn weight_type_factors() {
    assert_eq!(InputWeightType::Lbs.milligrams_per_unit(), 453592);
    assert_eq!(InputWeightType::Kgs.milligrams_per_unit(), 1000000);
    assert_eq!(InputWeightType::Lbs.milligrams_per_unit() as f64 / 1000.0, 453.592);
    assert_eq!(InputWeightType::Kgs.milligrams_per_unit() as f64 / 1000.0, 1000.0);
}

#[test]
fn name_rule_matches_validator() {
    for name in ["", "a", "ab", "abc", "é", "éé", "burger", "日本"] {
        let expected = validator::validate_length(name, Some(2), None, None);
        assert_eq!(validate_measure(name, false).is_ok(), expected, "{}", name);
    }
}

#[test]
fn validation_errors() {
    assert_eq!(validate_measure("burger", false), Ok(()));
    assert_eq!(
        validate_measure("b", false),
        Err(MeasureInvalid { name_too_short: true, grams_below_zero: false })
    );
    assert_eq!(
        validate_measure("burger", true),
        Err(MeasureInvalid { name_too_short: false, grams_below_zero: true })
    );
    assert_eq!(
        validate_measure("", true),
        Err(MeasureInvalid { name_too_short: true, grams_below_zero: true })
    );
    assert_eq!(MeasureInvalid::name_message(), "Name must be at least 2 characters long.");
}

#[test]
fn update_keeps_id_and_plural() {
    let item = measure(3, "gram", "grams", 1.0);
    let updated = apply_update(item, create_params("kilo", "kilos", 1000.0));
    assert_eq!(updated.id, 3);
    assert_eq!(updated.name, "kilo");
    assert_eq!(updated.name_plural, "grams");
    assert_eq!(f64::from_bits(updated.grams_bits), 1000.0);
}

#[test]
fn unit_label_singular_or_plural() {
    let m = measure(1, "burger", "burgers", 500.0);
    assert_eq!(unit_label(&m, true), "burgers");
    assert_eq!(unit_label(&m, false), "burger");
}

#[test]
fn random_pick_stays_in_range() {
    for count in [1u64, 2, 3, 10] {
        for _ in 0..50 {
            let (state, action) = FindRandomState::begin();
            assert!(matches!(action, FindRandomAction::CountRows));
            let (state, action) = state.step(FindRandomEvent::Counted(count));
            assert!(matches!(state, FindRandomState::Fetching));
            match action {
                FindRandomAction::FetchAt(offset) => assert!(offset < count),
                _ => panic!("expected a fetch"),
            }
        }
    }
    let (state, _) = FindRandomState::begin();
    let (state, _) = state.step(FindRandomEvent::Counted(1));
    let (_, action) = state.step(FindRandomEvent::Fetched(None));
    assert!(matches!(action, FindRandomAction::Finish(Err(ModelError::EntityNotFound))));
}

#[test]
fn random_pick_answers_the_row() {
    let (state, _) = FindRandomState::begin();
    let (state, _) = state.step(FindRandomEvent::Counted(5));
    let (state, action) = state.step(FindRandomEvent::Fetched(Some(measure(9, "gram", "grams", 1.0))));
    assert!(matches!(state, FindRandomState::Done));
    match action {
        FindRandomAction::Finish(Ok(m)) => assert_eq!(m.id, 9),
        _ => panic!("expected the measure"),
    }
    let (state, _) = FindRandomState::begin();
    let (_, action) = state.step(FindRandomEvent::Failed);
    assert!(matches!(action, FindRandomAction::Finish(Err(ModelError::DbErr(DbError::Failed)))));
}

#[test]
fn create_inserts_new_name() {
    let (state, action) = CreateState::begin(create_params("burger", "burgers", 500.0), false);
    assert!(matches!(action, CreateAction::BeginTransaction));
    let (state, action) = state.step(CreateEvent::Began);
    match action {
        CreateAction::LookUpName(n) => assert_eq!(n, "burger"),
        _ => panic!("expected a lookup"),
    }
    let (state, action) = state.step(CreateEvent::LookedUp(false));
    match action {
        CreateAction::Insert(p) => {
            assert_eq!(p.name, "burger");
            assert_eq!(p.name_plural, "burgers");
            assert_eq!(f64::from_bits(p.grams_bits), 500.0);
        }
        _ => panic!("expected an insert"),
    }
    let (state, action) = state.step(CreateEvent::Inserted(measure(1, "burger", "burgers", 500.0)));
    assert!(matches!(action, CreateAction::Commit));
    let (state, action) = state.step(CreateEvent::Committed);
    assert!(matches!(state, CreateState::Done));
    match action {
        CreateAction::Finish(Ok(m)) => assert_eq!(m.id, 1),
        _ => panic!("expected the stored measure"),
    }
}

#[test]
fn create_refuses_taken_name() {
    let (state, _) = CreateState::begin(create_params("Burger", "Burgers", 500.0), false);
    let (state, _) = state.step(CreateEvent::Began);
    let (state, action) = state.step(CreateEvent::LookedUp(true));
    assert!(matches!(state, CreateState::Done));
    assert!(matches!(action, CreateAction::Finish(Err(ModelError::EntityAlreadyExists))));
}

#[test]
fn create_refuses_invalid_measure() {
    let (state, _) = CreateState::begin(create_params("b", "bs", -1.0), true);
    let (state, _) = state.step(CreateEvent::Began);
    let (_, action) = state.step(CreateEvent::LookedUp(false));
    assert!(matches!(
        action,
        CreateAction::Finish(Err(ModelError::DbErr(DbError::Rejected(MeasureInvalid {
            name_too_short: true,
            grams_below_zero: true
        }))))
    ));
}

#[test]
fn create_reports_database_failure() {
    let (state, _) = CreateState::begin(create_params("burger", "burgers", 500.0), false);
    let (_, action) = state.step(CreateEvent::Failed);
    assert!(matches!(action, CreateAction::Finish(Err(ModelError::DbErr(DbError::Failed)))));
}

#[test]
fn load_item_flow() {
    let (state, action) = LoadState::begin(17);
    assert!(matches!(action, LoadAction::CheckUser));
    let (state, action) = state.step(LoadEvent::UserChecked(Ok(())));
    assert!(matches!(action, LoadAction::FetchById(17)));
    let (_, action) = state.step(LoadEvent::Fetched(None));
    assert!(matches!(action, LoadAction::Finish(Err(LoadError::NotFound))));

    let (state, _) = LoadState::begin(17);
    let (_, action) = state.step(LoadEvent::UserChecked(Err(ModelError::EntityNotFound)));
    assert!(matches!(action, LoadAction::Finish(Err(LoadError::User(ModelError::EntityNotFound)))));

    let (state, _) = LoadState::begin(2);
    let (state, _) = state.step(LoadEvent::UserChecked(Ok(())));
    let (_, action) = state.step(LoadEvent::Fetched(Some(measure(2, "gram", "grams", 1.0))));
    match action {
        LoadAction::Finish(Ok(m)) => assert_eq!(m.id, 2),
        _ => panic!("expected the measure"),
    }
}

#[test]
fn navigation_entries() {
    assert!(nav_items(false, true).is_empty());
    assert!(nav_items(false, false).is_empty());
    assert_eq!(
        nav_items(true, false),
        vec![NavItem::Link(Page::Convert), NavItem::Link(Page::Login), NavItem::Link(Page::Register)]
    );
    assert_eq!(
        nav_items(true, true),
        vec![NavItem::Link(Page::Convert), NavItem::Link(Page::MeasureList), NavItem::Logout]
    );
}

#[test]
fn form_buttons() {
    assert!(!credentials_submit_disabled(false, "a@b.c", "pw"));
    assert!(credentials_submit_disabled(true, "a@b.c", "pw"));
    assert!(credentials_submit_disabled(false, "", "pw"));
    assert!(credentials_submit_disabled(false, "a@b.c", ""));

    assert!(!registration_submit_disabled(false, "loco", "a@b.c", "1234", "1234"));
    assert!(registration_submit_disabled(false, "loco", "a@b.c", "1234", "1235"));
    assert!(registration_submit_disabled(false, "", "a@b.c", "1234", "1234"));
    assert!(registration_submit_disabled(true, "loco", "a@b.c", "1234", "1234"));
    assert!(registration_submit_disabled(false, "loco", "a@b.c", "", ""));

    assert!(!measure_form_disabled(false, "gram", "grams", true));
    assert!(measure_form_disabled(false, "gram", "grams", false));
    assert!(measure_form_disabled(false, "gram", "", true));
    assert!(measure_form_disabled(true, "gram", "grams", true));

    assert!(!convert_submit_disabled(false, false, "100"));
    assert!(convert_submit_disabled(false, false, ""));
    assert!(convert_submit_disabled(false, true, "1x"));
    assert!(convert_submit_disabled(true, false, "100"));
}

#[test]
fn measure_form_submission() {
    let existing = measure(5, "gram", "grams", 1.0);
    match measure_submission(Some(&existing), "kilo".to_string(), "kilos".to_string(), 1000.0f64.to_bits()) {
        MeasureSubmission::Update(m) => {
            assert_eq!(m.id, 5);
            assert_eq!(m.name, "kilo");
            assert_eq!(m.name_plural, "kilos");
            assert_eq!(f64::from_bits(m.grams_bits), 1000.0);
        }
        MeasureSubmission::Create(_) => panic!("expected an update"),
    }
    match measure_submission(None, "cup".to_string(), "cups".to_string(), 240.0f64.to_bits()) {
        MeasureSubmission::Create(c) => {
            assert_eq!(c.name, "cup");
            assert_eq!(c.name_plural, "cups");
            assert_eq!(f64::from_bits(c.grams_bits), 240.0);
        }
        MeasureSubmission::Update(_) => panic!("expected a creation"),
    }
}

#[test]
fn sixth_click_toggles_links() {
    let mut state = (0, false);
    for _ in 0..5 {
        state = register_click(state.0, state.1);
        assert!(!state.1);
    }
    assert_eq!(state, (5, false));
    state = register_click(state.0, state.1);
    assert_eq!(state, (0, true));
    for _ in 0..6 {
        state = register_click(state.0, state.1);
    }
    assert_eq!(state, (0, false));
}

#[test]
fn conversion_history() {
    let mut history: Vec<(usize, u32)> = Vec::new();
    push_response(&mut history, 1);
    assert_eq!(history, vec![(5, 1)]);
    push_response(&mut history, 2);
    assert_eq!(history, vec![(5, 2), (4, 1)]);
    for r in 3..=7 {
        push_response(&mut history, r);
    }
    assert_eq!(history, vec![(5, 7), (4, 6), (3, 5), (2, 4), (1, 3)]);
    push_response(&mut history, 8);
    assert_eq!(history, vec![(5, 8), (4, 7), (3, 6), (2, 5), (1, 4)]);
}

#[test]
fn session_restore_and_logout() {
    assert_eq!(DEFAULT_API_URL, "/api");
    assert_eq!(API_TOKEN_STORAGE_KEY, "api-token");

    let (mut session, acts) = Session::restore(Some("kept".to_string()));
    let api = session.api.as_ref().expect("restored");
    assert_eq!(api.url, "/api");
    assert_eq!(api.token, "kept");
    assert_eq!(acts.len(), 2);
    assert!(matches!(&acts[0], SessionAction::StoreToken(t) if t == "kept"));
    assert!(matches!(acts[1], SessionAction::FetchUserInfo));

    let acts = session.logout();
    assert!(session.api.is_none());
    assert!(session.user.is_none());
    assert!(matches!(acts[..], [SessionAction::DeleteToken]));

    let acts = session.logout();
    assert!(matches!(acts[..], [SessionAction::ReportNotLoggedIn]));

    let (session, acts) = Session::restore(None);
    assert!(session.api.is_none());
    assert!(matches!(acts[..], [SessionAction::DeleteToken]));
}

#[test]
fn session_login() {
    let (mut session, _) = Session::restore(None);
    let acts = session.login_succeeded(AuthorizedApi::new("/api", "fresh".to_string()));
    assert_eq!(session.api.as_ref().map(|a| a.token.clone()), Some("fresh".to_string()));
    assert_eq!(acts.len(), 3);
    assert!(matches!(&acts[0], SessionAction::StoreToken(t) if t == "fresh"));
    assert!(matches!(acts[1], SessionAction::Navigate(Page::MeasureList)));
    assert!(matches!(acts[2], SessionAction::FetchUserInfo));
}

#[test]
fn measure_form_fields_follow_edited_measure() {
    let m = measure(4, "cup", "cups", 240.0);
    let f = measure_form_fields(Some(&m), 240.0f64.to_string());
    assert_eq!((f.name.as_str(), f.name_plural.as_str(), f.grams.as_str()), ("cup", "cups", "240"));
    let f = measure_form_fields(None, "ignored".to_string());
    assert_eq!((f.name.as_str(), f.name_plural.as_str(), f.grams.as_str()), ("", "", ""));

    let typed = measure_form_fields(Some(&m), "240".to_string());
    let (f, err, reload) = measure_form_after_save(typed, Err("conflict".to_string()));
    assert_eq!(f.name, "cup");
    assert_eq!(err, Some("conflict".to_string()));
    assert!(!reload);
    let (f, err, reload) = measure_form_after_save(f, Ok(()));
    assert_eq!((f.name.as_str(), f.name_plural.as_str(), f.grams.as_str()), ("", "", ""));
    assert_eq!(err, None);
    assert!(reload);
}

#[test]
fn session_keeps_profile() {
    let (mut session, _) = Session::restore(Some("t".to_string()));
    session.user_info_received(CurrentResponse {
        pid: "p1".to_string(),
        name: "loco".to_string(),
        email: "test@loco.com".to_string(),
    });
    assert_eq!(session.user.as_ref().map(|u| u.name.clone()), Some("loco".to_string()));
    assert_eq!(session.api.as_ref().map(|a| a.token.clone()), Some("t".to_string()));
}

#[test]
fn server_routes() {
    let routes = measure_routes();
    assert_eq!(routes.prefix, "measures");
    let table: Vec<(Method, &str, Handler)> =
        routes.routes.iter().map(|r| (r.method, r.path, r.handler)).collect();
    assert_eq!(
        table,
        vec![
            (Method::Get, "/", Handler::ListMeasures),
            (Method::Post, "/", Handler::AddMeasure),
            (Method::Post, "/convert", Handler::Convert),
            (Method::Get, "/:id", Handler::GetMeasure),
            (Method::Delete, "/:id", Handler::RemoveMeasure),
            (Method::Post, "/:id", Handler::UpdateMeasure),
        ]
    );
    let users = user_routes();
    assert_eq!(users.prefix, "user");
    assert_eq!(users.routes.len(), 1);
    assert_eq!((users.routes[0].method, users.routes[0].path, users.routes[0].handler), (Method::Get, "/current", Handler::CurrentUser));
}

#[test]
fn client_urls_reach_server_routes() {
    let api = AuthorizedApi::new(DEFAULT_API_URL, "t".to_string());
    let measures = measure_routes();
    assert_eq!(api.measures_url(), format!("/api/{}", measures.prefix));
    assert_eq!(api.measure_url(12), format!("/api/{}{}", measures.prefix, measures.routes[3].path.replace(":id", "12")));
    let users = user_routes();
    assert_eq!(api.current_user_url(), format!("/api/{}{}", users.prefix, users.routes[0].path));
    let open = UnauthorizedApi::new(DEFAULT_API_URL);
    assert_eq!(open.convert_url(), format!("/api/{}{}", measures.prefix, measures.routes[2].path));
}

#[test]
fn enter_submits() {
    assert!(liftcalc::ui::is_submit_key("Enter"));
    assert!(!liftcalc::ui::is_submit_key("enter"));
    assert!(!liftcalc::ui::is_submit_key("a"));
    assert!(!liftcalc::ui::is_submit_key(""));
}

#[test]
fn lookup_answers() {
    assert!(matches!(liftcalc::measures::measure_found(None), Err(ModelError::EntityNotFound)));
    match liftcalc::measures::measure_found(Some(measure(8, "egg", "eggs", 50.0))) {
        Ok(m) => assert_eq!(m.name, "egg"),
        Err(_) => panic!("expected the measure"),
    }
}

#[test]
fn forms_submit_fields_in_order() {
    let login = login_submission("a@b.c".to_string(), "pw".to_string());
    assert_eq!((login.email.as_str(), login.password.as_str()), ("a@b.c", "pw"));
    let reg = registration_submission(
        "loco".to_string(),
        "test@loco.com".to_string(),
        "1234".to_string(),
        "12345".to_string(),
    );
    assert_eq!(reg.name, "loco");
    assert_eq!(reg.email, "test@loco.com");
    assert_eq!(reg.password, "1234");
    assert_eq!(reg.password_confirm, "12345");
}

#[test]
fn page_outcomes() {
    assert_eq!(registration_outcome(false, Ok(())), (true, None));
    assert_eq!(registration_outcome(false, Err("taken".to_string())), (false, Some("taken".to_string())));
    let (rows, err) = list_outcome(Ok(vec![measure(1, "gram", "grams", 1.0)]), Some("old".to_string()));
    assert_eq!(rows.len(), 1);
    assert_eq!(rows[0].name, "gram");
    assert_eq!(err, Some("old".to_string()));
    let (rows, err) = list_outcome(Err("down".to_string()), None);
    assert!(rows.is_empty());
    assert_eq!(err, Some("down".to_string()));
}

#[test]
fn updates_obey_the_rules() {
    let ok = validated_update(measure(3, "gram", "grams", 1.0), create_params("kilo", "kilos", 1000.0), false);
    match ok {
        Ok(m) => {
            assert_eq!((m.id, m.name.as_str(), m.name_plural.as_str()), (3, "kilo", "grams"));
            assert_eq!(f64::from_bits(m.grams_bits), 1000.0);
        }
        Err(_) => panic!("expected the update"),
    }
    let refused = validated_update(measure(3, "gram", "grams", 1.0), create_params("k", "ks", -1.0), true);
    assert!(matches!(
        refused,
        Err(DbError::Rejected(MeasureInvalid { name_too_short: true, grams_below_zero: true }))
    ));
}

#[test]
fn user_check_gates_requests() {
    assert_eq!(require_user(Ok(())), Ok(()));
    assert_eq!(require_user(Err(ModelError::EntityNotFound)), Err(LoadError::User(ModelError::EntityNotFound)));
}

#[test]
fn history_after_many_conversions() {
    let mut history: Vec<(usize, u32)> = Vec::new();
    for k in 1..=12u32 {
        push_response(&mut history, k);
        let n = std::cmp::min(k, 5) as usize;
        let expected: Vec<(usize, u32)> = (0..n).map(|i| (5 - i, k - i as u32)).collect();
        assert_eq!(history, expected);
    }
}
