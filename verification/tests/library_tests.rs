use rusty_shorty::failure::{Failure, STATUS_FORBIDDEN, STATUS_INTERNAL_SERVER_ERROR, STATUS_UNAUTHORIZED};
use rusty_shorty::home::home_page_texts;
use rusty_shorty::html::context::{main_css_name, ContextHtmlBuilder, Flash, PageLayout, UserBar};
use rusty_shorty::locale::Locale;
use rusty_shorty::public::assets::{build_locale_resources, js_boot, list_of_alias, path_first_segment, AssetLocale};
use rusty_shorty::role::Role;
use rusty_shorty::shorty::access::url_access;
use rusty_shorty::shorty::form::AddEditUrlForm;
use rusty_shorty::shorty::locale::short_route_confirm_message;
use rusty_shorty::shorty::model::ListUrlRedirectModel;
use rusty_shorty::shorty::route::{url_list_rows, url_saved_flash, shorty_list_location};
use rusty_shorty::shorty::rule::must_be_kebab_case;
use rusty_shorty::stack::model::ListStackModel;
use rusty_shorty::stack::route::stack_list_rows;
use rusty_shorty::text::trim;
use rusty_shorty::timestamp::{timestamp_text, Timestamp};
use rusty_shorty::user::form::{AddUserForm, EditUserForm};
use rusty_shorty::user::model::{ListUser, UserIdContext};
use rusty_shorty::user::pointer::UserPointer;
use rusty_shorty::user::role_check::{must_be_root, must_be_user, visitor_only, visitor_redirect};
use rusty_shorty::user::route::{login_post_outcome, sign_out_flash, user_list_rows, user_added_flash};
use rusty_shorty::validation::Password;
use std::sync::Arc;

fn english() -> Locale {
    Locale { entries: Vec::new() }
}

fn viewer(id: i64, role: Role) -> UserIdContext {
    UserIdContext { id, username: "someone".to_string(), role }
}

fn url(id: i64, owner: i64) -> ListUrlRedirectModel {
    ListUrlRedirectModel {
        id,
        url_path: "hello".to_string(),
        url_redirect: "http://hello.com".to_string(),
        created_at: Timestamp { secs: 0, nanos: 0 },
        created_by_user_id: owner,
        username: "owner".to_string(),
    }
}

fn message_keys(form: &AddEditUrlForm) -> (Vec<String>, Vec<String>) {
    let error = form.as_validated().0.err().unwrap();
    let path = match &error.url_path {
        Ok(_) => Vec::new(),
        Err(e) => e.0.iter().map(|m| m.key.clone()).collect(),
    };
    let redirect = match &error.url_redirect {
        Ok(_) => Vec::new(),
        Err(e) => e.0.iter().map(|m| m.key.clone()).collect(),
    };
    (path, redirect)
}

#[test]
fn kebab_case_paths() {
    for ok in ["a", "abc", "a-b", "test-url-path", "a1-2b-c3", "0"] {
        assert!(must_be_kebab_case(ok).is_ok(), "{ok} should be kebab case");
    }
    for bad in ["", "-a", "a-", "a--b", "A", "a_b", "a b", "é"] {
        let err = must_be_kebab_case(bad).err().unwrap();
        assert_eq!(err.0.len(), 1);
        assert_eq!(err.0[0].text, "Must be kebab case");
        assert_eq!(err.0[0].key, "validate-must-be-kebab-case");
    }
}

#[test]
fn url_form_reports_each_broken_rule() {
    let mut form = AddEditUrlForm::default();
    form.url_path = "   ".to_string();
    form.url_redirect = "not a url".to_string();
    let (path, redirect) = message_keys(&form);
    assert_eq!(path, vec!["validate-cannot-be-empty".to_string()]);
    assert_eq!(redirect, vec!["validate-invalid-url".to_string()]);

    form.url_path = "Not_Kebab".to_string();
    form.url_redirect = "".to_string();
    let (path, redirect) = message_keys(&form);
    assert_eq!(path, vec!["validate-must-be-kebab-case".to_string()]);
    assert_eq!(redirect, vec!["validate-cannot-be-empty".to_string()]);

    form.url_path = "a".repeat(101);
    form.url_redirect = "https://example.org".to_string();
    let (path, redirect) = message_keys(&form);
    assert_eq!(path, vec!["validate-max-length".to_string()]);
    assert!(redirect.is_empty());
}

#[test]
fn url_form_trims_its_fields() {
    let mut form = AddEditUrlForm::default();
    form.url_path = "  my-link \n".to_string();
    form.url_redirect = "\thttp://hello.com ".to_string();
    let validated = form.as_validated().0.unwrap();
    assert_eq!(validated.url_path.as_str(), "my-link");
    assert_eq!(validated.url_redirect.as_str(), "http://hello.com");
    assert_eq!(trim("\u{3000} x y \u{a0}"), "x y");
}

#[test]
fn password_rules_messages() {
    let err = Password::parse(Some("weak")).err().unwrap();
    let keys: Vec<&str> = err.0.iter().map(|m| m.key.as_str()).collect();
    assert_eq!(
        keys,
        vec![
            "validate-min-length",
            "validate-must-have-special-chars",
            "validate-must-have-uppercase-and-lowercase",
            "validate-must-have-digit",
        ]
    );
    assert_eq!(err.0[0].text, "Must be at least 8 characters");
    let err = Password::parse(None).err().unwrap();
    assert_eq!(err.0.len(), 1);
    assert_eq!(err.0[0].text, "Cannot be empty");
    let ok = Password::parse(Some("Strong@password1")).unwrap();
    assert!(ok.parse_confirm("Strong@password1").is_ok());
    let mismatch = ok.parse_confirm("Strong@password2").err().unwrap();
    assert_eq!(mismatch.0[0].text, "Password does not match");
}

#[test]
fn account_forms() {
    let mut form = AddUserForm::default();
    form.username = " visitor ".to_string();
    form.password = "Strong@password1".to_string();
    form.password_confirm = "Strong@password1".to_string();
    let err = form.as_validated(false, true).0.err().unwrap();
    assert_eq!(err.username.err().unwrap().0[0].text, "Username is reserved");
    assert!(err.password.is_ok());

    form.username = "alice".to_string();
    let err = form.as_validated(true, true).0.err().unwrap();
    assert_eq!(err.username.err().unwrap().0[0].text, "Already taken");

    let err = form.as_validated(false, false).0.err().unwrap();
    assert_eq!(err.password.err().unwrap().0[0].text, "Password entropy score must be over 60");
    assert!(err.password_confirm.err().unwrap().0.is_empty());

    let ok = form.as_validated(false, true).0.unwrap();
    assert_eq!(ok.username.as_str(), "alice");
    assert_eq!(ok.role, Role::User);

    let mut edit = EditUserForm::default();
    edit.username = "alice".to_string();
    edit.role = Role::Root;
    let ok = edit.as_validated(true, "alice").0.unwrap();
    assert_eq!(ok.username.as_str(), "alice");
    assert_eq!(ok.role, Role::Root);
    assert!(edit.as_validated(true, "bob").0.is_err());
}

#[test]
fn role_names_read_back() {
    for role in Role::all_roles() {
        assert_eq!(Role::try_from(role.as_stringed().as_str()), Ok(role));
    }
    assert_eq!(Role::try_from("visitor"), Err(()));
    assert_eq!(Role::from_stored("something"), Role::User);
    let options = Role::Root.html_option();
    assert_eq!(options, vec![("root".to_string(), true), ("user".to_string(), false)]);
}

#[test]
fn role_guards() {
    assert_eq!(must_be_user().call(Role::Visitor), Err(STATUS_UNAUTHORIZED));
    assert_eq!(must_be_user().call(Role::User), Ok(()));
    assert_eq!(must_be_root().call(Role::User), Err(STATUS_UNAUTHORIZED));
    assert_eq!(must_be_root().call(Role::Root), Ok(()));
    assert_eq!(visitor_only(Role::User), Err(STATUS_FORBIDDEN));
    assert_eq!(visitor_only(Role::Visitor), Ok(()));
    assert_eq!(visitor_redirect(Role::Visitor), Err("/user-login"));
    assert_eq!(visitor_redirect(Role::Root), Ok(()));
}

#[test]
fn short_url_access_and_rows() {
    assert_eq!(url_access(&viewer(2, Role::User), 3), Err(STATUS_FORBIDDEN));
    assert_eq!(url_access(&viewer(3, Role::User), 3), Ok(()));
    assert_eq!(url_access(&viewer(2, Role::Root), 3), Ok(()));

    let urls = vec![url(7, 3), url(8, 2), url(-9, 4)];
    let rows = url_list_rows(&viewer(2, Role::User), &urls);
    assert_eq!(rows.len(), 3);
    assert!(rows[0].actions.is_none());
    let actions = rows[1].actions.as_ref().unwrap();
    assert_eq!(actions.edit_href, "/shorty/edit/8");
    assert_eq!(actions.delete_href, "/shorty/delete/8");
    assert_eq!(rows[1].created_at, "1970-01-01T00:00:00+00:00");
    let rows = url_list_rows(&viewer(1, Role::Root), &urls);
    assert!(rows.iter().all(|r| r.actions.is_some()));
    assert_eq!(rows[2].actions.as_ref().unwrap().edit_href, "/shorty/edit/-9");
    assert_eq!(shorty_list_location(), "/shorty/");
}

#[test]
fn timestamps_are_rfc3339_in_utc() {
    assert_eq!(timestamp_text(Timestamp { secs: 0, nanos: 0 }), "1970-01-01T00:00:00+00:00");
    assert_eq!(timestamp_text(Timestamp { secs: 1431648000, nanos: 0 }), "2015-05-15T00:00:00+00:00");
    assert_eq!(timestamp_text(Timestamp { secs: 0, nanos: 500_000_000 }), "1970-01-01T00:00:00.500+00:00");
    assert_eq!(timestamp_text(Timestamp { secs: i64::MAX, nanos: 0 }), "");
    let rows = stack_list_rows(&vec![ListStackModel {
        id: 4,
        error_name: "n".to_string(),
        error_summary: "s".to_string(),
        reported_at: Timestamp { secs: 86400, nanos: 0 },
    }]);
    assert_eq!(rows[0].reported_at, "1970-01-02T00:00:00+00:00");
    assert_eq!(rows[0].view_href, "/stack/view/4");
}

#[test]
fn account_rows_offer_actions_to_root_only() {
    let users = vec![ListUser { id: 5, username: "alice".to_string(), role: Role::User }];
    let rows = user_list_rows(Role::User, &users);
    assert!(rows[0].actions.is_none());
    assert_eq!(rows[0].role, "user");
    let rows = user_list_rows(Role::Root, &users);
    let actions = rows[0].actions.as_ref().unwrap();
    assert_eq!(actions.edit_href, "/user/edit/5");
    assert_eq!(actions.password_href, "/user/edit-password/5");
    assert_eq!(actions.sign_out_href, "/user/sign-out/5");
}

#[test]
fn flash_messages() {
    let l = Locale {
        entries: vec![("shorty-route-flash-success-add-url".to_string(), "URL ajoutée".to_string())],
    };
    assert_eq!(url_saved_flash(&l, false), Flash::Success { msg: "URL ajoutée".to_string() });
    assert_eq!(url_saved_flash(&l, true), Flash::Success { msg: "Successfully edited URL".to_string() });
    assert_eq!(sign_out_flash(false, None, 3), Flash::Error { msg: "Failed to sign out user id: 3".to_string() });
    assert_eq!(sign_out_flash(true, None, 3), Flash::Success { msg: "Successfully signed out user id: 3".to_string() });
    assert_eq!(user_added_flash(None, "bob"), Flash::Success { msg: "Successfully created user: bob".to_string() });
    assert_eq!(short_route_confirm_message(None, 42), "Are you sure you want to delete '42'?");
    assert_eq!(short_route_confirm_message(None, -1), "Are you sure you want to delete '-1'?");
    assert_eq!(home_page_texts(&english()), ("Welcome".to_string(), "Check out the navigation above".to_string()));
}

#[test]
fn login_outcomes() {
    let ok = login_post_outcome(&english(), Some("token".to_string()));
    assert_eq!(ok.location, "/");
    assert_eq!(ok.token, Some("token".to_string()));
    assert_eq!(ok.flash, Flash::Success { msg: "Login success".to_string() });
    let failed = login_post_outcome(&english(), None);
    assert_eq!(failed.location, "/user-login/");
    assert_eq!(failed.token, None);
    assert_eq!(failed.flash, Flash::Error { msg: "Login failed".to_string() });
}

#[test]
fn failures_answer_with_their_status() {
    assert_eq!(Failure::new(()).response_status(), STATUS_INTERNAL_SERVER_ERROR);
    assert_eq!(Failure::with_status((), 404).response_status(), 404);
}

fn page_for(role: Role, htmx: bool) -> PageLayout {
    let pointer = UserPointer(Arc::new(viewer(1, role)));
    let mut builder = ContextHtmlBuilder::new(None, english(), pointer, htmx, None);
    builder.attach_title("Shorty");
    builder.set_current_tag("id-tag-shorty");
    builder.attach_flash(Flash::Success { msg: "done".to_string() });
    builder.build()
}

#[test]
fn navigation_depends_on_role() {
    for (role, count) in [(Role::Visitor, 1), (Role::User, 2), (Role::Root, 3)] {
        match page_for(role, false) {
            PageLayout::Full { title, navigation, user_bar, flash, .. } => {
                assert_eq!(title, "Shorty");
                assert_eq!(navigation.len(), count);
                assert_eq!(navigation[0].tag, "id-tag-home");
                assert!(navigation.iter().all(|e| !e.active));
                assert_eq!(flash, Some(Flash::Success { msg: "done".to_string() }));
                match user_bar {
                    UserBar::Visitor { login_url, .. } => {
                        assert_eq!(role, Role::Visitor);
                        assert_eq!(login_url, "/user-login/");
                    }
                    UserBar::SignedIn { logout_url, .. } => {
                        assert_ne!(role, Role::Visitor);
                        assert_eq!(logout_url, "/user-login/logout");
                    }
                }
            }
            PageLayout::Partial { .. } => panic!("a full page was expected"),
        }
    }
    match page_for(Role::User, true) {
        PageLayout::Partial { current_tag, .. } => assert_eq!(current_tag, "id-tag-shorty"),
        PageLayout::Full { .. } => panic!("a partial page was expected"),
    }
    assert_eq!(main_css_name(false), "/assets/css/main.min.css");
}

#[test]
fn locale_files_are_grouped_by_directory() {
    let files = vec![
        ("en-GB/main.ftl".to_string(), "a = A".to_string()),
        ("fr/main.ftl".to_string(), "a = Á".to_string()),
        ("en-GB/more.ftl".to_string(), "b = B".to_string()),
    ];
    let map = AssetLocale::locale_map(&files);
    assert_eq!(
        map,
        vec![
            ("en-GB".to_string(), "a = A\nb = B\n".to_string()),
            ("fr".to_string(), "a = Á\n".to_string()),
        ]
    );
    let resources = build_locale_resources(&map);
    assert_eq!(resources.len(), 3);
    assert_eq!(resources[2], ("en-US".to_string(), "a = A\nb = B\n".to_string()));
    assert_eq!(list_of_alias(), vec![("en-US".to_string(), "en-GB".to_string())]);
    assert_eq!(path_first_segment("de/x.ftl"), "de");
    assert_eq!(js_boot(false), "js/boot.min.js");
}

#[test]
fn form_messages_are_translated_by_key() {
    let l = Locale {
        entries: vec![("validate-cannot-be-empty".to_string(), "Ne peut pas être vide".to_string())],
    };
    let mut form = AddEditUrlForm::default();
    form.url_path = "".to_string();
    form.url_redirect = "nope".to_string();
    let messages = form.as_validated().0.err().unwrap().as_message(&l);
    assert_eq!(messages.url_path, vec!["Ne peut pas être vide".to_string()]);
    assert_eq!(messages.url_redirect, vec!["Invalid URL".to_string()]);
    assert_eq!(l.text("missing"), None);
    assert_eq!(l.text_with_default("missing", "fallback"), "fallback");
}

#[test]
fn page_parts_keep_their_last_write() {
    let pointer = UserPointer(Arc::new(viewer(1, Role::User)));
    let carried = Some(Flash::Error { msg: "carried".to_string() });
    let mut builder = ContextHtmlBuilder::new(carried.clone(), english(), pointer, true, None);
    match builder.build() {
        PageLayout::Partial { title, content, flash, current_tag, footer } => {
            assert_eq!(title, "Untitled");
            assert_eq!(content, "");
            assert_eq!(footer, "");
            assert_eq!(current_tag, "");
            assert_eq!(flash, carried);
        }
        PageLayout::Full { .. } => panic!("a partial page was expected"),
    }
    builder.attach_title("first");
    builder.attach_content("a".to_string());
    builder.set_current_tag("id-tag-user");
    builder.attach_title("second");
    builder.attach_flash(Flash::Success { msg: "one".to_string() });
    builder.attach_footer("f".to_string());
    builder.attach_flash(Flash::Success { msg: "two".to_string() });
    builder.attach_content("b".to_string());
    match builder.build() {
        PageLayout::Partial { title, content, flash, current_tag, footer } => {
            assert_eq!(title, "second");
            assert_eq!(content, "b");
            assert_eq!(footer, "f");
            assert_eq!(current_tag, "id-tag-user");
            assert_eq!(flash, Some(Flash::Success { msg: "two".to_string() }));
        }
        PageLayout::Full { .. } => panic!("a partial page was expected"),
    }
}
