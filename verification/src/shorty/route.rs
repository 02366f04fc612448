use vstd::prelude::*;
use crate::failure::{answered_status, Failure, STATUS_FORBIDDEN, STATUS_INTERNAL_SERVER_ERROR, STATUS_UNPROCESSABLE_ENTITY};
use crate::html::context::Flash;
use crate::shorty::access::url_access;
use crate::shorty::form::{form_path_check, form_redirect_check, AddEditUrlForm, AddEditUrlMessage};
use crate::shorty::model::GetUserIdByUrlIdModel;
use crate::shorty::repository::{AddUrlRedirect, EditUrlRedirect, ShortyRepositoryError};
use crate::shorty::service::{AddUrlService, EditUrlService, EditUrlServiceError};
use crate::locale::translated;
use crate::user::form::strings_view;
use crate::validation::MessageView;
use crate::locale::{text_or, Locale};
use crate::role::{role_below, Role};
use crate::shorty::access::shows_url_actions;
use crate::shorty::rule::is_kebab_case;
use crate::text::trim_spec;
use crate::validation::{grapheme_count, url_accepts};
use crate::shorty::model::ListUrlRedirectModel;
use crate::text::{join2, signed_decimal, with_number};
use crate::timestamp::{timestamp_shown, timestamp_text};
use crate::user::model::UserIdContext;

verus! {

/// Where the short URL pages are mounted.
pub const SHORTY_ROUTE: &'static str = "/shorty";

/// The list of short URLs, where the browser goes after a change.
pub fn shorty_list_location() -> (r: String)
    ensures
        r@ == "/shorty/"@,
{
    proof {
        reveal_strlit("/shorty");
        reveal_strlit("/");
        reveal_strlit("/shorty/");
    }
    let r = join2(SHORTY_ROUTE, "/");
    assert(r@ =~= "/shorty/"@);
    r
}

/// The page that adds a short URL.
pub fn url_add_href() -> (r: String)
    ensures
        r@ == "/shorty/add"@,
{
    proof {
        reveal_strlit("/shorty");
        reveal_strlit("/add");
        reveal_strlit("/shorty/add");
    }
    let r = join2(SHORTY_ROUTE, "/add");
    assert(r@ =~= "/shorty/add"@);
    r
}

/// The page that edits short URL `id`.
pub fn url_edit_href(id: i64) -> (r: String)
    ensures
        r@ == "/shorty/edit/"@ + signed_decimal(id as int),
{
    with_number("/shorty/edit/", id)
}

/// The request that deletes short URL `id`.
pub fn url_delete_href(id: i64) -> (r: String)
    ensures
        r@ == "/shorty/delete/"@ + signed_decimal(id as int),
{
    with_number("/shorty/delete/", id)
}

/// The links a row of the list offers on its short URL.
#[derive(Debug)]
pub struct UrlRowActions {
    pub edit_href: String,
    pub delete_href: String,
}

/// One short URL as the list page shows it.
#[derive(Debug)]
pub struct UrlListRow {
    pub id: i64,
    pub url_path: String,
    pub url_redirect: String,
    pub created_at: String,
    pub username: String,
    /// The edit and delete links, offered only to root and to the creator.
    pub actions: Option<UrlRowActions>,
}

/// `row` shows `url` to `viewer`.
pub open spec fn url_row_shows(row: UrlListRow, url: ListUrlRedirectModel, viewer: UserIdContext) -> bool {
    &&& row.id == url.id
    &&& row.url_path@ == url.url_path@
    &&& row.url_redirect@ == url.url_redirect@
    &&& row.created_at@ == timestamp_shown(url.created_at)
    &&& row.username@ == url.username@
    &&& (row.actions is Some <==> (viewer.role == Role::Root || viewer.id == url.created_by_user_id))
    &&& (row.actions matches Some(a) ==> a.edit_href@ == "/shorty/edit/"@ + signed_decimal(url.id as int)
            && a.delete_href@ == "/shorty/delete/"@ + signed_decimal(url.id as int))
}

/// The row of one short URL.
pub fn url_list_row(viewer: &UserIdContext, url: &ListUrlRedirectModel) -> (r: UrlListRow)
    ensures
        url_row_shows(r, *url, *viewer),
{
    let actions = if shows_url_actions(viewer, url.created_by_user_id) {
        Some(UrlRowActions { edit_href: url_edit_href(url.id), delete_href: url_delete_href(url.id) })
    } else {
        None
    };
    UrlListRow {
        id: url.id,
        url_path: url.url_path.clone(),
        url_redirect: url.url_redirect.clone(),
        created_at: timestamp_text(url.created_at),
        username: url.username.clone(),
        actions,
    }
}

/// The rows of the list of short URLs, one per URL and in the same order.
pub fn url_list_rows(viewer: &UserIdContext, urls: &Vec<ListUrlRedirectModel>) -> (r: Vec<UrlListRow>)
    ensures
        r@.len() == urls@.len(),
        forall|i: int| 0 <= i < urls@.len() ==> url_row_shows(#[trigger] r@[i], urls@[i], *viewer),
{
    let mut rows: Vec<UrlListRow> = Vec::new();
    let mut i: usize = 0;
    while i < urls.len()
        invariant
            i <= urls@.len(),
            rows@.len() == i,
            forall|k: int| 0 <= k < i ==> url_row_shows(#[trigger] rows@[k], urls@[k], *viewer),
        decreases urls@.len() - i,
    {
        let row = url_list_row(viewer, &urls[i]);
        rows.push(row);
        i = i + 1;
    }
    rows
}

/// The list offers the edit and delete links on a short URL exactly when the
/// access check of the edit and delete requests lets that viewer through.
pub proof fn lemma_listed_actions_match_access(row: UrlListRow, url: ListUrlRedirectModel, viewer: UserIdContext)
    requires
        url_row_shows(row, url, viewer),
    ensures
        row.actions is Some <==> !(role_below(viewer.role, Role::Root) && viewer.id != url.created_by_user_id),
{
}

/// The message shown after a short URL was saved.
pub fn url_saved_flash(l: &Locale, is_edit: bool) -> (r: Flash)
    ensures
        is_edit ==> (r matches Flash::Success { msg }
            && msg@ == text_or(l.entries@, "shorty-route-flash-success-edit-url"@, "Successfully edited URL"@)),
        !is_edit ==> (r matches Flash::Success { msg }
            && msg@ == text_or(l.entries@, "shorty-route-flash-success-add-url"@, "Successfully added URL"@)),
{
    if is_edit {
        Flash::Success { msg: l.text_with_default("shorty-route-flash-success-edit-url", "Successfully edited URL") }
    } else {
        Flash::Success { msg: l.text_with_default("shorty-route-flash-success-add-url", "Successfully added URL") }
    }
}

/// The message shown after a short URL was deleted.
pub fn url_deleted_flash(l: &Locale) -> (r: Flash)
    ensures
        r matches Flash::Success { msg }
            && msg@ == text_or(l.entries@, "shorty-route-flash-success-deleted-url"@, "Successfully deleted URL"@),
{
    Flash::Success { msg: l.text_with_default("shorty-route-flash-success-deleted-url", "Successfully deleted URL") }
}

/// Where a submission of the add or edit form of a short URL stands.
#[derive(Debug, Clone, Copy, PartialEq, Eq, Structural)]
pub enum UrlPostState {
    /// The request has just arrived.
    Start,
    /// Waiting for the owner of the edited short URL.
    AwaitOwner,
    /// Waiting for the verdict on the form's CSRF token.
    AwaitCsrf,
    /// Waiting for the outcome of storing the short URL.
    AwaitSave,
    /// The request has been answered.
    Done,
}

/// What the outside world answered to the last action.
#[derive(Debug)]
pub enum UrlPostEvent {
    /// The request arrived.
    Begin,
    /// The owner lookup of the edited short URL, through `EditUrlService::fetch_user_id_from_url_id`.
    Owner(Result<GetUserIdByUrlIdModel, Failure<EditUrlServiceError>>),
    /// Whether the form's CSRF token matches the session's.
    Csrf(bool),
    /// The outcome of storing the short URL.
    Saved(Result<(), Failure<ShortyRepositoryError>>),
}

/// What to do next with a submission.
#[derive(Debug)]
pub enum UrlPostAction {
    /// Look up who created short URL `id`.
    FetchOwner(i64),
    /// Check the form's CSRF token.
    VerifyCsrf,
    /// Store the new path and target of an existing short URL.
    SaveEdit(EditUrlRedirect),
    /// Store a new short URL.
    SaveAdd(AddUrlRedirect),
    /// Show the form again, with this status and its fields' messages.
    ShowInvalid { status: u16, messages: AddEditUrlMessage },
    /// Flash this message and send the browser to `location`.
    Redirect { flash: Flash, location: String },
    /// Answer with this HTTP status.
    Respond(u16),
}

/// The text a check accepted, or nothing.
pub open spec fn accepted_text(c: Result<Seq<char>, Seq<MessageView>>) -> Seq<char> {
    match c {
        Ok(t) => t,
        Err(_) => Seq::empty(),
    }
}

/// The messages a check reported, or none.
pub open spec fn reported_messages(c: Result<Seq<char>, Seq<MessageView>>) -> Seq<MessageView> {
    match c {
        Ok(_) => Seq::empty(),
        Err(m) => m,
    }
}

/// Every field of the short URL form passes its rules.
pub open spec fn url_form_valid(form: AddEditUrlForm) -> bool {
    form_path_check(form) is Ok && form_redirect_check(form) is Ok
}

/// The text of the message flashed after a short URL was saved.
pub open spec fn saved_flash_text(entries: Seq<(String, String)>, is_edit: bool) -> Seq<char> {
    if is_edit {
        text_or(entries, "shorty-route-flash-success-edit-url"@, "Successfully edited URL"@)
    } else {
        text_or(entries, "shorty-route-flash-success-add-url"@, "Successfully added URL"@)
    }
}

/// The step of a submission of the short URL form (`url_id` is the edited
/// short URL, `None` when adding): the owner check comes first when editing,
/// then the CSRF check, then the form's rules, then storing; each refusal
/// ends the submission before the later steps.
pub open spec fn url_post_next(
    url_id: Option<i64>,
    viewer: UserIdContext,
    form: AddEditUrlForm,
    entries: Seq<(String, String)>,
    state: UrlPostState,
    event: UrlPostEvent,
    r: (UrlPostState, UrlPostAction),
) -> bool {
    match (state, event) {
        (UrlPostState::Start, UrlPostEvent::Begin) => match url_id {
            Some(id) => r == (UrlPostState::AwaitOwner, UrlPostAction::FetchOwner(id)),
            None => r == (UrlPostState::AwaitCsrf, UrlPostAction::VerifyCsrf),
        },
        (UrlPostState::AwaitOwner, UrlPostEvent::Owner(Err(f))) =>
            r == (UrlPostState::Done, UrlPostAction::Respond(answered_status(f))),
        (UrlPostState::AwaitOwner, UrlPostEvent::Owner(Ok(m))) =>
            if role_below(viewer.role, Role::Root) && viewer.id != m.created_by_user_id {
                r == (UrlPostState::Done, UrlPostAction::Respond(STATUS_FORBIDDEN))
            } else {
                r == (UrlPostState::AwaitCsrf, UrlPostAction::VerifyCsrf)
            },
        (UrlPostState::AwaitCsrf, UrlPostEvent::Csrf(ok)) =>
            if !ok {
                r == (UrlPostState::Done, UrlPostAction::Respond(STATUS_FORBIDDEN))
            } else if url_form_valid(form) {
                r.0 == UrlPostState::AwaitSave && (match url_id {
                    Some(id) => r.1 matches UrlPostAction::SaveEdit(rec) && rec.id == id
                        && rec.url_path@ == accepted_text(form_path_check(form))
                        && rec.url_redirect@ == accepted_text(form_redirect_check(form)),
                    None => r.1 matches UrlPostAction::SaveAdd(rec) && rec.user_id == viewer.id
                        && rec.url_path@ == accepted_text(form_path_check(form))
                        && rec.url_redirect@ == accepted_text(form_redirect_check(form)),
                })
            } else {
                r.0 == UrlPostState::Done && (r.1 matches UrlPostAction::ShowInvalid { status, messages }
                    && status == STATUS_UNPROCESSABLE_ENTITY
                    && strings_view(messages.url_path@) == translated(entries, reported_messages(form_path_check(form)))
                    && strings_view(messages.url_redirect@) == translated(entries, reported_messages(form_redirect_check(form))))
            },
        (UrlPostState::AwaitSave, UrlPostEvent::Saved(Ok(_))) =>
            r.0 == UrlPostState::Done && (r.1 matches UrlPostAction::Redirect { flash, location }
                && location@ == "/shorty/"@
                && (flash matches Flash::Success { msg } && msg@ == saved_flash_text(entries, url_id is Some))),
        (UrlPostState::AwaitSave, UrlPostEvent::Saved(Err(f))) =>
            r == (UrlPostState::Done, UrlPostAction::Respond(answered_status(f))),
        _ => r == (UrlPostState::Done, UrlPostAction::Respond(STATUS_INTERNAL_SERVER_ERROR)),
    }
}

/// Decides the next step of a submission of the short URL form, given its
/// state and what the outside world answered. A CSRF token that does not
/// match is refused with 403; an event that does not fit the state is
/// answered with 500.
pub fn url_post_step(
    url_id: Option<i64>,
    viewer: &UserIdContext,
    form: &AddEditUrlForm,
    l: &Locale,
    state: UrlPostState,
    event: UrlPostEvent,
) -> (r: (UrlPostState, UrlPostAction))
    ensures
        url_post_next(url_id, *viewer, *form, l.entries@, state, event, r),
{
    match (state, event) {
        (UrlPostState::Start, UrlPostEvent::Begin) => match url_id {
            Some(id) => (UrlPostState::AwaitOwner, UrlPostAction::FetchOwner(id)),
            None => (UrlPostState::AwaitCsrf, UrlPostAction::VerifyCsrf),
        },
        (UrlPostState::AwaitOwner, UrlPostEvent::Owner(Err(f))) =>
            (UrlPostState::Done, UrlPostAction::Respond(f.response_status())),
        (UrlPostState::AwaitOwner, UrlPostEvent::Owner(Ok(m))) => match url_access(viewer, m.created_by_user_id) {
            Err(status) => (UrlPostState::Done, UrlPostAction::Respond(status)),
            Ok(()) => (UrlPostState::AwaitCsrf, UrlPostAction::VerifyCsrf),
        },
        (UrlPostState::AwaitCsrf, UrlPostEvent::Csrf(ok)) => {
            if !ok {
                return (UrlPostState::Done, UrlPostAction::Respond(STATUS_FORBIDDEN));
            }
            match form.as_validated().0 {
                Ok(v) => match url_id {
                    Some(id) => (UrlPostState::AwaitSave, UrlPostAction::SaveEdit(EditUrlService::new().edit_url_record(&v, id))),
                    None => (UrlPostState::AwaitSave, UrlPostAction::SaveAdd(AddUrlService::new().add_url_record(&v, viewer.id))),
                },
                Err(e) => {
                    let messages = e.as_message(l);
                    proof {
                        assert(strings_view(messages.url_path@) =~= messages.url_path@.map_values(|s: String| s@));
                        assert(strings_view(messages.url_redirect@) =~= messages.url_redirect@.map_values(|s: String| s@));
                    }
                    (UrlPostState::Done, UrlPostAction::ShowInvalid { status: STATUS_UNPROCESSABLE_ENTITY, messages })
                },
            }
        },
        (UrlPostState::AwaitSave, UrlPostEvent::Saved(Ok(()))) => (
            UrlPostState::Done,
            UrlPostAction::Redirect { flash: url_saved_flash(l, url_id.is_some()), location: shorty_list_location() },
        ),
        (UrlPostState::AwaitSave, UrlPostEvent::Saved(Err(f))) =>
            (UrlPostState::Done, UrlPostAction::Respond(f.response_status())),
        _ => (UrlPostState::Done, UrlPostAction::Respond(STATUS_INTERNAL_SERVER_ERROR)),
    }
}

/// Editing a short URL, once its creator is known: a root user, or the user
/// who created it, goes on to the CSRF check; anyone else is refused with 403
/// before anything else happens.
pub proof fn lemma_url_edit_owner_gate(
    url_id: Option<i64>,
    viewer: UserIdContext,
    form: AddEditUrlForm,
    entries: Seq<(String, String)>,
    m: GetUserIdByUrlIdModel,
    r: (UrlPostState, UrlPostAction),
)
    requires
        url_post_next(url_id, viewer, form, entries, UrlPostState::AwaitOwner, UrlPostEvent::Owner(Ok(m)), r),
    ensures
        (viewer.role == Role::Root || viewer.id == m.created_by_user_id) ==> r.0 == UrlPostState::AwaitCsrf
            && r.1 is VerifyCsrf,
        !(viewer.role == Role::Root || viewer.id == m.created_by_user_id) ==> r.0 == UrlPostState::Done
            && (r.1 matches UrlPostAction::Respond(s) && s == 403u16),
{
}

/// The list and the edit request agree: a row offers the edit link on a short
/// URL exactly when an edit of that URL by the same viewer passes the creator
/// check.
pub proof fn lemma_listed_edit_link_matches_edit_gate(
    row: UrlListRow,
    url: ListUrlRedirectModel,
    viewer: UserIdContext,
    url_id: Option<i64>,
    form: AddEditUrlForm,
    entries: Seq<(String, String)>,
    m: GetUserIdByUrlIdModel,
    r: (UrlPostState, UrlPostAction),
)
    requires
        url_row_shows(row, url, viewer),
        m.created_by_user_id == url.created_by_user_id,
        url_post_next(url_id, viewer, form, entries, UrlPostState::AwaitOwner, UrlPostEvent::Owner(Ok(m)), r),
    ensures
        row.actions is Some <==> r.0 == UrlPostState::AwaitCsrf,
{
    lemma_url_edit_owner_gate(url_id, viewer, form, entries, m, r);
}

/// A new short URL whose trimmed path is lowercase letters and digits in
/// words joined by single hyphens, 1 to 100 characters long, and whose trimmed
/// target is a URL that parses, is stored once the CSRF check passes: with
/// that path, that target and the submitting user as its creator.
pub proof fn lemma_url_add_accepts_kebab_paths(
    viewer: UserIdContext,
    form: AddEditUrlForm,
    entries: Seq<(String, String)>,
    r: (UrlPostState, UrlPostAction),
)
    requires
        ({
            let p = trim_spec(form.url_path@);
            &&& p.len() > 0
            &&& forall|i: int| 0 <= i < p.len() ==>
                ('a' <= #[trigger] p[i] && p[i] <= 'z') || ('0' <= p[i] && p[i] <= '9') || p[i] == '-'
            &&& p[0] != '-'
            &&& p[p.len() - 1] != '-'
            &&& forall|i: int| 0 <= i < p.len() - 1 ==> !(#[trigger] p[i] == '-' && p[i + 1] == '-')
            &&& 1 <= grapheme_count(p) <= 100
        }),
        trim_spec(form.url_redirect@).len() > 0,
        url_accepts(trim_spec(form.url_redirect@)),
        url_post_next(None, viewer, form, entries, UrlPostState::AwaitCsrf, UrlPostEvent::Csrf(true), r),
    ensures
        r.0 == UrlPostState::AwaitSave,
        r.1 matches UrlPostAction::SaveAdd(rec) && rec.url_path@ == trim_spec(form.url_path@)
            && rec.url_redirect@ == trim_spec(form.url_redirect@) && rec.user_id == viewer.id,
{
    let p = trim_spec(form.url_path@);
    assert(is_kebab_case(p));
}

} // verus!
