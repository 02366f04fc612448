use vstd::prelude::*;
use crate::html::navigation::{item_view, navigation_spec, NavigationItem};
use crate::locale::{text_or, Locale};
use crate::role::{role_below, role_less, role_level, Role};
use crate::text::{join2, owned, str_eq};
use crate::user::pointer::UserPointer;
use crate::user::role_check::{LOGIN_ROUTE, USER_ROUTE};

verus! {

/// A one-time message shown at the top of the next page.
#[derive(Debug, PartialEq, Eq)]
pub enum Flash {
    Success { msg: String },
    Error { msg: String },
}

impl Clone for Flash {
    fn clone(&self) -> (r: Flash)
        ensures
            r == *self,
    {
        match self {
            Flash::Success { msg } => Flash::Success { msg: msg.clone() },
            Flash::Error { msg } => Flash::Error { msg: msg.clone() },
        }
    }
}

/// A copy of an optional flash message.
pub fn clone_flash(f: &Option<Flash>) -> (r: Option<Flash>)
    ensures
        r == *f,
{
    match f {
        Some(x) => Some(x.clone()),
        None => None,
    }
}

/// A copy of an optional text.
pub fn clone_text(s: &Option<String>) -> (r: Option<String>)
    ensures
        r == *s,
{
    match s {
        Some(x) => Some(x.clone()),
        None => None,
    }
}

/// The texts of the bar above each page.
#[derive(Debug)]
pub struct TopBuildLocale {
    pub hello: String,
    pub hello_logout: String,
    pub visitor: String,
}

impl TopBuildLocale {
    /// `hello` is the translation of `top-hello` for this username, when the
    /// caller found one.
    pub fn new(locale: &Locale, username: &str, hello: Option<String>) -> (r: TopBuildLocale)
        ensures
            match hello {
                Some(t) => r.hello@ == t@,
                None => r.hello@ == "Hello, "@ + username@,
            },
            r.hello_logout@ == text_or(locale.entries@, "top-hello-logout"@, "Click here to logout"@),
            r.visitor@ == text_or(locale.entries@, "top-visitor"@, "You're a visitor, click here to login"@),
    {
        let hello = match hello {
            Some(t) => t,
            None => join2("Hello, ", username),
        };
        TopBuildLocale {
            hello,
            hello_logout: locale.text_with_default("top-hello-logout", "Click here to logout"),
            visitor: locale.text_with_default("top-visitor", "You're a visitor, click here to login"),
        }
    }
}

/// An entry of the side navigation as shown to one user.
#[derive(Debug)]
pub struct NavigationEntry {
    pub tag: String,
    pub url: String,
    pub label: String,
    pub icon: String,
    pub active: bool,
}

/// The content of a shown navigation entry: tag, url, label, icon, active.
pub open spec fn entry_view(e: NavigationEntry) -> (Seq<char>, Seq<char>, Seq<char>, Seq<char>, bool) {
    (e.tag@, e.url@, e.label@, e.icon@, e.active)
}

/// The navigation shown to a user of role `role` on the page tagged `tag`,
/// from the first `n` entries: each entry the user ranks for, labelled in the
/// user's language and marked active when it is the page's entry.
pub open spec fn shown_navigation(
    items: Seq<(Seq<char>, Seq<char>, Seq<char>, Seq<char>, Role, Seq<char>)>,
    n: int,
    role: Role,
    tag: Seq<char>,
    entries: Seq<(String, String)>,
) -> Seq<(Seq<char>, Seq<char>, Seq<char>, Seq<char>, bool)>
    decreases n,
{
    if n <= 0 {
        Seq::empty()
    } else {
        let it = items[n - 1];
        shown_navigation(items, n - 1, role, tag, entries) + if role_below(role, it.4) {
            Seq::empty()
        } else {
            seq![(it.2, it.1, text_or(entries, it.3, it.0), it.5, it.2 == tag)]
        }
    }
}

/// The bar above a page: links for a signed-in user, or the login link.
#[derive(Debug)]
pub enum UserBar {
    SignedIn { hello: String, logout_title: String, user_url: String, logout_url: String },
    Visitor { login_text: String, login_url: String },
}

/// What a page is made of. A request made by htmx gets only the parts that
/// replace the current page's; any other gets the whole page.
#[derive(Debug)]
pub enum PageLayout {
    Partial { title: String, content: String, flash: Option<Flash>, current_tag: String, footer: String },
    Full {
        title: String,
        content: String,
        head: String,
        footer: String,
        flash: Option<Flash>,
        navigation: Vec<NavigationEntry>,
        user_bar: UserBar,
    },
}

/// The parts of a page attached so far.
#[derive(Debug)]
pub struct ContextHtmlCellData {
    pub title: Option<String>,
    pub content: Option<String>,
    pub head: Option<String>,
    pub footer: Option<String>,
    pub flash: Option<Flash>,
    pub current_tag: String,
}

/// Builds the page of one request, for the user who made it.
#[derive(Debug)]
pub struct ContextHtmlBuilder {
    pub flash: Option<Flash>,
    pub user_id_context: UserPointer,
    pub htmx_request: bool,
    pub hello: Option<String>,
    pub data: ContextHtmlCellData,
    pub locale: Locale,
}

/// The text, or the empty text when there is none.
pub open spec fn text_or_empty(s: Option<String>) -> Seq<char> {
    match s {
        Some(t) => t@,
        None => Seq::empty(),
    }
}

/// The content of the parts attached to a page so far.
pub struct PageParts {
    pub title: Option<Seq<char>>,
    pub content: Option<Seq<char>>,
    pub head: Option<Seq<char>>,
    pub footer: Option<Seq<char>>,
    pub flash: Option<Flash>,
    pub current_tag: Seq<char>,
}

/// One call that attaches a part of a page.
pub enum PageWrite {
    Title(Seq<char>),
    Content(Seq<char>),
    Head(Seq<char>),
    Footer(Seq<char>),
    Flash(Flash),
    CurrentTag(Seq<char>),
}

/// The content of an optional text.
pub open spec fn opt_string_view(s: Option<String>) -> Option<Seq<char>> {
    match s {
        Some(t) => Some(t@),
        None => None,
    }
}

/// The parts of a fresh page: nothing attached, no page tag.
pub open spec fn fresh_parts() -> PageParts {
    PageParts { title: None, content: None, head: None, footer: None, flash: None, current_tag: Seq::empty() }
}

/// The parts after one write: the written part replaced, the others kept.
pub open spec fn after_write(p: PageParts, w: PageWrite) -> PageParts {
    match w {
        PageWrite::Title(t) => PageParts { title: Some(t), ..p },
        PageWrite::Content(t) => PageParts { content: Some(t), ..p },
        PageWrite::Head(t) => PageParts { head: Some(t), ..p },
        PageWrite::Footer(t) => PageParts { footer: Some(t), ..p },
        PageWrite::Flash(f) => PageParts { flash: Some(f), ..p },
        PageWrite::CurrentTag(t) => PageParts { current_tag: t, ..p },
    }
}

/// The parts after a sequence of writes, in order.
pub open spec fn after_writes(p: PageParts, ws: Seq<PageWrite>) -> PageParts
    decreases ws.len(),
{
    if ws.len() == 0 {
        p
    } else {
        after_write(after_writes(p, ws.drop_last()), ws.last())
    }
}

/// The last title written, if any.
pub open spec fn last_title(ws: Seq<PageWrite>) -> Option<Seq<char>>
    decreases ws.len(),
{
    if ws.len() == 0 {
        None
    } else {
        match ws.last() {
            PageWrite::Title(t) => Some(t),
            _ => last_title(ws.drop_last()),
        }
    }
}

/// The last content written, if any.
pub open spec fn last_content(ws: Seq<PageWrite>) -> Option<Seq<char>>
    decreases ws.len(),
{
    if ws.len() == 0 {
        None
    } else {
        match ws.last() {
            PageWrite::Content(t) => Some(t),
            _ => last_content(ws.drop_last()),
        }
    }
}

/// The last head written, if any.
pub open spec fn last_head(ws: Seq<PageWrite>) -> Option<Seq<char>>
    decreases ws.len(),
{
    if ws.len() == 0 {
        None
    } else {
        match ws.last() {
            PageWrite::Head(t) => Some(t),
            _ => last_head(ws.drop_last()),
        }
    }
}

/// The last footer written, if any.
pub open spec fn last_footer(ws: Seq<PageWrite>) -> Option<Seq<char>>
    decreases ws.len(),
{
    if ws.len() == 0 {
        None
    } else {
        match ws.last() {
            PageWrite::Footer(t) => Some(t),
            _ => last_footer(ws.drop_last()),
        }
    }
}

/// The last flash written, if any.
pub open spec fn last_flash(ws: Seq<PageWrite>) -> Option<Flash>
    decreases ws.len(),
{
    if ws.len() == 0 {
        None
    } else {
        match ws.last() {
            PageWrite::Flash(f) => Some(f),
            _ => last_flash(ws.drop_last()),
        }
    }
}

/// The last page tag written, if any.
pub open spec fn last_tag(ws: Seq<PageWrite>) -> Option<Seq<char>>
    decreases ws.len(),
{
    if ws.len() == 0 {
        None
    } else {
        match ws.last() {
            PageWrite::CurrentTag(t) => Some(t),
            _ => last_tag(ws.drop_last()),
        }
    }
}

/// An optional value, or a fallback when absent.
pub open spec fn or_else<T>(o: Option<T>, fallback: T) -> T {
    match o {
        Some(v) => v,
        None => fallback,
    }
}

/// Each part of a page holds what the last write to it wrote; parts never
/// written keep what they held before.
pub proof fn lemma_last_write_wins(p: PageParts, ws: Seq<PageWrite>)
    ensures
        after_writes(p, ws).title == (match last_title(ws) { Some(t) => Some(t), None => p.title }),
        after_writes(p, ws).content == (match last_content(ws) { Some(t) => Some(t), None => p.content }),
        after_writes(p, ws).head == (match last_head(ws) { Some(t) => Some(t), None => p.head }),
        after_writes(p, ws).footer == (match last_footer(ws) { Some(t) => Some(t), None => p.footer }),
        after_writes(p, ws).flash == (match last_flash(ws) { Some(f) => Some(f), None => p.flash }),
        after_writes(p, ws).current_tag == or_else(last_tag(ws), p.current_tag),
    decreases ws.len(),
{
    if ws.len() > 0 {
        lemma_last_write_wins(p, ws.drop_last());
    }
}

impl ContextHtmlBuilder {
    /// The content of the parts attached so far.
    pub open spec fn parts(&self) -> PageParts {
        PageParts {
            title: opt_string_view(self.data.title),
            content: opt_string_view(self.data.content),
            head: opt_string_view(self.data.head),
            footer: opt_string_view(self.data.footer),
            flash: self.data.flash,
            current_tag: self.data.current_tag@,
        }
    }

    /// A builder for a request that carried `flash`, made by the user behind
    /// `user_id_context`, by htmx or not; `hello` is the translation of
    /// `top-hello` for the user's name, when the caller found one.
    pub fn new(
        flash: Option<Flash>,
        locale: Locale,
        user_id_context: UserPointer,
        htmx_request: bool,
        hello: Option<String>,
    ) -> (r: ContextHtmlBuilder)
        ensures
            r.flash == flash,
            r.locale == locale,
            r.user_id_context == user_id_context,
            r.htmx_request == htmx_request,
            r.hello == hello,
            r.data.title is None && r.data.content is None && r.data.head is None,
            r.data.footer is None && r.data.flash is None && r.data.current_tag@.len() == 0,
            r.parts() == fresh_parts(),
    {
        ContextHtmlBuilder {
            flash,
            user_id_context,
            htmx_request,
            hello,
            data: ContextHtmlCellData {
                title: None,
                content: None,
                head: None,
                footer: None,
                flash: None,
                current_tag: String::new(),
            },
            locale,
        }
    }

    pub fn attach_title(&mut self, title: &str)
        ensures
            final(self).parts() == after_write(old(self).parts(), PageWrite::Title(title@)),
            final(self).data.title matches Some(t) && t@ == title@,
            final(self).data.content == old(self).data.content,
            final(self).data.head == old(self).data.head,
            final(self).data.footer == old(self).data.footer,
            final(self).data.flash == old(self).data.flash,
            final(self).data.current_tag == old(self).data.current_tag,
            final(self).flash == old(self).flash,
            final(self).user_id_context == old(self).user_id_context,
            final(self).htmx_request == old(self).htmx_request,
            final(self).hello == old(self).hello,
            final(self).locale == old(self).locale,
    {
        self.data.title = Some(owned(title));
    }

    pub fn attach_content(&mut self, content: String)
        ensures
            final(self).parts() == after_write(old(self).parts(), PageWrite::Content(content@)),
            final(self).data.content == Some(content),
            final(self).data.title == old(self).data.title,
            final(self).data.head == old(self).data.head,
            final(self).data.footer == old(self).data.footer,
            final(self).data.flash == old(self).data.flash,
            final(self).data.current_tag == old(self).data.current_tag,
            final(self).flash == old(self).flash,
            final(self).user_id_context == old(self).user_id_context,
            final(self).htmx_request == old(self).htmx_request,
            final(self).hello == old(self).hello,
            final(self).locale == old(self).locale,
    {
        self.data.content = Some(content);
    }

    pub fn attach_head(&mut self, head: String)
        ensures
            final(self).parts() == after_write(old(self).parts(), PageWrite::Head(head@)),
            final(self).data.head == Some(head),
            final(self).data.title == old(self).data.title,
            final(self).data.content == old(self).data.content,
            final(self).data.footer == old(self).data.footer,
            final(self).data.flash == old(self).data.flash,
            final(self).data.current_tag == old(self).data.current_tag,
            final(self).flash == old(self).flash,
            final(self).user_id_context == old(self).user_id_context,
            final(self).htmx_request == old(self).htmx_request,
            final(self).hello == old(self).hello,
            final(self).locale == old(self).locale,
    {
        self.data.head = Some(head);
    }

    pub fn attach_footer(&mut self, footer: String)
        ensures
            final(self).parts() == after_write(old(self).parts(), PageWrite::Footer(footer@)),
            final(self).data.footer == Some(footer),
            final(self).data.title == old(self).data.title,
            final(self).data.content == old(self).data.content,
            final(self).data.head == old(self).data.head,
            final(self).data.flash == old(self).data.flash,
            final(self).data.current_tag == old(self).data.current_tag,
            final(self).flash == old(self).flash,
            final(self).user_id_context == old(self).user_id_context,
            final(self).htmx_request == old(self).htmx_request,
            final(self).hello == old(self).hello,
            final(self).locale == old(self).locale,
    {
        self.data.footer = Some(footer);
    }

    pub fn attach_flash(&mut self, flash: Flash)
        ensures
            final(self).parts() == after_write(old(self).parts(), PageWrite::Flash(flash)),
            final(self).data.flash == Some(flash),
            final(self).data.title == old(self).data.title,
            final(self).data.content == old(self).data.content,
            final(self).data.head == old(self).data.head,
            final(self).data.footer == old(self).data.footer,
            final(self).data.current_tag == old(self).data.current_tag,
            final(self).flash == old(self).flash,
            final(self).user_id_context == old(self).user_id_context,
            final(self).htmx_request == old(self).htmx_request,
            final(self).hello == old(self).hello,
            final(self).locale == old(self).locale,
    {
        self.data.flash = Some(flash);
    }

    /// Attaches the error flash of a form that failed its rules.
    pub fn attach_form_flash_error(&mut self)
        ensures
            final(self).parts() == after_write(old(self).parts(), PageWrite::Flash(final(self).data.flash->Some_0)),
            final(self).data.flash matches Some(Flash::Error { msg }) && msg@ == text_or(
                old(self).locale.entries@,
                "validate-flash"@,
                "Please check the form above for errors."@,
            ),
            final(self).data.title == old(self).data.title,
            final(self).data.content == old(self).data.content,
            final(self).data.head == old(self).data.head,
            final(self).data.footer == old(self).data.footer,
            final(self).data.current_tag == old(self).data.current_tag,
            final(self).flash == old(self).flash,
            final(self).user_id_context == old(self).user_id_context,
            final(self).htmx_request == old(self).htmx_request,
            final(self).hello == old(self).hello,
            final(self).locale == old(self).locale,
    {
        let msg = self.locale.text_with_default("validate-flash", "Please check the form above for errors.");
        self.attach_flash(Flash::Error { msg });
    }

    pub fn set_current_tag(&mut self, tag: &str)
        ensures
            final(self).parts() == after_write(old(self).parts(), PageWrite::CurrentTag(tag@)),
            final(self).data.current_tag@ == tag@,
            final(self).data.title == old(self).data.title,
            final(self).data.content == old(self).data.content,
            final(self).data.head == old(self).data.head,
            final(self).data.footer == old(self).data.footer,
            final(self).data.flash == old(self).data.flash,
            final(self).flash == old(self).flash,
            final(self).user_id_context == old(self).user_id_context,
            final(self).htmx_request == old(self).htmx_request,
            final(self).hello == old(self).hello,
            final(self).locale == old(self).locale,
    {
        self.data.current_tag = owned(tag);
    }

    /// The flash message a page shows: the one attached while building it,
    /// else the one the request carried.
    pub open spec fn shown_flash(&self) -> Option<Flash> {
        if self.data.flash is Some {
            self.data.flash
        } else {
            self.flash
        }
    }

    /// The title a page shows: the attached one, else "Untitled".
    pub open spec fn shown_title(&self) -> Seq<char> {
        match self.data.title {
            Some(t) => t@,
            None => "Untitled"@,
        }
    }

    /// The navigation entries shown to this builder's user on the page tagged `tag`.
    pub fn parse_navigation(&self, tag: &str) -> (v: Vec<NavigationEntry>)
        ensures
            v@.map_values(|e: NavigationEntry| entry_view(e)) == shown_navigation(
                navigation_spec(),
                navigation_spec().len() as int,
                self.user_id_context.0.role,
                tag@,
                self.locale.entries@,
            ),
    {
        let items = NavigationItem::navigations();
        let role = self.user_id_context.get().role;
        let mut out: Vec<NavigationEntry> = Vec::new();
        let mut i: usize = 0;
        while i < items.len()
            invariant
                items@.len() == navigation_spec().len(),
                forall|k: int| 0 <= k < items@.len() ==> item_view(#[trigger] items@[k]) == navigation_spec()[k],
                role == self.user_id_context.0.role,
                i <= items@.len(),
                out@.map_values(|e: NavigationEntry| entry_view(e)) == shown_navigation(
                    navigation_spec(),
                    i as int,
                    role,
                    tag@,
                    self.locale.entries@,
                ),
            decreases items@.len() - i,
        {
            let item = &items[i];
            assert(item_view(items@[i as int]) == navigation_spec()[i as int]);
            let ghost before = out@;
            if !role_less(&role, &item.role) {
                let entry = NavigationEntry {
                    tag: item.tag.clone(),
                    url: item.url.clone(),
                    label: self.locale.text_with_default(item.locale.as_str(), item.name.as_str()),
                    icon: item.icon.clone(),
                    active: str_eq(item.tag.as_str(), tag),
                };
                out.push(entry);
                assert(out@.map_values(|e: NavigationEntry| entry_view(e)) =~= before.map_values(|e: NavigationEntry| entry_view(e)) + seq![entry_view(out@.last())]);
            } else {
                assert(out@ == before);
            }
            i = i + 1;
        }
        out
    }

    /// Whether `bar` is the bar this builder's user gets: a signed-in user
    /// (ranked at least `User`) gets a greeting, a link to the account pages
    /// and a logout link; the visitor gets a login link.
    pub open spec fn is_user_bar(&self, bar: UserBar) -> bool {
        let user = *self.user_id_context.0;
        if role_below(user.role, Role::User) {
            bar matches UserBar::Visitor { login_text, login_url }
                && login_text@ == text_or(self.locale.entries@, "top-visitor"@, "You're a visitor, click here to login"@)
                && login_url@ == LOGIN_ROUTE@ + "/"@
        } else {
            bar matches UserBar::SignedIn { hello, logout_title, user_url, logout_url }
                && hello@ == (match self.hello {
                    Some(t) => t@,
                    None => "Hello, "@ + user.username@,
                })
                && logout_title@ == text_or(self.locale.entries@, "top-hello-logout"@, "Click here to logout"@)
                && user_url@ == USER_ROUTE@ + "/"@
                && logout_url@ == LOGIN_ROUTE@ + "/logout"@
        }
    }

    /// The bar above the page.
    pub fn build_user(&self) -> (r: UserBar)
        ensures
            self.is_user_bar(r),
    {
        let user = self.user_id_context.get();
        let top = TopBuildLocale::new(&self.locale, user.username.as_str(), clone_text(&self.hello));
        if role_less(&user.role, &Role::User) {
            UserBar::Visitor { login_text: top.visitor, login_url: join2(LOGIN_ROUTE, "/") }
        } else {
            UserBar::SignedIn {
                hello: top.hello,
                logout_title: top.hello_logout,
                user_url: join2(USER_ROUTE, "/"),
                logout_url: join2(LOGIN_ROUTE, "/logout"),
            }
        }
    }

    /// The page: for htmx, the parts that replace the current page's (title,
    /// content, flash, page tag, footer); otherwise the whole page with the
    /// user's navigation and bar. Missing parts are empty; a missing title is
    /// "Untitled"; the flash attached while building wins over the request's.
    pub fn build(&self) -> (r: PageLayout)
        ensures
            self.htmx_request ==> (r matches PageLayout::Partial { title, content, flash, current_tag, footer }
                && title@ == self.shown_title()
                && content@ == text_or_empty(self.data.content)
                && flash == self.shown_flash()
                && current_tag@ == self.data.current_tag@
                && footer@ == text_or_empty(self.data.footer)),
            !self.htmx_request ==> (r matches PageLayout::Full { title, content, head, footer, flash, navigation, user_bar }
                && title@ == self.shown_title()
                && content@ == text_or_empty(self.data.content)
                && head@ == text_or_empty(self.data.head)
                && footer@ == text_or_empty(self.data.footer)
                && flash == self.shown_flash()
                && navigation@.map_values(|e: NavigationEntry| entry_view(e)) == shown_navigation(
                    navigation_spec(),
                    navigation_spec().len() as int,
                    self.user_id_context.0.role,
                    self.data.current_tag@,
                    self.locale.entries@,
                )
                && self.is_user_bar(user_bar)),
    {
        let title = match &self.data.title {
            Some(t) => t.clone(),
            None => owned("Untitled"),
        };
        let content = match &self.data.content {
            Some(t) => t.clone(),
            None => String::new(),
        };
        let head = match &self.data.head {
            Some(t) => t.clone(),
            None => String::new(),
        };
        let footer = match &self.data.footer {
            Some(t) => t.clone(),
            None => String::new(),
        };
        let current_tag = self.data.current_tag.clone();
        let flash = if self.data.flash.is_some() {
            clone_flash(&self.data.flash)
        } else {
            clone_flash(&self.flash)
        };
        if self.htmx_request {
            return PageLayout::Partial { title, content, flash, current_tag, footer };
        }
        let navigation = self.parse_navigation(current_tag.as_str());
        let user_bar = self.build_user();
        PageLayout::Full { title, content, head, footer, flash, navigation, user_bar }
    }
}

/// The stylesheet of the pages: the plain one in a debug build, else the
/// minified one.
pub fn main_css_name(debug: bool) -> (r: String)
    ensures
        debug ==> r@ == "/assets/css/main.css"@,
        !debug ==> r@ == "/assets/css/main.min.css"@,
{
    if debug {
        owned("/assets/css/main.css")
    } else {
        owned("/assets/css/main.min.css")
    }
}

/// The hidden asset holding the import map of the pages' scripts: the
/// development one in a debug build, else the production one.
pub fn html_import_map(debug: bool) -> (r: &'static str)
    ensures
        debug ==> r@ == "import_map/import_map.dev.min.json"@,
        !debug ==> r@ == "import_map/import_map.prod.min.json"@,
{
    if debug {
        "import_map/import_map.dev.min.json"
    } else {
        "import_map/import_map.prod.min.json"
    }
}

/// An entry of the navigation is marked active exactly when it is the entry of
/// the current page, and the navigation never shows more entries than exist.
pub proof fn lemma_navigation_active_marks_page(
    items: Seq<(Seq<char>, Seq<char>, Seq<char>, Seq<char>, Role, Seq<char>)>,
    n: int,
    role: Role,
    tag: Seq<char>,
    entries: Seq<(String, String)>,
)
    requires
        0 <= n <= items.len(),
    ensures
        forall|k: int| 0 <= k < shown_navigation(items, n, role, tag, entries).len() ==>
            (#[trigger] shown_navigation(items, n, role, tag, entries)[k]).4 == (shown_navigation(items, n, role, tag, entries)[k].0 == tag),
        shown_navigation(items, n, role, tag, entries).len() <= n,
    decreases n,
{
    if n > 0 {
        lemma_navigation_active_marks_page(items, n - 1, role, tag, entries);
        let prev = shown_navigation(items, n - 1, role, tag, entries);
        let cur = shown_navigation(items, n, role, tag, entries);
        assert forall|k: int| 0 <= k < cur.len() implies (#[trigger] cur[k]).4 == (cur[k].0 == tag) by {
            if k < prev.len() {
                assert(cur[k] == prev[k]);
            }
        }
    }
}

/// The visitor sees only the home entry, a user also the account entry, and a
/// root user also the error-stack entry, in that order.
pub proof fn lemma_navigation_by_role(role: Role, tag: Seq<char>, entries: Seq<(String, String)>)
    ensures
        shown_navigation(navigation_spec(), 3, role, tag, entries).len() == role_level(role) + 1,
        shown_navigation(navigation_spec(), 3, role, tag, entries)[0].0 == "id-tag-home"@,
        role_level(role) >= 1 ==> shown_navigation(navigation_spec(), 3, role, tag, entries)[1].0 == "id-tag-user"@,
        role_level(role) == 2 ==> shown_navigation(navigation_spec(), 3, role, tag, entries)[2].0 == "id-tag-stack"@,
{
    reveal_with_fuel(shown_navigation, 4);
    let items = navigation_spec();
    let s0 = shown_navigation(items, 0, role, tag, entries);
    let s1 = shown_navigation(items, 1, role, tag, entries);
    let s2 = shown_navigation(items, 2, role, tag, entries);
    let s3 = shown_navigation(items, 3, role, tag, entries);
    assert(s0.len() == 0);
    assert(s1 =~= seq![(items[0].2, items[0].1, text_or(entries, items[0].3, items[0].0), items[0].5, items[0].2 == tag)]);
}

/// After `new` and any sequence of attach and tag calls, the page `build`
/// lays out shows, for each part, what the last call that set it wrote, else
/// the part's default: the title "Untitled", empty content, head and footer,
/// an empty page tag; the flash shown is the last one attached, else the one
/// the request carried.
pub proof fn lemma_page_shows_last_writes(b: ContextHtmlBuilder, ws: Seq<PageWrite>)
    requires
        b.parts() == after_writes(fresh_parts(), ws),
    ensures
        b.shown_title() == or_else(last_title(ws), "Untitled"@),
        text_or_empty(b.data.content) == or_else(last_content(ws), Seq::empty()),
        text_or_empty(b.data.head) == or_else(last_head(ws), Seq::empty()),
        text_or_empty(b.data.footer) == or_else(last_footer(ws), Seq::empty()),
        b.shown_flash() == (match last_flash(ws) {
            Some(f) => Some(f),
            None => b.flash,
        }),
        b.data.current_tag@ == or_else(last_tag(ws), Seq::empty()),
{
    lemma_last_write_wins(fresh_parts(), ws);
}

} // verus!
