//! The pages of the service and how they are rendered.

use vstd::prelude::*;

verus! {

/// What rendering a template gives, where the data holds `value` under
/// `name`; `None` where the template does not render.
pub uninterp spec fn rendered_template(
    template: Seq<char>,
    name: Seq<char>,
    value: Seq<char>,
) -> Option<Seq<char>>;

/// Calls `render_template` of a new `handlebars::Handlebars` on the
/// template and on a `serde_json::Map` that holds the one value under the
/// one name. The result is a function of the three texts. Only the
/// templates of the library's own pages are rendered, none of which
/// includes another template or itself.
#[verifier::external_body]
fn render_template(template: &str, name: &str, value: &str) -> (page: Option<String>)
    requires
        is_page_template(template@),
    ensures
        page is Some <==> rendered_template(template@, name@, value@) is Some,
        page matches Some(p) ==> Some(p@) == rendered_template(template@, name@, value@),
{
    let mut data = serde_json::Map::new();
    data.insert(name.to_owned(), serde_json::Value::String(value.to_owned()));
    handlebars::Handlebars::new().render_template(template, &data).ok()
}

/// The template of the login page.
pub const LOGIN_PAGE: &'static str =
    "<!DOCTYPE html>\n<html lang=\"en\">\n<head>\n<meta http-equiv=\"content-type\" content=\"text/html; charset=utf-8\">\n<title>Login</title>\n</head>\n<body>\n{{{error_html}}}\n<form action=\"/login\" method=\"post\">\n<label>Username <input type=\"text\" placeholder=\"Enter Username\" name=\"username\"></label>\n<label>Password <input type=\"password\" placeholder=\"Enter Password\" name=\"password\"></label>\n<button type=\"submit\">Login</button>\n</form>\n</body>\n</html>\n";

/// The template of the dashboard.
pub const DASHBOARD_PAGE: &'static str =
    "<!DOCTYPE html>\n<html lang=\"en\">\n<head>\n<meta http-equiv=\"content-type\" content=\"text/html; charset=utf-8\">\n<title>Admin dashboard</title>\n</head>\n<body>\n<p>Welcome {{username}}!</p>\n<p>Available actions:</p>\n<ol>\n<li><a href=\"/admin/password\">Change password</a></li>\n<li><a href=\"/admin/newsletters\">Send a newsletter issue</a></li>\n<li><form name=\"logoutForm\" action=\"/admin/logout\" method=\"post\"><input type=\"submit\" value=\"Logout\"></form></li>\n</ol>\n</body>\n</html>\n";

/// The template of the page that changes the password.
pub const PASSWORD_PAGE: &'static str =
    "<!DOCTYPE html>\n<html lang=\"en\">\n<head>\n<meta http-equiv=\"content-type\" content=\"text/html; charset=utf-8\">\n<title>Change Password</title>\n</head>\n<body>\n{{{error_html}}}\n<form action=\"/admin/password\" method=\"post\">\n<label>Current password <input type=\"password\" placeholder=\"Enter current password\" name=\"current_password\"></label>\n<br>\n<label>New password <input type=\"password\" placeholder=\"Enter new password\" name=\"new_password\"></label>\n<br>\n<label>Confirm new password <input type=\"password\" placeholder=\"Type the new password again\" name=\"new_password_check\"></label>\n<br>\n<button type=\"submit\">Change password</button>\n</form>\n<p><a href=\"/admin/dashboard\">&lt;- Back</a></p>\n</body>\n</html>\n";

/// The template of the page that publishes an issue.
pub const NEWSLETTER_PAGE: &'static str =
    "<!DOCTYPE html>\n<html lang=\"en\">\n<head>\n<meta http-equiv=\"content-type\" content=\"text/html; charset=utf-8\">\n<title>Publish Newsletter Issue</title>\n</head>\n<body>\n{{{messages}}}\n<form action=\"/admin/newsletters\" method=\"post\">\n<label>Title:<br><input type=\"text\" placeholder=\"Enter the issue title\" name=\"title\"></label>\n<br>\n<label>Plain text content:<br><textarea placeholder=\"Enter the content in plain text\" name=\"text_content\" rows=\"20\" cols=\"50\"></textarea></label>\n<br>\n<label>HTML content:<br><textarea placeholder=\"Enter the content in HTML format\" name=\"html_content\" rows=\"20\" cols=\"50\"></textarea></label>\n<br>\n<label>Idempotency key:<br><input type=\"text\" placeholder=\"Enter a key for this issue\" name=\"idempotency_key\"></label>\n<br>\n<button type=\"submit\">Publish</button>\n</form>\n<p><a href=\"/admin/dashboard\">&lt;- Back</a></p>\n</body>\n</html>\n";

/// A page of the service.
#[derive(Clone, Copy, Debug, PartialEq, Eq, Structural)]
pub enum Page {
    Login,
    Dashboard,
    Password,
    Newsletter,
}

/// The template of a page.
pub open spec fn template_of(page: Page) -> Seq<char> {
    match page {
        Page::Login => LOGIN_PAGE@,
        Page::Dashboard => DASHBOARD_PAGE@,
        Page::Password => PASSWORD_PAGE@,
        Page::Newsletter => NEWSLETTER_PAGE@,
    }
}

/// The name under which a page looks for its one value.
pub open spec fn slot_of(page: Page) -> Seq<char> {
    match page {
        Page::Login => "error_html"@,
        Page::Dashboard => "username"@,
        Page::Password => "error_html"@,
        Page::Newsletter => "messages"@,
    }
}

/// Whether `template` is the template of one of the library's pages.
pub open spec fn is_page_template(template: Seq<char>) -> bool {
    template == LOGIN_PAGE@ || template == DASHBOARD_PAGE@ || template == PASSWORD_PAGE@
        || template == NEWSLETTER_PAGE@
}

impl Page {
    /// The template of the page.
    pub fn template(&self) -> (template: &'static str)
        ensures
            template@ == template_of(*self),
    {
        match self {
            Page::Login => LOGIN_PAGE,
            Page::Dashboard => DASHBOARD_PAGE,
            Page::Password => PASSWORD_PAGE,
            Page::Newsletter => NEWSLETTER_PAGE,
        }
    }

    /// The name under which the page looks for its one value.
    pub fn slot(&self) -> (name: &'static str)
        ensures
            name@ == slot_of(*self),
    {
        match self {
            Page::Login => "error_html",
            Page::Dashboard => "username",
            Page::Password => "error_html",
            Page::Newsletter => "messages",
        }
    }

    /// Renders the page with its one value.
    pub fn render(&self, value: &str) -> (page: Option<String>)
        ensures
            page is Some <==> rendered_template(template_of(*self), slot_of(*self), value@) is Some,
            page matches Some(p) ==> Some(p@) == rendered_template(
                template_of(*self),
                slot_of(*self),
                value@,
            ),
    {
        render_template(self.template(), self.slot(), value)
    }
}

} // verus!
