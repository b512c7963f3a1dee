//! Paths, form fields and selectors of the router's firmware.
use vstd::prelude::*;

verus! {

/// Path of the dashboard; a signed-in session lands here.
pub const DASHBOARD_PATH: &'static str = "/";

/// Path that the server redirects to when the session is not signed in.
pub const LOGIN_PAGE_PATH: &'static str = "/admin/login_en.asp";

/// Path that receives the login form.
pub const LOGIN_SUBMIT_PATH: &'static str = "/boaform/admin/formLogin_en";

/// Path of the reboot confirmation page.
pub const REBOOT_PAGE_PATH: &'static str = "/mgm_dev_reboot_en.asp";

/// Path that receives the reboot form.
pub const REBOOT_SUBMIT_PATH: &'static str = "/boaform/admin/formReboot";

/// Login form field that carries the user name.
pub const USER_FIELD: &'static str = "username";

/// Login form field that carries the password.
pub const PASSWORD_FIELD: &'static str = "psd";

/// Login form field that carries the captcha value.
pub const CAPTCHA_FIELD: &'static str = "verification_code";

/// Form field that carries the CSRF token, in both forms.
pub const CSRF_FIELD: &'static str = "csrftoken";

/// Reboot form field that names the page the form was sent from.
pub const SUBMIT_URL_FIELD: &'static str = "submit-url";

/// The captcha element is the one whose `id` is `check_code`.
pub const CAPTCHA_SELECTOR_ATTR: &'static str = "id";

/// Value of `CAPTCHA_SELECTOR_ATTR` on the captcha element.
pub const CAPTCHA_SELECTOR_VALUE: &'static str = "check_code";

/// The CSRF element is the one whose `name` is `csrftoken`.
pub const CSRF_SELECTOR_ATTR: &'static str = "name";

/// Value of `CSRF_SELECTOR_ATTR` on the CSRF element.
pub const CSRF_SELECTOR_VALUE: &'static str = "csrftoken";

/// Attribute that holds the token on either element.
pub const TOKEN_ATTR: &'static str = "value";

} // verus!
