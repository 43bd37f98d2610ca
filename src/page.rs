use vstd::prelude::*;

verus! {

/// Page that asks the visitor to sign in.
pub const LOGIN_PAGE_PATH: &'static str = "/login";

/// A page to render; the caller renders the value it wraps.
pub struct HtmlTemplate<T>(pub T);

/// What the account page shows.
pub enum UserInfoPage {
    /// The account page of the signed-in `account`.
    Info { account: String },
    /// A redirect to the sign-in page at `location`.
    RedirectToLogin { location: String },
}

/// The account page for a request with `identity`: the page itself for a
/// signed-in visitor, a redirect to the sign-in page for an anonymous one.
pub fn view_user_info(identity: Option<String>) -> (r: UserInfoPage)
    ensures
        match identity {
            Some(a) => r matches UserInfoPage::Info { account } && account == a,
            None => r matches UserInfoPage::RedirectToLogin { location } && location@
                == LOGIN_PAGE_PATH@,
        },
{
    match identity {
        Some(account) => UserInfoPage::Info { account },
        None => UserInfoPage::RedirectToLogin { location: String::from_str(LOGIN_PAGE_PATH) },
    }
}

} // verus!
