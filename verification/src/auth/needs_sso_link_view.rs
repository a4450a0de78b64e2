//! The view shown where an account would have needed an SSO link. In a
//! local-only build it only explains that account SSO is unavailable.

use vstd::prelude::*;

verus! {

/// A stateless view: it has nothing to remember, not even the e-mail address
/// it is handed.
pub struct NeedsSsoLinkView;

/// The text of the login-error modal that the view renders.
pub struct LoginErrorText {
    pub header: String,
    pub detail: String,
}

impl NeedsSsoLinkView {
    pub fn new() -> (view: Self)
        ensures
            view == NeedsSsoLinkView,
    {
        NeedsSsoLinkView
    }

    /// Accepts an e-mail address and ignores it: there is no account to link.
    pub fn set_email(&mut self, _email: String)
        ensures
            *final(self) == *old(self),
    {
    }

    /// The name under which the UI framework registers this view.
    pub fn ui_name() -> (name: &'static str)
        ensures
            name@ == "NeedsSsoLinkView"@,
    {
        "NeedsSsoLinkView"
    }

    /// What the view renders: a header saying that account SSO is disabled
    /// and a detail line pointing back to the local installation identity.
    pub fn render_text(&self) -> (text: LoginErrorText)
        ensures
            text.header@ == "Warp account SSO is disabled in this local-only build"@,
            text.detail@
                == "This fork does not connect to Warp account or SSO services. Restart Warp to continue with the local installation identity."@,
    {
        LoginErrorText {
            header: "Warp account SSO is disabled in this local-only build".to_owned(),
            detail: "This fork does not connect to Warp account or SSO services. Restart Warp to continue with the local installation identity.".to_owned(),
        }
    }
}

} // verus!
