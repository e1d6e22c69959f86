//! What the `member/userInfo` endpoint says about a session's user.
use crate::stdx::error::Assumption;
use vstd::prelude::*;

verus! {

/// The user behind a session: whether they create Canvas webtoons, their username, and their
/// profile segment (`webtoons.com/*/creator/{profile}`).
#[derive(Debug)]
pub struct UserInfo {
    is_canvas_creator: bool,
    username: String,
    profile: Option<String>,
}

/// The body of the `member/userInfo` endpoint.
#[derive(Debug)]
pub struct UserInfoRaw {
    /// Whether the user creates Canvas webtoons.
    pub is_canvas_creator: bool,
    /// Whether the session is logged in.
    pub is_logged_in: bool,
    /// The username, present for a valid session.
    pub username: Option<String>,
    /// The profile segment, present for a valid session.
    pub profile: Option<String>,
}

impl UserInfo {
    /// Whether the user creates Canvas webtoons.
    pub closed spec fn spec_is_canvas_creator(&self) -> bool {
        self.is_canvas_creator
    }

    /// The user's username.
    pub closed spec fn spec_username(&self) -> Seq<char> {
        self.username@
    }

    /// The user's profile segment, if any.
    pub closed spec fn spec_profile(&self) -> Option<Seq<char>> {
        match self.profile {
            Some(p) => Some(p@),
            None => None,
        }
    }

    /// Whether the current user is a Canvas creator.
    pub fn is_canvas_creator(&self) -> (b: bool)
        ensures
            b == self.spec_is_canvas_creator(),
    {
        self.is_canvas_creator
    }

    /// The user's username.
    pub fn username(&self) -> (u: &str)
        ensures
            u@ == self.spec_username(),
    {
        self.username.as_str()
    }

    /// The profile segment for `webtoons.com/*/creator/{profile}`; `None` for an invalid
    /// session.
    pub fn profile(&self) -> (p: Option<&str>)
        ensures
            match p {
                Some(s) => self.spec_profile() == Some(s@),
                None => self.spec_profile() is None,
            },
    {
        match &self.profile {
            Some(s) => Some(s.as_str()),
            None => None,
        }
    }

    /// The user a raw answer describes (`TryFrom<UserInfoRaw>`); fails when it has no
    /// username, which callers check beforehand.
    pub fn try_from(user: UserInfoRaw) -> (r: Result<UserInfo, Assumption>)
        ensures
            match user.username {
                None => r is Err,
                Some(name) => r matches Ok(info) && info.spec_username() == name@
                    && info.spec_is_canvas_creator() == user.is_canvas_creator
                    && info.spec_profile() == match user.profile {
                        Some(p) => Some(p@),
                        None => None::<Seq<char>>,
                    },
            },
    {
        match user.username {
            None => Err(Assumption::new(
                "`UserInfoRaw::username` was `None`, and when using `try_from|into`, should be checked beforehand that it is `Some`",
            )),
            Some(username) => Ok(UserInfo {
                is_canvas_creator: user.is_canvas_creator,
                username,
                profile: user.profile,
            }),
        }
    }
}

/// The user a `member/userInfo` answer describes: none for a session that is not logged in;
/// a logged-in answer must carry a username, and a profile exactly when the user creates
/// Canvas webtoons.
pub fn user_info_from_raw(user: UserInfoRaw) -> (r: Result<Option<UserInfo>, Assumption>)
    ensures
        !user.is_logged_in ==> r == Ok::<Option<UserInfo>, Assumption>(None),
        user.is_logged_in ==> match user.username {
            None => r is Err,
            Some(name) => if user.is_canvas_creator != (user.profile is Some) {
                r is Err
            } else {
                r matches Ok(Some(info)) && info.spec_username() == name@
                    && info.spec_is_canvas_creator() == user.is_canvas_creator
                    && info.spec_profile() == match user.profile {
                        Some(p) => Some(p@),
                        None => None::<Seq<char>>,
                    }
            },
        },
{
    if !user.is_logged_in {
        return Ok(None);
    }
    if user.username.is_none() {
        return Err(Assumption::new("`UserInfoRaw::username` should be `Some` when `is_logged_in` is true"));
    }
    if user.is_canvas_creator && user.profile.is_none() {
        return Err(Assumption::new("`profile` should be `Some` when `is_canvas_creator` is true"));
    }
    if !user.is_canvas_creator && user.profile.is_some() {
        return Err(Assumption::new("`profile` should be `None` when `is_canvas_creator` is false"));
    }
    match UserInfo::try_from(user) {
        Ok(info) => Ok(Some(info)),
        Err(e) => Err(e),
    }
}

} // verus!
