//! What a request carries from the session middleware to the handlers.
use vstd::prelude::*;

use crate::session::Session;
use crate::user::UserDbModel;

verus! {

/// The per-request data that the handlers receive.
pub struct _DataHolder {
    pub frontend: Option<FrontendHolder>,
}

/// The per-request data of the front end.
pub type MainDataHolder = _DataHolder;

/// The front end's per-request data: the request's session.
pub struct FrontendHolder {
    pub session: Session,
}

impl FrontendHolder {
    /// The signed-in user of the session, which must have one.
    pub fn user(&self) -> (r: &UserDbModel)
        requires
            self.session.user_model is Some,
        ensures
            *r == self.session.user_model->0,
    {
        self.session.user_model.as_ref().unwrap()
    }
}

impl From<Session> for _DataHolder {
    /// The per-request data that holds `session` for the front end.
    fn from(session: Session) -> (r: Self) {
        _DataHolder { frontend: Some(FrontendHolder { session }) }
    }
}

impl vstd::std_specs::convert::FromSpecImpl<Session> for _DataHolder {
    open spec fn obeys_from_spec() -> bool {
        true
    }

    open spec fn from_spec(v: Session) -> Self {
        _DataHolder { frontend: Some(FrontendHolder { session: v }) }
    }
}

} // verus!
