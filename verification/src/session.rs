//! The session: at most one set of credentials, stored only after a
//! successful connectivity check, and read by every job operation.
//!
//! A job operation attempted while no credentials are stored fails at once
//! with `NotConnected`, before any remote call could happen: the caller only
//! reaches the remote service with credentials this module handed out.

use vstd::prelude::*;
use vstd::string::StringExecFns;
use crate::anonymize::anonymize_username;
use crate::anonymize::demo_user;
use crate::errors::PackageError;

verus! {

/// The credentials of one user: held in memory only, for the active session.
pub struct Credentials {
    pub username: String,
    pub password: String,
    pub app_key: String,
}

impl Credentials {
    /// An exact copy, field for field.
    pub fn duplicate(&self) -> (c: Credentials)
        ensures
            c == *self,
    {
        Credentials {
            username: self.username.clone(),
            password: self.password.clone(),
            app_key: self.app_key.clone(),
        }
    }
}

/// The in-memory holder of the active session's credentials. Only
/// `connect_outcome` ever stores a value; every job operation goes through
/// `begin_operation` first.
pub struct Session {
    credentials: Option<Credentials>,
}

impl Session {
    /// The stored credentials, if any.
    pub closed spec fn spec_credentials(&self) -> Option<Credentials> {
        self.credentials
    }

    /// True once a connect has succeeded and stored credentials.
    pub open spec fn connected(&self) -> bool {
        self.spec_credentials() is Some
    }

    /// A fresh session holds no credentials.
    pub fn new() -> (s: Session)
        ensures
            !s.connected(),
    {
        Session { credentials: None }
    }

    /// Takes the outcome of the connectivity check the caller ran against the
    /// remote service. Only on success are the credentials stored; on failure
    /// the session is left exactly as it was and the check's words are
    /// surfaced. The success message shows the username through the
    /// anonymizer, never the raw name in showcase mode.
    pub fn connect_outcome(
        &mut self,
        creds: Credentials,
        check: Result<(), String>,
        showcase: bool,
    ) -> (r: Result<String, String>)
        ensures
            check is Ok ==> final(self).spec_credentials() == Some(creds) && r is Ok && r->Ok_0@
                == "Connected as "@ + (if showcase {
                demo_user()
            } else {
                creds.username@
            }),
            check is Err ==> *final(self) == *old(self) && r is Err && r->Err_0@
                == "Connection test failed: "@ + check->Err_0@,
    {
        match check {
            Ok(_) => {
                let shown = anonymize_username(creds.username.as_str(), showcase);
                let message = "Connected as ".to_owned().concat(shown.as_str());
                self.credentials = Some(creds);
                Ok(message)
            },
            Err(m) => Err("Connection test failed: ".to_owned().concat(m.as_str())),
        }
    }

    /// The first step of every job operation: hands out a copy of the
    /// stored credentials, or fails with `NotConnected` — in which case the
    /// operation stops before any remote call.
    pub fn begin_operation(&self) -> (r: Result<Credentials, PackageError>)
        ensures
            r is Ok <==> self.connected(),
            r is Ok ==> Some(r->Ok_0) == self.spec_credentials(),
            r is Err ==> r->Err_0 is NotConnected,
    {
        match &self.credentials {
            Some(c) => Ok(c.duplicate()),
            None => Err(PackageError::NotConnected),
        }
    }

    /// Forgets the stored credentials.
    pub fn disconnect(&mut self)
        ensures
            !final(self).connected(),
    {
        self.credentials = None;
    }
}

} // verus!
