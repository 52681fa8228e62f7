//! The user's environment, read once at startup and kept for the rest of the
//! run.

use vstd::prelude::*;
use crate::text::opt_text;

verus! {

/// The environment variables the application needs.
#[derive(Clone, Debug)]
pub struct Env {
    /// `USER`.
    pub user: String,
    /// `HOME`.
    pub home: String,
}

/// Why the environment could not be recorded.
#[derive(Clone, Copy, Debug, PartialEq, Eq, Structural)]
pub enum EnvError {
    /// `USER` is not set.
    UserNotSet,
    /// `HOME` is not set.
    HomeNotSet,
    /// It was recorded before.
    AlreadyInitialized,
}

/// The place the environment is recorded in: empty until `init` succeeds.
pub struct EnvCell {
    env: Option<Env>,
}

impl EnvCell {
    /// A cell with nothing recorded.
    pub fn new() -> (r: EnvCell)
        ensures
            !r.is_set(),
    {
        EnvCell { env: None }
    }

    pub closed spec fn is_set(&self) -> bool {
        self.env is Some
    }

    pub closed spec fn user(&self) -> Seq<char> {
        self.env->0.user@
    }

    pub closed spec fn home(&self) -> Seq<char> {
        self.env->0.home@
    }

    /// Whether the environment was recorded.
    pub fn initialized(&self) -> (r: bool)
        ensures
            r == self.is_set(),
    {
        self.env.is_some()
    }
}

/// Record the values of `USER` and `HOME` (`None`: the variable is not set).
/// Both must be set, and nothing may have been recorded before; on failure
/// the cell is left as it was.
pub fn init(cell: &mut EnvCell, user: Option<String>, home: Option<String>) -> (r: Result<(), EnvError>)
    ensures
        r == (if old(cell).is_set() {
            Err(EnvError::AlreadyInitialized)
        } else if user is None {
            Err(EnvError::UserNotSet)
        } else if home is None {
            Err(EnvError::HomeNotSet)
        } else {
            Ok::<(), EnvError>(())
        }),
        r is Ok ==> final(cell).is_set() && final(cell).user() == user->0@ && final(cell).home() == home->0@,
        r is Err ==> *final(cell) == *old(cell),
{
    if cell.env.is_some() {
        return Err(EnvError::AlreadyInitialized);
    }
    let user = match user {
        Some(u) => u,
        None => {
            return Err(EnvError::UserNotSet);
        },
    };
    let home = match home {
        Some(h) => h,
        None => {
            return Err(EnvError::HomeNotSet);
        },
    };
    cell.env = Some(Env { user, home });
    Ok(())
}

/// The recorded environment; `init` must have succeeded.
pub fn get(cell: &EnvCell) -> (r: &Env)
    requires
        cell.is_set(),
    ensures
        r.user@ == cell.user(),
        r.home@ == cell.home(),
{
    cell.env.as_ref().unwrap()
}

} // verus!
