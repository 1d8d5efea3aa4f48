//! The outcome codes of the injector: the helper program that loads the
//! core library into the running game process.
//!
//! The injector reports its outcome through its process exit code. Running
//! the program is the host application's business; deciding what an exit
//! code means — which number names which outcome, and which outcomes count
//! as success — is decided here.

use vstd::prelude::*;

verus! {

/// The exit codes reported by the injector.
#[derive(Clone, Copy, Debug, PartialEq, Eq, Structural)]
pub enum InjectorCode {
    InjectionSuccessful,
    InjectionFailed,
    MultipleRocketLeagueProcessesFound,
    RLBotDLLAlreadyInjected,
    RLBotDLLNotFound,
    MultipleRLBotDLLFilesFound,
}

/// The exit code that names each outcome.
pub open spec fn spec_exit_code(code: InjectorCode) -> int {
    match code {
        InjectorCode::InjectionSuccessful => 0,
        InjectorCode::InjectionFailed => 1,
        InjectorCode::MultipleRocketLeagueProcessesFound => 2,
        InjectorCode::RLBotDLLAlreadyInjected => 3,
        InjectorCode::RLBotDLLNotFound => 4,
        InjectorCode::MultipleRLBotDLLFilesFound => 5,
    }
}

impl InjectorCode {
    /// Reads an injector outcome from a process exit code; exit codes the
    /// injector never reports yield `None`.
    pub fn from_exit_code(code: i32) -> (r: Option<InjectorCode>)
        ensures
            match r {
                Some(c) => spec_exit_code(c) == code,
                None => !(0 <= code <= 5),
            },
    {
        match code {
            0 => Some(InjectorCode::InjectionSuccessful),
            1 => Some(InjectorCode::InjectionFailed),
            2 => Some(InjectorCode::MultipleRocketLeagueProcessesFound),
            3 => Some(InjectorCode::RLBotDLLAlreadyInjected),
            4 => Some(InjectorCode::RLBotDLLNotFound),
            5 => Some(InjectorCode::MultipleRLBotDLLFilesFound),
            _ => None,
        }
    }

    /// Whether this outcome leaves the core library loaded in the game
    /// process: a fresh injection does, and so does finding it already
    /// injected; every other outcome is a failure.
    pub fn accept(self) -> (r: Result<InjectorCode, InjectorCode>)
        ensures
            r == (match self {
                InjectorCode::InjectionSuccessful | InjectorCode::RLBotDLLAlreadyInjected => Result::<
                    InjectorCode,
                    InjectorCode,
                >::Ok(self),
                _ => Result::<InjectorCode, InjectorCode>::Err(self),
            }),
    {
        match self {
            InjectorCode::InjectionSuccessful | InjectorCode::RLBotDLLAlreadyInjected => Ok(self),
            _ => Err(self),
        }
    }
}

} // verus!
