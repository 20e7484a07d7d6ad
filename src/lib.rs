//! Resolves a manual-approval gate that spans a source-control host, which
//! reports commit status checks, and a CI host, which runs the gated workflow.
//! The library holds the data shapes of both services, the selection and
//! identifier-extraction rules, and the resolution pipeline as a state machine;
//! the HTTP transport is left to the caller.
use vstd::prelude::*;

pub mod config;
pub mod handlers;
pub mod services;
pub mod text;

use crate::config::Config;
use crate::handlers::{is_handler_for, mode_to_handler, Handler};

verus! {

/// One invocation: the chosen handler, the configuration, and the arguments
/// that follow the mode.
pub struct Session {
    pub handler: Handler,
    pub config: Config,
    pub args: Vec<String>,
}

impl Session {
    /// The handler named by the command line: `args` starts with the program
    /// name, and the mode follows it.
    pub fn mode(args: &Vec<String>) -> (r: Result<Handler, &'static str>)
        ensures
            args@.len() < 2 ==> (r matches Err(m)
                && m@ == "Didn't get a mode! Accepts `approve` or `status`"@),
            args@.len() >= 2 ==> is_handler_for(args@[1]@, r),
    {
        if args.len() < 2 {
            Err("Didn't get a mode! Accepts `approve` or `status`")
        } else {
            mode_to_handler(args[1].as_str())
        }
    }

    /// Builds a session from the command line and the loaded configuration;
    /// the arguments after the mode are kept for the handler.
    pub fn new(args: Vec<String>, config: Config) -> (r: Result<Session, &'static str>)
        ensures
            args@.len() < 2 ==> (r matches Err(m)
                && m@ == "Didn't get a mode! Accepts `approve` or `status`"@),
            args@.len() >= 2 ==> is_handler_for(
                args@[1]@,
                match r {
                    Ok(s) => Ok::<Handler, &'static str>(s.handler),
                    Err(m) => Err::<Handler, &'static str>(m),
                },
            ),
            r matches Ok(s) ==> s.config == config && s.args@ == args@.subrange(
                2,
                args@.len() as int,
            ),
    {
        let mut args = args;
        match Session::mode(&args) {
            Err(m) => Err(m),
            Ok(handler) => {
                let rest = args.split_off(2);
                Ok(Session { handler, config, args: rest })
            },
        }
    }
}

} // verus!
