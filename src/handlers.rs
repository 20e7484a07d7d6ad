//! The operating modes of the tool, chosen once at startup.
use vstd::prelude::*;

pub mod approve;
pub mod status;

use approve::ApproveHandler;
use status::StatusHandler;

verus! {

/// The operation to run: resolve and approve a gate, or report a status.
pub enum Handler {
    Approve(ApproveHandler),
    Status(StatusHandler),
}

/// `r` is the handler for the mode name `mode`, or the error for an unknown one.
pub open spec fn is_handler_for(mode: Seq<char>, r: Result<Handler, &'static str>) -> bool {
    &&& (mode == "approve"@ <==> (r matches Ok(Handler::Approve(_))))
    &&& (mode == "status"@ <==> (r matches Ok(Handler::Status(_))))
    &&& (r.is_err() ==> r->Err_0@ == "Invalid mode given"@)
}

/// Picks the handler for a mode name: `approve` or `status`.
pub fn mode_to_handler(mode: &str) -> (r: Result<Handler, &'static str>)
    ensures
        is_handler_for(mode@, r),
{
    proof {
        reveal_strlit("approve");
        reveal_strlit("status");
        assert("approve"@[0] != "status"@[0]);
    }
    if crate::text::str_eq(mode, "approve") {
        Ok(Handler::Approve(ApproveHandler))
    } else if crate::text::str_eq(mode, "status") {
        Ok(Handler::Status(StatusHandler))
    } else {
        Err("Invalid mode given")
    }
}

/// The git reference a handler works on: the first of its arguments.
pub fn reference_arg(args: &Vec<String>) -> (r: Result<&String, &'static str>)
    ensures
        args@.len() > 0 ==> (r matches Ok(a) && *a == args@[0]),
        args@.len() == 0 ==> (r matches Err(m) && m@ == "Please pass in a reference"@),
{
    if args.len() == 0 {
        Err("Please pass in a reference")
    } else {
        Ok(&args[0])
    }
}

} // verus!
