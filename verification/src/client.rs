//! What a client makes of the daemon's answers.

use vstd::prelude::*;
use crate::message::{Request, RequestView, Response, ResponseView};

verus! {

/// Where a wallpaper was taken from and where it landed.
#[derive(Clone, Copy, Debug, PartialEq, Eq, Structural)]
pub struct RearrangeBackgroundResult {
    pub move_index: usize,
    pub to_index: usize,
}

/// What the user is told when the daemon did not make a move.
pub open spec fn rearrange_failure() -> Seq<char> {
    "Failed to rearrange background"@
}

/// The request to show the wallpaper at `path`.
pub fn set_background(path: String) -> (r: Request)
    ensures
        r@ == RequestView::SwitchToBackground(path@),
{
    Request::SwitchToBackground(path)
}

/// Whether the daemon made the switch, out of its answer; nothing when
/// the answer is of another kind.
pub fn switched(response: &Response) -> (r: Option<bool>)
    ensures
        r == match response@ {
            ResponseView::SwitchToBackground(ok) => Some(ok),
            _ => None,
        },
{
    match response {
        Response::SwitchToBackground(ok) => Some(*ok),
        _ => None,
    }
}

/// Where the wallpaper went, out of the daemon's answer to a move; the
/// words for the user when the move was not made. Nothing when the
/// answer is of another kind.
pub fn rearrange_background(response: &Response) -> (r: Option<
    Result<RearrangeBackgroundResult, &'static str>,
>)
    ensures
        match response@ {
            ResponseView::RearrangeBackground(ok, move_index, to_index) => if ok {
                r == Some(
                    Ok::<RearrangeBackgroundResult, &'static str>(
                        RearrangeBackgroundResult { move_index, to_index },
                    ),
                )
            } else {
                r matches Some(Err(message)) && message@ == rearrange_failure()
            },
            _ => r is None,
        },
{
    match response {
        Response::RearrangeBackground((ok, move_index, to_index)) => {
            if !*ok {
                Some(Err("Failed to rearrange background"))
            } else {
                Some(Ok(RearrangeBackgroundResult { move_index: *move_index, to_index: *to_index }))
            }
        },
        _ => None,
    }
}

} // verus!
