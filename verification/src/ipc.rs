//! What the daemon does with one request.

use vstd::prelude::*;
use crate::message::{Request, RequestView, Response, ResponseView};
use crate::scheduler::Command;
use crate::text::first_exact;
use crate::wallpaper_queue::{moved_paths, rearrange_outcome, WallpaperQueue};

verus! {

/// Serves one request on the playlist engine. Answers with the response
/// for the peer that asked and, for a switch that found its wallpaper,
/// the command to hand to the scheduler.
///
/// A request that the engine turns down gets a response of its own kind
/// that says so, with zeros for the indices of a move; it changes nothing.
pub fn serve(request: Request, wq: &mut WallpaperQueue) -> (r: (Response, Option<Command>))
    ensures
        final(wq).label() == old(wq).label(),
        final(wq).paths().to_multiset() == old(wq).paths().to_multiset(),
        match request@ {
            RequestView::SwitchToBackground(path) => {
                &&& final(wq).paths() == old(wq).paths()
                &&& final(wq).position() == old(wq).position()
                &&& match first_exact(old(wq).paths(), path) {
                    Some(i) => r.0@ == ResponseView::SwitchToBackground(true) && r.1 == Some(
                        Command::Index(i as usize),
                    ),
                    None => r.0@ == ResponseView::SwitchToBackground(false) && r.1 is None,
                }
            },
            RequestView::RearrangeBackground(bg, place, target_bg) => {
                &&& r.1 is None
                &&& match rearrange_outcome(old(wq).paths(), bg, place, target_bg) {
                    Ok((moved, landing)) => {
                        &&& r.0@ == ResponseView::RearrangeBackground(
                            true,
                            moved as usize,
                            landing as usize,
                        )
                        &&& final(wq).paths() == moved_paths(old(wq).paths(), moved, landing)
                        &&& first_exact(final(wq).paths(), old(wq).shown_path()) == Some(
                            final(wq).position(),
                        )
                    },
                    Err(_) => {
                        &&& r.0@ == ResponseView::RearrangeBackground(false, 0, 0)
                        &&& final(wq).paths() == old(wq).paths()
                        &&& final(wq).position() == old(wq).position()
                    },
                }
            },
            RequestView::GetQueue => {
                &&& r.0@ == ResponseView::GetQueue(old(wq).paths())
                &&& r.1 is None
                &&& final(wq).paths() == old(wq).paths()
                &&& final(wq).position() == old(wq).position()
            },
        },
{
    match request {
        Request::SwitchToBackground(p) => match wq.switch_to_wallpaper(p.as_str()) {
            Ok(command) => (Response::SwitchToBackground(true), Some(command)),
            Err(_) => (Response::SwitchToBackground(false), None),
        },
        Request::RearrangeBackground((bg, before_or_after, target_bg)) => {
            match wq.rearrange_wallpaper(bg.as_str(), &before_or_after, target_bg.as_str()) {
                Ok((move_index, to_index)) => (
                    Response::RearrangeBackground((true, move_index, to_index)),
                    None,
                ),
                Err(_) => (Response::RearrangeBackground((false, 0, 0)), None),
            }
        },
        Request::GetQueue => (Response::GetQueue(wq.get_queue()), None),
    }
}

} // verus!
