use swww_itch::builder::{has_image_extension, WallpaperQueueBuilder};
use swww_itch::cleanup::{Cleanup, Outcome, Stage, SHUTDOWN_RETRY_DELAY};
use swww_itch::client::{rearrange_background, set_background, switched, RearrangeBackgroundResult};
use swww_itch::ipc::serve;
use swww_itch::message::{Position, Request, Response};
use swww_itch::paths::{canonicalize, state_db, EnvPath};
use swww_itch::scheduler::Command;
use swww_itch::transport::{
    join_messages, receive_response, send_request, setup_listener, socket_path,
    IntoUnixSocketPath,
    RequestContext, UnixSocketPath, BIND_RETRY_DELAY,
};
use swww_itch::wallpaper_queue::WallpaperQueue;

fn strings(names: &[&str]) -> Vec<String> {
    names.iter().map(|s| s.to_string()).collect()
}

#[test]
fn socket_under_the_runtime_directory() {
    let path = UnixSocketPath::RuntimeDir("swwwitch.sock");
    assert_eq!(
        path.to_pathbuf::<String>(Ok("/run/user/1000".to_string())),
        Ok("/run/user/1000/swwwitch.sock".to_string())
    );
    assert_eq!(path.to_pathbuf(Err("not present")), Err("not present"));
}

#[test]
fn daemon_socket_lies_in_the_runtime_directory() {
    assert_eq!(
        socket_path::<String>(Ok("/run/user/1000".to_string())),
        Ok("/run/user/1000/swwwitch.sock".to_string())
    );
    assert_eq!(socket_path(Err(7)), Err(7));
}

#[test]
fn socket_at_a_path_of_its_own() {
    let path = UnixSocketPath::AbsolutePath("/tmp/itch.sock");
    assert_eq!(path.to_pathbuf(Err("not present")), Ok("/tmp/itch.sock".to_string()));
    assert_eq!(
        path.to_pathbuf::<String>(Ok("/run/user/1000".to_string())),
        Ok("/tmp/itch.sock".to_string())
    );
}

#[test]
fn words_and_paths_say_where_the_socket_lies() {
    assert!(matches!("/tmp/a.sock".into_listen_path(), UnixSocketPath::AbsolutePath("/tmp/a.sock")));
    assert!(matches!(
        UnixSocketPath::RuntimeDir("b.sock").into_listen_path(),
        UnixSocketPath::RuntimeDir("b.sock")
    ));
}

#[test]
fn paths_under_directories_of_the_environment() {
    let p = EnvPath::xdg_runtime_dir::<String>(Ok("/run/user/7".to_string()), "swwwitch.sock");
    assert_eq!(p.unwrap().as_str(), "/run/user/7/swwwitch.sock");
    let p = EnvPath::home::<String>(Ok("/home/u/".to_string()), ".local/state/itch/state.db");
    assert_eq!(p.unwrap().as_str(), "/home/u/.local/state/itch/state.db");
    assert_eq!(EnvPath::home(Err(3), "x").err(), Some(3));
    assert_eq!(
        state_db::<String>(Ok("/home/u".to_string())).unwrap().as_str(),
        "/home/u/.local/state/itch/state.db"
    );
    assert_eq!(state_db(Err("unset")).err(), Some("unset"));
}

#[test]
fn wallpapers_lie_in_the_backgrounds_of_home() {
    assert_eq!(
        canonicalize(Some("/home/u"), "a.png"),
        Some("/home/u/backgrounds/a.png".to_string())
    );
    assert_eq!(canonicalize(Some("/home/u"), "/abs/a.png"), Some("/abs/a.png".to_string()));
    assert_eq!(canonicalize(None, "a.png"), None);
}

#[test]
fn paths_are_joined_with_one_separator() {
    let join = |dir: &str, name: &'static str| {
        UnixSocketPath::RuntimeDir(name).to_pathbuf::<String>(Ok(dir.to_string())).unwrap()
    };
    assert_eq!(join("/run/user/1000", "a.sock"), "/run/user/1000/a.sock");
    assert_eq!(join("/run/user/1000/", "a.sock"), "/run/user/1000/a.sock");
    assert_eq!(join("/", "a.sock"), "/a.sock");
    assert_eq!(join("", "a.sock"), "a.sock");
    assert_eq!(join("run", "sub/a.sock"), "run/sub/a.sock");
    assert_eq!(join("/run", ""), "/run/");
    assert_eq!(join("/run/", ""), "/run/");
    assert_eq!(join("", ""), "");
    assert_eq!(join("/run", "/tmp/a.sock"), "/tmp/a.sock");
    assert_eq!(join("", "/"), "/");
    assert_eq!(join("/run//", "a"), "/run//a");
    assert_eq!(join("/r\u{fc}n", "\u{e4}.sock"), "/r\u{fc}n/\u{e4}.sock");
}

#[test]
fn bind_is_tried_again_after_five_seconds() {
    assert_eq!(BIND_RETRY_DELAY, 5_000);
    assert_eq!(setup_listener(false), Some(5_000));
    assert_eq!(setup_listener(true), None);
}

#[test]
fn one_read_is_one_message() {
    assert_eq!(join_messages(Some(b"  {\"a\":1}\n")), Some("{\"a\":1}".to_string()));
    assert_eq!(join_messages(Some(b"hello")), Some("hello".to_string()));
    assert_eq!(join_messages(Some(&[b'a', 0xff, b'b'])), Some("a\u{fffd}b".to_string()));
}

#[test]
fn white_space_around_a_message_is_cut_off() {
    assert_eq!(join_messages(Some(b"\t\r\n x y \n\n")), Some("x y".to_string()));
    assert_eq!(join_messages(Some("\u{a0}\u{2003}a\u{3000}".as_bytes())), Some("a".to_string()));
    assert_eq!(join_messages(Some("\u{200b}a".as_bytes())), Some("\u{200b}a".to_string()));
    assert_eq!(join_messages(Some(b"a")), Some("a".to_string()));
    assert_eq!(join_messages(Some(&[b' ', 0xc3, b' '])), Some("\u{fffd}".to_string()));
}

#[test]
fn white_space_is_what_unicode_lists() {
    let listed = |c: char| {
        matches!(
            c as u32,
            0x09..=0x0d
                | 0x20
                | 0x85
                | 0xa0
                | 0x1680
                | 0x2000..=0x200a
                | 0x2028
                | 0x2029
                | 0x202f
                | 0x205f
                | 0x3000
        )
    };
    let mut seen = 0;
    for code in 0..=0x10ffff_u32 {
        let Some(c) = char::from_u32(code) else { continue };
        let sent = format!("{c}x{c}");
        let expected = if listed(c) { "x".to_string() } else { sent.clone() };
        assert_eq!(join_messages(Some(sent.as_bytes())), Some(expected), "{code:#x}");
        seen += listed(c) as u32;
    }
    assert_eq!(seen, 25);
}

#[test]
fn a_read_of_white_space_alone_is_a_message() {
    assert_eq!(join_messages(Some(b" ")), Some(String::new()));
    assert_eq!(join_messages(Some(b" \r\n\t ")), Some(String::new()));
    assert_eq!(join_messages(Some("\u{2028}\u{85}".as_bytes())), Some(String::new()));
    assert!(RequestContext::recv((), String::new()).is_none());
}

#[test]
fn only_an_empty_or_failed_read_closes_the_connection() {
    assert_eq!(join_messages(Some(b"")), None);
    assert_eq!(join_messages(None), None);
    assert_eq!(join_messages(Some(&[0])), Some("\0".to_string()));
    assert_eq!(join_messages(Some(&[0xff])), Some("\u{fffd}".to_string()));
}

#[test]
fn reads_are_passed_on_until_the_peer_closes() {
    let reads: [&[u8]; 5] = [b"one\n", b"  ", b"{\"type\":\"request\",\"getQueue\":null}", b"", b"late"];
    let mut passed = Vec::new();
    for read in reads {
        match join_messages(Some(read)) {
            Some(text) => passed.push(text),
            None => break,
        }
    }
    assert_eq!(passed, vec!["one", "", "{\"type\":\"request\",\"getQueue\":null}"]);
}

#[test]
fn request_travels_with_its_peer() {
    let text = r#"{"type":"request","getQueue":null}"#.to_string();
    let mut context = RequestContext::recv(42_u32, text).expect("a request");
    assert_eq!(context.take_request(), Request::GetQueue);
    let (peer, answer) = context.respond(&Response::GetQueue(strings(&["a"])));
    assert_eq!(peer, 42);
    assert_eq!(answer, r#"{"getQueue":["a"],"type":"response"}"#);
}

#[test]
fn what_is_no_request_has_no_context() {
    assert!(RequestContext::recv((), "garbage".to_string()).is_none());
    assert!(RequestContext::recv((), r#"{"type":"response","getQueue":[]}"#.to_string()).is_none());
}

#[test]
fn client_sends_and_receives() {
    assert_eq!(
        send_request(&Request::SwitchToBackground("p".to_string())),
        r#"{"switchToBackground":"p","type":"request"}"#
    );
    assert_eq!(
        receive_response(b" {\"type\":\"response\",\"switchToBackground\":true}\n"),
        Some(Response::SwitchToBackground(true))
    );
    assert_eq!(receive_response(b""), None);
    assert_eq!(receive_response(b"{\"type\":\"request\",\"getQueue\":null}"), None);
}

#[test]
fn serving_a_switch() {
    let mut wq = WallpaperQueue::new(strings(&["/w/a.png", "/w/b.png"]));
    let (response, command) = serve(Request::SwitchToBackground("/w/b.png".to_string()), &mut wq);
    assert_eq!(response, Response::SwitchToBackground(true));
    assert_eq!(command, Some(Command::Index(1)));
    assert_eq!(wq.current_index(), 0);
    let (response, command) = serve(Request::SwitchToBackground("b.png".to_string()), &mut wq);
    assert_eq!(response, Response::SwitchToBackground(false));
    assert_eq!(command, None);
}

#[test]
fn serving_a_move() {
    let mut wq = WallpaperQueue::new(strings(&["A", "B", "C", "D"]));
    let request = Request::RearrangeBackground(("D".to_string(), Position::Before, "B".to_string()));
    assert_eq!(serve(request, &mut wq), (Response::RearrangeBackground((true, 3, 1)), None));
    assert_eq!(wq.get_queue(), strings(&["A", "D", "B", "C"]));
    let request = Request::RearrangeBackground(("D".to_string(), Position::After, "D".to_string()));
    assert_eq!(serve(request, &mut wq), (Response::RearrangeBackground((false, 0, 0)), None));
    let request = Request::RearrangeBackground(("Z".to_string(), Position::After, "D".to_string()));
    assert_eq!(serve(request, &mut wq), (Response::RearrangeBackground((false, 0, 0)), None));
    assert_eq!(wq.get_queue(), strings(&["A", "D", "B", "C"]));
}

#[test]
fn serving_the_playlist() {
    let mut wq = WallpaperQueue::new(strings(&["A", "B"]));
    assert_eq!(serve(Request::GetQueue, &mut wq), (Response::GetQueue(strings(&["A", "B"])), None));
    let mut other = WallpaperQueue::new(vec![]);
    assert_eq!(serve(Request::GetQueue, &mut other), (Response::GetQueue(vec![]), None));
}

#[test]
fn image_files_are_known_by_their_ending() {
    for name in [
        "a.jpg", "a.jpeg", "a.png", "a.gif", "a.webp", "a.bmp", "a.tiff", "a.avif", "a.tga",
        "a.pnm", "a.farbfeld", "/deep/dir.d/x.y.png", ".png",
    ] {
        assert!(has_image_extension(name), "{name}");
    }
    for name in ["a.txt", "png", "a.PNG", "a.png.bak", "a.jpg/", "", "apng", "a.tif"] {
        assert!(!has_image_extension(name), "{name}");
    }
}

#[test]
fn builder_puts_each_path_in_once() {
    let mut builder = WallpaperQueueBuilder::new();
    builder.push_unique_onto_queue(strings(&["a", "b", "a", "c", "b"]));
    assert_eq!(builder.initial_queue, strings(&["a", "b", "c"]));
    builder.push_unique_onto_queue(strings(&["c", "d"]));
    assert_eq!(builder.initial_queue, strings(&["a", "b", "c", "d"]));
}

#[test]
fn builder_keeps_the_users_order_before_the_directory() {
    let wq = WallpaperQueue::builder()
        .with_ordered_queue(strings(&["/w/c.png", "/w/a.png"]))
        .with_initial_queue_from_directory(strings(&[
            "/w/a.png",
            "/w/b.png",
            "/w/notes.txt",
            "/w/c.png",
            "/w/d.jpeg",
        ]))
        .build();
    assert_eq!(wq.get_queue(), strings(&["/w/c.png", "/w/a.png", "/w/b.png", "/w/d.jpeg"]));
    assert_eq!(wq.current_index(), 0);
}

#[test]
fn shutdown_goes_stage_by_stage() {
    assert_eq!(SHUTDOWN_RETRY_DELAY, 1);
    let mut cleanup = Cleanup::new();
    assert_eq!(cleanup.current(), Stage::Socket);
    assert_eq!(cleanup.advance(Outcome::Finished), Stage::Scheduler);
    assert_eq!(cleanup.advance(Outcome::Delivered), Stage::Scheduler);
    assert_eq!(cleanup.advance(Outcome::Delivered), Stage::Scheduler);
    assert_eq!(cleanup.advance(Outcome::Finished), Stage::SaveQueue);
    assert_eq!(cleanup.advance(Outcome::Finished), Stage::Close);
    assert_eq!(cleanup.advance(Outcome::Finished), Stage::Done);
    assert_eq!(cleanup.advance(Outcome::Finished), Stage::Done);
    assert_eq!(cleanup.current(), Stage::Done);
}

#[test]
fn only_the_scheduler_is_tried_again() {
    let mut cleanup = Cleanup::new();
    assert_eq!(cleanup.advance(Outcome::Delivered), Stage::Scheduler);
    assert_eq!(cleanup.advance(Outcome::Finished), Stage::SaveQueue);
    assert_eq!(cleanup.advance(Outcome::Delivered), Stage::Close);
    assert_eq!(cleanup.advance(Outcome::Delivered), Stage::Done);
}

#[test]
fn client_reads_the_answer_to_a_switch() {
    assert_eq!(set_background("/w/a.png".to_string()), Request::SwitchToBackground("/w/a.png".to_string()));
    assert_eq!(switched(&Response::SwitchToBackground(true)), Some(true));
    assert_eq!(switched(&Response::SwitchToBackground(false)), Some(false));
    assert_eq!(switched(&Response::GetQueue(vec![])), None);
}

#[test]
fn client_reads_the_answer_to_a_move() {
    assert_eq!(
        rearrange_background(&Response::RearrangeBackground((true, 3, 1))),
        Some(Ok(RearrangeBackgroundResult { move_index: 3, to_index: 1 }))
    );
    assert_eq!(
        rearrange_background(&Response::RearrangeBackground((false, 0, 0))),
        Some(Err("Failed to rearrange background"))
    );
    assert_eq!(rearrange_background(&Response::SwitchToBackground(true)), None);
}

#[test]
fn a_second_peer_is_served_while_the_first_waits() {
    let mut wq = WallpaperQueue::new(strings(&["/w/a.png", "/w/b.png"]));
    let first = RequestContext::recv(
        "first",
        r#"{"type":"request","switchToBackground":"/w/b.png"}"#.to_string(),
    );
    let mut first = first.expect("a request");
    let pending = first.take_request();

    let second = RequestContext::recv("second", r#"{"type":"request","getQueue":null}"#.to_string());
    let mut second = second.expect("a request");
    let (response, command) = serve(second.take_request(), &mut wq);
    assert_eq!(command, None);
    let (peer, answer) = second.respond(&response);
    assert_eq!(peer, "second");
    assert_eq!(answer, r#"{"getQueue":["/w/a.png","/w/b.png"],"type":"response"}"#);

    let (response, command) = serve(pending, &mut wq);
    assert_eq!(command, Some(Command::Index(1)));
    let (peer, answer) = first.respond(&response);
    assert_eq!(peer, "first");
    assert_eq!(answer, r#"{"switchToBackground":true,"type":"response"}"#);
}

#[test]
fn a_copy_of_a_response_is_the_same_response() {
    for response in [
        Response::SwitchToBackground(true),
        Response::RearrangeBackground((true, 2, 5)),
        Response::GetQueue(strings(&["a", "b"])),
    ] {
        assert_eq!(response.clone(), response);
    }
}
