use swww_itch::message::Position;
use swww_itch::queue::{BackgroundIterable, Queue, SwapQueue};
use swww_itch::scheduler::Command;
use swww_itch::wallpaper_queue::{QueueError, WallpaperQueue};

fn strings(names: &[&str]) -> Vec<String> {
    names.iter().map(|s| s.to_string()).collect()
}

fn playlist(names: &[&str]) -> WallpaperQueue {
    WallpaperQueue::new(strings(names))
}

fn sorted(mut v: Vec<String>) -> Vec<String> {
    v.sort();
    v
}

#[test]
fn rearrange_last_before_second() {
    let mut wq = playlist(&["A", "B", "C", "D"]);
    let r = wq.rearrange_wallpaper("D", &Position::Before, "B");
    assert_eq!(r, Ok((3, 1)));
    assert_eq!(wq.get_queue(), vec!["A", "D", "B", "C"]);
}

#[test]
fn rearrange_first_after_third() {
    let mut wq = playlist(&["A", "B", "C", "D"]);
    let r = wq.rearrange_wallpaper("A", &Position::After, "C");
    assert_eq!(r, Ok((0, 2)));
    assert_eq!(wq.get_queue(), vec!["B", "C", "A", "D"]);
}

#[test]
fn rearrange_before_a_later_target_lands_one_lower() {
    let mut wq = playlist(&["A", "B", "C", "D"]);
    assert_eq!(wq.rearrange_wallpaper("A", &Position::Before, "D"), Ok((0, 2)));
    assert_eq!(wq.get_queue(), vec!["B", "C", "A", "D"]);
}

#[test]
fn rearrange_after_an_earlier_target_lands_one_higher() {
    let mut wq = playlist(&["A", "B", "C", "D"]);
    assert_eq!(wq.rearrange_wallpaper("D", &Position::After, "A"), Ok((3, 1)));
    assert_eq!(wq.get_queue(), vec!["A", "D", "B", "C"]);
}

#[test]
fn rearrange_onto_itself_is_refused() {
    let mut wq = playlist(&["A", "B", "C", "D"]);
    assert_eq!(wq.rearrange_wallpaper("B", &Position::Before, "B"), Err(QueueError::NoOp));
    assert_eq!(wq.rearrange_wallpaper("B", &Position::After, "B"), Err(QueueError::NoOp));
    assert_eq!(wq.get_queue(), vec!["A", "B", "C", "D"]);
    assert_eq!(wq.current_index(), 0);
}

#[test]
fn rearrange_to_where_it_stands_is_refused() {
    let mut wq = playlist(&["A", "B", "C", "D"]);
    assert_eq!(wq.rearrange_wallpaper("B", &Position::Before, "C"), Err(QueueError::NoOp));
    assert_eq!(wq.rearrange_wallpaper("C", &Position::After, "B"), Err(QueueError::NoOp));
    assert_eq!(wq.get_queue(), vec!["A", "B", "C", "D"]);
}

#[test]
fn rearrange_of_a_missing_wallpaper_is_refused() {
    let mut wq = playlist(&["A", "B"]);
    assert_eq!(wq.rearrange_wallpaper("Z", &Position::Before, "A"), Err(QueueError::NotFound));
    assert_eq!(wq.rearrange_wallpaper("A", &Position::Before, "Z"), Err(QueueError::NotFound));
    assert_eq!(wq.rearrange_wallpaper("Z", &Position::After, "Z"), Err(QueueError::NotFound));
    assert_eq!(wq.get_queue(), vec!["A", "B"]);
}

#[test]
fn rearrange_on_an_empty_playlist_is_refused() {
    let mut wq = playlist(&[]);
    assert_eq!(wq.rearrange_wallpaper("A", &Position::Before, "A"), Err(QueueError::NotFound));
    assert!(wq.get_queue().is_empty());
}

#[test]
fn rearrange_names_wallpapers_by_the_end_of_their_paths() {
    let mut wq = playlist(&["/home/u/backgrounds/a.png", "/home/u/backgrounds/b.png", "/srv/c.jpg"]);
    assert_eq!(wq.rearrange_wallpaper("c.jpg", &Position::Before, "a.png"), Ok((2, 0)));
    assert_eq!(
        wq.get_queue(),
        vec!["/srv/c.jpg", "/home/u/backgrounds/a.png", "/home/u/backgrounds/b.png"]
    );
    assert_eq!(wq.rearrange_wallpaper("/home/u", &Position::Before, "b.png"), Err(QueueError::NotFound));
}

#[test]
fn rearrange_takes_the_first_of_several_matches() {
    let mut wq = playlist(&["/x/a.png", "/y/a.png", "/z/b.png"]);
    assert_eq!(wq.rearrange_wallpaper("a.png", &Position::After, "b.png"), Ok((0, 2)));
    assert_eq!(wq.get_queue(), vec!["/y/a.png", "/z/b.png", "/x/a.png"]);
}

#[test]
fn rearrange_keeps_every_path() {
    let names = ["A", "B", "C", "D", "E"];
    for moved in names {
        for target in names {
            for place in [Position::Before, Position::After] {
                let mut wq = playlist(&names);
                let _ = wq.rearrange_wallpaper(moved, &place, target);
                assert_eq!(wq.get_queue().len(), names.len());
                assert_eq!(sorted(wq.get_queue()), strings(&names));
            }
        }
    }
}

#[test]
fn rearrange_keeps_the_position_on_its_path() {
    let names = ["A", "B", "C", "D", "E"];
    for start in 0..names.len() {
        for moved in names {
            for target in names {
                for place in [Position::Before, Position::After] {
                    let mut wq = playlist(&names);
                    wq.set_current_index(start);
                    if wq.rearrange_wallpaper(moved, &place, target).is_ok() {
                        assert_eq!(wq.get_queue()[wq.current_index()], names[start]);
                    } else {
                        assert_eq!(wq.current_index(), start);
                    }
                }
            }
        }
    }
}

#[test]
fn rearrange_moves_the_position_with_the_wallpaper_on_show() {
    let mut wq = playlist(&["A", "B", "C", "D"]);
    wq.set_current_index(3);
    assert_eq!(wq.rearrange_wallpaper("D", &Position::Before, "B"), Ok((3, 1)));
    assert_eq!(wq.current_index(), 1);
    assert_eq!(wq.rearrange_wallpaper("A", &Position::After, "C"), Ok((0, 3)));
    assert_eq!(wq.get_queue(), vec!["D", "B", "C", "A"]);
    assert_eq!(wq.current_index(), 0);
}

#[test]
fn rearrange_with_a_position_out_of_range_follows_the_last_path() {
    let mut wq = playlist(&["A", "B", "C"]);
    wq.set_current_index(17);
    assert_eq!(wq.rearrange_wallpaper("C", &Position::Before, "A"), Ok((2, 0)));
    assert_eq!(wq.get_queue(), vec!["C", "A", "B"]);
    assert_eq!(wq.current_index(), 0);
}

#[test]
fn switch_finds_the_whole_path_only() {
    let wq = playlist(&["/x/a.png", "/x/b.png", "/x/a.png"]);
    assert_eq!(wq.switch_to_wallpaper("/x/b.png"), Ok(Command::Index(1)));
    assert_eq!(wq.switch_to_wallpaper("/x/a.png"), Ok(Command::Index(0)));
    assert_eq!(wq.switch_to_wallpaper("b.png"), Err(QueueError::NotFound));
    assert_eq!(wq.index_of("/x/b.png"), Some(1));
    assert_eq!(wq.index_of("nothing"), None);
}

#[test]
fn new_engine_starts_at_the_first_path() {
    let wq = playlist(&["A", "B"]);
    assert_eq!(wq.current_index(), 0);
    assert_eq!(wq.len(), 2);
    assert_eq!(wq.get_queue(), vec!["A", "B"]);
    assert_eq!(wq.get_by_index(1), Some(&"B".to_string()));
    assert_eq!(wq.get_by_index(2), None);
}

#[test]
fn queue_finds_removes_and_inserts() {
    let mut q = Queue::new(Some(strings(&["/w/a.png", "/w/b.png", "/w/c.png"])));
    assert_eq!(q.get_index_of_bg("b.png"), Some(1));
    assert_eq!(q.get_index_of_bg(".png"), Some(0));
    assert_eq!(q.get_index_of_bg("d.png"), None);
    assert_eq!(q.get_bg("c.png"), Some(&"/w/c.png".to_string()));
    assert_eq!(q.get_bg("zzz"), None);
    assert_eq!(q.get_by_index(0), Some(&"/w/a.png".to_string()));
    assert_eq!(q.get_by_index(3), None);
    let taken = q.remove(0);
    assert_eq!(taken, "/w/a.png");
    assert_eq!(q.to_vec(), vec!["/w/b.png", "/w/c.png"]);
    q.insert(2, taken);
    assert_eq!(q.as_vec(), &strings(&["/w/b.png", "/w/c.png", "/w/a.png"]));
    assert_eq!(q.len(), 3);
    assert_eq!(q.name(), &None);
}

#[test]
fn queue_without_paths_is_empty() {
    let q = Queue::new(None);
    assert!(q.as_vec().is_empty());
    assert_eq!(q.name(), &None);
}

#[test]
fn swap_with_hands_back_what_was_live() {
    let mut live = Queue::with_name(Some("NIGHT".to_string()), strings(&["n1", "n2"]));
    let day = SwapQueue::new(Some("DAY".to_string()), strings(&["d1"]));
    let prev = live.swap_with(&day);
    assert_eq!(prev.name(), &Some("NIGHT".to_string()));
    assert_eq!(prev.as_vec(), &strings(&["n1", "n2"]));
    assert_eq!(live.name(), &Some("DAY".to_string()));
    assert_eq!(live.as_vec(), &strings(&["d1"]));
    assert_eq!(day.as_vec(), &strings(&["d1"]));
}

#[test]
fn save_state_puts_a_playlist_back_into_its_variant() {
    let mut slots = (
        SwapQueue::new(Some("DAY".to_string()), strings(&["d"])),
        SwapQueue::new(Some("NIGHT".to_string()), strings(&["n"])),
    );
    let edited = SwapQueue::new(Some("DAY".to_string()), strings(&["d", "extra"]));
    assert_eq!(edited.save_state(&mut slots), Some((true, strings(&["d", "extra"]))));
    assert_eq!(slots.0.as_vec(), &strings(&["d", "extra"]));
    assert_eq!(slots.1.as_vec(), &strings(&["n"]));
    let night = SwapQueue::new(Some("NIGHT".to_string()), strings(&[]));
    assert_eq!(night.save_state(&mut slots), Some((false, strings(&[]))));
    assert!(slots.1.as_vec().is_empty());
    assert_eq!(slots.1.name(), &Some("NIGHT".to_string()));
    let unnamed = SwapQueue::new(None, strings(&["x"]));
    assert_eq!(unnamed.save_state(&mut slots), None);
    assert_eq!(slots.0.as_vec(), &strings(&["d", "extra"]));
}
